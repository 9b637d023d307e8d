//! The ranging task's per-attempt decision and small distance helpers.
//!
//! The hardware collaborator triggers the ultrasonic sensor and either
//! returns a distance or reports a fault.  The decision here is fixed:
//! publish every successful measurement into the mailbox, discard every
//! fault without crashing or retrying early — the next scheduled attempt is
//! the retry.  The fixed inter-measurement sleep belongs to the task loop
//! outside this crate.
use crate::mailbox::Mailbox;
use crate::mailbox::publish_transition;
use vstd::prelude::*;

verus! {

/// Why a ranging attempt failed.  Faults are recovered locally by
/// discarding the attempt; they never propagate.
#[derive(Debug, Clone, Copy, PartialEq, Eq, Structural)]
pub enum RangingFault {
    /// No echo edge arrived within the sensor's bounded wait.
    NoEcho,
    /// The measurement did not complete in time.
    Timeout,
}

/// One ranging attempt's outcome fed through the publish decision.
///
/// A successful measurement is offered to the mailbox: it lands when the
/// slot is free and is held back (the producer suspends and retries) when a
/// prior value is still unconsumed.  A fault changes nothing and is
/// reported as not published.
pub fn ranging_step(m: &mut Mailbox, attempt: Result<u64, RangingFault>) -> (published: bool)
    ensures
        attempt matches Ok(d) ==> (final(m).contents(), published) == publish_transition(
            old(m).contents(),
            d,
        ),
        attempt is Err ==> !published && final(m).contents() == old(m).contents(),
{
    match attempt {
        Result::Ok(distance_mm) => m.try_publish(distance_mm),
        Result::Err(_) => false,
    }
}

/// Whether a measured distance is at or inside a limit: the consumer-side
/// proximity test.
pub fn within_threshold(distance_mm: u64, limit_mm: u64) -> (near: bool)
    ensures
        near == (distance_mm <= limit_mm),
{
    distance_mm <= limit_mm
}

/// The distance read from an ultrasonic echo pulse of the given width: one
/// millimeter per microsecond, plus the device's fixed offset of four.
pub fn echo_micros_to_mm(echo_micros: u64) -> (distance_mm: u64)
    requires
        echo_micros + 4 <= u64::MAX,
    ensures
        distance_mm == echo_micros + 4,
{
    echo_micros + 4
}

} // verus!
