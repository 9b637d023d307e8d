//! The status-indication task's light sequence: a three-lamp semaphore.
//!
//! Red, then yellow, then five yellow flashes, then green, then everything
//! off and around again.  Each phase fixes the three lamp levels and how
//! long they are held; the owning task writes the levels and sleeps the
//! hold.
use vstd::prelude::*;

verus! {

/// The lamp levels commanded by one phase: red, yellow, green.
#[derive(Debug, Clone, Copy, PartialEq, Eq, Structural)]
pub struct LampLevels {
    pub red: bool,
    pub yellow: bool,
    pub green: bool,
}

/// Where the semaphore stands in its cycle.  The flash phases carry which
/// of the five flashes is running.
#[derive(Debug, Clone, Copy, PartialEq, Eq, Structural)]
pub enum SemaforPhase {
    Red,
    Yellow,
    FlashOn { flash: u8 },
    FlashOff { flash: u8 },
    Green,
    AllOff,
}

impl SemaforPhase {
    /// The lamp levels this phase commands.
    pub fn lamps(&self) -> (levels: LampLevels)
        ensures
            levels == (match *self {
                SemaforPhase::Red => LampLevels { red: true, yellow: false, green: false },
                SemaforPhase::Yellow => LampLevels { red: false, yellow: true, green: false },
                SemaforPhase::FlashOn { .. } => LampLevels {
                    red: false,
                    yellow: true,
                    green: false,
                },
                SemaforPhase::FlashOff { .. } => LampLevels {
                    red: false,
                    yellow: false,
                    green: false,
                },
                SemaforPhase::Green => LampLevels { red: false, yellow: false, green: true },
                SemaforPhase::AllOff => LampLevels { red: false, yellow: false, green: false },
            }),
    {
        match *self {
            SemaforPhase::Red => LampLevels { red: true, yellow: false, green: false },
            SemaforPhase::Yellow => LampLevels { red: false, yellow: true, green: false },
            SemaforPhase::FlashOn { .. } => LampLevels { red: false, yellow: true, green: false },
            SemaforPhase::FlashOff { .. } => LampLevels {
                red: false,
                yellow: false,
                green: false,
            },
            SemaforPhase::Green => LampLevels { red: false, yellow: false, green: true },
            SemaforPhase::AllOff => LampLevels { red: false, yellow: false, green: false },
        }
    }

    /// How long the phase is held, in milliseconds: five seconds of red,
    /// three of yellow, an eighth of a second per flash half, five seconds
    /// of green, and no hold on the all-off step.
    pub fn hold_millis(&self) -> (ms: u64)
        ensures
            ms == (match *self {
                SemaforPhase::Red => 5000int,
                SemaforPhase::Yellow => 3000int,
                SemaforPhase::FlashOn { .. } => 125int,
                SemaforPhase::FlashOff { .. } => 125int,
                SemaforPhase::Green => 5000int,
                SemaforPhase::AllOff => 0int,
            }),
    {
        match *self {
            SemaforPhase::Red => 5000,
            SemaforPhase::Yellow => 3000,
            SemaforPhase::FlashOn { .. } => 125,
            SemaforPhase::FlashOff { .. } => 125,
            SemaforPhase::Green => 5000,
            SemaforPhase::AllOff => 0,
        }
    }

    /// The phase after this one: red to yellow, ten flash halves, green,
    /// all off, and back to red.
    pub fn next(&self) -> (p: SemaforPhase)
        ensures
            p == (match *self {
                SemaforPhase::Red => SemaforPhase::Yellow,
                SemaforPhase::Yellow => SemaforPhase::FlashOn { flash: 0 },
                SemaforPhase::FlashOn { flash } => SemaforPhase::FlashOff { flash },
                SemaforPhase::FlashOff { flash } => if flash < 4 {
                    SemaforPhase::FlashOn { flash: (flash + 1) as u8 }
                } else {
                    SemaforPhase::Green
                },
                SemaforPhase::Green => SemaforPhase::AllOff,
                SemaforPhase::AllOff => SemaforPhase::Red,
            }),
    {
        match *self {
            SemaforPhase::Red => SemaforPhase::Yellow,
            SemaforPhase::Yellow => SemaforPhase::FlashOn { flash: 0 },
            SemaforPhase::FlashOn { flash } => SemaforPhase::FlashOff { flash },
            SemaforPhase::FlashOff { flash } => {
                if flash < 4 {
                    SemaforPhase::FlashOn { flash: flash + 1 }
                } else {
                    SemaforPhase::Green
                }
            },
            SemaforPhase::Green => SemaforPhase::AllOff,
            SemaforPhase::AllOff => SemaforPhase::Red,
        }
    }
}

} // verus!
