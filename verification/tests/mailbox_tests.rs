use clumsy_bot::mailbox::Mailbox;
use clumsy_bot::ranging::RangingFault;
use clumsy_bot::ranging::echo_micros_to_mm;
use clumsy_bot::ranging::ranging_step;
use clumsy_bot::ranging::within_threshold;

#[test]
fn empty_mailbox_yields_nothing() {
    let mut m = Mailbox::new();
    assert_eq!(m.try_take(), None);
    assert_eq!(m.try_take(), None);
}

#[test]
fn publish_then_take_round_trip() {
    let mut m = Mailbox::new();
    assert!(m.try_publish(57));
    assert_eq!(m.try_take(), Some(57));
    assert_eq!(m.try_take(), None);
}

#[test]
fn backpressure_refuses_overwrite_until_taken() {
    let mut m = Mailbox::new();
    assert!(m.try_publish(57));
    // a second publish while the value sits unconsumed is refused,
    // however often it is retried; the held value survives
    assert!(!m.try_publish(99));
    assert!(!m.try_publish(99));
    assert_eq!(m.try_take(), Some(57));
    // only after the take does the retried publish land
    assert!(m.try_publish(99));
    assert_eq!(m.try_take(), Some(99));
}

#[test]
fn ranging_step_publishes_success() {
    let mut m = Mailbox::new();
    assert!(ranging_step(&mut m, Ok(120)));
    assert_eq!(m.try_take(), Some(120));
}

#[test]
fn ranging_step_discards_faults() {
    let mut m = Mailbox::new();
    assert!(!ranging_step(&mut m, Err(RangingFault::Timeout)));
    assert_eq!(m.try_take(), None);
    assert!(ranging_step(&mut m, Ok(80)));
    assert!(!ranging_step(&mut m, Err(RangingFault::NoEcho)));
    // the fault did not disturb the value in flight
    assert_eq!(m.try_take(), Some(80));
}

#[test]
fn ranging_step_holds_success_back_while_full() {
    let mut m = Mailbox::new();
    assert!(ranging_step(&mut m, Ok(80)));
    assert!(!ranging_step(&mut m, Ok(90)));
    assert_eq!(m.try_take(), Some(80));
}

#[test]
fn proximity_test_is_inclusive() {
    assert!(within_threshold(180, 180));
    assert!(within_threshold(0, 180));
    assert!(!within_threshold(181, 180));
}

#[test]
fn echo_width_converts_with_fixed_offset() {
    assert_eq!(echo_micros_to_mm(0), 4);
    assert_eq!(echo_micros_to_mm(116), 120);
}
