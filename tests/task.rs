use subtle_crypto::fontfaceset::FontFaceSet;
use subtle_crypto::task::{step, Phase, TaskAction, TaskEvent};

#[test]
fn a_scheduled_operation_runs_and_delivers_once() {
    let (phase, action) = step(Phase::Scheduled, TaskEvent::Run);
    assert_eq!((phase, action), (Phase::Settled, TaskAction::Deliver));
    let (phase, action) = step(phase, TaskEvent::Run);
    assert_eq!((phase, action), (Phase::Settled, TaskAction::Nothing));
    let (phase, action) = step(phase, TaskEvent::Cancel);
    assert_eq!((phase, action), (Phase::Settled, TaskAction::Nothing));
}

#[test]
fn a_cancelled_operation_never_delivers() {
    let (phase, action) = step(Phase::Scheduled, TaskEvent::Cancel);
    assert_eq!((phase, action), (Phase::Cancelled, TaskAction::Nothing));
    let (phase, action) = step(phase, TaskEvent::Run);
    assert_eq!((phase, action), (Phase::Cancelled, TaskAction::Nothing));
}

#[test]
fn ready_promise_is_fulfilled_once() {
    let mut set = FontFaceSet::new_inherited();
    assert!(!set.is_ready_fulfilled());
    assert!(set.fulfill_ready_promise_if_needed());
    assert!(set.is_ready_fulfilled());
    assert!(!set.fulfill_ready_promise_if_needed());
    assert!(set.is_ready_fulfilled());
}
