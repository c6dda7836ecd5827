use renderer::program::{exit_code, Outcome};
use renderer::render::{Fault, Phase};

#[test]
fn closing_the_window_exits_with_zero() {
    assert_eq!(exit_code(Outcome::Closed), 0);
}

#[test]
fn a_failure_exits_with_one() {
    assert_eq!(exit_code(Outcome::Failed), 1);
}

#[test]
fn an_unreadable_document_exits_with_zero() {
    assert_eq!(exit_code(Outcome::DocumentUnreadable), 0);
}

#[test]
fn an_ended_loop_has_an_outcome() {
    assert_eq!(Outcome::of(Phase::Closed), Some(Outcome::Closed));
    for fault in [Fault::Acquire, Fault::CommandBuffer, Fault::Uniform, Fault::Submit, Fault::Present] {
        assert_eq!(Outcome::of(Phase::Failed(fault)), Some(Outcome::Failed));
    }
}

#[test]
fn a_running_loop_has_no_outcome() {
    let running = [
        Phase::Idle,
        Phase::Acquiring,
        Phase::Recording(0),
        Phase::Submitting(1),
        Phase::Presenting(2),
        Phase::Polling,
    ];
    for phase in running {
        assert_eq!(Outcome::of(phase), None);
    }
}
