use lumatone::driver::{notice_for, Action, DriverCore, Effect, Notice, State, Step};
use lumatone::error::LumatoneMidiError;

fn m(b: u8) -> Vec<u8> {
    vec![0xf0, 0x00, 0x21, 0x50, 0, 0x33, b, 0xf7]
}

#[test]
fn submit_then_sent_from_idle() {
    let mut s = State::Idle.next(Action::SubmitCommand(m(1)));
    assert_eq!(s, State::ProcessingQueue { send_queue: vec![m(1)] });
    assert_eq!(s.enter(), Some(Effect::SendMidiMessage(m(1))));
    let mut s = s.next(Action::MessageSent(m(1)));
    assert_eq!(s, State::AwaitingResponse { send_queue: vec![], command_sent: m(1) });
    assert_eq!(s.enter(), Some(Effect::StartReceiveTimeout));
}

#[test]
fn submissions_keep_arrival_order() {
    let s = State::AwaitingResponse { send_queue: vec![], command_sent: m(0) };
    let s = s.next(Action::SubmitCommand(m(1))).next(Action::SubmitCommand(m(2)));
    assert_eq!(s, State::AwaitingResponse { send_queue: vec![m(1), m(2)], command_sent: m(0) });
    let s = State::DeviceBusy { send_queue: vec![m(1)], to_retry: m(0) };
    let mut s = s.next(Action::SubmitCommand(m(2)));
    assert_eq!(s, State::DeviceBusy { send_queue: vec![m(1), m(2)], to_retry: m(0) });
    assert_eq!(s.enter(), Some(Effect::StartRetryTimeout));
}

#[test]
fn retry_goes_before_queue() {
    let s = State::DeviceBusy { send_queue: vec![m(2)], to_retry: m(1) };
    let mut s = s.next(Action::ReadyToRetry);
    assert_eq!(s, State::ProcessingQueue { send_queue: vec![m(1), m(2)] });
    assert_eq!(s.enter(), Some(Effect::SendMidiMessage(m(1))));
}

#[test]
fn answer_or_timeout_moves_on() {
    let s = State::AwaitingResponse { send_queue: vec![m(2)], command_sent: m(1) };
    assert_eq!(s.clone().next(Action::MessageReceived(m(9))), State::ProcessingQueue { send_queue: vec![m(2)] });
    assert_eq!(s.next(Action::ResponseTimedOut), State::ProcessingQueue { send_queue: vec![m(2)] });
    let s = State::AwaitingResponse { send_queue: vec![], command_sent: m(1) };
    assert_eq!(s.clone().next(Action::MessageReceived(m(9))), State::Idle);
    assert_eq!(s.next(Action::ResponseTimedOut), State::Idle);
}

#[test]
fn stray_actions_leave_state_unchanged() {
    assert_eq!(State::Idle.next(Action::ReadyToRetry), State::Idle);
    assert_eq!(State::Idle.next(Action::ResponseTimedOut), State::Idle);
    assert_eq!(State::Idle.next(Action::MessageReceived(m(1))), State::Idle);
    let pq = State::ProcessingQueue { send_queue: vec![m(1)] };
    assert_eq!(pq.clone().next(Action::ReadyToRetry), pq);
    let busy = State::DeviceBusy { send_queue: vec![], to_retry: m(1) };
    assert_eq!(busy.clone().next(Action::ResponseTimedOut), busy);
    assert_eq!(busy.clone().next(Action::MessageReceived(m(3))), busy);
    assert_eq!(
        notice_for(&State::Idle, &Action::ReadyToRetry),
        Some(Notice::UnexpectedRetry)
    );
    assert_eq!(
        notice_for(&State::Idle, &Action::MessageReceived(m(4))),
        Some(Notice::UnexpectedMessage(m(4)))
    );
    let waiting = State::AwaitingResponse { send_queue: vec![], command_sent: m(5) };
    assert_eq!(
        notice_for(&waiting, &Action::ResponseTimedOut),
        Some(Notice::ResponseTimedOut(m(5)))
    );
    assert_eq!(notice_for(&waiting, &Action::MessageReceived(m(6))), None);
}

#[test]
fn unmatched_pairs_fail() {
    let pq = State::ProcessingQueue { send_queue: vec![m(1)] };
    let mut f = pq.next(Action::SubmitCommand(m(2)));
    assert_eq!(f, State::Failed(LumatoneMidiError::InvalidStateTransition));
    assert_eq!(f.enter(), None);
    assert!(f.is_failed());
    assert_eq!(
        State::Idle.next(Action::MessageSent(m(1))),
        State::Failed(LumatoneMidiError::InvalidStateTransition)
    );
    let mut idle = State::Idle;
    assert_eq!(idle.enter(), None);
}

#[test]
fn driver_core_round() {
    let mut core = DriverCore::new();
    assert_eq!(core.state(), &State::Idle);
    let (step, notice) = core.handle(Action::SubmitCommand(m(1)));
    assert_eq!(step, Step::Send(m(1)));
    assert_eq!(notice, None);
    assert_eq!(core.handle_send_outcome(m(1), true), Step::StartReceiveTimer);
    assert_eq!(core.state(), &State::AwaitingResponse { send_queue: vec![], command_sent: m(1) });
    let (step, _) = core.handle(Action::SubmitCommand(m(2)));
    assert_eq!(step, Step::StartReceiveTimer);
    let (step, notice) = core.handle(Action::ResponseTimedOut);
    assert_eq!(step, Step::Send(m(2)));
    assert_eq!(notice, Some(Notice::ResponseTimedOut(m(1))));
    assert_eq!(core.handle_send_outcome(m(2), false), Step::Halt);
    assert_eq!(core.state(), &State::ProcessingQueue { send_queue: vec![m(2)] });
}

#[test]
fn driver_core_halts_on_failure() {
    let mut core = DriverCore::new();
    let (step, _) = core.handle(Action::MessageSent(m(1)));
    assert_eq!(step, Step::Halt);
    assert!(core.state().is_failed());
    let mut core = DriverCore::new();
    let (step, notice) = core.handle(Action::ReadyToRetry);
    assert_eq!(step, Step::Wait);
    assert_eq!(notice, Some(Notice::UnexpectedRetry));
}
