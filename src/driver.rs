//! The command-dispatch state machine, and the decisions of the loop that
//! drives it.
//!
//! The machine is pure: it maps a state and an action to the next state, and a
//! state to the effect that entering it asks for. All waiting, timing and I/O
//! belong to whoever runs the loop; `DriverCore` tells it what to do next.
use vstd::prelude::*;
use crate::error::LumatoneMidiError;
use crate::sysex::EncodedSysex;

verus! {

/// Seconds to wait for the device's answer to a sent frame.
pub const RECEIVE_TIMEOUT_SECS: u64 = 30;

/// Seconds to wait before a frame that the device was too busy for is sent again.
pub const RETRY_TIMEOUT_SECS: u64 = 3;

/// State of the protocol driver. Queues hold frames in the order they were
/// submitted.
#[derive(Debug, Clone, PartialEq, Eq)]
pub enum State {
    /// Nothing to do.
    Idle,
    /// Frames wait to be sent; the first has not been sent yet.
    ProcessingQueue { send_queue: Vec<EncodedSysex> },
    /// `command_sent` is on its way; the device's answer is awaited.
    AwaitingResponse { send_queue: Vec<EncodedSysex>, command_sent: EncodedSysex },
    /// The device was busy; `to_retry` must be sent again after a delay.
    DeviceBusy { send_queue: Vec<EncodedSysex>, to_retry: EncodedSysex },
    /// The machine was handed an action its state cannot take. Terminal.
    Failed(LumatoneMidiError),
}

/// An input of the state machine.
#[derive(Debug, Clone, PartialEq, Eq)]
pub enum Action {
    SubmitCommand(EncodedSysex),
    MessageSent(EncodedSysex),
    MessageReceived(EncodedSysex),
    ResponseTimedOut,
    ReadyToRetry,
}

/// A request from the state machine to act on the outside world.
#[derive(Debug, Clone, PartialEq, Eq)]
pub enum Effect {
    SendMidiMessage(EncodedSysex),
    StartReceiveTimeout,
    StartRetryTimeout,
}

/// A state, with frames seen as byte sequences.
pub ghost enum StateView {
    Idle,
    ProcessingQueue { queue: Seq<Seq<u8>> },
    AwaitingResponse { queue: Seq<Seq<u8>>, sent: Seq<u8> },
    DeviceBusy { queue: Seq<Seq<u8>>, to_retry: Seq<u8> },
    Failed(LumatoneMidiError),
}

/// An action, with frames seen as byte sequences.
pub ghost enum ActionView {
    SubmitCommand(Seq<u8>),
    MessageSent(Seq<u8>),
    MessageReceived(Seq<u8>),
    ResponseTimedOut,
    ReadyToRetry,
}

/// An effect, with frames seen as byte sequences.
pub ghost enum EffectView {
    SendMidiMessage(Seq<u8>),
    StartReceiveTimeout,
    StartRetryTimeout,
}

impl View for State {
    type V = StateView;

    open spec fn view(&self) -> StateView {
        match self {
            State::Idle => StateView::Idle,
            State::ProcessingQueue { send_queue } => StateView::ProcessingQueue {
                queue: frames_view(send_queue@),
            },
            State::AwaitingResponse { send_queue, command_sent } => StateView::AwaitingResponse {
                queue: frames_view(send_queue@),
                sent: command_sent@,
            },
            State::DeviceBusy { send_queue, to_retry } => StateView::DeviceBusy {
                queue: frames_view(send_queue@),
                to_retry: to_retry@,
            },
            State::Failed(e) => StateView::Failed(*e),
        }
    }
}

impl View for Action {
    type V = ActionView;

    open spec fn view(&self) -> ActionView {
        match self {
            Action::SubmitCommand(m) => ActionView::SubmitCommand(m@),
            Action::MessageSent(m) => ActionView::MessageSent(m@),
            Action::MessageReceived(m) => ActionView::MessageReceived(m@),
            Action::ResponseTimedOut => ActionView::ResponseTimedOut,
            Action::ReadyToRetry => ActionView::ReadyToRetry,
        }
    }
}

impl View for Effect {
    type V = EffectView;

    open spec fn view(&self) -> EffectView {
        match self {
            Effect::SendMidiMessage(m) => EffectView::SendMidiMessage(m@),
            Effect::StartReceiveTimeout => EffectView::StartReceiveTimeout,
            Effect::StartRetryTimeout => EffectView::StartRetryTimeout,
        }
    }
}

/// A queue of frames, each seen as its bytes.
pub open spec fn frames_view(q: Seq<EncodedSysex>) -> Seq<Seq<u8>> {
    q.map_values(|f: EncodedSysex| f@)
}

/// A state is well formed when a queue that waits to be processed is not empty.
pub open spec fn state_wf(s: StateView) -> bool {
    match s {
        StateView::ProcessingQueue { queue } => queue.len() > 0,
        _ => true,
    }
}

/// Where the machine goes once the awaited answer came, or did not: to the
/// rest of the queue, or to rest.
pub open spec fn after_response(queue: Seq<Seq<u8>>) -> StateView {
    if queue.len() == 0 {
        StateView::Idle
    } else {
        StateView::ProcessingQueue { queue }
    }
}

/// The transition table.
///
/// A received frame, a timeout or a retry signal that the state does not wait
/// for leaves the state as it is. A command submitted while a queue waits to
/// be processed, or a sent frame reported outside that state, fails the machine.
pub open spec fn next_state(s: StateView, a: ActionView) -> StateView {
    match a {
        ActionView::SubmitCommand(m) => match s {
            StateView::Idle => StateView::ProcessingQueue { queue: seq![m] },
            StateView::AwaitingResponse { queue, sent } => StateView::AwaitingResponse {
                queue: queue.push(m),
                sent,
            },
            StateView::DeviceBusy { queue, to_retry } => StateView::DeviceBusy {
                queue: queue.push(m),
                to_retry,
            },
            _ => StateView::Failed(LumatoneMidiError::InvalidStateTransition),
        },
        ActionView::MessageSent(m) => match s {
            StateView::ProcessingQueue { queue } => StateView::AwaitingResponse {
                queue: queue.drop_first(),
                sent: m,
            },
            _ => StateView::Failed(LumatoneMidiError::InvalidStateTransition),
        },
        ActionView::MessageReceived(_) => match s {
            StateView::AwaitingResponse { queue, sent: _ } => after_response(queue),
            _ => s,
        },
        ActionView::ResponseTimedOut => match s {
            StateView::AwaitingResponse { queue, sent: _ } => after_response(queue),
            _ => s,
        },
        ActionView::ReadyToRetry => match s {
            StateView::DeviceBusy { queue, to_retry } => StateView::ProcessingQueue {
                queue: seq![to_retry] + queue,
            },
            _ => s,
        },
    }
}

/// The effect that entering a state asks for.
pub open spec fn entry_effect(s: StateView) -> Option<EffectView> {
    match s {
        StateView::Idle => None,
        StateView::ProcessingQueue { queue } => Some(EffectView::SendMidiMessage(queue[0])),
        StateView::AwaitingResponse { .. } => Some(EffectView::StartReceiveTimeout),
        StateView::DeviceBusy { .. } => Some(EffectView::StartRetryTimeout),
        StateView::Failed(_) => None,
    }
}

/// Copies a frame.
fn copy_frame(f: &EncodedSysex) -> (r: EncodedSysex)
    ensures
        r@ == f@,
{
    vstd::slice::slice_to_vec(f.as_slice())
}

impl State {
    /// The state that `action` leads to.
    pub fn next(self, action: Action) -> (r: State)
        requires
            state_wf(self@),
        ensures
            r@ == next_state(self@, action@),
    {
        match action {
            Action::SubmitCommand(msg) => match self {
                State::Idle => {
                    let q = vec![msg];
                    assert(frames_view(q@) =~= seq![msg@]);
                    State::ProcessingQueue { send_queue: q }
                },
                State::AwaitingResponse { send_queue, command_sent } => {
                    let mut q = send_queue;
                    q.push(msg);
                    assert(frames_view(q@) =~= frames_view(send_queue@).push(msg@));
                    State::AwaitingResponse { send_queue: q, command_sent }
                },
                State::DeviceBusy { send_queue, to_retry } => {
                    let mut q = send_queue;
                    q.push(msg);
                    assert(frames_view(q@) =~= frames_view(send_queue@).push(msg@));
                    State::DeviceBusy { send_queue: q, to_retry }
                },
                _ => State::Failed(LumatoneMidiError::InvalidStateTransition),
            },
            Action::MessageSent(msg) => match self {
                State::ProcessingQueue { send_queue } => {
                    let mut q = send_queue;
                    q.remove(0);
                    assert(frames_view(q@) =~= frames_view(send_queue@).drop_first());
                    State::AwaitingResponse { send_queue: q, command_sent: msg }
                },
                _ => State::Failed(LumatoneMidiError::InvalidStateTransition),
            },
            Action::MessageReceived(_) => match self {
                State::AwaitingResponse { send_queue, command_sent: _ } => {
                    if send_queue.is_empty() {
                        State::Idle
                    } else {
                        State::ProcessingQueue { send_queue }
                    }
                },
                state => state,
            },
            Action::ResponseTimedOut => match self {
                State::AwaitingResponse { send_queue, command_sent: _ } => {
                    if send_queue.is_empty() {
                        State::Idle
                    } else {
                        State::ProcessingQueue { send_queue }
                    }
                },
                state => state,
            },
            Action::ReadyToRetry => match self {
                State::DeviceBusy { send_queue, to_retry } => {
                    let mut q = vec![to_retry];
                    let mut rest = send_queue;
                    q.append(&mut rest);
                    assert(frames_view(q@) =~= seq![to_retry@] + frames_view(send_queue@));
                    State::ProcessingQueue { send_queue: q }
                },
                state => state,
            },
        }
    }

    /// The effect that entering this state asks for, if any.
    pub fn enter(&mut self) -> (r: Option<Effect>)
        requires
            state_wf(old(self)@),
        ensures
            *final(self) == *old(self),
            r matches Some(e) ==> entry_effect(old(self)@) == Some(e@),
            r is None ==> entry_effect(old(self)@) is None,
    {
        match &*self {
            State::Idle => None,
            State::ProcessingQueue { send_queue } => {
                let msg = copy_frame(&send_queue[0]);
                Some(Effect::SendMidiMessage(msg))
            },
            State::DeviceBusy { .. } => Some(Effect::StartRetryTimeout),
            State::AwaitingResponse { .. } => Some(Effect::StartReceiveTimeout),
            State::Failed(_) => None,
        }
    }
}

/// Every transition keeps a state well formed.
pub proof fn lemma_next_keeps_wf(s: StateView, a: ActionView)
    requires
        state_wf(s),
    ensures
        state_wf(next_state(s, a)),
{
}

/// From rest, a submitted frame is sent first; once it is reported sent, the
/// machine waits for the answer with an empty queue, and entering that state
/// starts the receive timeout.
pub proof fn lemma_submit_then_send(m: Seq<u8>)
    ensures
        next_state(StateView::Idle, ActionView::SubmitCommand(m)) == (StateView::ProcessingQueue {
            queue: seq![m],
        }),
        entry_effect(next_state(StateView::Idle, ActionView::SubmitCommand(m))) == Some(
            EffectView::SendMidiMessage(m),
        ),
        next_state(
            next_state(StateView::Idle, ActionView::SubmitCommand(m)),
            ActionView::MessageSent(m),
        ) == (StateView::AwaitingResponse { queue: Seq::<Seq<u8>>::empty(), sent: m }),
        entry_effect(
            next_state(
                next_state(StateView::Idle, ActionView::SubmitCommand(m)),
                ActionView::MessageSent(m),
            ),
        ) == Some(EffectView::StartReceiveTimeout),
{
    assert(seq![m].drop_first() =~= Seq::<Seq<u8>>::empty());
}

/// Frames submitted while an answer is awaited join the queue in the order in
/// which they arrive.
pub proof fn lemma_queue_keeps_order(queue: Seq<Seq<u8>>, sent: Seq<u8>, m1: Seq<u8>, m2: Seq<u8>)
    ensures
        next_state(
            next_state(
                StateView::AwaitingResponse { queue, sent },
                ActionView::SubmitCommand(m1),
            ),
            ActionView::SubmitCommand(m2),
        ) == (StateView::AwaitingResponse { queue: queue + seq![m1, m2], sent }),
{
    assert(queue.push(m1).push(m2) =~= queue + seq![m1, m2]);
}

/// Once the retry delay is over, the frame to retry goes out before the rest of
/// the queue.
pub proof fn lemma_retry_goes_first(queue: Seq<Seq<u8>>, to_retry: Seq<u8>)
    ensures
        next_state(StateView::DeviceBusy { queue, to_retry }, ActionView::ReadyToRetry) == (
        StateView::ProcessingQueue { queue: seq![to_retry] + queue }),
        entry_effect(next_state(StateView::DeviceBusy { queue, to_retry }, ActionView::ReadyToRetry))
            == Some(EffectView::SendMidiMessage(to_retry)),
{
}

/// A received frame, a timeout or a retry signal that the state does not wait
/// for leaves the state unchanged, and so never fails the machine.
pub proof fn lemma_stray_action_keeps_state(s: StateView, a: ActionView)
    requires
        match a {
            ActionView::MessageReceived(_) => !(s is AwaitingResponse),
            ActionView::ResponseTimedOut => !(s is AwaitingResponse),
            ActionView::ReadyToRetry => !(s is DeviceBusy),
            _ => false,
        },
    ensures
        next_state(s, a) == s,
        !(s is Failed) ==> !(next_state(s, a) is Failed),
{
}

/// What the machine has to report about a transition, besides the new state.
#[derive(Debug, Clone, PartialEq, Eq)]
pub enum Notice {
    /// A frame came in while no answer was awaited.
    UnexpectedMessage(EncodedSysex),
    /// No answer came in time for the frame that was sent.
    ResponseTimedOut(EncodedSysex),
    /// A receive timeout fired while no answer was awaited.
    UnexpectedTimeout,
    /// A retry signal came while the device was not busy.
    UnexpectedRetry,
}

/// A notice, with frames seen as byte sequences.
pub ghost enum NoticeView {
    UnexpectedMessage(Seq<u8>),
    ResponseTimedOut(Seq<u8>),
    UnexpectedTimeout,
    UnexpectedRetry,
}

impl View for Notice {
    type V = NoticeView;

    open spec fn view(&self) -> NoticeView {
        match self {
            Notice::UnexpectedMessage(m) => NoticeView::UnexpectedMessage(m@),
            Notice::ResponseTimedOut(m) => NoticeView::ResponseTimedOut(m@),
            Notice::UnexpectedTimeout => NoticeView::UnexpectedTimeout,
            Notice::UnexpectedRetry => NoticeView::UnexpectedRetry,
        }
    }
}

/// The notice that handing `a` to a machine in state `s` calls for.
pub open spec fn transition_notice(s: StateView, a: ActionView) -> Option<NoticeView> {
    match a {
        ActionView::MessageReceived(m) => match s {
            StateView::AwaitingResponse { .. } => None,
            _ => Some(NoticeView::UnexpectedMessage(m)),
        },
        ActionView::ResponseTimedOut => match s {
            StateView::AwaitingResponse { queue: _, sent } => Some(
                NoticeView::ResponseTimedOut(sent),
            ),
            _ => Some(NoticeView::UnexpectedTimeout),
        },
        ActionView::ReadyToRetry => match s {
            StateView::DeviceBusy { .. } => None,
            _ => Some(NoticeView::UnexpectedRetry),
        },
        _ => None,
    }
}

/// The notice that handing `action` to a machine in `state` calls for.
pub fn notice_for(state: &State, action: &Action) -> (r: Option<Notice>)
    ensures
        r matches Some(n) ==> transition_notice(state@, action@) == Some(n@),
        r is None ==> transition_notice(state@, action@) is None,
{
    match action {
        Action::MessageReceived(m) => match state {
            State::AwaitingResponse { .. } => None,
            _ => Some(Notice::UnexpectedMessage(copy_frame(m))),
        },
        Action::ResponseTimedOut => match state {
            State::AwaitingResponse { send_queue: _, command_sent } => Some(
                Notice::ResponseTimedOut(copy_frame(command_sent)),
            ),
            _ => Some(Notice::UnexpectedTimeout),
        },
        Action::ReadyToRetry => match state {
            State::DeviceBusy { .. } => None,
            _ => Some(Notice::UnexpectedRetry),
        },
        _ => None,
    }
}

/// What the loop that drives the machine has to do next.
#[derive(Debug, Clone, PartialEq, Eq)]
pub enum Step {
    /// Stop the loop: the machine failed, or the transport did.
    Halt,
    /// Nothing to do: wait for the next event.
    Wait,
    /// Send this frame, then report the outcome with `handle_send_outcome`.
    Send(EncodedSysex),
    /// Arm the receive timer for `RECEIVE_TIMEOUT_SECS`.
    StartReceiveTimer,
    /// Arm the retry timer for `RETRY_TIMEOUT_SECS`.
    StartRetryTimer,
}

/// A step, with frames seen as byte sequences.
pub ghost enum StepView {
    Halt,
    Wait,
    Send(Seq<u8>),
    StartReceiveTimer,
    StartRetryTimer,
}

impl View for Step {
    type V = StepView;

    open spec fn view(&self) -> StepView {
        match self {
            Step::Halt => StepView::Halt,
            Step::Wait => StepView::Wait,
            Step::Send(m) => StepView::Send(m@),
            Step::StartReceiveTimer => StepView::StartReceiveTimer,
            Step::StartRetryTimer => StepView::StartRetryTimer,
        }
    }
}

/// What the loop does once the machine has entered `s`: stop if it failed,
/// else carry out the state's entry effect.
pub open spec fn step_after(s: StateView) -> StepView {
    if s is Failed {
        StepView::Halt
    } else {
        match entry_effect(s) {
            None => StepView::Wait,
            Some(EffectView::SendMidiMessage(m)) => StepView::Send(m),
            Some(EffectView::StartReceiveTimeout) => StepView::StartReceiveTimer,
            Some(EffectView::StartRetryTimeout) => StepView::StartRetryTimer,
        }
    }
}

/// The decisions of the driver loop: it holds the machine's state, takes the
/// events that the loop waits for, and says what to do about each.
pub struct DriverCore {
    state: State,
}

impl View for DriverCore {
    type V = StateView;

    closed spec fn view(&self) -> StateView {
        self.state@
    }
}

impl DriverCore {
    /// Whether the held state is well formed.
    pub open spec fn wf(&self) -> bool {
        state_wf(self@)
    }

    /// A driver at rest.
    pub fn new() -> (r: DriverCore)
        ensures
            r@ == StateView::Idle,
            r.wf(),
    {
        DriverCore { state: State::Idle }
    }

    /// The machine's current state.
    pub fn state(&self) -> (r: &State)
        ensures
            r@ == self@,
    {
        &self.state
    }

    /// Takes one event, turned into an action: moves the machine and says what
    /// to do about the state it entered, with what to report about the move.
    pub fn handle(&mut self, action: Action) -> (r: (Step, Option<Notice>))
        requires
            old(self).wf(),
        ensures
            final(self).wf(),
            final(self)@ == next_state(old(self)@, action@),
            r.0@ == step_after(final(self)@),
            r.1 matches Some(n) ==> transition_notice(old(self)@, action@) == Some(n@),
            r.1 is None ==> transition_notice(old(self)@, action@) is None,
    {
        let notice = notice_for(&self.state, &action);
        let mut old_state = State::Idle;
        core::mem::swap(&mut self.state, &mut old_state);
        proof {
            lemma_next_keeps_wf(old_state@, action@);
        }
        self.state = old_state.next(action);
        (self.step(), notice)
    }

    /// Takes the outcome of sending `frame`, as a `Step::Send` asked. On
    /// success the machine learns that the frame went out, and the step that
    /// the state it enters asks for is returned: never another send, so one
    /// event leads to at most one extra round. A failed send stops the loop,
    /// since the transport is taken to be broken.
    pub fn handle_send_outcome(&mut self, frame: EncodedSysex, sent: bool) -> (r: Step)
        requires
            old(self).wf(),
        ensures
            final(self).wf(),
            !sent ==> r is Halt && final(self)@ == old(self)@,
            sent ==> final(self)@ == next_state(old(self)@, ActionView::MessageSent(frame@)),
            sent ==> r@ == step_after(final(self)@),
            !(r is Send),
    {
        if !sent {
            return Step::Halt;
        }
        let mut old_state = State::Idle;
        core::mem::swap(&mut self.state, &mut old_state);
        proof {
            lemma_next_keeps_wf(old_state@, ActionView::MessageSent(frame@));
        }
        self.state = old_state.next(Action::MessageSent(frame));
        self.step()
    }

    /// The step that the current state asks for.
    fn step(&mut self) -> (r: Step)
        requires
            old(self).wf(),
        ensures
            *final(self) == *old(self),
            r@ == step_after(old(self)@),
    {
        if self.state.is_failed() {
            return Step::Halt;
        }
        match self.state.enter() {
            None => Step::Wait,
            Some(Effect::SendMidiMessage(m)) => Step::Send(m),
            Some(Effect::StartReceiveTimeout) => Step::StartReceiveTimer,
            Some(Effect::StartRetryTimeout) => Step::StartRetryTimer,
        }
    }
}

impl State {
    /// Whether this is the terminal failed state.
    pub fn is_failed(&self) -> (r: bool)
        ensures
            r == (self@ is Failed),
    {
        match self {
            State::Failed(_) => true,
            _ => false,
        }
    }
}

} // verus!
