//! State machine of the websocket stream that suspends while the page is
//! hidden and yields to other tasks between two messages.
//!
//! The stream itself (`SuspensibleWebSocket` in `app/`) owns the socket, the
//! visibility listener and the waker. On every poll it asks [`begin_poll`]
//! what to do; when that answers [`EntryStep::PollSocket`] it opens the socket
//! if needed, polls it and hands what happened to [`after_socket`].
use vstd::prelude::*;
use vstd::string::*;

verus! {

/// Errors yielded by the suspensible websocket stream.
pub enum SuspensibleError {
    /// The underlying websocket could not be opened or reported an error.
    WebSocket(anyhow::Error),
    /// The socket was dropped while the page was hidden. The stream goes on
    /// and reopens the socket on its next poll.
    Suspended,
}

/// The message `Display` of `anyhow::Error` writes for an error.
pub uninterp spec fn anyhow_message(e: anyhow::Error) -> Seq<char>;

/// The message of an `anyhow` error, with its `Display`.
///
/// Trusted: the text is a function of the error, named [`anyhow_message`].
#[verifier::external_body]
fn anyhow_text(e: &anyhow::Error) -> (r: String)
    ensures
        r@ == anyhow_message(*e),
{
    e.to_string()
}

impl SuspensibleError {
    /// The message of the error: the socket's error after `WebSocket error: `,
    /// or that the socket was suspended in the background.
    pub fn message(&self) -> (r: String)
        ensures
            match self {
                SuspensibleError::WebSocket(e) => r@ == "WebSocket error: "@ + anyhow_message(*e),
                SuspensibleError::Suspended => r@
                    == "WebSocket suspended while application was in background"@,
            },
    {
        match self {
            SuspensibleError::WebSocket(e) => {
                let mut m = String::from_str("WebSocket error: ");
                let text = anyhow_text(e);
                m.append(text.as_str());
                m
            },
            SuspensibleError::Suspended => String::from_str(
                "WebSocket suspended while application was in background",
            ),
        }
    }
}

/// Where the stream stands between two polls.
#[derive(Clone, Copy, PartialEq, Eq, Structural, Debug)]
pub enum State {
    /// Normal operation; `was_visible` is the page visibility seen last.
    Active { was_visible: bool },
    /// A message was just yielded: the next poll returns to the executor first.
    Yield,
    /// The page became visible again: the next poll reports the suspension.
    EmitSuspended,
    /// The socket failed or ended; the stream is over.
    Closed,
}

/// What a poll does before it looks at the socket.
#[derive(Clone, Copy, PartialEq, Eq, Structural, Debug)]
pub enum EntryStep {
    /// Schedule a wake on the next event-loop tick and return `Pending`.
    YieldTick,
    /// Return `Ready(None)`.
    End,
    /// Drop the socket and return `Ready(Some(Err(Suspended)))`.
    EmitSuspended,
    /// The page was hidden: drop the socket and return `Pending`.
    Hide,
    /// The page became visible: wake the task at once and return `Pending`.
    WakeAndPend,
    /// The page is still hidden: return `Pending`.
    Pend,
    /// Make sure a socket is open, then poll it.
    PollSocket,
}

/// The decision [`begin_poll`] takes.
#[derive(Clone, Copy, PartialEq, Eq, Structural, Debug)]
pub struct PollPlan {
    /// The state stored before the poll goes on.
    pub next: State,
    /// What the poll does now.
    pub step: EntryStep,
    /// Whether the waker of this poll is registered for visibility changes.
    pub register_waker: bool,
}

/// What happened when the poll turned to the socket.
#[derive(Clone, Copy, PartialEq, Eq, Structural, Debug)]
pub enum SocketEvent {
    /// There was no socket and opening one failed.
    OpenFailed,
    /// The socket delivered a message.
    Message,
    /// The socket reported an error.
    Failed,
    /// The socket stream ended.
    Ended,
    /// The socket has nothing yet.
    NotReady,
}

/// What the poll does with a socket event.
#[derive(Clone, Copy, PartialEq, Eq, Structural, Debug)]
pub enum SocketStep {
    /// Return the message.
    EmitMessage,
    /// Return the error of opening the socket.
    EmitOpenError,
    /// Drop the socket and return its error.
    DropAndEmitError,
    /// Drop the socket and return `Ready(None)`.
    DropAndEnd,
    /// Return `Pending`.
    Pend,
}

/// The decision [`after_socket`] takes.
#[derive(Clone, Copy, PartialEq, Eq, Structural, Debug)]
pub struct SocketPlan {
    pub next: State,
    pub step: SocketStep,
}

/// What one poll of the stream returns, seen from the consumer.
#[derive(Clone, Copy, PartialEq, Eq, Structural, Debug)]
pub enum PollOutput {
    Pending,
    Message,
    SocketError,
    Suspended,
    End,
}

/// The transition table of a poll before the socket is touched.
pub open spec fn poll_plan(state: State, visible: bool) -> PollPlan {
    match state {
        State::Yield => PollPlan {
            next: State::Active { was_visible: visible },
            step: EntryStep::YieldTick,
            register_waker: false,
        },
        State::Closed => PollPlan { next: State::Closed, step: EntryStep::End, register_waker: false },
        State::EmitSuspended => PollPlan {
            next: State::Active { was_visible: true },
            step: EntryStep::EmitSuspended,
            register_waker: false,
        },
        State::Active { was_visible } => if was_visible && !visible {
            PollPlan {
                next: State::Active { was_visible: false },
                step: EntryStep::Hide,
                register_waker: true,
            }
        } else if !was_visible && visible {
            PollPlan { next: State::EmitSuspended, step: EntryStep::WakeAndPend, register_waker: true }
        } else if !was_visible && !visible {
            PollPlan { next: state, step: EntryStep::Pend, register_waker: true }
        } else {
            PollPlan { next: state, step: EntryStep::PollSocket, register_waker: true }
        },
    }
}

/// The transition table of a poll that reached the socket.
pub open spec fn socket_plan(state: State, event: SocketEvent) -> SocketPlan {
    match event {
        SocketEvent::OpenFailed => SocketPlan { next: State::Closed, step: SocketStep::EmitOpenError },
        SocketEvent::Message => SocketPlan { next: State::Yield, step: SocketStep::EmitMessage },
        SocketEvent::Failed => SocketPlan { next: State::Closed, step: SocketStep::DropAndEmitError },
        SocketEvent::Ended => SocketPlan { next: State::Closed, step: SocketStep::DropAndEnd },
        SocketEvent::NotReady => SocketPlan { next: state, step: SocketStep::Pend },
    }
}

/// What the consumer sees of an entry step that does not reach the socket.
pub open spec fn entry_output(step: EntryStep) -> PollOutput {
    match step {
        EntryStep::End => PollOutput::End,
        EntryStep::EmitSuspended => PollOutput::Suspended,
        _ => PollOutput::Pending,
    }
}

/// What the consumer sees of a socket step.
pub open spec fn socket_output(step: SocketStep) -> PollOutput {
    match step {
        SocketStep::EmitMessage => PollOutput::Message,
        SocketStep::EmitOpenError => PollOutput::SocketError,
        SocketStep::DropAndEmitError => PollOutput::SocketError,
        SocketStep::DropAndEnd => PollOutput::End,
        SocketStep::Pend => PollOutput::Pending,
    }
}

/// One whole poll: the state after it and what it returns, given the page
/// visibility and what the socket does if the poll reaches it.
pub open spec fn poll_once(state: State, visible: bool, event: SocketEvent) -> (State, PollOutput) {
    let plan = poll_plan(state, visible);
    if plan.step == EntryStep::PollSocket {
        let sp = socket_plan(plan.next, event);
        (sp.next, socket_output(sp.step))
    } else {
        (plan.next, entry_output(plan.step))
    }
}

/// The state a new stream starts in, and whether it opens its socket at once:
/// only a visible page opens one.
pub fn initial_state(visible: bool) -> (r: (State, bool))
    ensures
        r.0 == (State::Active { was_visible: visible }),
        r.1 == visible,
{
    (State::Active { was_visible: visible }, visible)
}

/// Decides what a poll does before it looks at the socket.
pub fn begin_poll(state: State, visible: bool) -> (plan: PollPlan)
    ensures
        plan == poll_plan(state, visible),
{
    match state {
        State::Yield => PollPlan {
            next: State::Active { was_visible: visible },
            step: EntryStep::YieldTick,
            register_waker: false,
        },
        State::Closed => PollPlan { next: State::Closed, step: EntryStep::End, register_waker: false },
        State::EmitSuspended => PollPlan {
            next: State::Active { was_visible: true },
            step: EntryStep::EmitSuspended,
            register_waker: false,
        },
        State::Active { was_visible } => {
            if was_visible && !visible {
                PollPlan {
                    next: State::Active { was_visible: false },
                    step: EntryStep::Hide,
                    register_waker: true,
                }
            } else if !was_visible && visible {
                PollPlan { next: State::EmitSuspended, step: EntryStep::WakeAndPend, register_waker: true }
            } else if !was_visible && !visible {
                PollPlan { next: state, step: EntryStep::Pend, register_waker: true }
            } else {
                PollPlan { next: state, step: EntryStep::PollSocket, register_waker: true }
            }
        },
    }
}

/// Decides what a poll does with what the socket reported.
pub fn after_socket(state: State, event: SocketEvent) -> (plan: SocketPlan)
    ensures
        plan == socket_plan(state, event),
{
    match event {
        SocketEvent::OpenFailed => SocketPlan { next: State::Closed, step: SocketStep::EmitOpenError },
        SocketEvent::Message => SocketPlan { next: State::Yield, step: SocketStep::EmitMessage },
        SocketEvent::Failed => SocketPlan { next: State::Closed, step: SocketStep::DropAndEmitError },
        SocketEvent::Ended => SocketPlan { next: State::Closed, step: SocketStep::DropAndEnd },
        SocketEvent::NotReady => SocketPlan { next: state, step: SocketStep::Pend },
    }
}

/// Once closed, the stream stays closed and every poll returns `Ready(None)`.
pub proof fn lemma_closed_is_final(visible: bool, event: SocketEvent)
    ensures
        poll_once(State::Closed, visible, event) == (State::Closed, PollOutput::End),
{
}

/// After a message the next poll returns `Pending` without touching the
/// socket, whatever the socket or the page do, so that other tasks get to run.
pub proof fn lemma_yields_between_messages(visible: bool, event: SocketEvent, next_event: SocketEvent)
    ensures
        poll_once(State::Active { was_visible: true }, true, event).1 == PollOutput::Message
            ==> poll_once(State::Active { was_visible: true }, true, event).0 == State::Yield,
        poll_once(State::Yield, visible, next_event) == (
            State::Active { was_visible: visible },
            PollOutput::Pending,
        ),
{
}

/// While the page is hidden no poll reaches the socket and none yields a
/// message, whatever the socket would do.
pub proof fn lemma_hidden_page_never_reads(was_visible: bool, event: SocketEvent)
    ensures
        poll_plan(State::Active { was_visible }, false).step != EntryStep::PollSocket,
        poll_once(State::Active { was_visible }, false, event) == (
            State::Active { was_visible: false },
            PollOutput::Pending,
        ),
{
}

/// When a hidden page becomes visible again the stream reports the suspension
/// exactly once and then reads the socket again.
pub proof fn lemma_resume_reports_suspension_once(visible: bool, event: SocketEvent)
    ensures
        poll_once(State::Active { was_visible: false }, true, event) == (
            State::EmitSuspended,
            PollOutput::Pending,
        ),
        poll_once(State::EmitSuspended, visible, event) == (
            State::Active { was_visible: true },
            PollOutput::Suspended,
        ),
        poll_plan(State::Active { was_visible: true }, true).step == EntryStep::PollSocket,
{
}

/// A socket that cannot be opened, fails or ends closes the stream for good;
/// a missing message leaves the state as it was.
pub proof fn lemma_socket_outcomes(state: State, event: SocketEvent)
    ensures
        event == SocketEvent::OpenFailed || event == SocketEvent::Failed || event == SocketEvent::Ended
            ==> socket_plan(state, event).next == State::Closed,
        event == SocketEvent::NotReady ==> socket_plan(state, event).next == state,
        socket_output(socket_plan(state, event).step) == PollOutput::Message <==> event
            == SocketEvent::Message,
{
}

/// What a poll that reached the socket returns: `Pending` exactly when the
/// socket has nothing yet, which leaves the state as it was; a message
/// exactly for a message; an error exactly when opening or the socket
/// failed; the end exactly when the socket ended. Only a failure or the end
/// closes the stream.
pub proof fn lemma_socket_poll_results(state: State, event: SocketEvent)
    ensures
        socket_output(socket_plan(state, event).step) == PollOutput::Pending <==> event
            == SocketEvent::NotReady,
        socket_output(socket_plan(state, event).step) == PollOutput::SocketError <==> event
            == SocketEvent::OpenFailed || event == SocketEvent::Failed,
        socket_output(socket_plan(state, event).step) == PollOutput::End <==> event
            == SocketEvent::Ended,
        socket_plan(state, event).step == SocketStep::Pend <==> event == SocketEvent::NotReady,
        event == SocketEvent::NotReady ==> socket_plan(state, event) == (SocketPlan {
            next: state,
            step: SocketStep::Pend,
        }),
        socket_plan(state, event).next == State::Closed && state != State::Closed <==> (event
            == SocketEvent::OpenFailed || event == SocketEvent::Failed || event
            == SocketEvent::Ended) && state != State::Closed,
        poll_once(State::Active { was_visible: true }, true, SocketEvent::NotReady) == (
            State::Active { was_visible: true },
            PollOutput::Pending,
        ),
{
}

} // verus!
