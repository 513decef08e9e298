//! One live connection: its life from handshake to teardown, and what each
//! event asks of the task that owns the transport.

use vstd::prelude::*;
use crate::websocket::message::MessageToClient;
use crate::websocket::server::SessionHandle;

verus! {

/// Where a session is in its life. A session only ever moves down this list.
#[derive(Clone, Copy, Debug, PartialEq, Eq, Structural)]
pub enum SessionState {
    /// The upgrade handshake is under way.
    Connecting,
    /// The session is registered and relays in both directions.
    Active,
    /// The session takes no new push and writes out what is in flight.
    Closing,
    /// The session is gone. Nothing happens any more.
    Closed,
}

/// Why a session is asked to close.
#[derive(Clone, Copy, Debug, PartialEq, Eq, Structural)]
pub enum CloseReason {
    /// The client sent a close frame.
    ClientClosed,
    /// The transport reported an error.
    TransportError,
    /// A write to the transport failed.
    WriteFailed,
    /// The server asked the session to close.
    ServerClosed,
}

/// Something that happens to a session.
#[derive(Debug, PartialEq)]
pub enum SessionEvent {
    /// The upgrade handshake completed at time `now`.
    Connected { now: u64 },
    /// A liveness signal came from the client at time `now`.
    Alive { now: u64 },
    /// The heartbeat timer fired at time `now`.
    Tick { now: u64 },
    /// A message that the router pushed is next to be written out.
    Push(MessageToClient),
    /// The client sent a frame.
    Frame(Vec<u8>),
    /// The session is asked to close.
    Close(CloseReason),
    /// Every push that was in flight has been written out.
    Drained,
}

/// What the owner of the transport has to do after an event.
#[derive(Debug, PartialEq)]
pub enum SessionAction {
    /// Register the session with the router.
    Register { key: String, handle: SessionHandle },
    /// Deregister the session from the router.
    Deregister { key: String, handle: SessionHandle },
    /// Write the payload of the message to the transport as a frame.
    Write(MessageToClient),
    /// Pass the client's frame upward as it came.
    Relay(Vec<u8>),
    /// Ask the client for a liveness signal.
    Ping,
    /// Take no new push, write out what is in flight, then report `Drained`.
    Drain,
    /// Nothing to do.
    Idle,
}

/// A session as contracts see it.
pub struct SessionView {
    pub key: Seq<char>,
    pub handle: SessionHandle,
    pub state: SessionState,
    /// When the client was last known to be alive.
    pub last_seen: u64,
    /// How long the client may stay silent.
    pub timeout: u64,
}

/// An action as contracts see it.
pub enum ActionView {
    Register { key: Seq<char>, handle: SessionHandle },
    Deregister { key: Seq<char>, handle: SessionHandle },
    Write(MessageToClient),
    Relay(Seq<u8>),
    Ping,
    Drain,
    Idle,
}

impl View for SessionAction {
    type V = ActionView;

    open spec fn view(&self) -> ActionView {
        match *self {
            SessionAction::Register { key, handle } => ActionView::Register { key: key@, handle },
            SessionAction::Deregister { key, handle } => ActionView::Deregister {
                key: key@,
                handle,
            },
            SessionAction::Write(message) => ActionView::Write(message),
            SessionAction::Relay(frame) => ActionView::Relay(frame@),
            SessionAction::Ping => ActionView::Ping,
            SessionAction::Drain => ActionView::Drain,
            SessionAction::Idle => ActionView::Idle,
        }
    }
}

/// Whether a client last seen at `last_seen` has been silent for more than
/// `timeout` at time `now`.
pub open spec fn heartbeat_expired(last_seen: u64, timeout: u64, now: u64) -> bool {
    now - last_seen > timeout
}

/// The session after `event`.
pub open spec fn stepped(session: SessionView, event: SessionEvent) -> SessionView {
    match (session.state, event) {
        (SessionState::Connecting, SessionEvent::Connected { now }) => SessionView {
            state: SessionState::Active,
            last_seen: now,
            ..session
        },
        (SessionState::Active, SessionEvent::Alive { now }) => SessionView {
            last_seen: if now > session.last_seen {
                now
            } else {
                session.last_seen
            },
            ..session
        },
        (SessionState::Active, SessionEvent::Tick { now }) => if heartbeat_expired(
            session.last_seen,
            session.timeout,
            now,
        ) {
            SessionView { state: SessionState::Closing, ..session }
        } else {
            session
        },
        (SessionState::Connecting, SessionEvent::Close(_)) => SessionView {
            state: SessionState::Closing,
            ..session
        },
        (SessionState::Active, SessionEvent::Close(_)) => SessionView {
            state: SessionState::Closing,
            ..session
        },
        (SessionState::Closing, SessionEvent::Drained) => SessionView {
            state: SessionState::Closed,
            ..session
        },
        _ => session,
    }
}

/// What `event` asks of the transport's owner, on the session before it.
pub open spec fn action_of(session: SessionView, event: SessionEvent) -> ActionView {
    match (session.state, event) {
        (SessionState::Connecting, SessionEvent::Connected { .. }) => ActionView::Register {
            key: session.key,
            handle: session.handle,
        },
        (SessionState::Active, SessionEvent::Tick { now }) => if heartbeat_expired(
            session.last_seen,
            session.timeout,
            now,
        ) {
            ActionView::Drain
        } else {
            ActionView::Ping
        },
        (SessionState::Active, SessionEvent::Push(message)) => ActionView::Write(message),
        (SessionState::Closing, SessionEvent::Push(message)) => ActionView::Write(message),
        (SessionState::Active, SessionEvent::Frame(frame)) => ActionView::Relay(frame@),
        (SessionState::Connecting, SessionEvent::Close(_)) => ActionView::Drain,
        (SessionState::Active, SessionEvent::Close(_)) => ActionView::Drain,
        (SessionState::Closing, SessionEvent::Drained) => ActionView::Deregister {
            key: session.key,
            handle: session.handle,
        },
        _ => ActionView::Idle,
    }
}

/// One live connection, bound to one connection key.
pub struct WebSocketSession {
    key: String,
    handle: SessionHandle,
    state: SessionState,
    last_seen: u64,
    timeout: u64,
}

impl View for WebSocketSession {
    type V = SessionView;

    closed spec fn view(&self) -> SessionView {
        SessionView {
            key: self.key@,
            handle: self.handle,
            state: self.state,
            last_seen: self.last_seen,
            timeout: self.timeout,
        }
    }
}

impl WebSocketSession {
    /// A session for `key`, not yet connected, whose client may stay silent
    /// for `timeout`.
    pub fn new(key: String, handle: SessionHandle, timeout: u64) -> (session: Self)
        ensures
            session@ == (SessionView {
                key: key@,
                handle,
                state: SessionState::Connecting,
                last_seen: 0,
                timeout,
            }),
    {
        WebSocketSession { key, handle, state: SessionState::Connecting, last_seen: 0, timeout }
    }

    /// The connection key of the session, rendered.
    pub fn key(&self) -> (key: &String)
        ensures
            key@ == self@.key,
    {
        &self.key
    }

    /// The handle under which the session registers.
    pub fn handle(&self) -> (handle: SessionHandle)
        ensures
            handle == self@.handle,
    {
        self.handle
    }

    /// Where the session is in its life.
    pub fn state(&self) -> (state: SessionState)
        ensures
            state == self@.state,
    {
        self.state
    }

    /// Takes one event: moves the session on and says what is to be done.
    pub fn step(&mut self, event: SessionEvent) -> (action: SessionAction)
        ensures
            final(self)@ == stepped(old(self)@, event),
            action@ == action_of(old(self)@, event),
    {
        match self.state {
            SessionState::Connecting => match event {
                SessionEvent::Connected { now } => {
                    self.state = SessionState::Active;
                    self.last_seen = now;
                    SessionAction::Register { key: self.key.clone(), handle: self.handle }
                },
                SessionEvent::Close(_) => {
                    self.state = SessionState::Closing;
                    SessionAction::Drain
                },
                _ => SessionAction::Idle,
            },
            SessionState::Active => match event {
                SessionEvent::Alive { now } => {
                    if now > self.last_seen {
                        self.last_seen = now;
                    }
                    SessionAction::Idle
                },
                SessionEvent::Tick { now } => {
                    if now > self.last_seen && now - self.last_seen > self.timeout {
                        self.state = SessionState::Closing;
                        SessionAction::Drain
                    } else {
                        SessionAction::Ping
                    }
                },
                SessionEvent::Push(message) => SessionAction::Write(message),
                SessionEvent::Frame(frame) => SessionAction::Relay(frame),
                SessionEvent::Close(_) => {
                    self.state = SessionState::Closing;
                    SessionAction::Drain
                },
                _ => SessionAction::Idle,
            },
            SessionState::Closing => match event {
                SessionEvent::Push(message) => SessionAction::Write(message),
                SessionEvent::Drained => {
                    self.state = SessionState::Closed;
                    SessionAction::Deregister { key: self.key.clone(), handle: self.handle }
                },
                _ => SessionAction::Idle,
            },
            SessionState::Closed => SessionAction::Idle,
        }
    }
}

} // verus!

verus! {

/// How far along its life a state is.
pub open spec fn rank(state: SessionState) -> int {
    match state {
        SessionState::Connecting => 0,
        SessionState::Active => 1,
        SessionState::Closing => 2,
        SessionState::Closed => 3,
    }
}

/// The session after `events`, in order.
pub open spec fn ran(session: SessionView, events: Seq<SessionEvent>) -> SessionView
    decreases events.len(),
{
    if events.len() == 0 {
        session
    } else {
        stepped(ran(session, events.drop_last()), events.last())
    }
}

/// What the `i`-th of `events` asks for, on a session that went through the
/// events before it.
pub open spec fn action_at(session: SessionView, events: Seq<SessionEvent>, i: int) -> ActionView {
    action_of(ran(session, events.take(i)), events[i])
}

/// No event moves a session back, or changes its key, its handle or its
/// timeout.
pub proof fn lemma_step_moves_forward(session: SessionView, event: SessionEvent)
    ensures
        rank(session.state) <= rank(stepped(session, event).state),
        stepped(session, event).key == session.key,
        stepped(session, event).handle == session.handle,
        stepped(session, event).timeout == session.timeout,
{
}

/// A closed session stays as it is and asks for nothing.
pub proof fn lemma_closed_is_terminal(session: SessionView, event: SessionEvent)
    requires
        session.state == SessionState::Closed,
    ensures
        stepped(session, event) == session,
        action_of(session, event) == ActionView::Idle,
{
}

/// A session registers exactly when it becomes active and deregisters
/// exactly when it becomes closed, each time under its own key and handle.
pub proof fn lemma_registers_with_state(session: SessionView, event: SessionEvent)
    ensures
        action_of(session, event) is Register <==> session.state == SessionState::Connecting
            && stepped(session, event).state == SessionState::Active,
        action_of(session, event) is Deregister <==> session.state != SessionState::Closed
            && stepped(session, event).state == SessionState::Closed,
        action_of(session, event) is Register ==> action_of(session, event)
            == (ActionView::Register { key: session.key, handle: session.handle }),
        action_of(session, event) is Deregister ==> action_of(session, event)
            == (ActionView::Deregister { key: session.key, handle: session.handle }),
{
}

/// However long the events go on, the session is at least as far along as
/// it was after any earlier part of them.
pub proof fn lemma_run_moves_forward(
    session: SessionView,
    events: Seq<SessionEvent>,
    i: int,
    j: int,
)
    requires
        0 <= i <= j <= events.len(),
    ensures
        rank(ran(session, events.take(i)).state) <= rank(ran(session, events.take(j)).state),
    decreases j - i,
{
    if i < j {
        lemma_run_moves_forward(session, events, i, j - 1);
        assert(events.take(j).drop_last() == events.take(j - 1));
        lemma_step_moves_forward(ran(session, events.take(j - 1)), events[j - 1]);
    }
}

/// Deregistering is the last thing a session asks for: every later event
/// finds it closed and asks for nothing. So over the whole life of a session
/// the router is asked to deregister it at most once.
pub proof fn lemma_deregister_is_last(
    session: SessionView,
    events: Seq<SessionEvent>,
    i: int,
    j: int,
)
    requires
        0 <= i < j < events.len(),
        action_at(session, events, i) is Deregister,
    ensures
        action_at(session, events, j) == ActionView::Idle,
        ran(session, events.take(j)).state == SessionState::Closed,
{
    lemma_registers_with_state(ran(session, events.take(i)), events[i]);
    assert(events.take(i + 1).drop_last() == events.take(i));
    lemma_run_moves_forward(session, events, i + 1, j);
    lemma_closed_is_terminal(ran(session, events.take(j)), events[j]);
}

/// Over the whole life of a session it is registered at most once, and
/// never after it was deregistered.
pub proof fn lemma_registers_at_most_once(
    session: SessionView,
    events: Seq<SessionEvent>,
    i: int,
    j: int,
)
    requires
        0 <= i < j < events.len(),
    ensures
        !(action_at(session, events, i) is Register && action_at(session, events, j)
            is Register),
        !(action_at(session, events, i) is Deregister && action_at(session, events, j)
            is Register),
{
    let before = ran(session, events.take(i));
    lemma_registers_with_state(before, events[i]);
    lemma_registers_with_state(ran(session, events.take(j)), events[j]);
    assert(events.take(i + 1).drop_last() == events.take(i));
    lemma_run_moves_forward(session, events, i + 1, j);
}

} // verus!
