//! The router: the one registry of live sessions, and the decision where a
//! message goes.

use vstd::prelude::*;
use vstd::hash_map::StringHashMap;
use crate::websocket::message::MessageToClient;

verus! {

/// A capability to push to one session. Two handles are the same session
/// exactly when their ids are equal.
#[derive(Clone, Copy, Debug, PartialEq, Eq, Structural)]
pub struct SessionHandle {
    pub id: u64,
}

/// The source of the handles of one gateway. It never gives the same
/// handle twice.
pub struct HandleIssuer {
    next: u64,
}

impl HandleIssuer {
    /// How many handles were given out so far.
    pub closed spec fn issued(&self) -> nat {
        self.next as nat
    }

    /// An issuer that has given out nothing.
    pub fn new() -> (issuer: Self)
        ensures
            issuer.issued() == 0,
    {
        HandleIssuer { next: 0 }
    }

    /// Gives out a handle that was never given out before: the handles come
    /// with the ids 0, 1, 2 and so on. When the ids are used up, there is
    /// no handle, and the issuer stays as it is.
    pub fn issue(&mut self) -> (handle: Option<SessionHandle>)
        ensures
            handle is Some <==> old(self).issued() < u64::MAX,
            handle is Some ==> handle->0.id == old(self).issued() && final(self).issued()
                == old(self).issued() + 1,
            handle is None ==> final(self).issued() == old(self).issued(),
    {
        if self.next == u64::MAX {
            None
        } else {
            let handle = SessionHandle { id: self.next };
            self.next = self.next + 1;
            Some(handle)
        }
    }
}

/// What a deregistration found.
#[derive(Clone, Copy, Debug, PartialEq, Eq, Structural)]
pub enum Deregistration {
    /// The entry referred to the given handle and was removed.
    Removed,
    /// No entry stood under the key.
    Absent,
    /// The entry refers to another, newer handle and was kept.
    Stale,
}

/// The registry after `Deregister(key, handle)`.
pub open spec fn deregistered(
    registry: Map<Seq<char>, SessionHandle>,
    key: Seq<char>,
    handle: SessionHandle,
) -> Map<Seq<char>, SessionHandle> {
    if registry.contains_key(key) && registry[key] == handle {
        registry.remove(key)
    } else {
        registry
    }
}

/// What `Deregister(key, handle)` reports on the given registry.
pub open spec fn deregistration(
    registry: Map<Seq<char>, SessionHandle>,
    key: Seq<char>,
    handle: SessionHandle,
) -> Deregistration {
    if !registry.contains_key(key) {
        Deregistration::Absent
    } else if registry[key] == handle {
        Deregistration::Removed
    } else {
        Deregistration::Stale
    }
}

/// What the router asks of its caller for one message.
#[derive(Debug, PartialEq)]
pub enum RouteStep {
    /// Push `message` once onto the outbound channel behind `handle`.
    Push { handle: SessionHandle, message: MessageToClient },
    /// No session is registered for the target: the message is dropped.
    NotFound,
}

/// What became of a push onto a session's outbound channel.
#[derive(Clone, Copy, Debug, PartialEq, Eq, Structural)]
pub enum PushOutcome {
    /// The channel took the message.
    Accepted,
    /// The channel is full.
    Saturated,
    /// The session behind the channel is gone.
    Closed,
}

/// The result of routing one message.
#[derive(Clone, Copy, Debug, PartialEq, Eq, Structural)]
pub enum RouteOutcome {
    Delivered,
    NotFound,
}

/// Where `message` goes on the given registry: to the handle under its
/// target key, if it has a target and a session is registered for it.
pub open spec fn route_step(
    registry: Map<Seq<char>, SessionHandle>,
    message: MessageToClient,
) -> RouteStep {
    match message.target() {
        Some(key) if registry.contains_key(key) => RouteStep::Push {
            handle: registry[key],
            message,
        },
        _ => RouteStep::NotFound,
    }
}

/// The result of a routing, given how its push ended, or `None` where no
/// push was called for: delivered exactly when the channel took the message.
pub open spec fn route_outcome(pushed: Option<PushOutcome>) -> RouteOutcome {
    if pushed == Some(PushOutcome::Accepted) {
        RouteOutcome::Delivered
    } else {
        RouteOutcome::NotFound
    }
}

/// The registry of live sessions, by rendered connection key.
pub struct Server {
    sessions: StringHashMap<SessionHandle>,
}

impl View for Server {
    type V = Map<Seq<char>, SessionHandle>;

    closed spec fn view(&self) -> Map<Seq<char>, SessionHandle> {
        self.sessions@
    }
}

impl Server {
    /// A router with no session registered.
    pub fn new() -> (server: Server)
        ensures
            server@ == Map::<Seq<char>, SessionHandle>::empty(),
    {
        Server { sessions: StringHashMap::new() }
    }

    /// Puts `handle` under `key`, in place of whatever stood there.
    pub fn register(&mut self, key: String, handle: SessionHandle)
        ensures
            final(self)@ == old(self)@.insert(key@, handle),
    {
        self.sessions.insert(key, handle);
    }

    /// Removes the entry under `key` if it still refers to `handle`.
    pub fn deregister(&mut self, key: &str, handle: SessionHandle) -> (outcome: Deregistration)
        ensures
            final(self)@ == deregistered(old(self)@, key@, handle),
            outcome == deregistration(old(self)@, key@, handle),
    {
        let current = match self.sessions.get(key) {
            Some(found) => Some(*found),
            None => None,
        };
        match current {
            None => Deregistration::Absent,
            Some(found) => {
                if found == handle {
                    self.sessions.remove(key);
                    Deregistration::Removed
                } else {
                    Deregistration::Stale
                }
            },
        }
    }

    /// Whether a session is registered under `key`.
    pub fn session_exists(&self, key: &str) -> (live: bool)
        ensures
            live == self@.contains_key(key@),
    {
        self.sessions.contains_key(key)
    }

    /// Decides where `message` goes. The registry is only read: the push
    /// itself is the caller's to make, once, and without blocking.
    pub fn route(&self, message: MessageToClient) -> (step: RouteStep)
        ensures
            step == route_step(self@, message),
    {
        let found = match &message.target_key {
            Some(key) => match self.sessions.get(key.as_str()) {
                Some(handle) => Some(*handle),
                None => None,
            },
            None => None,
        };
        match found {
            Some(handle) => RouteStep::Push { handle, message },
            None => RouteStep::NotFound,
        }
    }
}

/// The result of a routing, given how its push ended, or `None` where no
/// push was called for. A push that the channel did not take counts as
/// `NotFound`.
pub fn settle(pushed: Option<PushOutcome>) -> (outcome: RouteOutcome)
    ensures
        outcome == route_outcome(pushed),
{
    match pushed {
        Some(PushOutcome::Accepted) => RouteOutcome::Delivered,
        _ => RouteOutcome::NotFound,
    }
}

/// One change to the registry.
pub enum Operation {
    Register { key: Seq<char>, handle: SessionHandle },
    Deregister { key: Seq<char>, handle: SessionHandle },
}

/// The registry after one operation.
pub open spec fn applied(registry: Map<Seq<char>, SessionHandle>, op: Operation) -> Map<
    Seq<char>,
    SessionHandle,
> {
    match op {
        Operation::Register { key, handle } => registry.insert(key, handle),
        Operation::Deregister { key, handle } => deregistered(registry, key, handle),
    }
}

/// The registry of a router that started empty and went through `ops`, in
/// order.
pub open spec fn replayed(ops: Seq<Operation>) -> Map<Seq<char>, SessionHandle>
    decreases ops.len(),
{
    if ops.len() == 0 {
        Map::empty()
    } else {
        applied(replayed(ops.drop_last()), ops.last())
    }
}

/// Whether `op` registers a session under `key`.
pub open spec fn registers(op: Operation, key: Seq<char>) -> bool {
    op matches Operation::Register { key: k, .. } && k == key
}

/// A key under which nothing was ever registered has no session.
pub proof fn lemma_absent_before_register(ops: Seq<Operation>, key: Seq<char>)
    requires
        forall|i: int| 0 <= i < ops.len() ==> !registers(#[trigger] ops[i], key),
    ensures
        !replayed(ops).contains_key(key),
    decreases ops.len(),
{
    if ops.len() > 0 {
        lemma_absent_before_register(ops.drop_last(), key);
    }
}

/// Right after a registration the key has a session, and it is the one just
/// registered.
pub proof fn lemma_present_after_register(
    registry: Map<Seq<char>, SessionHandle>,
    key: Seq<char>,
    handle: SessionHandle,
)
    ensures
        registry.insert(key, handle).contains_key(key),
        registry.insert(key, handle)[key] == handle,
{
}

/// Deregistering the handle that is registered under a key leaves the key
/// without a session, and every other key as it was.
pub proof fn lemma_absent_after_deregister(
    registry: Map<Seq<char>, SessionHandle>,
    key: Seq<char>,
    handle: SessionHandle,
)
    requires
        registry.contains_key(key),
        registry[key] == handle,
    ensures
        !deregistered(registry, key, handle).contains_key(key),
        deregistered(registry, key, handle) == registry.remove(key),
{
}

/// A session that was superseded under its key cannot evict its successor:
/// after `Register(key, first)`, `Register(key, second)` and
/// `Deregister(key, first)`, with two different handles, the key still leads
/// to `second`.
pub proof fn lemma_stale_deregister_keeps_successor(
    registry: Map<Seq<char>, SessionHandle>,
    key: Seq<char>,
    first: SessionHandle,
    second: SessionHandle,
)
    requires
        first != second,
    ensures
        deregistered(registry.insert(key, first).insert(key, second), key, first)
            == registry.insert(key, second),
        deregistered(registry.insert(key, first).insert(key, second), key, first).contains_key(
            key,
        ),
        deregistration(registry.insert(key, first).insert(key, second), key, first)
            == Deregistration::Stale,
{
}

/// A message whose target has no session is not found, whatever else the
/// registry holds: no push is called for.
pub proof fn lemma_route_unregistered(
    registry: Map<Seq<char>, SessionHandle>,
    message: MessageToClient,
)
    requires
        message.target() matches Some(key) ==> !registry.contains_key(key),
    ensures
        route_step(registry, message) == RouteStep::NotFound,
        route_outcome(None) == RouteOutcome::NotFound,
{
}

/// A message whose target has a session is pushed once, to the handle
/// registered under the target, and unchanged.
pub proof fn lemma_route_registered(
    registry: Map<Seq<char>, SessionHandle>,
    message: MessageToClient,
    key: Seq<char>,
)
    requires
        message.target() == Some(key),
        registry.contains_key(key),
    ensures
        route_step(registry, message) == (RouteStep::Push { handle: registry[key], message }),
        route_outcome(Some(PushOutcome::Accepted)) == RouteOutcome::Delivered,
{
}

} // verus!
