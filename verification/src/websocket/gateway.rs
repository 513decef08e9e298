//! The router and its sessions taken together: as long as the router does
//! what each session asks for, every entry of the registry leads to a
//! session that is alive.

use vstd::prelude::*;
use crate::websocket::server::{
    deregistered, deregistration, Deregistration, Server, SessionHandle,
};
use crate::websocket::session::{
    action_of, stepped, ActionView, SessionAction, SessionEvent, SessionState, SessionView,
};

verus! {

/// The registry after the router has done what `action` asks of it.
pub open spec fn performed(
    registry: Map<Seq<char>, SessionHandle>,
    action: ActionView,
) -> Map<Seq<char>, SessionHandle> {
    match action {
        ActionView::Register { key, handle } => registry.insert(key, handle),
        ActionView::Deregister { key, handle } => deregistered(registry, key, handle),
        _ => registry,
    }
}

/// What the router reports of `action` on the given registry: what a
/// deregistration found, and nothing of any other action.
pub open spec fn reported(
    registry: Map<Seq<char>, SessionHandle>,
    action: ActionView,
) -> Option<Deregistration> {
    match action {
        ActionView::Deregister { key, handle } => Some(deregistration(registry, key, handle)),
        _ => None,
    }
}

/// A router with all the sessions that were ever opened against it.
pub struct Gateway {
    pub registry: Map<Seq<char>, SessionHandle>,
    pub sessions: Seq<SessionView>,
}

/// One thing that happens in a gateway.
pub enum Move {
    /// A client starts the handshake: a new session appears.
    Open { session: SessionView },
    /// The session at `index` takes an event, and the router does what the
    /// session then asks for.
    Event { index: int, event: SessionEvent },
}

/// Whether `m` can happen in `gateway`: a new session is connecting and
/// has a handle that no other session has; an event goes to a session that
/// is there.
pub open spec fn possible(gateway: Gateway, m: Move) -> bool {
    match m {
        Move::Open { session } => session.state == SessionState::Connecting && forall|i: int|
            0 <= i < gateway.sessions.len() ==> (#[trigger] gateway.sessions[i]).handle
                != session.handle,
        Move::Event { index, .. } => 0 <= index < gateway.sessions.len(),
    }
}

/// The gateway after `m`.
pub open spec fn moved(gateway: Gateway, m: Move) -> Gateway {
    match m {
        Move::Open { session } => Gateway { sessions: gateway.sessions.push(session), ..gateway },
        Move::Event { index, event } => Gateway {
            registry: performed(gateway.registry, action_of(gateway.sessions[index], event)),
            sessions: gateway.sessions.update(index, stepped(gateway.sessions[index], event)),
        },
    }
}

/// A gateway with no session and nothing registered.
pub open spec fn idle() -> Gateway {
    Gateway { registry: Map::empty(), sessions: Seq::empty() }
}

/// Whether the moves can happen one after the other, from an idle gateway.
pub open spec fn playable(moves: Seq<Move>) -> bool
    decreases moves.len(),
{
    moves.len() > 0 ==> playable(moves.drop_last()) && possible(
        played(moves.drop_last()),
        moves.last(),
    )
}

/// The gateway after the moves, from an idle gateway.
pub open spec fn played(moves: Seq<Move>) -> Gateway
    decreases moves.len(),
{
    if moves.len() == 0 {
        idle()
    } else {
        moved(played(moves.drop_last()), moves.last())
    }
}

/// Whether the session is registered and not yet closed.
pub open spec fn alive(session: SessionView) -> bool {
    session.state == SessionState::Active || session.state == SessionState::Closing
}

/// Whether every entry of the registry leads to a session that is alive
/// and stands under the key of that session, and no two sessions share a
/// handle.
pub open spec fn sound(gateway: Gateway) -> bool {
    &&& forall|i: int, j: int|
        0 <= i < j < gateway.sessions.len() ==> (#[trigger] gateway.sessions[i]).handle != (
        #[trigger] gateway.sessions[j]).handle
    &&& forall|key: Seq<char>| #[trigger]
        gateway.registry.contains_key(key) ==> exists|i: int|
            0 <= i < gateway.sessions.len() && owns(gateway.sessions[i], key, gateway.registry[key])
}

/// Whether `session` is alive and is the session with this key and handle.
pub open spec fn owns(session: SessionView, key: Seq<char>, handle: SessionHandle) -> bool {
    session.handle == handle && session.key == key && alive(session)
}

/// One move keeps a sound gateway sound.
pub proof fn lemma_move_keeps_sound(gateway: Gateway, m: Move)
    requires
        sound(gateway),
        possible(gateway, m),
    ensures
        sound(moved(gateway, m)),
{
    let after = moved(gateway, m);
    match m {
        Move::Open { session } => {
            assert forall|key: Seq<char>| #[trigger]
                after.registry.contains_key(key) implies exists|i: int|
                0 <= i < after.sessions.len() && owns(
                    after.sessions[i],
                    key,
                    after.registry[key],
                ) by {
                let i = choose|i: int|
                    0 <= i < gateway.sessions.len() && owns(
                        gateway.sessions[i],
                        key,
                        gateway.registry[key],
                    );
                assert(after.sessions[i] == gateway.sessions[i]);
            }
        },
        Move::Event { index, event } => {
            let before = gateway.sessions[index];
            let action = action_of(before, event);
            assert forall|key: Seq<char>| #[trigger]
                after.registry.contains_key(key) implies exists|i: int|
                0 <= i < after.sessions.len() && owns(
                    after.sessions[i],
                    key,
                    after.registry[key],
                ) by {
                if action is Register && key == before.key {
                    assert(owns(after.sessions[index], key, after.registry[key]));
                } else {
                    let i = choose|i: int|
                        0 <= i < gateway.sessions.len() && owns(
                            gateway.sessions[i],
                            key,
                            gateway.registry[key],
                        );
                    if i != index {
                        assert(after.sessions[i] == gateway.sessions[i]);
                    }
                }
            }
        },
    }
}

/// Whatever happens, every entry of the registry leads to a session that is
/// alive: the router never keeps the handle of a session that has closed,
/// nor of one that has not registered yet.
pub proof fn lemma_registry_leads_to_live_sessions(moves: Seq<Move>)
    requires
        playable(moves),
    ensures
        sound(played(moves)),
        forall|key: Seq<char>, i: int|
            0 <= i < played(moves).sessions.len() && #[trigger] played(
                moves,
            ).registry.contains_key(key) && (#[trigger] played(moves).sessions[i]).handle
                == played(moves).registry[key] ==> alive(played(moves).sessions[i]),
    decreases moves.len(),
{
    if moves.len() > 0 {
        lemma_registry_leads_to_live_sessions(moves.drop_last());
        lemma_move_keeps_sound(played(moves.drop_last()), moves.last());
    }
}

/// Does on the router what a session's action asks of it: registers,
/// deregisters, or leaves the registry as it is. Of a deregistration it
/// reports what was found, so that a stale one can be noted; of any other
/// action there is nothing to report.
pub fn perform(server: &mut Server, action: &SessionAction) -> (found: Option<Deregistration>)
    ensures
        final(server)@ == performed(old(server)@, action@),
        found == reported(old(server)@, action@),
{
    match action {
        SessionAction::Register { key, handle } => {
            server.register(key.clone(), *handle);
            None
        },
        SessionAction::Deregister { key, handle } => Some(
            server.deregister(key.as_str(), *handle),
        ),
        _ => None,
    }
}

} // verus!
