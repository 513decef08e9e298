//! The routed message: what a client is asked to do, with which payload, and
//! for which connection.

use vstd::prelude::*;

verus! {

/// The payload of a message, a `Value` of the `serde_json` crate. The
/// router carries it and never looks inside.
#[verifier::external_type_specification]
#[verifier::external_body]
pub struct ExPayload(serde_json::Value);

/// What a client should do with the payload of a message.
#[derive(Clone, Copy, Debug, PartialEq, Eq, Structural)]
pub enum WebSocketActionType {
    /// Show the payload to the user as a notification.
    Notify,
    /// Reload the resource that the payload names.
    Refresh,
    /// Leave the current view for the one that the payload names.
    Redirect,
}

/// A message on its way to one connection.
#[derive(Debug, PartialEq)]
pub struct MessageToClient {
    /// What the client should do with `payload`.
    pub action_type: WebSocketActionType,
    /// The payload, opaque to the router.
    pub payload: serde_json::Value,
    /// The rendered key of the connection this message is for, if any.
    pub target_key: Option<String>,
}

impl MessageToClient {
    /// The key this message is addressed to, as a sequence of characters.
    pub open spec fn target(&self) -> Option<Seq<char>> {
        match self.target_key {
            Some(key) => Some(key@),
            None => None,
        }
    }

    /// A message with the given action, payload and target.
    pub fn new(
        action_type: WebSocketActionType,
        payload: serde_json::Value,
        target_key: Option<String>,
    ) -> (message: Self)
        ensures
            message.action_type == action_type,
            message.payload == payload,
            message.target_key == target_key,
    {
        MessageToClient { action_type, payload, target_key }
    }
}

} // verus!
