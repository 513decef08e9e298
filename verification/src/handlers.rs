//! What the two endpoints decide: under which key a socket is opened, and
//! which way a message that is to be sent travels.

use vstd::prelude::*;
use crate::errors::GenericError;
use crate::key::{lemma_key_is_injective, or_placeholder};
use crate::schemas::{GenericResponse, ProcessType, WSKeyTrait, WSRequest, WebSocketParam};
use crate::websocket::gateway::{sound, Gateway};
use crate::websocket::message::MessageToClient;
use crate::websocket::server::{route_step, RouteStep, SessionHandle};
use crate::websocket::session::{SessionState, SessionView, WebSocketSession};

verus! {

/// The way a message travels.
#[derive(Debug, PartialEq)]
pub enum SendPlan {
    /// Hand the message to the router now.
    Route(MessageToClient),
    /// Publish the message, serialised, to the queue under `partition_key`.
    Publish { partition_key: String, message: MessageToClient },
}

/// Whether `message` is the message that `request` asks to send: its action
/// and payload, addressed to the key of the request.
pub open spec fn is_message_of(message: MessageToClient, request: WSRequest) -> bool {
    &&& message.action_type == request.action_type
    &&& message.payload == request.data
    &&& message.target() == Some(request.ws_key())
}

/// Whether `plan` is the way the message of `request` travels: through the
/// router if the request says `Immediate`, else through the queue, under
/// the key of the request.
pub open spec fn is_plan_of(plan: SendPlan, request: WSRequest) -> bool {
    match plan {
        SendPlan::Route(message) => request.process_type == Some(ProcessType::Immediate)
            && is_message_of(message, request),
        SendPlan::Publish { partition_key, message } => request.process_type != Some(
            ProcessType::Immediate,
        ) && partition_key@ == request.ws_key() && is_message_of(message, request),
    }
}

/// Says that the gateway is running.
pub fn health_check() -> (body: String)
    ensures
        body@ == "Running Server"@,
{
    "Running Server".to_owned()
}

/// Opens the session of a client that has completed nothing yet: it stands
/// under the key of the client's three components and waits for the
/// handshake.
pub fn web_socket(query: &WebSocketParam, handle: SessionHandle, timeout: u64) -> (session:
    WebSocketSession)
    ensures
        session@ == (SessionView {
            key: query.ws_key(),
            handle,
            state: SessionState::Connecting,
            last_seen: 0,
            timeout,
        }),
{
    WebSocketSession::new(query.get_ws_key(), handle, timeout)
}

/// Decides which way the message of a request travels.
pub fn send_web_socket(req: WSRequest) -> (plan: SendPlan)
    ensures
        is_plan_of(plan, req),
{
    let key = req.get_ws_key();
    let immediate = match req.process_type {
        Some(ProcessType::Immediate) => true,
        _ => false,
    };
    if immediate {
        SendPlan::Route(MessageToClient::new(req.action_type, req.data, Some(key)))
    } else {
        let partition_key = key.clone();
        SendPlan::Publish {
            partition_key,
            message: MessageToClient::new(req.action_type, req.data, Some(key)),
        }
    }
}

/// All that is sent through the queue to one connection travels under one
/// partition key, the key of the connection: two requests with the same
/// three components are published under the same key.
pub proof fn lemma_one_partition_per_connection(
    first: WSRequest,
    second: WSRequest,
    first_plan: SendPlan,
    second_plan: SendPlan,
)
    requires
        first.user_id == second.user_id,
        first.business_id == second.business_id,
        first.device() == second.device(),
        is_plan_of(first_plan, first),
        is_plan_of(second_plan, second),
    ensures
        first_plan is Publish && second_plan is Publish ==> first_plan->partition_key@
            == second_plan->partition_key@,
        first_plan is Publish && second_plan is Publish ==> first_plan->message.target()
            == second_plan->message.target(),
        first_plan is Publish ==> first_plan->message.target() == Some(
            first_plan->partition_key@,
        ),
{
}

/// A message reaches the connection it was sent to and no other. In a sound
/// gateway, if the message of `request` is pushed to the handle of a
/// session that was opened for `socket`, then the request names the user,
/// the business and the device of that socket.
pub proof fn lemma_message_reaches_its_connection(
    gateway: Gateway,
    request: WSRequest,
    message: MessageToClient,
    socket: WebSocketParam,
    index: int,
)
    requires
        sound(gateway),
        is_message_of(message, request),
        0 <= index < gateway.sessions.len(),
        gateway.sessions[index].key == socket.ws_key(),
        route_step(gateway.registry, message) is Push,
        route_step(gateway.registry, message)->handle == gateway.sessions[index].handle,
    ensures
        request.user_id == Some(socket.user_id),
        request.business_id == Some(socket.business_id),
        or_placeholder(request.device()) == socket.device_id@,
{
    lemma_key_is_injective(
        request.user_id,
        request.business_id,
        or_placeholder(request.device()),
        Some(socket.user_id),
        Some(socket.business_id),
        socket.device_id@,
    );
}

/// Whether `result` answers a send whose publishing ended as `published`:
/// the success envelope, or the failure with the text it came with.
pub open spec fn is_answer_of(
    result: Result<GenericResponse, GenericError>,
    published: Result<(), String>,
) -> bool {
    match published {
        Ok(_) => result matches Ok(response) && response.status && response.customer_message@
            == "Successfully send Web Socket Notification"@ && response.code@ == "200"@,
        Err(reason) => result == Err::<GenericResponse, GenericError>(
            GenericError::UnexpectedError(reason),
        ),
    }
}

/// Answers a send. A message that went to the router, or that the queue
/// took, is answered with success; a failure to publish is told as it is.
pub fn send_response(published: Result<(), String>) -> (result: Result<
    GenericResponse,
    GenericError,
>)
    ensures
        is_answer_of(result, published),
{
    match published {
        Ok(_) => Ok(GenericResponse::success("Successfully send Web Socket Notification")),
        Err(reason) => Err(GenericError::UnexpectedError(reason)),
    }
}

} // verus!
