use ondc_websocket::errors::GenericError;
use ondc_websocket::handlers::{
    health_check, send_response, send_web_socket, web_socket, SendPlan,
};
use ondc_websocket::pulsar_client::{on_acknowledged, on_delivery, ConsumerStep, Delivery};
use ondc_websocket::schemas::{GenericResponse, ProcessType, WSKeyTrait, WSRequest, WebSocketParam};
use ondc_websocket::websocket::{
    perform, settle, CloseReason, MessageToClient, PushOutcome, RouteOutcome, RouteStep, Server,
    SessionAction, SessionEvent, SessionHandle, SessionState, WebSocketActionType,
};
use serde_json::Value;

const USER: u128 = 0x67e55044_10b1_426f_9247_bb680e5fe0c8;
const BUSINESS: u128 = 0x0000_0000_0000_0000_0000_0000_0000_00b2;
const KEY: &str =
    "67e55044-10b1-426f-9247-bb680e5fe0c8#00000000-0000-0000-0000-0000000000b2#phone";

fn request(process_type: Option<ProcessType>) -> WSRequest {
    WSRequest {
        user_id: Some(USER),
        business_id: Some(BUSINESS),
        device_id: Some(String::from("phone")),
        action_type: WebSocketActionType::Notify,
        data: Value::from("order ready"),
        process_type,
    }
}

fn socket() -> WebSocketParam {
    WebSocketParam { user_id: USER, business_id: BUSINESS, device_id: String::from("phone") }
}

fn expected_message() -> MessageToClient {
    MessageToClient::new(
        WebSocketActionType::Notify,
        Value::from("order ready"),
        Some(String::from(KEY)),
    )
}

#[test]
fn health_check_says_running() {
    assert_eq!(health_check(), "Running Server");
}

#[test]
fn immediate_request_goes_to_the_router() {
    assert_eq!(
        send_web_socket(request(Some(ProcessType::Immediate))),
        SendPlan::Route(expected_message())
    );
}

#[test]
fn request_without_mode_goes_to_the_queue() {
    assert_eq!(
        send_web_socket(request(None)),
        SendPlan::Publish { partition_key: String::from(KEY), message: expected_message() }
    );
}

#[test]
fn queued_request_goes_to_the_queue() {
    assert_eq!(
        send_web_socket(request(Some(ProcessType::Queued))),
        SendPlan::Publish { partition_key: String::from(KEY), message: expected_message() }
    );
}

#[test]
fn request_without_components_is_sent_to_the_placeholder_key() {
    let plan = send_web_socket(WSRequest {
        user_id: None,
        business_id: None,
        device_id: None,
        action_type: WebSocketActionType::Refresh,
        data: Value::Null,
        process_type: None,
    });
    assert_eq!(
        plan,
        SendPlan::Publish {
            partition_key: String::from("NA#NA#NA"),
            message: MessageToClient::new(
                WebSocketActionType::Refresh,
                Value::Null,
                Some(String::from("NA#NA#NA"))
            ),
        }
    );
}

#[test]
fn socket_opens_a_connecting_session_under_its_key() {
    let session = web_socket(&socket(), SessionHandle { id: 3 }, 30);
    assert_eq!(session.key(), KEY);
    assert_eq!(session.handle(), SessionHandle { id: 3 });
    assert_eq!(session.state(), SessionState::Connecting);
}

#[test]
fn send_is_answered_with_success_or_the_failure() {
    assert_eq!(
        send_response(Ok(())),
        Ok(GenericResponse {
            status: true,
            customer_message: String::from("Successfully send Web Socket Notification"),
            code: String::from("200"),
        })
    );
    assert_eq!(
        send_response(Err(String::from("broker unreachable"))),
        Err(GenericError::UnexpectedError(String::from("broker unreachable")))
    );
}

#[test]
fn connected_client_gets_an_immediate_message() {
    let mut server = Server::new();
    let handle = SessionHandle { id: 1 };
    let mut session = web_socket(&socket(), handle, 30);
    let action = session.step(SessionEvent::Connected { now: 0 });
    perform(&mut server, &action);
    assert!(server.session_exists(KEY));

    let plan = send_web_socket(request(Some(ProcessType::Immediate)));
    let message = match plan {
        SendPlan::Route(message) => message,
        SendPlan::Publish { .. } => panic!("an immediate message went to the queue"),
    };
    let pushed = match server.route(message) {
        RouteStep::Push { handle: to, message } => {
            assert_eq!(to, handle);
            message
        }
        RouteStep::NotFound => panic!("the session was not found"),
    };
    assert_eq!(settle(Some(PushOutcome::Accepted)), RouteOutcome::Delivered);
    assert_eq!(session.step(SessionEvent::Push(pushed)), SessionAction::Write(expected_message()));
}

#[test]
fn client_that_connects_late_gets_the_queued_message() {
    let mut server = Server::new();
    let plan = send_web_socket(request(None));
    let (partition_key, message) = match plan {
        SendPlan::Publish { partition_key, message } => (partition_key, message),
        SendPlan::Route(_) => panic!("a queued message went to the router"),
    };
    assert_eq!(message.target_key, Some(socket().get_ws_key()));
    let delivery = Delivery::Envelope { partition_key };
    assert_eq!(on_delivery(&server, &delivery), ConsumerStep::LeavePending);

    let handle = SessionHandle { id: 2 };
    let mut session = web_socket(&socket(), handle, 30);
    let action = session.step(SessionEvent::Connected { now: 0 });
    perform(&mut server, &action);

    assert_eq!(on_delivery(&server, &delivery), ConsumerStep::Acknowledge);
    let pushed = match on_acknowledged(&server, Some(message)) {
        RouteStep::Push { handle: to, message } => {
            assert_eq!(to, handle);
            message
        }
        RouteStep::NotFound => panic!("the session was not found"),
    };
    assert_eq!(settle(Some(PushOutcome::Accepted)), RouteOutcome::Delivered);
    assert_eq!(session.step(SessionEvent::Push(pushed)), SessionAction::Write(expected_message()));
}

#[test]
fn reconnect_keeps_the_new_session_reachable() {
    let mut server = Server::new();
    let mut old = web_socket(&socket(), SessionHandle { id: 1 }, 30);
    let mut new = web_socket(&socket(), SessionHandle { id: 2 }, 30);
    let action = old.step(SessionEvent::Connected { now: 0 });
    perform(&mut server, &action);
    let action = new.step(SessionEvent::Connected { now: 1 });
    perform(&mut server, &action);
    old.step(SessionEvent::Close(CloseReason::TransportError));
    let action = old.step(SessionEvent::Drained);
    perform(&mut server, &action);
    assert!(server.session_exists(KEY));
    let step = server.route(expected_message());
    assert_eq!(
        step,
        RouteStep::Push { handle: SessionHandle { id: 2 }, message: expected_message() }
    );
}

#[test]
fn sends_to_one_connection_share_one_partition_key() {
    let mut second = request(None);
    second.action_type = WebSocketActionType::Redirect;
    second.data = Value::from(2);
    let first_key = match send_web_socket(request(Some(ProcessType::Queued))) {
        SendPlan::Publish { partition_key, .. } => partition_key,
        SendPlan::Route(_) => panic!("a queued message went to the router"),
    };
    let second_key = match send_web_socket(second) {
        SendPlan::Publish { partition_key, .. } => partition_key,
        SendPlan::Route(_) => panic!("a queued message went to the router"),
    };
    assert_eq!(first_key, second_key);
    assert_eq!(first_key, KEY);
}

#[test]
fn closed_session_leaves_no_entry_behind() {
    let mut server = Server::new();
    let mut session = web_socket(&socket(), SessionHandle { id: 1 }, 30);
    let action = session.step(SessionEvent::Connected { now: 0 });
    perform(&mut server, &action);
    let action = session.step(SessionEvent::Tick { now: 31 });
    assert_eq!(action, SessionAction::Drain);
    perform(&mut server, &action);
    assert!(server.session_exists(KEY));
    let action = session.step(SessionEvent::Drained);
    perform(&mut server, &action);
    assert!(!server.session_exists(KEY));
    assert_eq!(server.route(expected_message()), RouteStep::NotFound);
}
