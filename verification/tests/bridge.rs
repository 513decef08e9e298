use ondc_websocket::pulsar_client::{
    on_acknowledged, on_answer, on_delivery, ConsumerAction, ConsumerEvent, ConsumerOptions,
    ConsumerStep, Delivery, MessageData, QueueConsumer,
};
use ondc_websocket::schemas::PulsarSetting;
use ondc_websocket::websocket::{
    settle, MessageToClient, PushOutcome, RouteOutcome, RouteStep, Server, SessionHandle,
    WebSocketActionType,
};
use serde_json::Value;

fn setting(topic: &str) -> PulsarSetting {
    PulsarSetting {
        topic: String::from(topic),
        consumer: String::from("c"),
        subscription: String::from("s"),
        url: String::from("pulsar://localhost:6650"),
    }
}

fn envelope(key: &str) -> Delivery {
    Delivery::Envelope { partition_key: String::from(key) }
}

fn message(key: &str) -> MessageToClient {
    MessageToClient::new(WebSocketActionType::Notify, Value::from("hi"), Some(String::from(key)))
}

#[test]
fn envelope_without_session_is_left_pending() {
    let server = Server::new();
    assert_eq!(on_delivery(&server, &envelope("k")), ConsumerStep::LeavePending);
}

#[test]
fn envelope_with_session_is_acknowledged() {
    let mut server = Server::new();
    server.register(String::from("k"), SessionHandle { id: 1 });
    assert_eq!(on_delivery(&server, &envelope("k")), ConsumerStep::Acknowledge);
    assert_eq!(on_delivery(&server, &envelope("other")), ConsumerStep::LeavePending);
}

#[test]
fn failed_receive_is_skipped() {
    let mut server = Server::new();
    assert_eq!(on_delivery(&server, &Delivery::Failed), ConsumerStep::Skip);
    server.register(String::from("k"), SessionHandle { id: 1 });
    assert_eq!(on_delivery(&server, &Delivery::Failed), ConsumerStep::Skip);
}

#[test]
fn redelivery_after_register_is_acknowledged_and_routed_once() {
    let mut server = Server::new();
    let delivery = envelope("k");
    assert_eq!(on_delivery(&server, &delivery), ConsumerStep::LeavePending);
    assert_eq!(on_delivery(&server, &delivery), ConsumerStep::LeavePending);
    let handle = SessionHandle { id: 5 };
    server.register(String::from("k"), handle);
    assert_eq!(on_delivery(&server, &delivery), ConsumerStep::Acknowledge);
    let step = on_acknowledged(&server, Some(message("k")));
    assert_eq!(step, RouteStep::Push { handle, message: message("k") });
    assert_eq!(settle(Some(PushOutcome::Accepted)), RouteOutcome::Delivered);
}

#[test]
fn acknowledged_envelope_of_a_vanished_session_is_not_found() {
    let mut server = Server::new();
    let handle = SessionHandle { id: 5 };
    server.register(String::from("k"), handle);
    assert_eq!(on_delivery(&server, &envelope("k")), ConsumerStep::Acknowledge);
    server.deregister("k", handle);
    assert_eq!(on_acknowledged(&server, Some(message("k"))), RouteStep::NotFound);
}

#[test]
fn undecodable_payload_is_skipped_after_acknowledge() {
    let mut server = Server::new();
    server.register(String::from("k"), SessionHandle { id: 5 });
    assert_eq!(on_acknowledged(&server, None), RouteStep::NotFound);
    assert_eq!(on_delivery(&server, &envelope("k")), ConsumerStep::Acknowledge);
}

#[test]
fn product_topic_is_persistent_public_default() {
    assert_eq!(setting("events").get_product_topic(), "persistent://public/default/events");
    assert_eq!(setting("").get_product_topic(), "persistent://public/default/");
}

#[test]
fn consumer_is_key_shared_with_ten_second_resend() {
    let options = setting("events").get_consumer(String::from("name"), String::from("sub"));
    assert_eq!(
        options,
        ConsumerOptions {
            topic: String::from("events"),
            consumer_name: String::from("name"),
            subscription: String::from("sub"),
            key_shared: true,
            unacked_resend_delay: 10,
        }
    );
}

#[test]
fn envelope_keeps_key_and_data() {
    let made = MessageData::new(String::from("k"), String::from("{}"));
    assert_eq!(made.partition_key, "k");
    assert_eq!(made.data, "{}");
}

#[test]
fn consumer_takes_its_names_from_the_setting() {
    assert_eq!(
        setting("events").consumer_options(),
        ConsumerOptions {
            topic: String::from("events"),
            consumer_name: String::from("c"),
            subscription: String::from("s"),
            key_shared: true,
            unacked_resend_delay: 10,
        }
    );
}

#[test]
fn unanswered_liveness_leaves_the_envelope_pending() {
    assert_eq!(on_answer(None), ConsumerStep::LeavePending);
    assert_eq!(on_answer(Some(ConsumerStep::Acknowledge)), ConsumerStep::Acknowledge);
    assert_eq!(on_answer(Some(ConsumerStep::LeavePending)), ConsumerStep::LeavePending);
    assert_eq!(on_answer(Some(ConsumerStep::Skip)), ConsumerStep::Skip);
}

#[test]
fn consumer_acknowledges_then_decodes_then_routes() {
    let mut consumer = QueueConsumer::new();
    assert_eq!(
        consumer.step(ConsumerEvent::Answered(Some(ConsumerStep::Acknowledge))),
        ConsumerAction::Acknowledge
    );
    assert_eq!(consumer.step(ConsumerEvent::Acknowledged), ConsumerAction::Decode);
    assert_eq!(
        consumer.step(ConsumerEvent::Decoded(Some(message("k")))),
        ConsumerAction::Route(message("k"))
    );
    assert_eq!(consumer.step(ConsumerEvent::Decoded(Some(message("k")))), ConsumerAction::Skip);
}

#[test]
fn consumer_routes_nothing_out_of_order() {
    let mut consumer = QueueConsumer::new();
    assert_eq!(consumer.step(ConsumerEvent::Decoded(Some(message("k")))), ConsumerAction::Skip);
    assert_eq!(consumer.step(ConsumerEvent::Acknowledged), ConsumerAction::Skip);
    assert_eq!(consumer.step(ConsumerEvent::Decoded(Some(message("k")))), ConsumerAction::Skip);
    assert_eq!(
        consumer.step(ConsumerEvent::Answered(Some(ConsumerStep::Acknowledge))),
        ConsumerAction::Acknowledge
    );
    assert_eq!(consumer.step(ConsumerEvent::Decoded(Some(message("k")))), ConsumerAction::Skip);
    assert_eq!(consumer.step(ConsumerEvent::Acknowledged), ConsumerAction::Skip);
}

#[test]
fn consumer_leaves_pending_or_skips_without_acknowledging() {
    let mut consumer = QueueConsumer::new();
    assert_eq!(
        consumer.step(ConsumerEvent::Answered(Some(ConsumerStep::LeavePending))),
        ConsumerAction::LeavePending
    );
    assert_eq!(consumer.step(ConsumerEvent::Acknowledged), ConsumerAction::Skip);
    assert_eq!(consumer.step(ConsumerEvent::Answered(None)), ConsumerAction::LeavePending);
    assert_eq!(consumer.step(ConsumerEvent::Acknowledged), ConsumerAction::Skip);
    assert_eq!(
        consumer.step(ConsumerEvent::Answered(Some(ConsumerStep::Skip))),
        ConsumerAction::Skip
    );
    assert_eq!(consumer.step(ConsumerEvent::Acknowledged), ConsumerAction::Skip);
}

#[test]
fn new_answer_starts_anew() {
    let mut consumer = QueueConsumer::new();
    consumer.step(ConsumerEvent::Answered(Some(ConsumerStep::Acknowledge)));
    consumer.step(ConsumerEvent::Acknowledged);
    assert_eq!(consumer.step(ConsumerEvent::Answered(None)), ConsumerAction::LeavePending);
    assert_eq!(consumer.step(ConsumerEvent::Decoded(Some(message("k")))), ConsumerAction::Skip);
}

#[test]
fn acknowledged_envelope_that_does_not_decode_is_skipped() {
    let mut consumer = QueueConsumer::new();
    consumer.step(ConsumerEvent::Answered(Some(ConsumerStep::Acknowledge)));
    assert_eq!(consumer.step(ConsumerEvent::Acknowledged), ConsumerAction::Decode);
    assert_eq!(consumer.step(ConsumerEvent::Decoded(None)), ConsumerAction::Skip);
}

#[test]
fn consumer_goes_from_delivery_to_push_in_order() {
    let mut server = Server::new();
    let handle = SessionHandle { id: 8 };
    server.register(String::from("k"), handle);
    let mut consumer = QueueConsumer::new();
    let answer = Some(on_delivery(&server, &envelope("k")));
    assert_eq!(consumer.step(ConsumerEvent::Answered(answer)), ConsumerAction::Acknowledge);
    assert_eq!(consumer.step(ConsumerEvent::Acknowledged), ConsumerAction::Decode);
    let freed = match consumer.step(ConsumerEvent::Decoded(Some(message("k")))) {
        ConsumerAction::Route(message) => message,
        other => panic!("nothing was routed: {:?}", other),
    };
    assert_eq!(
        on_acknowledged(&server, Some(freed)),
        RouteStep::Push { handle, message: message("k") }
    );
}

#[test]
fn decoded_message_without_target_is_skipped() {
    let mut consumer = QueueConsumer::new();
    consumer.step(ConsumerEvent::Answered(Some(ConsumerStep::Acknowledge)));
    consumer.step(ConsumerEvent::Acknowledged);
    let nameless = MessageToClient::new(WebSocketActionType::Notify, Value::from("hi"), None);
    assert_eq!(consumer.step(ConsumerEvent::Decoded(Some(nameless))), ConsumerAction::Skip);
}
