//! The bridge between the durable queue and the router: the envelope that
//! travels through the queue, and what the consumer does with each delivery.

use vstd::prelude::*;
use crate::schemas::PulsarSetting;
use crate::websocket::message::MessageToClient;
use crate::websocket::server::{route_step, RouteStep, Server, SessionHandle};

verus! {

/// The unit that travels through the queue: a serialised message under the
/// rendered key of the connection it is for. The queue keeps the envelopes
/// of one partition key in the order in which they were published.
#[derive(Debug, PartialEq, Eq)]
pub struct MessageData {
    /// The message, serialised.
    pub data: String,
    /// The rendered connection key.
    pub partition_key: String,
}

impl MessageData {
    /// The envelope of a serialised message for the connection under `key`.
    pub fn new(key: String, data: String) -> (envelope: Self)
        ensures
            envelope.partition_key == key,
            envelope.data == data,
    {
        MessageData { data, partition_key: key }
    }
}

/// The full name of the topic that the producer publishes to.
pub open spec fn product_topic(topic_name: Seq<char>) -> Seq<char> {
    "persistent://public/default/"@ + topic_name
}

/// How the consumer subscribes to the queue.
#[derive(Debug, PartialEq, Eq)]
pub struct ConsumerOptions {
    /// The topic to read, by its short name.
    pub topic: String,
    pub consumer_name: String,
    pub subscription: String,
    /// Whether the subscription is shared by key: the envelopes of one
    /// partition key then reach one consumer, in the order of publishing.
    pub key_shared: bool,
    /// After how many seconds the queue delivers again an envelope that was
    /// not acknowledged.
    pub unacked_resend_delay: u64,
}

impl PulsarSetting {
    /// The full name of the topic that the producer publishes to: the topic
    /// in the public tenant's default namespace, persistent.
    pub fn get_product_topic(&self) -> (topic: String)
        ensures
            topic@ == product_topic(self.topic@),
    {
        "persistent://public/default/".to_owned().concat(self.topic.as_str())
    }

    /// The options of the gateway's consumer under the names that the
    /// setting gives it.
    pub fn consumer_options(&self) -> (options: ConsumerOptions)
        ensures
            options.topic@ == self.topic@,
            options.consumer_name@ == self.consumer@,
            options.subscription@ == self.subscription@,
            options.key_shared,
            options.unacked_resend_delay == 10,
    {
        self.get_consumer(self.consumer.clone(), self.subscription.clone())
    }

    /// The options of the gateway's consumer under the given names: a
    /// subscription shared by key on the topic, with unacknowledged
    /// envelopes delivered again after ten seconds.
    pub fn get_consumer(&self, consumer_name: String, subscription: String) -> (options:
        ConsumerOptions)
        ensures
            options.topic@ == self.topic@,
            options.consumer_name == consumer_name,
            options.subscription == subscription,
            options.key_shared,
            options.unacked_resend_delay == 10,
    {
        ConsumerOptions {
            topic: self.topic.clone(),
            consumer_name,
            subscription,
            key_shared: true,
            unacked_resend_delay: 10,
        }
    }
}

/// What the queue handed to the consumer.
#[derive(Debug, PartialEq, Eq)]
pub enum Delivery {
    /// An envelope, published under `partition_key`.
    Envelope { partition_key: String },
    /// Nothing usable: the receive failed.
    Failed,
}

/// What the consumer does with a delivery.
#[derive(Clone, Copy, Debug, PartialEq, Eq, Structural)]
pub enum ConsumerStep {
    /// Acknowledge the envelope first, then decode and route its message.
    Acknowledge,
    /// Do not acknowledge: the queue will deliver the envelope again.
    LeavePending,
    /// Nothing to act on. The consumer goes on to the next delivery.
    Skip,
}

/// What the consumer does with a delivery, on the given registry: an
/// envelope is acknowledged exactly when a session is registered under its
/// partition key.
pub open spec fn consumer_step(
    registry: Map<Seq<char>, SessionHandle>,
    delivery: Delivery,
) -> ConsumerStep {
    match delivery {
        Delivery::Envelope { partition_key } => if registry.contains_key(partition_key@) {
            ConsumerStep::Acknowledge
        } else {
            ConsumerStep::LeavePending
        },
        Delivery::Failed => ConsumerStep::Skip,
    }
}

/// What the consumer does once the router was asked about a delivery:
/// what the router answered, and where no answer came, the envelope is left
/// pending, as if no session were there.
pub open spec fn answered(answer: Option<ConsumerStep>) -> ConsumerStep {
    match answer {
        Some(step) => step,
        None => ConsumerStep::LeavePending,
    }
}

/// Where the message of an acknowledged envelope goes: where the router
/// sends it, or nowhere if the payload did not decode.
pub open spec fn acknowledged_step(
    registry: Map<Seq<char>, SessionHandle>,
    decoded: Option<MessageToClient>,
) -> RouteStep {
    match decoded {
        Some(message) => route_step(registry, message),
        None => RouteStep::NotFound,
    }
}

/// Decides what to do with one delivery. A failed receive is skipped and
/// never stops the consumer.
pub fn on_delivery(server: &Server, delivery: &Delivery) -> (step: ConsumerStep)
    ensures
        step == consumer_step(server@, *delivery),
{
    match delivery {
        Delivery::Envelope { partition_key } => {
            if server.session_exists(partition_key.as_str()) {
                ConsumerStep::Acknowledge
            } else {
                ConsumerStep::LeavePending
            }
        },
        Delivery::Failed => ConsumerStep::Skip,
    }
}

/// Settles what the consumer does with a delivery, given the router's
/// answer, or `None` where the router could not be asked.
pub fn on_answer(answer: Option<ConsumerStep>) -> (step: ConsumerStep)
    ensures
        step == answered(answer),
{
    match answer {
        Some(step) => step,
        None => ConsumerStep::LeavePending,
    }
}

/// Routes the message of an envelope that has just been acknowledged.
/// `decoded` is what the payload decoded to, `None` if it did not decode:
/// such an envelope stays consumed and nothing is pushed.
pub fn on_acknowledged(server: &Server, decoded: Option<MessageToClient>) -> (step: RouteStep)
    ensures
        step == acknowledged_step(server@, decoded),
{
    match decoded {
        Some(message) => server.route(message),
        None => RouteStep::NotFound,
    }
}

/// An envelope for a key without a session is left pending. Once a session
/// has registered under the key, the same envelope is acknowledged, and its
/// message is pushed once, to that session.
pub proof fn lemma_pending_until_registered(
    registry: Map<Seq<char>, SessionHandle>,
    delivery: Delivery,
    message: MessageToClient,
    handle: SessionHandle,
)
    requires
        delivery is Envelope,
        !registry.contains_key(delivery->partition_key@),
        message.target() == Some(delivery->partition_key@),
    ensures
        consumer_step(registry, delivery) == ConsumerStep::LeavePending,
        consumer_step(registry.insert(delivery->partition_key@, handle), delivery)
            == ConsumerStep::Acknowledge,
        acknowledged_step(registry.insert(delivery->partition_key@, handle), Some(message)) == (
        RouteStep::Push { handle, message }),
{
}

/// Where the consumer stands with the envelope it holds.
#[derive(Clone, Copy, Debug, PartialEq, Eq, Structural)]
pub enum ConsumerState {
    /// Nothing is under way.
    Waiting,
    /// The envelope is being acknowledged.
    Acknowledging,
    /// The envelope was acknowledged; its payload is being decoded.
    Decoding,
}

/// Something that happens to the consumer.
#[derive(Debug, PartialEq)]
pub enum ConsumerEvent {
    /// The router's answer about a delivery came, or `None` in its place.
    Answered(Option<ConsumerStep>),
    /// The acknowledgement of the envelope in hand was sent, or failed.
    Acknowledged,
    /// The payload of the envelope in hand was decoded, to `None` where it
    /// does not decode.
    Decoded(Option<MessageToClient>),
}

/// What the consumer has to do next.
#[derive(Debug, PartialEq)]
pub enum ConsumerAction {
    /// Acknowledge the envelope, then report `Acknowledged`.
    Acknowledge,
    /// Do not acknowledge: the queue will deliver the envelope again.
    LeavePending,
    /// Decode the payload of the envelope, then report `Decoded`.
    Decode,
    /// Hand the message to the router.
    Route(MessageToClient),
    /// Nothing. The consumer goes on to the next delivery.
    Skip,
}

/// Where the consumer stands after `event`. An answer starts anew, whatever
/// was under way. Acknowledging leads to decoding, and to nothing else.
pub open spec fn consumer_after(state: ConsumerState, event: ConsumerEvent) -> ConsumerState {
    match event {
        ConsumerEvent::Answered(answer) => if answered(answer) == ConsumerStep::Acknowledge {
            ConsumerState::Acknowledging
        } else {
            ConsumerState::Waiting
        },
        ConsumerEvent::Acknowledged => if state == ConsumerState::Acknowledging {
            ConsumerState::Decoding
        } else {
            ConsumerState::Waiting
        },
        ConsumerEvent::Decoded(_) => ConsumerState::Waiting,
    }
}

/// What `event` asks of the consumer that stands at `state`. A message goes
/// to the router only when it was decoded from an envelope that had been
/// acknowledged and names the connection it is for; a payload that does
/// not decode, or whose message names no connection, is skipped.
pub open spec fn consumer_action(state: ConsumerState, event: ConsumerEvent) -> ConsumerAction {
    match event {
        ConsumerEvent::Answered(answer) => match answered(answer) {
            ConsumerStep::Acknowledge => ConsumerAction::Acknowledge,
            ConsumerStep::LeavePending => ConsumerAction::LeavePending,
            ConsumerStep::Skip => ConsumerAction::Skip,
        },
        ConsumerEvent::Acknowledged => if state == ConsumerState::Acknowledging {
            ConsumerAction::Decode
        } else {
            ConsumerAction::Skip
        },
        ConsumerEvent::Decoded(decoded) => match decoded {
            Some(message) if state == ConsumerState::Decoding && message.target() is Some =>
                ConsumerAction::Route(message),
            _ => ConsumerAction::Skip,
        },
    }
}

/// Where a consumer that started waiting stands after `events`, in order.
pub open spec fn consumer_ran(events: Seq<ConsumerEvent>) -> ConsumerState
    decreases events.len(),
{
    if events.len() == 0 {
        ConsumerState::Waiting
    } else {
        consumer_after(consumer_ran(events.drop_last()), events.last())
    }
}

/// The consumer of the queue. It keeps the order of what follows a
/// delivery: ask the router, acknowledge, decode, route.
pub struct QueueConsumer {
    state: ConsumerState,
}

impl View for QueueConsumer {
    type V = ConsumerState;

    closed spec fn view(&self) -> ConsumerState {
        self.state
    }
}

impl QueueConsumer {
    /// A consumer that waits for its first delivery.
    pub fn new() -> (consumer: Self)
        ensures
            consumer@ == ConsumerState::Waiting,
    {
        QueueConsumer { state: ConsumerState::Waiting }
    }

    /// Takes one event: moves the consumer on and says what is to be done.
    pub fn step(&mut self, event: ConsumerEvent) -> (action: ConsumerAction)
        ensures
            final(self)@ == consumer_after(old(self)@, event),
            action == consumer_action(old(self)@, event),
    {
        match event {
            ConsumerEvent::Answered(answer) => match on_answer(answer) {
                ConsumerStep::Acknowledge => {
                    self.state = ConsumerState::Acknowledging;
                    ConsumerAction::Acknowledge
                },
                ConsumerStep::LeavePending => {
                    self.state = ConsumerState::Waiting;
                    ConsumerAction::LeavePending
                },
                ConsumerStep::Skip => {
                    self.state = ConsumerState::Waiting;
                    ConsumerAction::Skip
                },
            },
            ConsumerEvent::Acknowledged => match self.state {
                ConsumerState::Acknowledging => {
                    self.state = ConsumerState::Decoding;
                    ConsumerAction::Decode
                },
                _ => {
                    self.state = ConsumerState::Waiting;
                    ConsumerAction::Skip
                },
            },
            ConsumerEvent::Decoded(decoded) => {
                let decoding = match self.state {
                    ConsumerState::Decoding => true,
                    _ => false,
                };
                self.state = ConsumerState::Waiting;
                match decoded {
                    Some(message) => {
                        if decoding && message.target_key.is_some() {
                            ConsumerAction::Route(message)
                        } else {
                            ConsumerAction::Skip
                        }
                    },
                    None => ConsumerAction::Skip,
                }
            },
        }
    }
}

/// What the `i`-th of `events` asks of a consumer that started waiting and
/// went through the events before it.
pub open spec fn consumer_action_at(events: Seq<ConsumerEvent>, i: int) -> ConsumerAction {
    consumer_action(consumer_ran(events.take(i)), events[i])
}

/// Whether `event` is an answer that tells the consumer to acknowledge.
pub open spec fn tells_to_acknowledge(event: ConsumerEvent) -> bool {
    event matches ConsumerEvent::Answered(answer) && answered(answer) == ConsumerStep::Acknowledge
}

/// Acknowledging comes before decoding, and decoding before routing. If
/// the `i`-th event makes the consumer decode, it is an acknowledgement and
/// the event before it was the answer that told it to acknowledge. If the
/// `i`-th event sends a message to the router, the message was decoded by
/// that event and names a connection, the event before it was the
/// acknowledgement, and the one before that the answer that told the
/// consumer to acknowledge.
pub proof fn lemma_acknowledge_decode_route_in_order(events: Seq<ConsumerEvent>, i: int)
    requires
        0 <= i < events.len(),
    ensures
        consumer_action_at(events, i) is Decode ==> i >= 1 && events[i] is Acknowledged
            && tells_to_acknowledge(events[i - 1]),
        consumer_action_at(events, i) is Route ==> i >= 2 && events[i] is Decoded
            && events[i]->Decoded_0 == Some(consumer_action_at(events, i)->Route_0)
            && consumer_action_at(events, i)->Route_0.target() is Some
            && events[i - 1] is Acknowledged && tells_to_acknowledge(events[i - 2]),
{
    if i >= 1 {
        let earlier = events.take(i - 1);
        assert(events.take(i).drop_last() == earlier);
        assert(consumer_ran(events.take(i)) == consumer_after(
            consumer_ran(earlier),
            events[i - 1],
        ));
        if i >= 2 {
            assert(consumer_ran(earlier) == consumer_after(
                consumer_ran(earlier.drop_last()),
                events[i - 2],
            ));
        }
    }
}

} // verus!
