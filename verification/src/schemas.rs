//! The values that cross the boundary of the gateway: what a request
//! carries, what a response says, and the key that both sides derive.

use vstd::prelude::*;
use crate::key::{
    hyphenated, lemma_key_is_injective, or_placeholder, render, render_token, rendered,
    token_text,
};
use crate::websocket::message::WebSocketActionType;

verus! {

/// The claims of a bearer token.
#[derive(Debug, PartialEq, Eq)]
pub struct JWTClaims {
    /// The subject the token was issued to.
    pub sub: String,
    /// When the token expires, in seconds since the epoch.
    pub exp: usize,
}

/// The envelope of every response: whether the call succeeded, a message
/// for the customer, and a code.
#[derive(Debug, PartialEq, Eq)]
pub struct GenericResponse {
    pub status: bool,
    pub customer_message: String,
    pub code: String,
}

impl GenericResponse {
    /// The response to a call that succeeded: code `200`.
    pub fn success(message: &str) -> (response: Self)
        ensures
            response.status,
            response.customer_message@ == message@,
            response.code@ == "200"@,
    {
        GenericResponse {
            status: true,
            customer_message: message.to_owned(),
            code: "200".to_owned(),
        }
    }

    /// The response to a call that failed, with the given code.
    pub fn error(message: &str, code: &str) -> (response: Self)
        ensures
            !response.status,
            response.customer_message@ == message@,
            response.code@ == code@,
    {
        GenericResponse {
            status: false,
            customer_message: message.to_owned(),
            code: code.to_owned(),
        }
    }
}

/// Where the gateway listens, and with how many workers.
#[derive(Debug, PartialEq, Eq)]
pub struct ApplicationSetting {
    pub port: u16,
    pub host: String,
    pub workers: usize,
}

/// The decimal digits of `n`, without a sign and without leading zeros.
pub open spec fn decimal(n: nat) -> Seq<char>
    decreases n,
{
    if n < 10 {
        seq!["0123456789"@[n as int]]
    } else {
        decimal(n / 10).push("0123456789"@[(n % 10) as int])
    }
}

/// Writes a port number down. This is `to_string` of std on a `u16`: the
/// number in decimal digits.
#[verifier::external_body]
fn port_text(port: u16) -> (text: String)
    ensures
        text@ == decimal(port as nat),
{
    port.to_string()
}

impl ApplicationSetting {
    /// The address to listen on: the host, a colon, the port.
    pub fn address(&self) -> (address: String)
        ensures
            address@ == self.host@ + ":"@ + decimal(self.port as nat),
    {
        let mut address = self.host.clone();
        address.append(":");
        address.append(port_text(self.port).as_str());
        address
    }
}

/// Where the queue is, and under which names the gateway talks to it.
#[derive(Debug, PartialEq, Eq)]
pub struct PulsarSetting {
    pub topic: String,
    pub consumer: String,
    pub subscription: String,
    pub url: String,
}

/// How a message is to reach its connection.
#[derive(Clone, Copy, Debug, PartialEq, Eq, Structural)]
pub enum ProcessType {
    /// Straight through the router, past the queue.
    Immediate,
    /// Through the durable queue.
    Queued,
}

/// Whatever has a connection key.
pub trait WSKeyTrait {
    /// The rendered connection key.
    spec fn ws_key(&self) -> Seq<char>;

    /// Renders the connection key. The same components always give the same
    /// key, and every value has one.
    fn get_ws_key(&self) -> (key: String)
        ensures
            key@ == self.ws_key(),
    ;
}

/// What a client gives when it opens its socket.
#[derive(Debug, PartialEq, Eq)]
pub struct WebSocketParam {
    /// The identity token of the user.
    pub user_id: u128,
    /// The identity token of the business.
    pub business_id: u128,
    /// The device, in the client's own words.
    pub device_id: String,
}

impl WSKeyTrait for WebSocketParam {
    open spec fn ws_key(&self) -> Seq<char> {
        rendered(hyphenated(self.user_id), hyphenated(self.business_id), self.device_id@)
    }

    fn get_ws_key(&self) -> (key: String) {
        let user = render_token(Some(self.user_id));
        let business = render_token(Some(self.business_id));
        render(user, business.as_str(), self.device_id.as_str())
    }
}

/// A request to send one message to one connection.
#[derive(Debug, PartialEq)]
pub struct WSRequest {
    pub user_id: Option<u128>,
    pub business_id: Option<u128>,
    pub device_id: Option<String>,
    /// What the client should do with `data`.
    pub action_type: WebSocketActionType,
    /// The payload.
    pub data: serde_json::Value,
    /// How the message is to travel; through the queue where nothing is said.
    pub process_type: Option<ProcessType>,
}

impl WSRequest {
    /// The text of the device, if the request names one.
    pub open spec fn device(&self) -> Option<Seq<char>> {
        match self.device_id {
            Some(device) => Some(device@),
            None => None,
        }
    }
}

impl WSKeyTrait for WSRequest {
    open spec fn ws_key(&self) -> Seq<char> {
        rendered(
            token_text(self.user_id),
            token_text(self.business_id),
            or_placeholder(self.device()),
        )
    }

    fn get_ws_key(&self) -> (key: String) {
        let user = render_token(self.user_id);
        let business = render_token(self.business_id);
        match &self.device_id {
            Some(device) => render(user, business.as_str(), device.as_str()),
            None => render(user, business.as_str(), "NA"),
        }
    }
}

/// A request that names no component has the key `NA#NA#NA`.
pub proof fn lemma_key_of_empty_request(request: WSRequest)
    requires
        request.user_id is None,
        request.business_id is None,
        request.device_id is None,
    ensures
        request.ws_key() == "NA#NA#NA"@,
{
    crate::key::lemma_key_of_nothing();
}

/// Two requests with the same three components have the same key, whatever
/// else they carry.
pub proof fn lemma_request_key_is_deterministic(first: WSRequest, second: WSRequest)
    requires
        first.user_id == second.user_id,
        first.business_id == second.business_id,
        first.device() == second.device(),
    ensures
        first.ws_key() == second.ws_key(),
{
}

/// A request that names all three components addresses the connection that
/// was opened with the same three.
pub proof fn lemma_request_key_meets_socket_key(request: WSRequest, socket: WebSocketParam)
    requires
        request.user_id == Some(socket.user_id),
        request.business_id == Some(socket.business_id),
        request.device() == Some(socket.device_id@),
    ensures
        request.ws_key() == socket.ws_key(),
{
}

/// Two requests have the same key only if they name the same user and the
/// same business, and devices with the same text. The key tells a device
/// that is missing from one that is called `NA` no further apart.
pub proof fn lemma_request_key_is_injective(first: WSRequest, second: WSRequest)
    requires
        first.ws_key() == second.ws_key(),
    ensures
        first.user_id == second.user_id,
        first.business_id == second.business_id,
        or_placeholder(first.device()) == or_placeholder(second.device()),
{
    lemma_key_is_injective(
        first.user_id,
        first.business_id,
        or_placeholder(first.device()),
        second.user_id,
        second.business_id,
        or_placeholder(second.device()),
    );
}

/// Two sockets stand under the same key only if they were opened with the
/// same three components: a key addresses one connection and no other.
pub proof fn lemma_socket_key_is_injective(first: WebSocketParam, second: WebSocketParam)
    requires
        first.ws_key() == second.ws_key(),
    ensures
        first.user_id == second.user_id,
        first.business_id == second.business_id,
        first.device_id@ == second.device_id@,
{
    lemma_key_is_injective(
        Some(first.user_id),
        Some(first.business_id),
        first.device_id@,
        Some(second.user_id),
        Some(second.business_id),
        second.device_id@,
    );
}

} // verus!
