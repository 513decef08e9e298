//! Core of a real-time notification gateway: the registry of live sessions,
//! the router that hands each event to the one session matching its key, and
//! the decisions of the bridge that feeds the router from a durable queue.

pub mod commands;
pub mod errors;
pub mod handlers;
pub mod key;
pub mod middlewares;
pub mod pulsar_client;
pub mod schemas;
pub mod utils;
pub mod websocket;
