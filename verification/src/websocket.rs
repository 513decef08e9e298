//! Sessions, the messages pushed to them, and the router that tracks them.

pub mod gateway;
pub mod message;
pub mod server;
pub mod session;

pub use message::{MessageToClient, WebSocketActionType};
pub use gateway::perform;
pub use server::{
    settle, Deregistration, HandleIssuer, PushOutcome, RouteOutcome, RouteStep, Server,
    SessionHandle,
};
pub use session::{CloseReason, SessionAction, SessionEvent, SessionState, WebSocketSession};
