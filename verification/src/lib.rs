//! The message-dispatch engine of a Language Server Protocol server: JSON-RPC
//! messages and their wire form, the `Content-Length` framing, the table of
//! requests in flight towards the peer, the middleware chain, and the rules by
//! which incoming messages are routed and answered.
pub mod client;
pub mod codec;
pub mod json;
pub mod jsonrpc;
pub mod middleware;
pub mod server;
pub mod service;
pub mod text;
pub mod wire;

pub use jsonrpc::Result;
pub use middleware::{LoggingMiddleware, Middleware};
pub use service::Dispatcher;
