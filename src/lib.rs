//! A streaming bridge between an HTTP transport and an ASGI application task.
//!
//! The library holds the protocol logic of the bridge: the event vocabulary,
//! the conversion of a request body into request events, the validation of
//! the response events that the application emits, the per-exchange state
//! machine, and the construction of the request context (the ASGI scope).
pub mod channel;
pub mod event;
pub mod http;
pub mod scope;
