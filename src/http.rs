//! The HTTP side of the bridge: request events, response events and the
//! per-exchange state machine.
pub mod error;
pub mod exchange;
pub mod header;
pub mod request_message;
pub mod response_body;
pub mod response_head;
pub mod response_message;
pub mod status;
