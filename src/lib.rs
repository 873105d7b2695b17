//! An in-process event dispatcher: requests are routed by event kind to a
//! registered module, and the response is handed back through a one-shot
//! callback that fires only when the handler succeeds.
pub mod channel;
pub mod error;
pub mod request;
pub mod system;
pub mod stream;
