use vstd::prelude::*;
use crate::request::EventRequest;

verus! {

/// Why one dispatch did not deliver a response.
#[derive(Debug)]
pub enum SystemError {
    /// The dispatch loop was started without a routing table.
    Configuration,
    /// No module is registered for the request's event kind; the request
    /// comes back with the error.
    UnroutableEvent { request: EventRequest },
    /// The module could not build a handler instance.
    HandlerConstruction { message: String },
    /// The handler instance failed while producing a response.
    HandlerInvocation { message: String },
}

impl SystemError {
    /// A readable description of the error.
    pub fn message(&self) -> (r: String)
        ensures
            self is Configuration ==> r@ == "the dispatch loop has no routing table"@,
            self is UnroutableEvent ==> r@ == self->request.event@,
            self is HandlerConstruction ==> r@ == self->HandlerConstruction_message@,
            self is HandlerInvocation ==> r@ == self->HandlerInvocation_message@,
    {
        match self {
            SystemError::Configuration => "the dispatch loop has no routing table".to_string(),
            SystemError::UnroutableEvent { request } => request.event.clone(),
            SystemError::HandlerConstruction { message } => message.clone(),
            SystemError::HandlerInvocation { message } => message.clone(),
        }
    }
}

} // verus!
