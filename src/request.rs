use vstd::prelude::*;

verus! {

/// One event request: the kind that selects a module, the id handed to the
/// module as the handler's configuration, and an opaque payload.
#[derive(Debug)]
pub struct EventRequest {
    pub event: String,
    pub id: String,
    pub payload: Vec<u8>,
}

impl EventRequest {
    pub fn new(event: String, id: String, payload: Vec<u8>) -> (r: EventRequest)
        ensures
            r.event == event,
            r.id == id,
            r.payload == payload,
    {
        EventRequest { event, id, payload }
    }

    pub fn get_event(&self) -> (r: &String)
        ensures
            r == &self.event,
    {
        &self.event
    }

    pub fn get_id(&self) -> (r: &String)
        ensures
            r == &self.id,
    {
        &self.id
    }

    pub fn get_payload(&self) -> (r: &Vec<u8>)
        ensures
            r == &self.payload,
    {
        &self.payload
    }
}

/// The outcome payload of one handler instance.
#[derive(Debug)]
pub struct EventResponse {
    pub payload: Vec<u8>,
}

impl EventResponse {
    pub fn new(payload: Vec<u8>) -> (r: EventResponse)
        ensures
            r.payload == payload,
    {
        EventResponse { payload }
    }

    pub fn get_payload(&self) -> (r: &Vec<u8>)
        ensures
            r == &self.payload,
    {
        &self.payload
    }
}

} // verus!
