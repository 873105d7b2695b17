use flowy_sys::channel::Received;
use flowy_sys::error::SystemError;
use flowy_sys::request::{EventRequest, EventResponse};
use flowy_sys::stream::{
    on_receive, Built, CommandStream, CommandStreamService, Dispatch, LoopAction, Outcome,
    StreamData,
};
use flowy_sys::system::{ModuleId, ModuleServiceMap};
use std::cell::RefCell;
use std::rc::Rc;

type Record = Rc<RefCell<Vec<(u32, Vec<u8>)>>>;
type Callback = Box<dyn FnOnce(u32, EventResponse)>;

const ECHO: usize = 0;
const BROKEN_BUILD: usize = 1;
const BROKEN_HANDLER: usize = 2;

fn request(kind: &str, id: &str, payload: &str) -> EventRequest {
    EventRequest::new(kind.to_string(), id.to_string(), payload.as_bytes().to_vec())
}

fn recorder(record: &Record) -> Callback {
    let record = record.clone();
    Box::new(move |config: u32, response: EventResponse| {
        record.borrow_mut().push((config, response.get_payload().clone()))
    })
}

fn table() -> ModuleServiceMap {
    let mut map = ModuleServiceMap::new();
    map.insert("echo".to_string(), ModuleId { index: ECHO });
    map.insert("broken_build".to_string(), ModuleId { index: BROKEN_BUILD });
    map.insert("broken_handler".to_string(), ModuleId { index: BROKEN_HANDLER });
    map
}

/// Runs one envelope through the protocol with the test's modules, invoking
/// the callback on success; returns the error otherwise.
fn dispatch(service: &CommandStreamService, data: StreamData<u32, Callback>) -> Option<SystemError> {
    let pending = match service.call(data) {
        Dispatch::Build(pending) => pending,
        Dispatch::Failed(e) => return Some(e),
    };
    let module = pending.module.index;
    let built: Result<usize, String> = if module == BROKEN_BUILD {
        Err(format!("cannot build {}", pending.handler_config()))
    } else {
        Ok(module)
    };
    let ready = match pending.on_built(built) {
        Built::Invoke(ready) => ready,
        Built::Failed(e) => return Some(e),
    };
    let invoked = if ready.handler == BROKEN_HANDLER {
        Err("handler failed".to_string())
    } else {
        Ok(EventResponse::new(ready.request.get_payload().clone()))
    };
    match ready.delivery.on_invoked(invoked) {
        Outcome::Deliver { config, callback, response } => {
            callback(config, response);
            None
        },
        Outcome::Failed(e) => Some(e),
    }
}

#[test]
fn routing_table_lookup() {
    let mut map = table();
    assert_eq!(map.get(&"echo".to_string()), Some(ModuleId { index: ECHO }));
    assert_eq!(map.get(&"broken_handler".to_string()), Some(ModuleId { index: BROKEN_HANDLER }));
    assert_eq!(map.get(&"missing".to_string()), None);
    assert_eq!(ModuleServiceMap::new().get(&"echo".to_string()), None);
    map.insert("echo".to_string(), ModuleId { index: 7 });
    assert_eq!(map.get(&"echo".to_string()), Some(ModuleId { index: 7 }));
    assert_eq!(map.get(&"broken_build".to_string()), Some(ModuleId { index: BROKEN_BUILD }));
}

#[test]
fn echo_then_missing() {
    let service = CommandStreamService::new(table());
    let record: Record = Rc::new(RefCell::new(Vec::new()));
    let data = StreamData::new(42, Some(request("echo", "r1", "hi")), recorder(&record));
    assert!(dispatch(&service, data).is_none());
    assert_eq!(*record.borrow(), vec![(42, b"hi".to_vec())]);

    let data = StreamData::new(43, Some(request("missing", "r2", "x")), recorder(&record));
    match dispatch(&service, data) {
        Some(SystemError::UnroutableEvent { request }) => {
            assert_eq!(request.get_event(), "missing");
            assert_eq!(request.get_id(), "r2");
        },
        other => panic!("expected an unroutable event, got {:?}", other),
    }
    assert_eq!(record.borrow().len(), 1);
}

#[test]
fn routed_to_the_registered_module() {
    let service = CommandStreamService::new(table());
    let record: Record = Rc::new(RefCell::new(Vec::new()));
    let data = StreamData::new(1, Some(request("broken_handler", "r9", "p")), recorder(&record));
    match service.call(data) {
        Dispatch::Build(pending) => {
            assert_eq!(pending.module, ModuleId { index: BROKEN_HANDLER });
            assert_eq!(pending.handler_config(), "r9");
            assert_eq!(pending.request.get_event(), "broken_handler");
            assert_eq!(pending.delivery.config, 1);
        },
        Dispatch::Failed(e) => panic!("unexpected failure {:?}", e),
    }
}

#[test]
fn construction_failure_skips_callback() {
    let service = CommandStreamService::new(table());
    let record: Record = Rc::new(RefCell::new(Vec::new()));
    let data = StreamData::new(5, Some(request("broken_build", "r3", "p")), recorder(&record));
    match dispatch(&service, data) {
        Some(SystemError::HandlerConstruction { message }) => assert_eq!(message, "cannot build r3"),
        other => panic!("expected a construction error, got {:?}", other),
    }
    assert!(record.borrow().is_empty());
}

#[test]
fn invocation_failure_skips_callback() {
    let service = CommandStreamService::new(table());
    let record: Record = Rc::new(RefCell::new(Vec::new()));
    let data = StreamData::new(6, Some(request("broken_handler", "r4", "p")), recorder(&record));
    match dispatch(&service, data) {
        Some(e @ SystemError::HandlerInvocation { .. }) => assert_eq!(e.message(), "handler failed"),
        other => panic!("expected an invocation error, got {:?}", other),
    }
    assert!(record.borrow().is_empty());
}

#[test]
fn callback_fires_once_per_successful_envelope() {
    let service = CommandStreamService::new(table());
    let record: Record = Rc::new(RefCell::new(Vec::new()));
    let kinds = ["echo", "missing", "broken_build", "echo", "broken_handler", "echo"];
    for (i, kind) in kinds.iter().enumerate() {
        let data = StreamData::new(i as u32, Some(request(kind, "id", kind)), recorder(&record));
        dispatch(&service, data);
    }
    assert_eq!(
        *record.borrow(),
        vec![(0, b"echo".to_vec()), (3, b"echo".to_vec()), (5, b"echo".to_vec())]
    );
}

#[test]
fn request_is_taken_once() {
    let mut data = StreamData::new(1u32, Some(request("echo", "r1", "hi")), 0u8);
    let first = data.take_request();
    assert_eq!(first.unwrap().get_id(), "r1");
    assert!(data.take_request().is_none());
    assert_eq!(data.config, 1);
}

#[test]
fn error_messages() {
    assert_eq!(SystemError::Configuration.message(), "the dispatch loop has no routing table");
    let e = SystemError::UnroutableEvent { request: request("k", "r", "p") };
    assert_eq!(e.message(), "k");
    let e = SystemError::HandlerConstruction { message: "m".to_string() };
    assert_eq!(e.message(), "m");
}

#[test]
fn loop_decisions() {
    let data = StreamData::new(3u32, Some(request("echo", "r", "p")), 0u8);
    match on_receive(Received::Item(data)) {
        LoopAction::Spawn(d) => assert_eq!(d.config, 3),
        _ => panic!("expected a spawn"),
    }
    assert!(matches!(on_receive::<u32, u8>(Received::Empty), LoopAction::Wait));
    assert!(matches!(on_receive::<u32, u8>(Received::Closed), LoopAction::Terminate));
}

#[test]
fn start_without_table_is_a_configuration_error() {
    let stream: CommandStream<u32, Callback> = CommandStream::new();
    assert!(matches!(stream.start(), Err(SystemError::Configuration)));
}

#[test]
fn loop_terminates_once_senders_are_gone() {
    let mut stream: CommandStream<u32, Callback> = CommandStream::new();
    stream.module_service_map(table());
    let tx = stream.tx();
    let record: Record = Rc::new(RefCell::new(Vec::new()));
    stream.send(StreamData::new(1, Some(request("echo", "a", "one")), recorder(&record)));
    let _ = tx.send(StreamData::new(2, Some(request("echo", "b", "two")), recorder(&record)));
    let mut lp = stream.start().ok().unwrap();
    let mut spawned = 0;
    loop {
        match lp.next_action() {
            LoopAction::Spawn(data) => {
                spawned += 1;
                assert!(dispatch(lp.service(), data).is_none());
            },
            LoopAction::Wait => panic!("two envelopes should be queued"),
            LoopAction::Terminate => panic!("terminated while a sender is alive"),
        }
        if spawned == 2 {
            break;
        }
    }
    assert!(matches!(lp.next_action(), LoopAction::Wait));
    drop(tx);
    assert!(matches!(lp.next_action(), LoopAction::Terminate));
    assert_eq!(*record.borrow(), vec![(1, b"one".to_vec()), (2, b"two".to_vec())]);
}

#[test]
fn attaching_a_table_keeps_queued_envelopes() {
    let mut stream: CommandStream<u32, Callback> = CommandStream::new();
    let tx = stream.tx();
    let record: Record = Rc::new(RefCell::new(Vec::new()));
    let _ = tx.send(StreamData::new(8, Some(request("echo", "q", "early")), recorder(&record)));
    stream.module_service_map(table());
    drop(tx);
    let mut lp = stream.start().ok().unwrap();
    match lp.next_action() {
        LoopAction::Spawn(data) => assert!(dispatch(lp.service(), data).is_none()),
        _ => panic!("the envelope sent before attaching should be queued"),
    }
    assert!(matches!(lp.next_action(), LoopAction::Terminate));
    assert_eq!(*record.borrow(), vec![(8, b"early".to_vec())]);
}
