use vstd::prelude::*;
use tokio::sync::mpsc::{UnboundedReceiver, UnboundedSender};
use crate::channel::{clone_sender, send_message, try_receive, unbounded_channel, Received};
use crate::error::SystemError;
use crate::request::{EventRequest, EventResponse};
use crate::system::{ModuleId, ModuleServiceMap};

verus! {

/// An envelope: the producer's context, the request (taken once, when the
/// envelope is dispatched) and the one-shot callback that receives the
/// context back together with the response.
pub struct StreamData<T, C> {
    pub config: T,
    pub request: Option<EventRequest>,
    pub callback: C,
}

impl<T, C> StreamData<T, C> {
    pub fn new(config: T, request: Option<EventRequest>, callback: C) -> (r: Self)
        ensures
            r == (StreamData { config, request, callback }),
    {
        StreamData { config, request, callback }
    }

    /// Takes the request out of the envelope, which holds none afterwards.
    pub fn take_request(&mut self) -> (r: Option<EventRequest>)
        ensures
            r == old(self).request,
            final(self).request is None,
            final(self).config == old(self).config,
            final(self).callback == old(self).callback,
    {
        self.request.take()
    }
}

/// What the success path hands back to the producer: its context and its
/// callback.
pub struct Delivery<T, C> {
    pub config: T,
    pub callback: C,
}

/// A routed request waiting for its module to build a handler instance.
pub struct PendingBuild<T, C> {
    pub module: ModuleId,
    pub request: EventRequest,
    pub delivery: Delivery<T, C>,
}

/// A request with its handler instance, waiting for the handler's response.
pub struct PendingInvoke<T, C, H> {
    pub handler: H,
    pub request: EventRequest,
    pub delivery: Delivery<T, C>,
}

/// The result of routing one envelope.
pub enum Dispatch<T, C> {
    Build(PendingBuild<T, C>),
    Failed(SystemError),
}

/// The result of asking the module for a handler instance.
pub enum Built<T, C, H> {
    Invoke(PendingInvoke<T, C, H>),
    Failed(SystemError),
}

/// The end of one dispatch: the callback is handed out only on success.
pub enum Outcome<T, C> {
    Deliver { config: T, callback: C, response: EventResponse },
    Failed(SystemError),
}

/// Routing an envelope whose request is present: to the module registered
/// for its event kind, or to an unroutable-event failure that carries the kind
/// with its request and keeps neither context nor callback.
pub open spec fn routed<T, C>(
    routes: Map<Seq<char>, ModuleId>,
    data: StreamData<T, C>,
    r: Dispatch<T, C>,
) -> bool {
    let request = data.request->0;
    if routes.contains_key(request.event@) {
        r == Dispatch::Build(
            PendingBuild {
                module: routes[request.event@],
                request,
                delivery: Delivery { config: data.config, callback: data.callback },
            },
        )
    } else {
        r == Dispatch::<T, C>::Failed(SystemError::UnroutableEvent { request })
    }
}

/// Going on from a handler construction that succeeded or failed.
pub open spec fn built_step<T, C, H>(
    pending: PendingBuild<T, C>,
    built: Result<H, String>,
    r: Built<T, C, H>,
) -> bool {
    match built {
        Ok(handler) => r == Built::Invoke(
            PendingInvoke { handler, request: pending.request, delivery: pending.delivery },
        ),
        Err(message) => r == Built::<T, C, H>::Failed(SystemError::HandlerConstruction { message }),
    }
}

/// Ending from a handler invocation that succeeded or failed.
pub open spec fn invoked_step<T, C>(
    delivery: Delivery<T, C>,
    invoked: Result<EventResponse, String>,
    r: Outcome<T, C>,
) -> bool {
    match invoked {
        Ok(response) => r == (Outcome::Deliver {
            config: delivery.config,
            callback: delivery.callback,
            response,
        }),
        Err(message) => r == Outcome::<T, C>::Failed(SystemError::HandlerInvocation { message }),
    }
}

impl<T, C> PendingBuild<T, C> {
    /// The configuration handed to the module: the request's id.
    pub fn handler_config(&self) -> (r: String)
        ensures
            r@ == self.request.id@,
    {
        self.request.id.clone()
    }

    /// Goes on with the handler instance, or fails with the module's error.
    pub fn on_built<H>(self, built: Result<H, String>) -> (r: Built<T, C, H>)
        ensures
            built_step(self, built, r),
    {
        match built {
            Ok(handler) => Built::Invoke(
                PendingInvoke { handler, request: self.request, delivery: self.delivery },
            ),
            Err(message) => Built::Failed(SystemError::HandlerConstruction { message }),
        }
    }
}

impl<T, C> Delivery<T, C> {
    /// Hands the context and callback out with the response, or fails with
    /// the handler's error and drops them.
    pub fn on_invoked(self, invoked: Result<EventResponse, String>) -> (r: Outcome<T, C>)
        ensures
            invoked_step(self, invoked, r),
    {
        match invoked {
            Ok(response) => Outcome::Deliver {
                config: self.config,
                callback: self.callback,
                response,
            },
            Err(message) => Outcome::Failed(SystemError::HandlerInvocation { message }),
        }
    }
}

/// The per-request dispatch logic over one routing table.
pub struct CommandStreamService {
    module_map: ModuleServiceMap,
}

impl CommandStreamService {
    pub closed spec fn routes(&self) -> Map<Seq<char>, ModuleId> {
        self.module_map@
    }

    pub fn new(module_map: ModuleServiceMap) -> (r: CommandStreamService)
        ensures
            r.routes() == module_map@,
    {
        CommandStreamService { module_map }
    }

    /// Takes the envelope's request and routes it by its event kind.
    pub fn call<T, C>(&self, data: StreamData<T, C>) -> (r: Dispatch<T, C>)
        requires
            data.request is Some,
        ensures
            routed(self.routes(), data, r),
    {
        let mut data = data;
        let request = data.take_request().unwrap();
        match self.module_map.get(&request.event) {
            Some(module) => {
                let delivery = Delivery { config: data.config, callback: data.callback };
                Dispatch::Build(PendingBuild { module, request, delivery })
            },
            None => Dispatch::Failed(SystemError::UnroutableEvent { request }),
        }
    }
}

/// What the dispatch loop does after one attempt to receive.
pub enum LoopAction<T, C> {
    /// Dispatch this envelope in a task of its own and receive again.
    Spawn(StreamData<T, C>),
    /// Nothing is queued yet: wait for the next envelope.
    Wait,
    /// Every send handle is gone and nothing is queued: stop.
    Terminate,
}

/// The dispatch loop's decision on what the channel gave.
pub fn on_receive<T, C>(received: Received<StreamData<T, C>>) -> (r: LoopAction<T, C>)
    ensures
        received is Item ==> r == LoopAction::Spawn(received->Item_0),
        received is Empty ==> r is Wait,
        received is Closed ==> r is Terminate,
{
    match received {
        Received::Item(data) => LoopAction::Spawn(data),
        Received::Empty => LoopAction::Wait,
        Received::Closed => LoopAction::Terminate,
    }
}

/// The dispatcher before it runs: a submission channel and, once attached,
/// a routing table.
#[verifier::reject_recursive_types(T)]
#[verifier::reject_recursive_types(C)]
pub struct CommandStream<T, C> {
    module_map: Option<ModuleServiceMap>,
    data_tx: UnboundedSender<StreamData<T, C>>,
    data_rx: UnboundedReceiver<StreamData<T, C>>,
}

impl<T, C> CommandStream<T, C> {
    /// The attached routing table, if any.
    pub closed spec fn routing(&self) -> Option<Map<Seq<char>, ModuleId>> {
        match self.module_map {
            Some(map) => Some(map@),
            None => None,
        }
    }

    /// The dispatcher's own send handle.
    pub closed spec fn sender(&self) -> UnboundedSender<StreamData<T, C>> {
        self.data_tx
    }

    /// The receive handle of the dispatcher's channel.
    pub closed spec fn receiver(&self) -> UnboundedReceiver<StreamData<T, C>> {
        self.data_rx
    }

    /// A dispatcher with a fresh channel and no routing table.
    pub fn new() -> (r: Self)
        ensures
            r.routing() is None,
    {
        let (data_tx, data_rx) = unbounded_channel();
        CommandStream { module_map: None, data_tx, data_rx }
    }

    /// Submits an envelope; a dispatcher that is gone drops it silently.
    pub fn send(&self, data: StreamData<T, C>) {
        let _ = send_message(&self.data_tx, data);
    }

    /// Attaches the routing table, replacing any attached before.
    pub fn module_service_map(&mut self, map: ModuleServiceMap)
        ensures
            final(self).routing() == Some(map@),
            final(self).sender() == old(self).sender(),
            final(self).receiver() == old(self).receiver(),
    {
        self.module_map = Some(map);
    }

    /// Another send handle for producers.
    pub fn tx(&self) -> (r: UnboundedSender<StreamData<T, C>>)
        ensures
            r == self.sender(),
    {
        clone_sender(&self.data_tx)
    }

    /// Starts the dispatch loop. The dispatcher's own send handle is dropped,
    /// so the loop ends once the producers' handles are gone. Without a
    /// routing table this is a configuration error.
    pub fn start(self) -> (r: Result<CommandLoop<T, C>, SystemError>)
        ensures
            self.routing() is None <==> r is Err,
            r is Err ==> r->Err_0 is Configuration,
            r is Ok ==> Some(r->Ok_0.routes()) == self.routing(),
            r is Ok ==> r->Ok_0.receiver() == self.receiver(),
    {
        match self.module_map {
            Some(map) => Ok(CommandLoop { service: CommandStreamService::new(map), data_rx: self.data_rx }),
            None => Err(SystemError::Configuration),
        }
    }
}

/// The running dispatch loop: the receive end of the channel and the
/// dispatch logic over the attached routing table.
#[verifier::reject_recursive_types(T)]
#[verifier::reject_recursive_types(C)]
pub struct CommandLoop<T, C> {
    service: CommandStreamService,
    data_rx: UnboundedReceiver<StreamData<T, C>>,
}

impl<T, C> CommandLoop<T, C> {
    pub closed spec fn routes(&self) -> Map<Seq<char>, ModuleId> {
        self.service.routes()
    }

    /// The receive handle of the dispatcher's channel.
    pub closed spec fn receiver(&self) -> UnboundedReceiver<StreamData<T, C>> {
        self.data_rx
    }

    pub fn service(&self) -> (r: &CommandStreamService)
        ensures
            r.routes() == self.routes(),
    {
        &self.service
    }

    /// Takes the next envelope without waiting and decides what to do.
    pub fn next_action(&mut self) -> (r: LoopAction<T, C>)
        ensures
            final(self).routes() == old(self).routes(),
    {
        on_receive(try_receive(&mut self.data_rx))
    }

    /// The dispatch logic and the receive end, for a driver that waits on
    /// the channel.
    pub fn into_parts(self) -> (r: (CommandStreamService, UnboundedReceiver<StreamData<T, C>>))
        ensures
            r.0.routes() == self.routes(),
            r.1 == self.receiver(),
    {
        (self.service, self.data_rx)
    }
}

/// Routing correctness: a request whose kind is registered goes to exactly
/// the module registered for that kind, with the request, context and
/// callback it came with.
pub proof fn lemma_routes_to_registered_module<T, C>(
    routes: Map<Seq<char>, ModuleId>,
    data: StreamData<T, C>,
    d: Dispatch<T, C>,
)
    requires
        data.request is Some,
        routes.contains_key(data.request->0.event@),
        routed(routes, data, d),
    ensures
        d is Build,
        d->Build_0.module == routes[data.request->0.event@],
        d->Build_0.request == data.request->0,
        d->Build_0.delivery.config == data.config,
        d->Build_0.delivery.callback == data.callback,
{
}

/// An unroutable request fails with one unroutable-event error carrying the
/// request, and its callback goes nowhere.
pub proof fn lemma_unroutable<T, C>(
    routes: Map<Seq<char>, ModuleId>,
    data: StreamData<T, C>,
    d: Dispatch<T, C>,
)
    requires
        data.request is Some,
        !routes.contains_key(data.request->0.event@),
        routed(routes, data, d),
    ensures
        d == Dispatch::<T, C>::Failed(SystemError::UnroutableEvent { request: data.request->0 }),
{
}

/// Callback cardinality: along one dispatch the callback is handed out at
/// most once, in the final outcome, and it is handed out exactly when the
/// kind is routed and both the handler's construction and its invocation
/// succeed; it then comes with the envelope's own context and the
/// handler's response.
pub proof fn lemma_callback_cardinality<T, C, H>(
    routes: Map<Seq<char>, ModuleId>,
    data: StreamData<T, C>,
    d: Dispatch<T, C>,
    built: Result<H, String>,
    b: Built<T, C, H>,
    invoked: Result<EventResponse, String>,
    o: Outcome<T, C>,
)
    requires
        data.request is Some,
        routed(routes, data, d),
        d is Build ==> built_step(d->Build_0, built, b),
        d is Build && b is Invoke ==> invoked_step(b->Invoke_0.delivery, invoked, o),
    ensures
        (d is Build && b is Invoke && o is Deliver) <==> (routes.contains_key(
            data.request->0.event@,
        ) && built is Ok && invoked is Ok),
        d is Build && b is Invoke && o is Deliver ==> o->config == data.config && o->callback
            == data.callback && o->response == invoked->Ok_0,
{
}

} // verus!
