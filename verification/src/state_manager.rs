//! The state manager: what a gateway sets up at start, and in which order.
//!
//! The startup decides and its caller acts: [`Startup::step`] takes what came of the last action and
//! gives the next one, up to the finished [`StateManager`].

use vstd::prelude::*;

verus! {

/// The type of discovery resources that carry addresses.
pub const ADDRESS_TYPE: &'static str = "type.googleapis.com/istio.workload.Address";

/// The type of discovery resources that carry authorization rules.
pub const AUTHORIZATION_TYPE: &'static str = "type.googleapis.com/istio.security.Authorization";

/// The type of discovery resources that carry gateway configuration.
pub const ADP_TYPE: &'static str = "type.googleapis.com/agentgateway.dev.resource.Resource";

/// The listener, or group of listeners, that a config is for.
#[derive(Debug)]
pub struct ListenerTarget {
    pub gateway_name: String,
    pub gateway_namespace: String,
    pub listener_name: Option<String>,
    pub port: Option<u16>,
}

/// A store that the client of the control plane feeds.
#[derive(Debug, Clone, Copy, PartialEq, Eq, Structural)]
pub enum StoreKind {
    /// The store of addresses: workloads and services.
    Discovery,
    /// The store of gateway configuration.
    Binds,
}

/// A resource type that the client of the control plane watches, and the store that it feeds.
#[derive(Debug, Clone, Copy)]
pub struct Watched {
    pub type_url: &'static str,
    pub store: StoreKind,
}

/// What the startup depends on. `C` is the type of config sources.
#[derive(Debug, Clone)]
pub struct XdsConfig<C> {
    /// The address of the control plane, where there is one.
    pub address: Option<String>,
    /// The local config, where there is one.
    pub local_config: Option<C>,
    /// The name of this gateway.
    pub gateway: String,
    /// The namespace of this gateway.
    pub namespace: String,
}

impl<C> XdsConfig<C> {
    /// Whether there is a control plane.
    pub fn has_xds(&self) -> (has: bool)
        ensures
            has == (self.address is Some),
    {
        self.address.is_some()
    }
}

/// The parts of a state manager.
pub struct Parts<S, X, R, L> {
    pub stores: S,
    pub xds_client: Option<X>,
    pub resource_manager: R,
    pub local_client: Option<L>,
}

/// `copy` is a clone of what is held, where something is.
pub open spec fn is_copy<L: Clone>(held: Option<L>, copy: Option<L>) -> bool {
    match (held, copy) {
        (Some(client), Some(copy)) => cloned(client, copy),
        (None, None) => true,
        _ => false,
    }
}

/// Holds the stores of a gateway and the clients that feed them.
#[derive(Debug)]
pub struct StateManager<S, X, R, L> {
    stores: S,
    xds_client: Option<X>,
    resource_manager: R,
    local_client: Option<L>,
}

impl<S, X, R, L> View for StateManager<S, X, R, L> {
    type V = Parts<S, X, R, L>;

    closed spec fn view(&self) -> Parts<S, X, R, L> {
        Parts {
            stores: self.stores,
            xds_client: self.xds_client,
            resource_manager: self.resource_manager,
            local_client: self.local_client,
        }
    }
}

impl<S: Clone, X, R: Clone, L: Clone> StateManager<S, X, R, L> {
    /// Begins the startup of a gateway. Its first action is to create the stores.
    pub fn new<C>(config: XdsConfig<C>) -> (startup: Startup<S, X, R, C>)
        ensures
            startup@.config == config,
            startup@.phase is CreatingStores,
    {
        Startup { config, phase: StartupPhase::CreatingStores }
    }

    /// The stores.
    pub fn stores(&self) -> (stores: S)
        ensures
            cloned(self@.stores, stores),
    {
        self.stores.clone()
    }

    /// The resource manager.
    pub fn resource_manager(&self) -> (resource_manager: R)
        ensures
            cloned(self@.resource_manager, resource_manager),
    {
        self.resource_manager.clone()
    }

    /// The local client, where there is one.
    pub fn local_client(&self) -> (local_client: Option<L>)
        ensures
            is_copy(self@.local_client, local_client),
    {
        match &self.local_client {
            Some(client) => Some(client.clone()),
            None => None,
        }
    }

    /// What to run for as long as the gateway lives: the client of the control plane, where there
    /// is one. Without one there is nothing to run, and that is no failure.
    pub fn run(self) -> (xds_client: Option<X>)
        ensures
            xds_client == self@.xds_client,
    {
        self.xds_client
    }
}

/// Where a startup stands, with what it has got so far.
#[derive(Debug)]
pub enum StartupPhase<S, X, R> {
    /// The stores are being created.
    CreatingStores,
    /// The resource manager is being created.
    CreatingResourceManager { stores: S },
    /// A connection to the control plane is being prepared.
    Connecting { stores: S, resource_manager: R },
    /// The client of the control plane is being built.
    BuildingXds { stores: S, resource_manager: R },
    /// The local client loads its config for the first time.
    StartingLocal { stores: S, resource_manager: R, xds_client: Option<X> },
    /// Nothing more will be done.
    Ended,
}

/// What came of an action. `K` is the type of connectors, `E` that of errors.
#[derive(Debug)]
pub enum StartupEvent<S, X, R, L, K, E> {
    StoresCreated(S),
    ResourceManagerCreated(Result<R, E>),
    Connected(Result<K, E>),
    XdsBuilt(X),
    LocalStarted(Result<L, E>),
}

/// What to do next.
#[derive(Debug)]
pub enum StartupAction<S, X, R, L, K, C, E> {
    /// Create the resource manager.
    CreateResourceManager,
    /// Prepare a connection to the control plane at `address`.
    Connect { address: String },
    /// Build the client of the control plane over `connector`, for this gateway and namespace. It
    /// watches the resource types in `watched`, each of which feeds its own one of `stores`.
    BuildXds {
        connector: K,
        gateway: String,
        namespace: String,
        watched: Vec<Watched>,
        stores: S,
    },
    /// Run a local client for `source`, which feeds `stores` with the config of `target`.
    StartLocal { source: C, stores: S, resource_manager: R, target: ListenerTarget },
    /// The startup is complete.
    Done(StateManager<S, X, R, L>),
    /// The startup failed.
    Fail(E),
}

/// The startup of a gateway.
#[derive(Debug)]
pub struct Startup<S, X, R, C> {
    config: XdsConfig<C>,
    phase: StartupPhase<S, X, R>,
}

/// The state of a startup.
pub struct StartupModel<S, X, R, C> {
    pub config: XdsConfig<C>,
    pub phase: StartupPhase<S, X, R>,
}

impl<S, X, R, C> View for Startup<S, X, R, C> {
    type V = StartupModel<S, X, R, C>;

    closed spec fn view(&self) -> StartupModel<S, X, R, C> {
        StartupModel { config: self.config, phase: self.phase }
    }
}

impl ListenerTarget {
    /// All listeners of a gateway.
    pub fn of_gateway(name: &String, namespace: &String) -> (target: ListenerTarget)
        ensures
            target.is_gateway(name@, namespace@),
            targets_gateway(target, name@, namespace@),
    {
        ListenerTarget {
            gateway_name: name.clone(),
            gateway_namespace: namespace.clone(),
            listener_name: None,
            port: None,
        }
    }

    /// Whether this stands for all listeners of the gateway `name` in `namespace`.
    pub open spec fn is_gateway(self, name: Seq<char>, namespace: Seq<char>) -> bool {
        &&& self.gateway_name@ == name
        &&& self.gateway_namespace@ == namespace
        &&& self.listener_name is None
        &&& self.port is None
    }
}

/// The resource types that the client of the control plane watches, each with the store that it
/// feeds.
pub open spec fn watched_types() -> Seq<(Seq<char>, StoreKind)> {
    seq![(ADDRESS_TYPE@, StoreKind::Discovery), (ADP_TYPE@, StoreKind::Binds)]
}

/// The resource types in a list, each with its store.
pub open spec fn types_of(list: Seq<Watched>) -> Seq<(Seq<char>, StoreKind)> {
    list.map_values(|w: Watched| (w.type_url@, w.store))
}

impl<S: Clone, X, R: Clone, C: Clone> StartupModel<S, X, R, C> {
    /// The startup, gone on to `phase`.
    pub open spec fn at(self, phase: StartupPhase<S, X, R>) -> Self {
        StartupModel { phase, ..self }
    }

    /// Everything but the local client is there: it is started where there is a local config, and
    /// otherwise the startup is complete.
    pub open spec fn local_next<L, K, E>(
        self,
        stores: S,
        resource_manager: R,
        xds_client: Option<X>,
        after: Self,
        action: StartupAction<S, X, R, L, K, C, E>,
    ) -> bool {
        match self.config.local_config {
            Some(local) => {
                &&& after == self.at(
                    StartupPhase::StartingLocal { stores, resource_manager, xds_client },
                )
                &&& action matches StartupAction::StartLocal {
                    source,
                    stores: s,
                    resource_manager: r,
                    target,
                } && cloned(local, source) && cloned(stores, s) && cloned(resource_manager, r)
                    && target.is_gateway(self.config.gateway@, self.config.namespace@)
            },
            None => {
                &&& after == self.at(StartupPhase::Ended)
                &&& action matches StartupAction::Done(manager) && manager@ == (Parts::<
                    S,
                    X,
                    R,
                    L,
                > { stores, xds_client, resource_manager, local_client: None })
            },
        }
    }

    /// The startup has ended with `error`.
    pub open spec fn failed<L, K, E>(
        self,
        error: E,
        after: Self,
        action: StartupAction<S, X, R, L, K, C, E>,
    ) -> bool {
        after == self.at(StartupPhase::Ended) && action == StartupAction::<
            S,
            X,
            R,
            L,
            K,
            C,
            E,
        >::Fail(error)
    }

    /// Whether `event` belongs to where the startup stands.
    pub open spec fn expects<L, K, E>(self, event: StartupEvent<S, X, R, L, K, E>) -> bool {
        match event {
            StartupEvent::StoresCreated(_) => self.phase is CreatingStores,
            StartupEvent::ResourceManagerCreated(_) => self.phase is CreatingResourceManager,
            StartupEvent::Connected(_) => self.phase is Connecting,
            StartupEvent::XdsBuilt(_) => self.phase is BuildingXds,
            StartupEvent::LocalStarted(_) => self.phase is StartingLocal,
        }
    }

    /// `event`, which belongs to where the startup stands, makes `after` of it, and `action` is
    /// next.
    pub open spec fn steps<L, K, E>(
        self,
        event: StartupEvent<S, X, R, L, K, E>,
        after: Self,
        action: StartupAction<S, X, R, L, K, C, E>,
    ) -> bool {
        match (self.phase, event) {
            (StartupPhase::CreatingStores, StartupEvent::StoresCreated(stores)) => {
                &&& after == self.at(StartupPhase::CreatingResourceManager { stores })
                &&& action is CreateResourceManager
            },
            (
                StartupPhase::CreatingResourceManager { stores },
                StartupEvent::ResourceManagerCreated(Ok(resource_manager)),
            ) => match self.config.address {
                Some(addr) => {
                    &&& after == self.at(StartupPhase::Connecting { stores, resource_manager })
                    &&& action matches StartupAction::Connect { address } && address@ == addr@
                },
                None => self.local_next(stores, resource_manager, None, after, action),
            },
            (
                StartupPhase::CreatingResourceManager { .. },
                StartupEvent::ResourceManagerCreated(Err(error)),
            ) => self.failed(error, after, action),
            (
                StartupPhase::Connecting { stores, resource_manager },
                StartupEvent::Connected(Ok(made)),
            ) => {
                &&& after == self.at(StartupPhase::BuildingXds { stores, resource_manager })
                &&& action matches StartupAction::BuildXds {
                    connector,
                    gateway,
                    namespace,
                    watched,
                    stores: s,
                } && connector == made && gateway@ == self.config.gateway@ && namespace@
                    == self.config.namespace@ && types_of(watched@) == watched_types() && cloned(
                    stores,
                    s,
                )
            },
            (StartupPhase::Connecting { .. }, StartupEvent::Connected(Err(error))) => self.failed(
                error,
                after,
                action,
            ),
            (
                StartupPhase::BuildingXds { stores, resource_manager },
                StartupEvent::XdsBuilt(xds_client),
            ) => self.local_next(stores, resource_manager, Some(xds_client), after, action),
            (
                StartupPhase::StartingLocal { stores, resource_manager, xds_client },
                StartupEvent::LocalStarted(Ok(local_client)),
            ) => {
                &&& after == self.at(StartupPhase::Ended)
                &&& action matches StartupAction::Done(manager) && manager@ == (Parts {
                    stores,
                    xds_client,
                    resource_manager,
                    local_client: Some(local_client),
                })
            },
            (StartupPhase::StartingLocal { .. }, StartupEvent::LocalStarted(Err(error))) => {
                self.failed(error, after, action)
            },
            _ => false,
        }
    }
}

impl<S: Clone, X, R: Clone, C: Clone> Startup<S, X, R, C> {
    fn start_local<L: Clone, K, E>(
        &mut self,
        stores: S,
        resource_manager: R,
        xds_client: Option<X>,
    ) -> (action: StartupAction<S, X, R, L, K, C, E>)
        requires
            old(self)@.phase is Ended,
        ensures
            old(self)@.local_next(stores, resource_manager, xds_client, final(self)@, action),
    {
        match &self.config.local_config {
            Some(local) => {
                let source = local.clone();
                let target = ListenerTarget::of_gateway(
                    &self.config.gateway,
                    &self.config.namespace,
                );
                let action = StartupAction::StartLocal {
                    source,
                    stores: stores.clone(),
                    resource_manager: resource_manager.clone(),
                    target,
                };
                self.phase = StartupPhase::StartingLocal { stores, resource_manager, xds_client };
                action
            },
            None => StartupAction::Done(
                StateManager { stores, xds_client, resource_manager, local_client: None },
            ),
        }
    }

    /// Takes in what came of the last action, and gives the next one. An event that does not belong
    /// to where the startup stands changes nothing and gives `None`.
    pub fn step<L: Clone, K, E>(&mut self, event: StartupEvent<S, X, R, L, K, E>) -> (next: Option<
        StartupAction<S, X, R, L, K, C, E>,
    >)
        ensures
            old(self)@.expects(event) ==> (next matches Some(action) && old(self)@.steps(
                event,
                final(self)@,
                action,
            )),
            !old(self)@.expects(event) ==> next is None && final(self)@ == old(self)@,
            next matches Some(action) ==> (action matches StartupAction::BuildXds { watched, .. }
                ==> watches_both_types(watched@)),
    {
        let mut phase = StartupPhase::Ended;
        std::mem::swap(&mut phase, &mut self.phase);
        match (phase, event) {
            (StartupPhase::CreatingStores, StartupEvent::StoresCreated(stores)) => {
                self.phase = StartupPhase::CreatingResourceManager { stores };
                Some(StartupAction::CreateResourceManager)
            },
            (
                StartupPhase::CreatingResourceManager { stores },
                StartupEvent::ResourceManagerCreated(Ok(resource_manager)),
            ) => match &self.config.address {
                Some(address) => {
                    let address = address.clone();
                    self.phase = StartupPhase::Connecting { stores, resource_manager };
                    Some(StartupAction::Connect { address })
                },
                None => Some(self.start_local(stores, resource_manager, None)),
            },
            (
                StartupPhase::CreatingResourceManager { .. },
                StartupEvent::ResourceManagerCreated(Err(error)),
            ) => Some(StartupAction::Fail(error)),
            (
                StartupPhase::Connecting { stores, resource_manager },
                StartupEvent::Connected(Ok(connector)),
            ) => {
                let watched = vec![
                    Watched { type_url: ADDRESS_TYPE, store: StoreKind::Discovery },
                    Watched { type_url: ADP_TYPE, store: StoreKind::Binds },
                ];
                assert(types_of(watched@) =~= watched_types());
                let action = StartupAction::BuildXds {
                    connector,
                    gateway: self.config.gateway.clone(),
                    namespace: self.config.namespace.clone(),
                    watched,
                    stores: stores.clone(),
                };
                self.phase = StartupPhase::BuildingXds { stores, resource_manager };
                Some(action)
            },
            (StartupPhase::Connecting { .. }, StartupEvent::Connected(Err(error))) => Some(
                StartupAction::Fail(error),
            ),
            (
                StartupPhase::BuildingXds { stores, resource_manager },
                StartupEvent::XdsBuilt(xds_client),
            ) => Some(self.start_local(stores, resource_manager, Some(xds_client))),
            (
                StartupPhase::StartingLocal { stores, resource_manager, xds_client },
                StartupEvent::LocalStarted(Ok(local_client)),
            ) => Some(
                StartupAction::Done(
                    StateManager {
                        stores,
                        xds_client,
                        resource_manager,
                        local_client: Some(local_client),
                    },
                ),
            ),
            (StartupPhase::StartingLocal { .. }, StartupEvent::LocalStarted(Err(error))) => Some(
                StartupAction::Fail(error),
            ),
            (phase, _) => {
                self.phase = phase;
                None
            },
        }
    }
}

/// The stores that a startup has got.
pub open spec fn stores_of<S, X, R>(phase: StartupPhase<S, X, R>) -> Option<S> {
    match phase {
        StartupPhase::CreatingResourceManager { stores } => Some(stores),
        StartupPhase::Connecting { stores, .. } => Some(stores),
        StartupPhase::BuildingXds { stores, .. } => Some(stores),
        StartupPhase::StartingLocal { stores, .. } => Some(stores),
        _ => None,
    }
}

/// Whether the startup is where its config can lead: a control plane is dealt with only where there
/// is an address, a local client only where there is a local config, and by then the client of the
/// control plane is there exactly if there is an address.
pub open spec fn as_configured<S, X, R, C>(startup: StartupModel<S, X, R, C>) -> bool {
    match startup.phase {
        StartupPhase::Connecting { .. } => startup.config.address is Some,
        StartupPhase::BuildingXds { .. } => startup.config.address is Some,
        StartupPhase::StartingLocal { xds_client, .. } => {
            &&& startup.config.local_config is Some
            &&& xds_client is Some <==> startup.config.address is Some
        },
        _ => true,
    }
}

/// A run of a startup from its beginning: `events` led through `states`, and `actions` were next.
pub open spec fn is_run<S: Clone, X, R: Clone, L, K, C: Clone, E>(
    states: Seq<StartupModel<S, X, R, C>>,
    events: Seq<StartupEvent<S, X, R, L, K, E>>,
    actions: Seq<StartupAction<S, X, R, L, K, C, E>>,
) -> bool {
    &&& states.len() == events.len() + 1
    &&& actions.len() == events.len()
    &&& states[0].phase is CreatingStores
    &&& forall|i: int|
        #![trigger actions[i]]
        0 <= i < events.len() ==> states[i].steps(events[i], states[i + 1], actions[i])
}

proof fn lemma_run<S: Clone, X, R: Clone, L, K, C: Clone, E>(
    states: Seq<StartupModel<S, X, R, C>>,
    events: Seq<StartupEvent<S, X, R, L, K, E>>,
    actions: Seq<StartupAction<S, X, R, L, K, C, E>>,
    i: int,
)
    requires
        is_run(states, events, actions),
        0 <= i < states.len(),
    ensures
        as_configured(states[i]),
        states[i].config == states[0].config,
        i == 0 <==> states[i].phase is CreatingStores,
        i > 0 ==> (stores_of(states[i].phase) matches Some(stores) ==> events[0]
            == StartupEvent::<S, X, R, L, K, E>::StoresCreated(stores)),
    decreases i,
{
    if i > 0 {
        lemma_run(states, events, actions, i - 1);
        assert(states[i - 1].steps(events[i - 1], states[i], actions[i - 1]));
    }
}

/// However a startup runs, one that completes has what was configured: a client of the control plane
/// exactly if there is an address, a local client exactly if there is a local config, and the stores
/// that were created at first.
pub proof fn law_startup_completes_as_configured<S: Clone, X, R: Clone, L, K, C: Clone, E>(
    states: Seq<StartupModel<S, X, R, C>>,
    events: Seq<StartupEvent<S, X, R, L, K, E>>,
    actions: Seq<StartupAction<S, X, R, L, K, C, E>>,
    i: int,
)
    requires
        is_run(states, events, actions),
        0 <= i < actions.len(),
    ensures
        actions[i] matches StartupAction::Done(manager) ==> {
            &&& manager@.xds_client is Some <==> states[0].config.address is Some
            &&& manager@.local_client is Some <==> states[0].config.local_config is Some
            &&& events[0] == StartupEvent::<S, X, R, L, K, E>::StoresCreated(manager@.stores)
        },
{
    lemma_run(states, events, actions, i);
    assert(states[i].steps(events[i], states[i + 1], actions[i]));
}

/// A startup that completes or fails is over: that was its last step.
pub proof fn law_startup_ends_once<S: Clone, X, R: Clone, L, K, C: Clone, E>(
    states: Seq<StartupModel<S, X, R, C>>,
    events: Seq<StartupEvent<S, X, R, L, K, E>>,
    actions: Seq<StartupAction<S, X, R, L, K, C, E>>,
    i: int,
)
    requires
        is_run(states, events, actions),
        0 <= i < actions.len(),
        actions[i] is Done || actions[i] is Fail,
    ensures
        i == actions.len() - 1,
        states.last().phase is Ended,
{
    assert(states[i].steps(events[i], states[i + 1], actions[i]));
    if i < actions.len() - 1 {
        assert(states[i + 1].steps(events[i + 1], states[i + 2], actions[i + 1]));
    }
}

/// Whatever fails during a startup ends it, with that very error.
pub proof fn law_startup_passes_errors_on<S: Clone, X, R: Clone, L, K, C: Clone, E>(
    before: StartupModel<S, X, R, C>,
    event: StartupEvent<S, X, R, L, K, E>,
    after: StartupModel<S, X, R, C>,
    action: StartupAction<S, X, R, L, K, C, E>,
    error: E,
)
    requires
        before.steps(event, after, action),
    ensures
        action == StartupAction::<S, X, R, L, K, C, E>::Fail(error) <==> {
            ||| event == StartupEvent::<S, X, R, L, K, E>::ResourceManagerCreated(Err(error))
            ||| event == StartupEvent::<S, X, R, L, K, E>::Connected(Err(error))
            ||| event == StartupEvent::<S, X, R, L, K, E>::LocalStarted(Err(error))
        },
{
}

/// No resource type is watched twice, no two feed the same store, and authorization rules are not
/// watched.
pub proof fn law_each_type_feeds_its_own_store(i: int, j: int)
    requires
        0 <= i < j < watched_types().len(),
    ensures
        watched_types()[i].0 != watched_types()[j].0,
        watched_types()[i].1 != watched_types()[j].1,
        watched_types()[i].0 != AUTHORIZATION_TYPE@,
        watched_types()[j].0 != AUTHORIZATION_TYPE@,
{
    reveal_strlit("type.googleapis.com/istio.workload.Address");
    reveal_strlit("type.googleapis.com/agentgateway.dev.resource.Resource");
    reveal_strlit("type.googleapis.com/istio.security.Authorization");
    assert(ADDRESS_TYPE@[20] != ADP_TYPE@[20]);
    assert(ADDRESS_TYPE@[26] != AUTHORIZATION_TYPE@[26]);
    assert(ADP_TYPE@[20] != AUTHORIZATION_TYPE@[20]);
}

/// `target` is a whole gateway: its name and namespace, every listener and every port.
pub open spec fn targets_gateway(
    target: ListenerTarget,
    name: Seq<char>,
    namespace: Seq<char>,
) -> bool {
    &&& target.gateway_name@ == name
    &&& target.gateway_namespace@ == namespace
    &&& target.listener_name is None
    &&& target.port is None
}

/// `watched` is two resource types and no more: addresses for the discovery store, and gateway
/// configuration for the store of binds.
pub open spec fn watches_both_types(watched: Seq<Watched>) -> bool {
    &&& watched.len() == 2
    &&& watched[0].type_url@ == "type.googleapis.com/istio.workload.Address"@
    &&& watched[0].store == StoreKind::Discovery
    &&& watched[1].type_url@ == "type.googleapis.com/agentgateway.dev.resource.Resource"@
    &&& watched[1].store == StoreKind::Binds
}

proof fn lemma_run_resources<S: Clone, X, R: Clone, L, K, C: Clone, E>(
    states: Seq<StartupModel<S, X, R, C>>,
    events: Seq<StartupEvent<S, X, R, L, K, E>>,
    actions: Seq<StartupAction<S, X, R, L, K, C, E>>,
    i: int,
)
    requires
        is_run(states, events, actions),
        0 <= i < states.len(),
    ensures
        match states[i].phase {
            StartupPhase::Connecting { resource_manager, .. } => i == 2 && events[1]
                == StartupEvent::<S, X, R, L, K, E>::ResourceManagerCreated(Ok(resource_manager)),
            StartupPhase::BuildingXds { resource_manager, .. } => i == 3 && events[1]
                == StartupEvent::<S, X, R, L, K, E>::ResourceManagerCreated(Ok(resource_manager)),
            StartupPhase::StartingLocal { resource_manager, xds_client, .. } => {
                &&& events[1] == StartupEvent::<S, X, R, L, K, E>::ResourceManagerCreated(
                    Ok(resource_manager),
                )
                &&& match xds_client {
                    Some(client) => i == 4 && events[3] == StartupEvent::<
                        S,
                        X,
                        R,
                        L,
                        K,
                        E,
                    >::XdsBuilt(client),
                    None => i == 2,
                }
            },
            StartupPhase::CreatingStores => i == 0,
            StartupPhase::CreatingResourceManager { .. } => i == 1,
            StartupPhase::Ended => true,
        },
    decreases i,
{
    if i > 0 {
        lemma_run_resources(states, events, actions, i - 1);
        assert(states[i - 1].steps(events[i - 1], states[i], actions[i - 1]));
    }
}

/// However a startup runs and whatever its local config, the client of the control plane is built
/// over the connection that was made, for the configured gateway and namespace, and watches addresses
/// for the discovery store and gateway configuration for the store of binds, of the stores that were
/// created at first. It is built only where there is an address.
pub proof fn law_xds_client_watches_both_types<S: Clone, X, R: Clone, L, K, C: Clone, E>(
    states: Seq<StartupModel<S, X, R, C>>,
    events: Seq<StartupEvent<S, X, R, L, K, E>>,
    actions: Seq<StartupAction<S, X, R, L, K, C, E>>,
    i: int,
)
    requires
        is_run(states, events, actions),
        0 <= i < actions.len(),
    ensures
        actions[i] matches StartupAction::BuildXds {
            connector,
            gateway,
            namespace,
            watched,
            stores,
        } ==> {
            &&& states[0].config.address is Some
            &&& watches_both_types(watched@)
            &&& gateway@ == states[0].config.gateway@
            &&& namespace@ == states[0].config.namespace@
            &&& events[i] == StartupEvent::<S, X, R, L, K, E>::Connected(Ok(connector))
            &&& events[0] matches StartupEvent::StoresCreated(created) && cloned(created, stores)
        },
{
    lemma_run(states, events, actions, i);
    lemma_run_resources(states, events, actions, i);
    assert(states[i].steps(events[i], states[i + 1], actions[i]));
    if let StartupAction::BuildXds { watched, .. } = actions[i] {
        assert(types_of(watched@).len() == 2);
        assert(types_of(watched@)[0] == (watched@[0].type_url@, watched@[0].store));
        assert(types_of(watched@)[1] == (watched@[1].type_url@, watched@[1].store));
    }
}

/// However a startup runs, with an address the client of the control plane is built as soon as the
/// connection is there, and only then; and a connection is asked for, to that address, exactly where
/// there is one and the resource manager was created.
pub proof fn law_control_plane_is_used_iff_configured<S: Clone, X, R: Clone, L, K, C: Clone, E>(
    states: Seq<StartupModel<S, X, R, C>>,
    events: Seq<StartupEvent<S, X, R, L, K, E>>,
    actions: Seq<StartupAction<S, X, R, L, K, C, E>>,
    i: int,
)
    requires
        is_run(states, events, actions),
        0 <= i < actions.len(),
    ensures
        actions[i] is BuildXds <==> (events[i] matches StartupEvent::Connected(Ok(_))),
        actions[i] is Connect <==> states[0].config.address is Some && (
        events[i] matches StartupEvent::ResourceManagerCreated(Ok(_))),
        actions[i] matches StartupAction::Connect { address } ==> address@
            == states[0].config.address->0@,
        actions[i] is CreateResourceManager <==> i == 0,
        i == 0 ==> events[0] is StoresCreated,
{
    lemma_run(states, events, actions, i);
    assert(states[i].steps(events[i], states[i + 1], actions[i]));
}

/// However a startup runs, a local client is started exactly where there is a local config and
/// everything else is there, from that config, for all listeners of the configured gateway, with the
/// stores and the resource manager that were created.
pub proof fn law_local_client_is_started_iff_configured<S: Clone, X, R: Clone, L, K, C: Clone, E>(
    states: Seq<StartupModel<S, X, R, C>>,
    events: Seq<StartupEvent<S, X, R, L, K, E>>,
    actions: Seq<StartupAction<S, X, R, L, K, C, E>>,
    i: int,
)
    requires
        is_run(states, events, actions),
        0 <= i < actions.len(),
    ensures
        actions[i] is StartLocal <==> {
            &&& states[0].config.local_config is Some
            &&& {
                ||| events[i] is XdsBuilt
                ||| states[0].config.address is None && (
                events[i] matches StartupEvent::ResourceManagerCreated(Ok(_)))
            }
        },
        actions[i] matches StartupAction::StartLocal {
            source,
            stores,
            resource_manager,
            target,
        } ==> {
            &&& cloned(states[0].config.local_config->0, source)
            &&& targets_gateway(
                target,
                states[0].config.gateway@,
                states[0].config.namespace@,
            )
            &&& events[0] matches StartupEvent::StoresCreated(created) && cloned(created, stores)
            &&& events[1] matches StartupEvent::ResourceManagerCreated(Ok(made)) && cloned(
                made,
                resource_manager,
            )
        },
{
    lemma_run(states, events, actions, i);
    lemma_run_resources(states, events, actions, i);
    assert(states[i].steps(events[i], states[i + 1], actions[i]));
}

/// However a startup runs, it completes exactly where its last part is there: the local client with
/// a local config, else the client of the control plane with an address, else the resource manager.
/// The manager then holds the very parts that were made.
pub proof fn law_completed_startup_holds_what_was_made<S: Clone, X, R: Clone, L, K, C: Clone, E>(
    states: Seq<StartupModel<S, X, R, C>>,
    events: Seq<StartupEvent<S, X, R, L, K, E>>,
    actions: Seq<StartupAction<S, X, R, L, K, C, E>>,
    i: int,
)
    requires
        is_run(states, events, actions),
        0 <= i < actions.len(),
    ensures
        actions[i] is Done <==> if states[0].config.local_config is Some {
            events[i] matches StartupEvent::LocalStarted(Ok(_))
        } else if states[0].config.address is Some {
            events[i] is XdsBuilt
        } else {
            events[i] matches StartupEvent::ResourceManagerCreated(Ok(_))
        },
        actions[i] matches StartupAction::Done(manager) ==> {
            &&& events[0] == StartupEvent::<S, X, R, L, K, E>::StoresCreated(manager@.stores)
            &&& events[1] == StartupEvent::<S, X, R, L, K, E>::ResourceManagerCreated(
                Ok(manager@.resource_manager),
            )
            &&& manager@.xds_client matches Some(client) ==> events[3] == StartupEvent::<
                S,
                X,
                R,
                L,
                K,
                E,
            >::XdsBuilt(client)
            &&& manager@.xds_client is None <==> states[0].config.address is None
            &&& manager@.local_client matches Some(client) ==> events[i] == StartupEvent::<
                S,
                X,
                R,
                L,
                K,
                E,
            >::LocalStarted(Ok(client))
            &&& manager@.local_client is None <==> states[0].config.local_config is None
        },
{
    lemma_run(states, events, actions, i);
    lemma_run_resources(states, events, actions, i);
    assert(states[i].steps(events[i], states[i + 1], actions[i]));
}

/// However a startup runs, it fails exactly where one of its parts could not be made.
pub proof fn law_startup_fails_iff_a_part_does<S: Clone, X, R: Clone, L, K, C: Clone, E>(
    states: Seq<StartupModel<S, X, R, C>>,
    events: Seq<StartupEvent<S, X, R, L, K, E>>,
    actions: Seq<StartupAction<S, X, R, L, K, C, E>>,
    i: int,
)
    requires
        is_run(states, events, actions),
        0 <= i < actions.len(),
    ensures
        actions[i] matches StartupAction::Fail(error) ==> {
            ||| events[i] == StartupEvent::<S, X, R, L, K, E>::ResourceManagerCreated(Err(error))
            ||| events[i] == StartupEvent::<S, X, R, L, K, E>::Connected(Err(error))
            ||| events[i] == StartupEvent::<S, X, R, L, K, E>::LocalStarted(Err(error))
        },
        actions[i] is Fail <==> {
            ||| events[i] matches StartupEvent::ResourceManagerCreated(Err(_))
            ||| events[i] matches StartupEvent::Connected(Err(_))
            ||| events[i] matches StartupEvent::LocalStarted(Err(_))
        },
{
    assert(states[i].steps(events[i], states[i + 1], actions[i]));
}

/// A startup takes in exactly what it waits for, whatever came of it, and its config stays as it was.
pub proof fn law_startup_takes_what_it_waits_for<S: Clone, X, R: Clone, L, K, C: Clone, E>(
    startup: StartupModel<S, X, R, C>,
    event: StartupEvent<S, X, R, L, K, E>,
    after: StartupModel<S, X, R, C>,
    action: StartupAction<S, X, R, L, K, C, E>,
)
    ensures
        startup.expects(event) <==> (match startup.phase {
            StartupPhase::CreatingStores => event is StoresCreated,
            StartupPhase::CreatingResourceManager { .. } => event is ResourceManagerCreated,
            StartupPhase::Connecting { .. } => event is Connected,
            StartupPhase::BuildingXds { .. } => event is XdsBuilt,
            StartupPhase::StartingLocal { .. } => event is LocalStarted,
            StartupPhase::Ended => false,
        }),
        startup.steps(event, after, action) ==> {
            &&& startup.expects(event)
            &&& after.config == startup.config
            &&& after.phase is Ended <==> action is Done || action is Fail
            &&& after.phase is CreatingResourceManager <==> action is CreateResourceManager
            &&& after.phase is Connecting <==> action is Connect
            &&& after.phase is BuildingXds <==> action is BuildXds
            &&& after.phase is StartingLocal <==> action is StartLocal
            &&& !(after.phase is CreatingStores)
        },
{
}

/// A copy is there exactly where something is held, and is a clone of that.
pub proof fn law_copy_is_a_clone<L: Clone>(held: Option<L>, copy: Option<L>)
    requires
        is_copy(held, copy),
    ensures
        copy is Some <==> held is Some,
        held is Some ==> cloned(held->0, copy->0),
{
}

} // verus!
