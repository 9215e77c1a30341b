use agentgateway::state_manager::{
    Startup, StartupAction, StartupEvent, StateManager, StoreKind, XdsConfig, ADDRESS_TYPE, ADP_TYPE,
    AUTHORIZATION_TYPE,
};

type Manager = StateManager<String, String, String, String>;
type Start = Startup<String, String, String, String>;
type Happened = StartupEvent<String, String, String, String, u8, String>;
type Next = StartupAction<String, String, String, String, u8, String, String>;

fn config(address: Option<&str>, local: Option<&str>) -> XdsConfig<String> {
    XdsConfig {
        address: address.map(|a| a.to_string()),
        local_config: local.map(|l| l.to_string()),
        gateway: "gw".to_string(),
        namespace: "ns".to_string(),
    }
}

fn begin(address: Option<&str>, local: Option<&str>) -> Start {
    Manager::new(config(address, local))
}

fn step(startup: &mut Start, event: Happened) -> Next {
    startup.step(event).expect("the event belongs here")
}

fn with_stores(startup: &mut Start) -> Next {
    let next = step(startup, StartupEvent::StoresCreated("stores".to_string()));
    assert!(matches!(next, StartupAction::CreateResourceManager));
    step(startup, StartupEvent::ResourceManagerCreated(Ok("resources".to_string())))
}

fn done(next: Next) -> Manager {
    match next {
        StartupAction::Done(manager) => manager,
        _ => panic!("the startup should be complete"),
    }
}

#[test]
fn resource_types_are_those_of_the_control_plane() {
    assert_eq!(ADDRESS_TYPE, "type.googleapis.com/istio.workload.Address");
    assert_eq!(AUTHORIZATION_TYPE, "type.googleapis.com/istio.security.Authorization");
    assert_eq!(ADP_TYPE, "type.googleapis.com/agentgateway.dev.resource.Resource");
}

#[test]
fn control_plane_is_there_with_an_address() {
    assert!(config(Some("addr"), None).has_xds());
    assert!(!config(None, Some("config.yaml")).has_xds());
}

#[test]
fn startup_with_control_plane_and_local_config() {
    let mut startup = begin(Some("http://example.invalid:15010"), Some("config.yaml"));
    let StartupAction::Connect { address } = with_stores(&mut startup) else {
        panic!("the control plane should be connected to");
    };
    assert_eq!(address, "http://example.invalid:15010");
    let StartupAction::BuildXds { connector, gateway, namespace, watched, stores } =
        step(&mut startup, StartupEvent::Connected(Ok(5)))
    else {
        panic!("the client should be built");
    };
    assert_eq!((connector, gateway.as_str(), namespace.as_str()), (5, "gw", "ns"));
    let watched: Vec<(&str, StoreKind)> = watched.iter().map(|w| (w.type_url, w.store)).collect();
    assert_eq!(watched, [(ADDRESS_TYPE, StoreKind::Discovery), (ADP_TYPE, StoreKind::Binds)]);
    assert_eq!(stores, "stores");
    let StartupAction::StartLocal { source, stores, resource_manager, target } =
        step(&mut startup, StartupEvent::XdsBuilt("xds".to_string()))
    else {
        panic!("the local client should be started");
    };
    assert_eq!(source, "config.yaml");
    assert_eq!((stores.as_str(), resource_manager.as_str()), ("stores", "resources"));
    assert_eq!((target.gateway_name.as_str(), target.gateway_namespace.as_str()), ("gw", "ns"));
    assert_eq!((target.listener_name, target.port), (None, None));
    let manager = done(step(&mut startup, StartupEvent::LocalStarted(Ok("local".to_string()))));
    assert_eq!(manager.stores(), "stores");
    assert_eq!(manager.resource_manager(), "resources");
    assert_eq!(manager.local_client().as_deref(), Some("local"));
    assert_eq!(manager.run().as_deref(), Some("xds"));
}

#[test]
fn startup_without_either_is_complete_with_nothing_to_run() {
    let mut startup = begin(None, None);
    let manager = done(with_stores(&mut startup));
    assert_eq!(manager.local_client(), None);
    assert_eq!(manager.run(), None);
}

#[test]
fn startup_with_local_config_alone() {
    let mut startup = begin(None, Some("config.yaml"));
    assert!(matches!(with_stores(&mut startup), StartupAction::StartLocal { .. }));
    let manager = done(step(&mut startup, StartupEvent::LocalStarted(Ok("local".to_string()))));
    assert_eq!(manager.local_client().as_deref(), Some("local"));
    assert_eq!(manager.run(), None);
}

#[test]
fn startup_with_control_plane_alone() {
    let mut startup = begin(Some("addr"), None);
    with_stores(&mut startup);
    step(&mut startup, StartupEvent::Connected(Ok(1)));
    let manager = done(step(&mut startup, StartupEvent::XdsBuilt("xds".to_string())));
    assert_eq!(manager.local_client(), None);
    assert_eq!(manager.run().as_deref(), Some("xds"));
}

#[test]
fn whatever_fails_ends_the_startup_with_its_error() {
    let mut startup = begin(Some("addr"), Some("config.yaml"));
    step(&mut startup, StartupEvent::StoresCreated("stores".to_string()));
    let next = step(&mut startup, StartupEvent::ResourceManagerCreated(Err("r".to_string())));
    assert!(matches!(next, StartupAction::Fail(e) if e == "r"));
    assert!(startup.step::<String, u8, String>(StartupEvent::XdsBuilt("x".to_string())).is_none());

    let mut startup = begin(Some("addr"), Some("config.yaml"));
    with_stores(&mut startup);
    let next = step(&mut startup, StartupEvent::Connected(Err("c".to_string())));
    assert!(matches!(next, StartupAction::Fail(e) if e == "c"));

    let mut startup = begin(None, Some("config.yaml"));
    with_stores(&mut startup);
    let next = step(&mut startup, StartupEvent::LocalStarted(Err("l".to_string())));
    assert!(matches!(next, StartupAction::Fail(e) if e == "l"));
}

#[test]
fn startup_events_out_of_place_change_nothing() {
    let mut startup = begin(None, None);
    let early: Option<Next> = startup.step(StartupEvent::Connected(Ok(1)));
    assert!(early.is_none());
    done(with_stores(&mut startup));
}
