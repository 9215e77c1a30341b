use agentgateway::hash::content_hash;
use agentgateway::local_client::{
    Action, ConfigRun, ConfigSource, Event, NormalizedConfig, Reaction,
};
use agentgateway::shared_client::SharedClient;
use agentgateway::state_manager::{StartupAction, StartupEvent, StateManager, XdsConfig};

type Run = ConfigRun<String, u32, u32>;
type Happened = Event<String, String, u32, String, u32>;
type Asked = Reaction<String, String, u32, String, u32>;
type Manager = StateManager<(), (), (), SharedClient>;

fn run(client: &SharedClient) -> Run {
    let (run, asked): (Run, Asked) = client.run();
    assert_eq!(asked.synchronized, None);
    assert!(matches!(asked.action, Action::ReadConfig));
    run
}

fn step(client: &SharedClient, run: &mut Run, event: Happened) -> Asked {
    client.step(run, event).expect("the event belongs here")
}

/// Loads `content`, and gives the reaction to the end of the load.
fn load(client: &SharedClient, run: &mut Run, content: &str) -> Asked {
    let asked = step(client, run, Event::ConfigRead(Ok(content.to_string())));
    assert!(matches!(asked.action, Action::Normalize { content: text } if text == content));
    let config = NormalizedConfig { binds: "binds".to_string(), discovery: 7 };
    let asked = step(client, run, Event::Normalized(Ok(config)));
    assert!(matches!(asked.action, Action::SyncBinds { .. }));
    let asked = step(client, run, Event::BindsSynced("bound".to_string()));
    assert!(matches!(asked.action, Action::SyncDiscovery { discovery: 7, .. }));
    step(client, run, Event::DiscoverySynced(Ok(8)))
}

#[test]
fn clones_share_one_load_status() {
    let client = SharedClient::new(ConfigSource::Static);
    let earlier = client.clone();
    assert_eq!(earlier.load_status().running_hash, None);
    assert_eq!(earlier.load_status().last_updated_at, None);

    let mut first = run(&client);
    assert!(matches!(load(&client, &mut first, "a: 1").action, Action::Subscribe));
    let later = client.clone();
    for c in [&client, &earlier, &later] {
        let status = c.load_status();
        assert_eq!(status.running_hash, Some(content_hash("a: 1")));
        assert_eq!(status.error, None);
        assert_eq!(status.disk_hash, None);
        assert!(status.last_updated_at.is_some_and(|at| at.secs > 1_600_000_000));
    }

    step(&later, &mut first, Event::Subscribed);
    step(&earlier, &mut first, Event::ResourceChanged);
    let asked = step(&later, &mut first, Event::ConfigRead(Err("gone".to_string())));
    assert_eq!(asked.synchronized, Some(false));
    for c in [&client, &earlier, &later] {
        let status = c.load_status();
        assert_eq!(status.running_hash, Some(content_hash("a: 1")));
        assert_eq!(status.error.as_deref(), Some("gone"));
    }
}

#[test]
fn clients_made_apart_share_nothing() {
    let one = SharedClient::new(ConfigSource::File);
    let other = SharedClient::new(ConfigSource::File);
    let mut first = run(&one);
    assert!(matches!(load(&one, &mut first, "a: 1").action, Action::StartWatch));
    assert_eq!(one.load_status().running_hash, Some(content_hash("a: 1")));
    assert_eq!(other.load_status().running_hash, None);
    assert_eq!(other.load_status().last_updated_at, None);
}

#[test]
fn shared_client_reports_a_first_load_that_fails() {
    let client = SharedClient::new(ConfigSource::File);
    let watching = client.clone();
    let mut first = run(&client);
    let asked = step(&client, &mut first, Event::ConfigRead(Err("no such file".to_string())));
    assert!(matches!(asked.action, Action::Fail { error } if error == "no such file"));
    let status = watching.load_status();
    assert_eq!(status.error.as_deref(), Some("no such file"));
    assert_eq!(status.running_hash, None);
    assert!(client.step::<_, _, String, _>(&mut first, Event::ResourceChanged).is_none());
}

#[test]
fn local_clients_of_a_state_manager_share_one_load_status() {
    let mut startup = Manager::new(XdsConfig {
        address: None,
        local_config: Some("config.yaml"),
        gateway: "gw".to_string(),
        namespace: "ns".to_string(),
    });
    let client = SharedClient::new(ConfigSource::Static);
    let mut first = run(&client);
    load(&client, &mut first, "a: 1");
    for event in [
        StartupEvent::StoresCreated(()),
        StartupEvent::ResourceManagerCreated(Ok(())),
        StartupEvent::LocalStarted(Ok(client.clone())),
    ] {
        let next: Option<StartupAction<(), (), (), SharedClient, (), &str, String>> =
            startup.step(event);
        if let Some(StartupAction::Done(manager)) = next {
            let a = manager.local_client().expect("a local config is set up");
            step(&client, &mut first, Event::Subscribed);
            step(&client, &mut first, Event::ResourceChanged);
            load(&client, &mut first, "a: 2");
            let b = manager.local_client().expect("a local config is set up");
            assert_eq!(a.load_status().running_hash, Some(content_hash("a: 2")));
            assert_eq!(b.load_status().running_hash, a.load_status().running_hash);
            assert_eq!(b.load_status().last_updated_at, a.load_status().last_updated_at);
            return;
        }
    }
    panic!("the startup should be complete");
}
