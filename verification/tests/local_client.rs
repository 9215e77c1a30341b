use agentgateway::clock::Timestamp;
use agentgateway::hash::content_hash;
use agentgateway::local_client::{
    Action, ConfigRun, ConfigSource, Event, LoadStatus, LocalClient, NormalizedConfig, Reaction,
};

type Binds = Vec<String>;
type Run = ConfigRun<Binds, u32, u32>;
type Happened = Event<String, Binds, u32, String, u32>;
type Asked = Reaction<String, Binds, u32, String, u32>;

fn local_config(remove_field: &str) -> String {
    format!(
        r#"
frontendPolicies:
  accessLog:
    remove:
    - {remove_field}
"#
    )
}

/// A client and its latest run.
struct Client {
    core: LocalClient,
    run: Run,
}

impl Client {
    fn step(&mut self, event: Happened) -> Option<Asked> {
        self.core.step(&mut self.run, event)
    }

    fn load_status(&self) -> LoadStatus {
        self.core.load_status()
    }
}

fn run(core: &LocalClient) -> Run {
    let (run, asked): (Run, Asked) = core.run();
    assert_eq!(asked.synchronized, None);
    assert!(matches!(asked.action, Action::ReadConfig));
    run
}

fn step(client: &mut Client, event: Happened) -> Asked {
    client.step(event).expect("the event belongs here")
}

fn new_client(source: ConfigSource) -> Client {
    let core = LocalClient::new(source);
    let run = run(&core);
    Client { core, run }
}

/// Answers the read of the config source with `content`, and the rest as a store would that can
/// take over anything. Gives the reaction to the last answer.
fn load(client: &mut Client, content: &str) -> Asked {
    let asked = step(client, Event::ConfigRead(Ok(content.to_string())));
    let Action::Normalize { content: text } = asked.action else {
        panic!("content should be normalized");
    };
    assert_eq!(text, content);
    let config = NormalizedConfig { binds: text, discovery: 7 };
    let Action::SyncBinds { binds, mut previous_binds } =
        step(client, Event::Normalized(Ok(config))).action
    else {
        panic!("binds should be synced");
    };
    previous_binds.push(binds);
    let asked = step(client, Event::BindsSynced(previous_binds));
    let Action::SyncDiscovery { discovery, previous_discovery } = asked.action else {
        panic!("discovery should be synced");
    };
    assert_eq!(discovery, 7);
    step(client, Event::DiscoverySynced(Ok(previous_discovery + 1)))
}

/// Starts a client with `content`, up to where it waits for changes.
fn start(source: ConfigSource, content: &str) -> Client {
    let mut client = new_client(source);
    start_watching(&mut client, source, content);
    client
}

/// Runs the first load with `content`, and goes on up to where the client waits for changes.
fn start_watching(client: &mut Client, source: ConfigSource, content: &str) {
    let asked = load(client, content);
    assert_eq!(asked.synchronized, None);
    if source == ConfigSource::File {
        assert!(matches!(asked.action, Action::StartWatch));
        assert!(matches!(
            step(client, Event::WatchStarted(Ok(()))).action,
            Action::Subscribe
        ));
    } else {
        assert!(matches!(asked.action, Action::Subscribe));
    }
    let Action::Wait { file } = step(client, Event::Subscribed).action else {
        panic!("the client should wait for changes");
    };
    assert_eq!(file, source == ConfigSource::File);
}

fn load_status(client: &Client, disk: &str) -> LoadStatus {
    client.load_status().with_disk(Some(disk))
}

/// What the next load would hand back to the stores.
fn previous(client: &mut Client) -> (Binds, u32) {
    step(client, Event::ResourceChanged);
    step(client, Event::ConfigRead(Ok(String::new())));
    let config = NormalizedConfig { binds: String::new(), discovery: 0 };
    let Action::SyncBinds { previous_binds, .. } =
        step(client, Event::Normalized(Ok(config))).action
    else {
        panic!("binds should be synced");
    };
    let Action::SyncDiscovery { previous_discovery, .. } =
        step(client, Event::BindsSynced(Vec::new())).action
    else {
        panic!("discovery should be synced");
    };
    (previous_binds, previous_discovery)
}

#[test]
fn load_status_tracks_reload_success_and_failure() {
    let alpha = local_config("alpha");
    let mut client = start(ConfigSource::File, &alpha);

    let status = load_status(&client, &alpha);
    assert_eq!(status.error, None);
    assert!(status.last_updated_at.is_some());
    let applied_hash = status
        .running_hash
        .expect("running hash set after successful load");
    assert!(applied_hash.starts_with("sha256:"));
    assert_eq!(status.disk_hash.as_ref(), Some(&applied_hash));

    let broken = "{ this is not yaml [";
    step(&mut client, Event::FileChanged { invalidated: false });
    step(&mut client, Event::ConfigRead(Ok(broken.to_string())));
    let asked = step(&mut client, Event::Normalized(Err("did not find expected node".to_string())));
    assert_eq!(asked.synchronized, Some(false));

    let status = load_status(&client, broken);
    assert!(status.error.is_some(), "failed reload records an error");
    assert_eq!(
        status.running_hash.as_ref(),
        Some(&applied_hash),
        "running hash keeps the last applied config"
    );
    assert!(
        status.disk_hash.is_some_and(|h| h != applied_hash),
        "disk hash follows the broken file content"
    );
}

#[test]
fn api_config_status_reports_matching_hashes_when_synced() {
    let alpha = local_config("alpha");
    let mut client = start(ConfigSource::File, &alpha);
    let status = load_status(&client, &alpha);
    assert!(status.error.is_none());
    assert!(status.last_updated_at.is_some());
    assert!(status.running_hash.as_ref().is_some_and(|h| h.starts_with("sha256:")));
    assert_eq!(status.running_hash, status.disk_hash);
    let initial_hash = status.running_hash;

    let gamma = local_config("gamma");
    step(&mut client, Event::FileChanged { invalidated: false });
    load(&mut client, &gamma);
    let status = load_status(&client, &gamma);
    assert!(status.error.is_none());
    assert_ne!(status.running_hash, initial_hash);
    assert_eq!(status.running_hash, status.disk_hash);
}

#[test]
fn file_config_reloads_after_repeated_rename_replacement() {
    let mut client = start(ConfigSource::File, &local_config("first"));
    for (field, invalidated) in
        [("ready", false), ("second", true), ("ready-again", false), ("third", true)]
    {
        let asked = step(&mut client, Event::FileChanged { invalidated });
        assert!(matches!(asked.action, Action::ReadConfig));
        let content = local_config(field);
        let asked = load(&mut client, &content);
        assert_eq!(asked.synchronized, Some(true));
        if invalidated {
            assert!(matches!(asked.action, Action::Rewatch));
            let asked = step(&mut client, Event::Rewatched { ok: true });
            assert!(matches!(asked.action, Action::Wait { file: true }));
        } else {
            assert!(matches!(asked.action, Action::Wait { file: true }));
        }
        assert_eq!(client.load_status().running_hash, Some(content_hash(&content)));
    }
}

#[test]
fn failed_reload_still_rewatches_the_file() {
    let mut client = start(ConfigSource::File, "a: 1");
    step(&mut client, Event::FileChanged { invalidated: true });
    let asked = step(&mut client, Event::ConfigRead(Err("no such file".to_string())));
    assert_eq!(asked.synchronized, Some(false));
    assert!(matches!(asked.action, Action::Rewatch));
    let asked = step(&mut client, Event::Rewatched { ok: false });
    assert!(matches!(asked.action, Action::Stop));
    assert!(client.step(Event::ResourceChanged).is_none());
}

#[test]
fn every_stage_of_a_reload_can_fail_and_keeps_what_was_applied() {
    for stage in 0..3 {
        let mut client = start(ConfigSource::Static, "a: 1");
        step(&mut client, Event::ResourceChanged);
        if stage > 0 {
            step(&mut client, Event::ConfigRead(Ok("a: 2".to_string())));
        }
        if stage > 1 {
            let config = NormalizedConfig { binds: "a: 2".to_string(), discovery: 9 };
            step(&mut client, Event::Normalized(Ok(config)));
            step(&mut client, Event::BindsSynced(vec!["a: 2".to_string()]));
        }
        let error = format!("stage {stage}");
        let event: Happened = match stage {
            0 => Event::ConfigRead(Err(error.clone())),
            1 => Event::Normalized(Err(error.clone())),
            _ => Event::DiscoverySynced(Err(error.clone())),
        };
        let at = Timestamp { secs: 42, nanos: 7 };
        let asked = client.core.step_at(&mut client.run, event, at).unwrap();
        assert_eq!(asked.synchronized, Some(false));
        assert!(matches!(asked.action, Action::Wait { file: false }));
        let status = client.load_status();
        assert_eq!(status.error, Some(error));
        assert_eq!(status.last_updated_at, Some(at));
        assert_eq!(status.running_hash, Some(content_hash("a: 1")));
        assert_eq!(status.disk_hash, None);
        assert_eq!(previous(&mut client), (vec!["a: 1".to_string()], 1));
    }
}

#[test]
fn reload_starts_from_what_the_stores_gave_and_clears_the_error() {
    let mut client = start(ConfigSource::Static, "a: 1");
    step(&mut client, Event::ResourceChanged);
    step(&mut client, Event::ConfigRead(Err("gone".to_string())));
    assert_eq!(client.load_status().error.as_deref(), Some("gone"));
    step(&mut client, Event::ResourceChanged);
    let asked = load(&mut client, "a: 2");
    assert_eq!(asked.synchronized, Some(true));
    let status = client.load_status();
    assert_eq!(status.error, None);
    assert_eq!(status.running_hash, Some(content_hash("a: 2")));
    let binds = vec!["a: 1".to_string(), "a: 2".to_string()];
    assert_eq!(previous(&mut client), (binds, 2));
}

#[test]
fn first_load_that_fails_ends_the_run() {
    let mut client = new_client(ConfigSource::File);
    let asked = step(&mut client, Event::ConfigRead(Err("no such file".to_string())));
    assert_eq!(asked.synchronized, None);
    assert!(matches!(asked.action, Action::Fail { error } if error == "no such file"));
    let status = client.load_status();
    assert_eq!(status.error.as_deref(), Some("no such file"));
    assert_eq!(status.running_hash, None);
    assert!(status.last_updated_at.is_some());
    assert!(client.step(Event::ResourceChanged).is_none());
}

#[test]
fn first_load_can_fail_at_every_stage_and_is_reported() {
    for stage in 0..3 {
        let mut client = new_client(ConfigSource::Static);
        if stage > 0 {
            step(&mut client, Event::ConfigRead(Ok("a: 1".to_string())));
        }
        if stage > 1 {
            let config = NormalizedConfig { binds: "a: 1".to_string(), discovery: 9 };
            step(&mut client, Event::Normalized(Ok(config)));
            step(&mut client, Event::BindsSynced(vec!["a: 1".to_string()]));
        }
        let error = format!("stage {stage}");
        let event: Happened = match stage {
            0 => Event::ConfigRead(Err(error.clone())),
            1 => Event::Normalized(Err(error.clone())),
            _ => Event::DiscoverySynced(Err(error.clone())),
        };
        let at = Timestamp { secs: 3, nanos: 4 };
        let asked = client.core.step_at(&mut client.run, event, at).unwrap();
        assert_eq!(asked.synchronized, None);
        assert!(matches!(asked.action, Action::Fail { error: e } if e == error));
        let status = client.load_status();
        assert_eq!(status.error, Some(error));
        assert_eq!(status.last_updated_at, Some(at));
        assert_eq!(status.running_hash, None);
    }
}

#[test]
fn client_can_be_run_again_after_a_failed_first_load() {
    let mut client = new_client(ConfigSource::File);
    step(&mut client, Event::ConfigRead(Err("no such file".to_string())));
    client.run = run(&client.core);
    assert_eq!(client.load_status().error.as_deref(), Some("no such file"));
    start_watching(&mut client, ConfigSource::File, "a: 1");
    let status = client.load_status();
    assert_eq!(status.error, None);
    assert_eq!(status.running_hash, Some(content_hash("a: 1")));
    assert_eq!(previous(&mut client), (vec!["a: 1".to_string()], 1));
}

#[test]
fn runs_start_afresh_and_share_the_status() {
    let mut client = start(ConfigSource::Static, "a: 1");
    let second = run(&client.core);
    let mut first = std::mem::replace(&mut client.run, second);
    start_watching(&mut client, ConfigSource::Static, "a: 2");
    assert_eq!(client.load_status().running_hash, Some(content_hash("a: 2")));

    let asked: Option<Asked> = client.core.step(&mut first, Event::ResourceChanged);
    assert!(asked.is_some_and(|a| matches!(a.action, Action::ReadConfig)));
    let event: Happened = Event::ConfigRead(Err("gone".to_string()));
    assert_eq!(client.core.step(&mut first, event).and_then(|a| a.synchronized), Some(false));
    let status = client.load_status();
    assert_eq!(status.error.as_deref(), Some("gone"));
    assert_eq!(status.running_hash, Some(content_hash("a: 2")));

    assert_eq!(previous(&mut client), (vec!["a: 2".to_string()], 1));
    client.run = first;
    assert_eq!(previous(&mut client), (vec!["a: 1".to_string()], 1));
}

#[test]
fn run_whose_first_load_fails_keeps_what_is_applied() {
    let mut client = start(ConfigSource::Static, "a: 1");
    client.run = run(&client.core);
    let asked = step(&mut client, Event::ConfigRead(Err("gone".to_string())));
    assert!(matches!(asked.action, Action::Fail { error } if error == "gone"));
    let status = client.load_status();
    assert_eq!(status.error.as_deref(), Some("gone"));
    assert_eq!(status.running_hash, Some(content_hash("a: 1")));
}

#[test]
fn file_watch_that_cannot_be_set_up_ends_the_run() {
    let mut client = new_client(ConfigSource::File);
    load(&mut client, "a: 1");
    let asked = step(&mut client, Event::WatchStarted(Err("too many watches".to_string())));
    assert!(matches!(asked.action, Action::Fail { error } if error == "too many watches"));
}

#[test]
fn closed_watches_stop_the_run() {
    let mut client = start(ConfigSource::File, "a: 1");
    assert!(matches!(step(&mut client, Event::FileClosed).action, Action::Stop));
    let mut client = start(ConfigSource::File, "a: 1");
    assert!(matches!(step(&mut client, Event::ResourcesClosed).action, Action::Stop));
    let mut client = start(ConfigSource::Static, "a: 1");
    assert!(matches!(step(&mut client, Event::ResourcesClosed).action, Action::Stop));
}

#[test]
fn events_out_of_place_change_nothing() {
    let mut client = start(ConfigSource::Static, "a: 1");
    assert!(client.step(Event::FileChanged { invalidated: false }).is_none());
    assert!(client.step(Event::FileClosed).is_none());
    assert!(client.step(Event::Subscribed).is_none());
    assert!(matches!(step(&mut client, Event::ResourceChanged).action, Action::ReadConfig));
}

#[test]
fn unreadable_source_has_no_disk_hash() {
    let client = start(ConfigSource::File, "a: 1");
    let status = client.load_status().with_disk(None);
    assert_eq!(status.disk_hash, None);
    assert_eq!(status.running_hash, Some(content_hash("a: 1")));
    let fresh = LoadStatus::default().with_disk(Some("a: 1"));
    assert_eq!(fresh.disk_hash, Some(content_hash("a: 1")));
    assert_eq!(fresh.running_hash, None);
}
