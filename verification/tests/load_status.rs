use agentgateway::clock::Timestamp;
use agentgateway::hash::content_hash;
use agentgateway::load_status::{channel, Content, Pending, Snapshot, State, Status, Step, Watcher};

const AT: Timestamp = Timestamp { secs: 1_700_000_000, nanos: 5 };
const LATER: Timestamp = Timestamp { secs: 1_700_000_060, nanos: 0 };

fn content(raw: &str) -> Content {
    Content::new(raw.to_string())
}

fn pending(snapshot: &Snapshot) -> Pending {
    match snapshot.clone().live() {
        Step::ReadStored(pending) => pending,
        Step::Done(_) => panic!("the query should ask for the stored config"),
    }
}

fn live(watcher: &Watcher, stored: Option<&str>) -> Option<(Option<String>, Status)> {
    match watcher.live() {
        Step::Done(answer) => answer,
        Step::ReadStored(pending) => Some(pending.resume(stored)),
    }
}

#[test]
fn disabled_watcher_reports_no_status() {
    let (publisher, watcher) = channel(false);
    assert!(live(&watcher, None).is_none());
    assert!(publisher.success("a: 1".to_string()));
    publisher.failure("broken".to_string());
    assert!(live(&watcher, Some("a: 1")).is_none());
    assert!(matches!(watcher.status(), Step::Done(None)));
    assert!(matches!(watcher.clone().status(), Step::Done(None)));
}

#[test]
fn fresh_watcher_reports_drift_without_reading_the_stored_config() {
    let (_publisher, watcher) = channel(true);
    let Step::Done(Some((raw, status))) = watcher.live() else {
        panic!("nothing was applied, so there is nothing to compare with");
    };
    assert_eq!(raw, None);
    assert_eq!(status.state, State::Drifted);
    assert_eq!(status.applied_generation, None);
    assert_eq!(status.applied_at, None);
    assert_eq!(status.applied_hash, None);
    assert!(status.last_attempt.is_none());
    assert!(!status.stored_matches_applied);
    assert!(matches!(watcher.status(), Step::Done(Some(_))));
}

#[test]
fn success_is_reported() {
    let (publisher, watcher) = channel(true);
    assert!(publisher.success("a: 1".to_string()));
    let (raw, status) = live(&watcher, Some("# same\na:  1\n")).unwrap();
    assert_eq!(raw.as_deref(), Some("a: 1"));
    assert_eq!(status.state, State::Synced);
    assert!(status.stored_matches_applied);
    assert_eq!(status.applied_generation, Some(1));
    assert_eq!(status.applied_hash, Some(content_hash("a: 1")));
    let attempt = status.last_attempt.unwrap();
    assert_eq!(attempt.error, None);
    assert_eq!(status.applied_at, Some(attempt.at));
    assert!(attempt.at.secs > 1_600_000_000);
}

#[test]
fn changed_or_unreadable_stored_config_is_drift() {
    let (publisher, watcher) = channel(true);
    publisher.success("a: 1".to_string());
    for stored in [Some("a: 2"), Some("{ this is not yaml ["), None] {
        let (_, status) = live(&watcher, stored).unwrap();
        assert_eq!(status.state, State::Drifted);
        assert!(!status.stored_matches_applied);
    }
}

#[test]
fn failure_keeps_what_was_applied() {
    let (publisher, watcher) = channel(true);
    publisher.success("a: 1".to_string());
    let (_, before) = live(&watcher, Some("a: 1")).unwrap();
    publisher.failure("no such listener".to_string());
    let (raw, status) = live(&watcher, Some("a: 1")).unwrap();
    assert_eq!(raw.as_deref(), Some("a: 1"));
    assert_eq!(status.state, State::Failed);
    assert!(status.stored_matches_applied);
    assert_eq!(status.applied_generation, before.applied_generation);
    assert_eq!(status.applied_at, before.applied_at);
    assert_eq!(status.applied_hash, before.applied_hash);
    assert_eq!(status.last_attempt.unwrap().error.as_deref(), Some("no such listener"));
}

#[test]
fn failure_before_any_success_is_failed() {
    let (publisher, watcher) = channel(true);
    publisher.failure("unreadable".to_string());
    let Step::Done(Some((raw, status))) = watcher.live() else {
        panic!("nothing was applied, so there is nothing to compare with");
    };
    assert_eq!(raw, None);
    assert_eq!(status.state, State::Failed);
    assert_eq!(status.applied_generation, None);
    assert_eq!(status.last_attempt.unwrap().error.as_deref(), Some("unreadable"));
}

#[test]
fn generations_count_successes_of_all_publishers() {
    let (publisher, watcher) = channel(true);
    let other = publisher.clone();
    publisher.success("a: 1".to_string());
    other.failure("broken".to_string());
    other.success("a: 2".to_string());
    publisher.success("a: 3".to_string());
    let Step::ReadStored(pending) = watcher.status() else {
        panic!("the query should ask for the stored config");
    };
    let status = pending.resume_status(Some("a: 3"));
    assert_eq!(status.applied_generation, Some(3));
    assert_eq!(status.state, State::Synced);
}

#[test]
fn channels_are_apart_and_watchers_of_one_see_the_same() {
    let (publisher, watcher) = channel(true);
    let (_other, elsewhere) = channel(true);
    let copy = watcher.clone();
    publisher.clone().success("a: 1".to_string());
    for watcher in [&watcher, &copy] {
        let (raw, status) = live(watcher, Some("a: 1")).unwrap();
        assert_eq!(raw.as_deref(), Some("a: 1"));
        assert_eq!(status.applied_generation, Some(1));
    }
    let (raw, status) = live(&elsewhere, Some("a: 1")).unwrap();
    assert_eq!(raw, None);
    assert_eq!(status.applied_generation, None);
}

#[test]
fn query_answers_from_the_snapshot_it_began_with() {
    let (publisher, watcher) = channel(true);
    publisher.success("a: 1".to_string());
    let Step::ReadStored(pending) = watcher.live() else {
        panic!("the query should ask for the stored config");
    };
    publisher.success("a: 2".to_string());
    let (raw, status) = pending.resume(Some("a: 2"));
    assert_eq!(raw.as_deref(), Some("a: 1"));
    assert_eq!(status.applied_generation, Some(1));
    assert_eq!(status.state, State::Drifted);
}

#[test]
fn snapshot_records_the_given_times() {
    let mut snapshot = Snapshot::new(true);
    assert!(snapshot.success(content("a: 1"), AT));
    snapshot.failure("broken".to_string(), LATER);
    let (_, status) = pending(&snapshot).resume(None);
    assert_eq!(status.applied_at, Some(AT));
    assert_eq!(status.last_attempt.unwrap().at, LATER);
    assert!(snapshot.success(content("a: 2"), LATER));
    let (raw, status) = pending(&snapshot).resume(Some("a: 2"));
    assert_eq!(raw.as_deref(), Some("a: 2"));
    assert_eq!(status.applied_at, Some(LATER));
    assert_eq!(status.applied_generation, Some(2));
    assert_eq!(status.last_attempt.unwrap().error, None);
}

#[test]
fn config_applied_but_unparseable_never_matches() {
    let mut snapshot = Snapshot::new(true);
    assert!(snapshot.success(content("{ this is not yaml ["), AT));
    let status = pending(&snapshot).resume_status(Some("{ this is not yaml ["));
    assert!(!status.stored_matches_applied);
    assert_eq!(status.state, State::Drifted);
}

#[test]
fn disabled_snapshot_records_nothing() {
    let mut snapshot = Snapshot::new(false);
    assert!(snapshot.success(content("a: 1"), AT));
    snapshot.failure("broken".to_string(), AT);
    assert!(matches!(snapshot, Snapshot::Disabled));
    assert!(matches!(snapshot.status(), Step::Done(None)));
}

#[test]
fn conclusion_depends_on_the_match_and_the_last_attempt() {
    let mut snapshot = Snapshot::new(true);
    snapshot.success(content("a: 1"), AT);
    let (raw, status) = pending(&snapshot).conclude(true);
    assert_eq!(raw.as_deref(), Some("a: 1"));
    assert_eq!((status.state, status.stored_matches_applied), (State::Synced, true));
    let (_, status) = pending(&snapshot).conclude(false);
    assert_eq!((status.state, status.stored_matches_applied), (State::Drifted, false));
    snapshot.failure("broken".to_string(), LATER);
    let (_, status) = pending(&snapshot).conclude(true);
    assert_eq!((status.state, status.stored_matches_applied), (State::Failed, true));
}
