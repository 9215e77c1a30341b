use agentgateway::self_workload::{
    choose_candidate, start_self_workload_resolution, Candidate, Readiness, Resolution,
    SelfIdentitySource, SelfWorkloadWatch, WatchAction, WatchEvent, WatchReaction,
};
use agentgateway::state_manager::XdsConfig;

fn wds_identity(name: &str, ns: &str, cluster: &str) -> SelfIdentitySource<&'static str> {
    SelfIdentitySource::Wds {
        name: name.into(),
        namespace: ns.into(),
        cluster_id: cluster.into(),
    }
}

fn xds(has_xds: bool) -> XdsConfig<()> {
    XdsConfig {
        address: has_xds.then_some("http://example.invalid:15010".to_string()),
        local_config: None,
        gateway: "gw".to_string(),
        namespace: "ns".to_string(),
    }
}

fn watch(has_xds: bool) -> SelfWorkloadWatch {
    match start_self_workload_resolution(Some(wds_identity("gw", "ns", "c")), &xds(has_xds)) {
        Resolution::Watch { watch } => watch,
        _ => panic!("a discovered identity is watched for"),
    }
}

fn candidate(cluster: &str, workload: &'static str) -> Candidate<&'static str> {
    Candidate { cluster_id: cluster.to_string(), workload }
}

fn step(
    watch: &mut SelfWorkloadWatch,
    event: WatchEvent<&'static str>,
) -> WatchReaction<String, &'static str> {
    watch.step(event).expect("the event belongs here")
}

fn is_lookup(reaction: &WatchReaction<String, &'static str>) -> bool {
    matches!(
        &reaction.action,
        WatchAction::Lookup { name, namespace } if name == "gw" && namespace == "ns"
    )
}

#[test]
fn wds_without_xds_must_not_block_readiness_forever() {
    let mut watch = watch(false);
    let reaction = step(&mut watch, WatchEvent::Subscribed);
    assert_eq!(reaction.readiness, Readiness::Keep);
    assert!(is_lookup(&reaction));
    let reaction = step(&mut watch, WatchEvent::Found(vec![]));
    assert_eq!(reaction.readiness, Readiness::ReleaseAfter);
    assert!(matches!(reaction.action, WatchAction::Stop));
    assert!(watch.step::<&str>(WatchEvent::Inserted).is_none());
}

#[test]
fn wds_populates_self_workload_when_matching_workload_is_inserted() {
    let mut watch = watch(true);
    step(&mut watch, WatchEvent::Subscribed);
    let reaction = step(&mut watch, WatchEvent::Found(vec![]));
    assert_eq!(reaction.readiness, Readiness::Keep);
    assert!(matches!(reaction.action, WatchAction::AwaitInsert));
    let reaction = step(&mut watch, WatchEvent::Inserted);
    assert_eq!(reaction.start_deadline, Some(60));
    assert!(is_lookup(&reaction));
    let reaction = step(&mut watch, WatchEvent::Found(vec![candidate("c", "uid-1")]));
    assert_eq!(reaction.readiness, Readiness::ReleaseAfter);
    assert!(matches!(reaction.action, WatchAction::Resolve { workload: "uid-1" }));
}

#[test]
fn workload_that_is_there_already_is_taken_at_once() {
    let mut watch = watch(false);
    step(&mut watch, WatchEvent::Subscribed);
    let reaction = step(&mut watch, WatchEvent::Found(vec![candidate("other", "uid-1")]));
    assert_eq!(reaction.readiness, Readiness::ReleaseAfter);
    assert!(matches!(reaction.action, WatchAction::Resolve { workload: "uid-1" }));
}

#[test]
fn deadline_frees_readiness_and_keeps_watching() {
    let mut watch = watch(true);
    step(&mut watch, WatchEvent::Subscribed);
    step(&mut watch, WatchEvent::Found(vec![]));
    assert!(watch.step::<&str>(WatchEvent::DeadlinePassed).is_none());
    step(&mut watch, WatchEvent::Inserted);
    let reaction = step(&mut watch, WatchEvent::Found(vec![]));
    assert!(matches!(reaction.action, WatchAction::Wait { deadline: true }));
    let reaction = step(&mut watch, WatchEvent::DeadlinePassed);
    assert_eq!(reaction.readiness, Readiness::Release);
    assert!(is_lookup(&reaction));
    let reaction = step(&mut watch, WatchEvent::Found(vec![]));
    assert!(matches!(reaction.action, WatchAction::Wait { deadline: false }));
    assert!(watch.step::<&str>(WatchEvent::DeadlinePassed).is_none());
    let reaction = step(&mut watch, WatchEvent::Inserted);
    assert_eq!(reaction.start_deadline, None);
    let reaction = step(&mut watch, WatchEvent::Found(vec![candidate("c", "late")]));
    assert!(matches!(reaction.action, WatchAction::Resolve { workload: "late" }));
}

#[test]
fn closed_store_ends_the_watch() {
    let mut before = watch(true);
    step(&mut before, WatchEvent::Subscribed);
    step(&mut before, WatchEvent::Found(vec![]));
    let reaction = step(&mut before, WatchEvent::InsertsClosed);
    assert_eq!(reaction.readiness, Readiness::ReleaseAfter);
    assert!(matches!(reaction.action, WatchAction::Stop));

    let mut after = watch(true);
    step(&mut after, WatchEvent::Subscribed);
    step(&mut after, WatchEvent::Found(vec![]));
    step(&mut after, WatchEvent::Inserted);
    step(&mut after, WatchEvent::Found(vec![]));
    let reaction = step(&mut after, WatchEvent::InsertsClosed);
    assert!(matches!(reaction.action, WatchAction::Stop));
}

#[test]
fn given_or_missing_identity_needs_no_watch() {
    let given = start_self_workload_resolution(Some(SelfIdentitySource::Static("me")), &xds(true));
    assert!(matches!(given, Resolution::Resolve { workload: "me" }));
    let missing = start_self_workload_resolution::<&str, ()>(None, &xds(true));
    assert!(matches!(missing, Resolution::Nothing));
}

#[test]
fn cluster_decides_between_several_candidates() {
    let own = "c".to_string();
    assert_eq!(choose_candidate::<&str>(vec![], &own), None);
    assert_eq!(choose_candidate(vec![candidate("x", "a")], &own), Some("a"));
    assert_eq!(choose_candidate(vec![candidate("x", "a"), candidate("y", "b")], &own), Some("b"));
    let mixed = vec![
        candidate("c", "a"),
        candidate("x", "b"),
        candidate("c", "d"),
        candidate("y", "e"),
    ];
    assert_eq!(choose_candidate(mixed, &own), Some("d"));
}

#[test]
fn choice_agrees_with_the_greatest_by_cluster_match() {
    let own = "c".to_string();
    for bits in 0..64u32 {
        let len = (bits % 5) as usize;
        let names = ["w0", "w1", "w2", "w3", "w4"];
        let make = |i: usize| candidate(if bits >> i & 1 == 1 { "c" } else { "x" }, names[i]);
        let expected = (0..len).map(make).max_by_key(|w| w.cluster_id == own).map(|w| w.workload);
        assert_eq!(choose_candidate((0..len).map(make).collect(), &own), expected);
    }
}
