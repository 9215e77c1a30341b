//! Finds the gateway's own workload in the discovery store, and holds up readiness until it is
//! known or has been waited for long enough.
//!
//! The watch decides and its caller acts: [`SelfWorkloadWatch::step`] takes what happened and gives
//! the next thing to do.

use vstd::prelude::*;

use crate::state_manager::XdsConfig;

verus! {

/// How long readiness waits for the own workload once workloads have begun to arrive, in seconds.
pub const SELF_WORKLOAD_TIMEOUT_SECS: u64 = 60;

/// Where the gateway's own workload comes from.
#[derive(Debug)]
pub enum SelfIdentitySource<W> {
    /// It is given.
    Static(W),
    /// Workload discovery delivers it under this name and namespace.
    Wds { name: String, namespace: String, cluster_id: String },
}

/// A workload that the discovery store found under the asked name and namespace.
#[derive(Debug)]
pub struct Candidate<W> {
    pub cluster_id: String,
    pub workload: W,
}

/// The index of the last of `candidates` that is in cluster `cluster_id`.
pub open spec fn last_in_cluster<W>(
    candidates: Seq<Candidate<W>>,
    cluster_id: Seq<char>,
) -> Option<int>
    decreases candidates.len(),
{
    if candidates.len() == 0 {
        None
    } else if candidates.last().cluster_id@ == cluster_id {
        Some(candidates.len() - 1)
    } else {
        last_in_cluster(candidates.drop_last(), cluster_id)
    }
}

/// The candidate to take: the last one in cluster `cluster_id`, or else the last one of all. A
/// cluster that does not match is no obstacle, since the control plane and the gateway often
/// disagree on its name; it only decides between several candidates.
pub open spec fn chosen<W>(candidates: Seq<Candidate<W>>, cluster_id: Seq<char>) -> Option<W> {
    if candidates.len() == 0 {
        None
    } else {
        match last_in_cluster(candidates, cluster_id) {
            Some(i) => Some(candidates[i].workload),
            None => Some(candidates.last().workload),
        }
    }
}

proof fn lemma_last_in_cluster<W>(candidates: Seq<Candidate<W>>, cluster_id: Seq<char>)
    ensures
        match last_in_cluster(candidates, cluster_id) {
            Some(i) => {
                &&& 0 <= i < candidates.len()
                &&& candidates[i].cluster_id@ == cluster_id
                &&& forall|j: int|
                    i < j < candidates.len() ==> (#[trigger] candidates[j]).cluster_id@
                        != cluster_id
            },
            None => forall|j: int|
                0 <= j < candidates.len() ==> (#[trigger] candidates[j]).cluster_id@ != cluster_id,
        },
    decreases candidates.len(),
{
    if candidates.len() > 0 && candidates.last().cluster_id@ != cluster_id {
        let rest = candidates.drop_last();
        lemma_last_in_cluster(rest, cluster_id);
        assert forall|j: int| 0 <= j < candidates.len() - 1 implies #[trigger] candidates[j]
            == rest[j] by {}
    }
}

/// Finds the last of `candidates` that is in cluster `cluster_id`.
fn find_last_in_cluster<W>(candidates: &Vec<Candidate<W>>, cluster_id: &String) -> (found: Option<
    usize,
>)
    ensures
        match found {
            Some(i) => i < candidates.len() && last_in_cluster(candidates@, cluster_id@) == Some(
                i as int,
            ),
            None => last_in_cluster(candidates@, cluster_id@) is None,
        },
{
    let mut i: usize = candidates.len();
    assert(candidates@.take(i as int) =~= candidates@);
    while i > 0
        invariant
            i <= candidates.len(),
            last_in_cluster(candidates@, cluster_id@) == last_in_cluster(
                candidates@.take(i as int),
                cluster_id@,
            ),
        decreases i,
    {
        assert(candidates@.take(i as int).drop_last() =~= candidates@.take(i - 1));
        if candidates[i - 1].cluster_id == *cluster_id {
            return Some(i - 1);
        }
        i = i - 1;
    }
    None
}

/// Takes the candidate that is the own workload: see [`chosen`].
pub fn choose_candidate<W>(candidates: Vec<Candidate<W>>, cluster_id: &String) -> (workload: Option<
    W,
>)
    ensures
        workload == chosen(candidates@, cluster_id@),
        workload is Some <==> candidates@.len() > 0,
        candidates@.len() > 0 ==> exists|i: int|
            0 <= i < candidates@.len() && workload == Some((#[trigger] candidates@[i]).workload) && (
            (exists|j: int|
                0 <= j < candidates@.len() && (#[trigger] candidates@[j]).cluster_id@
                    == cluster_id@) ==> candidates@[i].cluster_id@ == cluster_id@) && (forall|j: int|
                i < j < candidates@.len() ==> candidates@[i].cluster_id@ == cluster_id@ && (
                #[trigger] candidates@[j]).cluster_id@ != cluster_id@),
{
    proof {
        law_cluster_is_a_tiebreaker(candidates@, cluster_id@);
    }
    if candidates.len() == 0 {
        return None;
    }
    let i: usize = match find_last_in_cluster(&candidates, cluster_id) {
        Some(i) => i,
        None => candidates.len() - 1,
    };
    let mut candidates = candidates;
    Some(candidates.swap_remove(i).workload)
}

/// Where a watch stands.
#[derive(Debug, Clone, Copy, PartialEq, Eq, Structural)]
pub enum WatchPhase {
    /// The arrival of workloads is being subscribed to.
    Subscribing,
    /// The store is being asked for the first time.
    FirstLookup,
    /// Waiting for any workload to arrive.
    AwaitingInsert,
    /// The store is being asked again.
    LookingUp,
    /// Waiting for more workloads, or for the deadline.
    Waiting,
    /// Nothing more will be done.
    Ended,
}

/// What happened outside the watch.
#[derive(Debug)]
pub enum WatchEvent<W> {
    /// The arrival of workloads was subscribed to.
    Subscribed,
    /// The store was asked, and found these, in this order.
    Found(Vec<Candidate<W>>),
    /// Workloads arrived.
    Inserted,
    /// No more workloads will arrive.
    InsertsClosed,
    /// The deadline passed.
    DeadlinePassed,
}

/// What to do next. `S` is the type of its texts.
#[derive(Debug)]
pub enum WatchAction<S, W> {
    /// Ask the store for the workloads with this name and namespace.
    Lookup { name: S, namespace: S },
    /// Wait for workloads to arrive, however long that takes.
    AwaitInsert,
    /// Wait for workloads to arrive and, with `deadline`, for the deadline.
    Wait { deadline: bool },
    /// Take `workload` as the own one and sort the endpoints anew. The watch has ended.
    Resolve { workload: W },
    /// The watch has ended without a workload.
    Stop,
}

impl<W> View for WatchAction<String, W> {
    type V = WatchAction<Seq<char>, W>;

    open spec fn view(&self) -> WatchAction<Seq<char>, W> {
        match *self {
            WatchAction::Lookup { name, namespace } => WatchAction::Lookup {
                name: name@,
                namespace: namespace@,
            },
            WatchAction::AwaitInsert => WatchAction::AwaitInsert,
            WatchAction::Wait { deadline } => WatchAction::Wait { deadline },
            WatchAction::Resolve { workload } => WatchAction::Resolve { workload },
            WatchAction::Stop => WatchAction::Stop,
        }
    }
}

/// What to do with the task that holds up readiness.
#[derive(Debug, Clone, Copy, PartialEq, Eq, Structural)]
pub enum Readiness {
    /// Leave it as it is.
    Keep,
    /// Drop it before acting.
    Release,
    /// Drop it, if it is still there, once the action is done.
    ReleaseAfter,
}

/// How a watch reacts to an event.
#[derive(Debug)]
pub struct WatchReaction<S, W> {
    /// What to do with the task that holds up readiness.
    pub readiness: Readiness,
    /// Let the deadline pass in so many seconds from now.
    pub start_deadline: Option<u64>,
    /// What to do next.
    pub action: WatchAction<S, W>,
}

impl<W> View for WatchReaction<String, W> {
    type V = WatchReaction<Seq<char>, W>;

    open spec fn view(&self) -> WatchReaction<Seq<char>, W> {
        WatchReaction {
            readiness: self.readiness,
            start_deadline: self.start_deadline,
            action: self.action@,
        }
    }
}

/// The state of a watch.
#[verifier::ext_equal]
pub struct WatchModel {
    pub name: Seq<char>,
    pub namespace: Seq<char>,
    pub cluster_id: Seq<char>,
    /// Whether there is a control plane that delivers workloads.
    pub has_xds: bool,
    /// Whether readiness is held up.
    pub blocks_ready: bool,
    pub phase: WatchPhase,
}

/// A reaction that leaves readiness and deadline alone.
pub open spec fn watch_act<W>(action: WatchAction<Seq<char>, W>) -> WatchReaction<Seq<char>, W> {
    WatchReaction { readiness: Readiness::Keep, start_deadline: None, action }
}

/// A reaction that ends the watch.
pub open spec fn watch_end<W>(action: WatchAction<Seq<char>, W>) -> WatchReaction<Seq<char>, W> {
    WatchReaction { readiness: Readiness::ReleaseAfter, start_deadline: None, action }
}

impl WatchModel {
    /// The watch, gone on to `phase`.
    pub open spec fn at(self, phase: WatchPhase) -> WatchModel {
        WatchModel { phase, ..self }
    }

    /// The watch at its end, where it no longer holds up readiness.
    pub open spec fn ended(self) -> WatchModel {
        WatchModel { phase: WatchPhase::Ended, blocks_ready: false, ..self }
    }

    /// The question for the store.
    pub open spec fn lookup<W>(self) -> WatchAction<Seq<char>, W> {
        WatchAction::Lookup { name: self.name, namespace: self.namespace }
    }

    /// What `event` makes of the watch, and how the watch reacts; `None` for an event that does not
    /// belong to where the watch stands.
    pub open spec fn after<W>(self, event: WatchEvent<W>) -> Option<
        (WatchModel, WatchReaction<Seq<char>, W>),
    > {
        match (self.phase, event) {
            (WatchPhase::Subscribing, WatchEvent::Subscribed) => Some(
                (self.at(WatchPhase::FirstLookup), watch_act(self.lookup())),
            ),
            (WatchPhase::FirstLookup, WatchEvent::Found(candidates)) => match chosen(
                candidates@,
                self.cluster_id,
            ) {
                Some(workload) => Some(
                    (self.ended(), watch_end(WatchAction::Resolve { workload })),
                ),
                None => if self.has_xds {
                    Some(
                        (self.at(WatchPhase::AwaitingInsert), watch_act(WatchAction::AwaitInsert)),
                    )
                } else {
                    Some((self.ended(), watch_end(WatchAction::Stop)))
                },
            },
            (WatchPhase::AwaitingInsert, WatchEvent::Inserted) => Some(
                (
                    self.at(WatchPhase::LookingUp),
                    WatchReaction {
                        start_deadline: Some(SELF_WORKLOAD_TIMEOUT_SECS),
                        ..watch_act(self.lookup())
                    },
                ),
            ),
            (WatchPhase::LookingUp, WatchEvent::Found(candidates)) => match chosen(
                candidates@,
                self.cluster_id,
            ) {
                Some(workload) => Some(
                    (self.ended(), watch_end(WatchAction::Resolve { workload })),
                ),
                None => Some(
                    (
                        self.at(WatchPhase::Waiting),
                        watch_act(WatchAction::Wait { deadline: self.blocks_ready }),
                    ),
                ),
            },
            (WatchPhase::Waiting, WatchEvent::DeadlinePassed) => if self.blocks_ready {
                Some(
                    (
                        WatchModel { phase: WatchPhase::LookingUp, blocks_ready: false, ..self },
                        WatchReaction {
                            readiness: Readiness::Release,
                            ..watch_act(self.lookup())
                        },
                    ),
                )
            } else {
                None
            },
            (WatchPhase::Waiting, WatchEvent::Inserted) => Some(
                (self.at(WatchPhase::LookingUp), watch_act(self.lookup())),
            ),
            (WatchPhase::AwaitingInsert, WatchEvent::InsertsClosed) => Some(
                (self.ended(), watch_end(WatchAction::Stop)),
            ),
            (WatchPhase::Waiting, WatchEvent::InsertsClosed) => Some(
                (self.ended(), watch_end(WatchAction::Stop)),
            ),
            _ => None,
        }
    }
}

/// Looks out for the own workload in the discovery store.
#[derive(Debug)]
pub struct SelfWorkloadWatch {
    name: String,
    namespace: String,
    cluster_id: String,
    has_xds: bool,
    blocks_ready: bool,
    phase: WatchPhase,
}

impl View for SelfWorkloadWatch {
    type V = WatchModel;

    closed spec fn view(&self) -> WatchModel {
        WatchModel {
            name: self.name@,
            namespace: self.namespace@,
            cluster_id: self.cluster_id@,
            has_xds: self.has_xds,
            blocks_ready: self.blocks_ready,
            phase: self.phase,
        }
    }
}

impl SelfWorkloadWatch {
    fn reaction<W>(action: WatchAction<String, W>) -> (reaction: WatchReaction<String, W>)
        ensures
            reaction@ == watch_act(action@),
    {
        WatchReaction { readiness: Readiness::Keep, start_deadline: None, action }
    }

    fn lookup<W>(&self) -> (action: WatchAction<String, W>)
        ensures
            action@ == self@.lookup::<W>(),
    {
        WatchAction::Lookup { name: self.name.clone(), namespace: self.namespace.clone() }
    }

    fn end<W>(&mut self, action: WatchAction<String, W>) -> (reaction: WatchReaction<String, W>)
        ensures
            final(self)@ == old(self)@.ended(),
            reaction@ == watch_end(action@),
    {
        self.phase = WatchPhase::Ended;
        self.blocks_ready = false;
        WatchReaction { readiness: Readiness::ReleaseAfter, start_deadline: None, action }
    }

    /// Takes in `event`, and gives the reaction to it. An event that does not belong to where the
    /// watch stands changes nothing and gives `None`.
    pub fn step<W>(&mut self, event: WatchEvent<W>) -> (reaction: Option<WatchReaction<String, W>>)
        ensures
            match old(self)@.after(event) {
                Some((after, expected)) => final(self)@ == after && (reaction matches Some(reaction)
                    && reaction@ == expected),
                None => final(self)@ == old(self)@ && reaction is None,
            },
            event is Inserted && (old(self)@.phase == WatchPhase::Waiting || old(self)@.phase
                == WatchPhase::AwaitingInsert) ==> {
                &&& reaction matches Some(reaction)
                &&& reaction.action matches WatchAction::Lookup { name, namespace }
                &&& name@ == old(self)@.name
                &&& namespace@ == old(self)@.namespace
                &&& reaction.readiness == Readiness::Keep
            },
            reaction matches Some(reaction) ==> (reaction.action is Stop ==> {
                ||| event is InsertsClosed
                ||| event is Found && old(self)@.phase == WatchPhase::FirstLookup
                    && !old(self)@.has_xds
            }),
    {
        match (self.phase, event) {
            (WatchPhase::Subscribing, WatchEvent::Subscribed) => {
                self.phase = WatchPhase::FirstLookup;
                Some(Self::reaction(self.lookup()))
            },
            (WatchPhase::FirstLookup, WatchEvent::Found(candidates)) => {
                match choose_candidate(candidates, &self.cluster_id) {
                    Some(workload) => Some(self.end(WatchAction::Resolve { workload })),
                    None => if self.has_xds {
                        self.phase = WatchPhase::AwaitingInsert;
                        Some(Self::reaction(WatchAction::AwaitInsert))
                    } else {
                        Some(self.end(WatchAction::Stop))
                    },
                }
            },
            (WatchPhase::AwaitingInsert, WatchEvent::Inserted) => {
                self.phase = WatchPhase::LookingUp;
                let mut reaction = Self::reaction(self.lookup());
                reaction.start_deadline = Some(SELF_WORKLOAD_TIMEOUT_SECS);
                Some(reaction)
            },
            (WatchPhase::LookingUp, WatchEvent::Found(candidates)) => {
                match choose_candidate(candidates, &self.cluster_id) {
                    Some(workload) => Some(self.end(WatchAction::Resolve { workload })),
                    None => {
                        self.phase = WatchPhase::Waiting;
                        Some(Self::reaction(WatchAction::Wait { deadline: self.blocks_ready }))
                    },
                }
            },
            (WatchPhase::Waiting, WatchEvent::DeadlinePassed) if self.blocks_ready => {
                self.phase = WatchPhase::LookingUp;
                self.blocks_ready = false;
                let mut reaction = Self::reaction(self.lookup());
                reaction.readiness = Readiness::Release;
                Some(reaction)
            },
            (WatchPhase::Waiting, WatchEvent::Inserted) => {
                self.phase = WatchPhase::LookingUp;
                Some(Self::reaction(self.lookup()))
            },
            (WatchPhase::AwaitingInsert, WatchEvent::InsertsClosed) => Some(
                self.end(WatchAction::Stop),
            ),
            (WatchPhase::Waiting, WatchEvent::InsertsClosed) => Some(self.end(WatchAction::Stop)),
            _ => None,
        }
    }
}

/// How the own workload gets resolved.
#[derive(Debug)]
pub enum Resolution<W> {
    /// It does not.
    Nothing,
    /// Take `workload` as the own one and sort the endpoints anew, at once.
    Resolve { workload: W },
    /// Register a task that holds up readiness, and drive `watch`, subscribing first.
    Watch { watch: SelfWorkloadWatch },
}

/// Decides how the own workload gets resolved: a given one at once, and one that is discovered by a
/// watch, which holds up readiness until it releases it. With a control plane the watch waits for the
/// workload to be inserted; without one nothing will be.
pub fn start_self_workload_resolution<W, C>(
    identity: Option<SelfIdentitySource<W>>,
    xds: &XdsConfig<C>,
) -> (resolution: Resolution<W>)
    ensures
        match identity {
            None => resolution is Nothing,
            Some(SelfIdentitySource::Static(w)) => resolution == (Resolution::Resolve {
                workload: w,
            }),
            Some(SelfIdentitySource::Wds { name, namespace, cluster_id }) => resolution matches
                Resolution::Watch { watch } && watch@ == watch_started(
                name@,
                namespace@,
                cluster_id@,
                xds.address is Some,
            ),
        },
{
    match identity {
        None => Resolution::Nothing,
        Some(SelfIdentitySource::Static(workload)) => Resolution::Resolve { workload },
        Some(SelfIdentitySource::Wds { name, namespace, cluster_id }) => Resolution::Watch {
            watch: SelfWorkloadWatch {
                name,
                namespace,
                cluster_id,
                has_xds: xds.has_xds(),
                blocks_ready: true,
                phase: WatchPhase::Subscribing,
            },
        },
    }
}

/// A watch at its start.
pub open spec fn watch_started(
    name: Seq<char>,
    namespace: Seq<char>,
    cluster_id: Seq<char>,
    has_xds: bool,
) -> WatchModel {
    WatchModel {
        name,
        namespace,
        cluster_id,
        has_xds,
        blocks_ready: true,
        phase: WatchPhase::Subscribing,
    }
}

/// A watch once `event` has happened. An event that does not belong to where it stands changes
/// nothing.
pub open spec fn watch_next<W>(watch: WatchModel, event: WatchEvent<W>) -> WatchModel {
    match watch.after(event) {
        Some((watch, _)) => watch,
        None => watch,
    }
}

/// A watch once `events` have happened, first to last.
pub open spec fn watch_after_all<W>(watch: WatchModel, events: Seq<WatchEvent<W>>) -> WatchModel
    decreases events.len(),
{
    if events.len() == 0 {
        watch
    } else {
        watch_next(watch_after_all(watch, events.drop_last()), events.last())
    }
}

/// A workload is taken whenever there is a candidate, whatever its cluster; and the cluster decides
/// between several: one in the own cluster is taken if there is one.
pub proof fn law_cluster_is_a_tiebreaker<W>(candidates: Seq<Candidate<W>>, cluster_id: Seq<char>)
    ensures
        chosen(candidates, cluster_id) is Some <==> candidates.len() > 0,
        candidates.len() > 0 ==> exists|i: int|
            0 <= i < candidates.len() && chosen(candidates, cluster_id) == Some(
                (#[trigger] candidates[i]).workload,
            ) && ((exists|j: int|
                0 <= j < candidates.len() && (#[trigger] candidates[j]).cluster_id@ == cluster_id)
                ==> candidates[i].cluster_id@ == cluster_id) && (forall|j: int|
                i < j < candidates.len() ==> candidates[i].cluster_id@ == cluster_id && (
                #[trigger] candidates[j]).cluster_id@ != cluster_id),
{
    lemma_last_in_cluster(candidates, cluster_id);
    if candidates.len() > 0 {
        let i = match last_in_cluster(candidates, cluster_id) {
            Some(i) => i,
            None => candidates.len() - 1,
        };
        assert(chosen(candidates, cluster_id) == Some(candidates[i].workload));
    }
}

/// Without a control plane nothing would ever deliver the workload, so the watch never waits: once
/// the store has been asked, it has ended and readiness is free.
pub proof fn law_without_xds_nothing_is_awaited<W>(
    name: Seq<char>,
    namespace: Seq<char>,
    cluster_id: Seq<char>,
    events: Seq<WatchEvent<W>>,
)
    ensures
        ({
            let watch = watch_after_all(
                watch_started(name, namespace, cluster_id, false),
                events,
            );
            ||| watch.phase == WatchPhase::Subscribing
            ||| watch.phase == WatchPhase::FirstLookup
            ||| watch.phase == WatchPhase::Ended && !watch.blocks_ready
        }),
    decreases events.len(),
{
    if events.len() > 0 {
        law_without_xds_nothing_is_awaited(name, namespace, cluster_id, events.drop_last());
        law_watch_keeps_its_question(name, namespace, cluster_id, false, events.drop_last());
    }
}

/// Whatever happens, a watch asks for the same workload all along; it holds up readiness from the
/// start until it ends, or until the deadline passes, which it can only once workloads have begun
/// to arrive.
pub proof fn law_watch_keeps_its_question<W>(
    name: Seq<char>,
    namespace: Seq<char>,
    cluster_id: Seq<char>,
    has_xds: bool,
    events: Seq<WatchEvent<W>>,
)
    ensures
        ({
            let start = watch_started(name, namespace, cluster_id, has_xds);
            let watch = watch_after_all(start, events);
            &&& watch == (WatchModel {
                phase: watch.phase,
                blocks_ready: watch.blocks_ready,
                ..start
            })
            &&& watch.phase == WatchPhase::Ended ==> !watch.blocks_ready
            &&& (watch.phase == WatchPhase::Subscribing || watch.phase == WatchPhase::FirstLookup
                || watch.phase == WatchPhase::AwaitingInsert) ==> watch.blocks_ready
        }),
    decreases events.len(),
{
    if events.len() > 0 {
        law_watch_keeps_its_question(name, namespace, cluster_id, has_xds, events.drop_last());
    }
}

/// Readiness, once free, stays free; and each step frees it exactly when it says so.
pub proof fn law_readiness_is_freed_once<W>(watch: WatchModel, event: WatchEvent<W>)
    ensures
        watch_next(watch, event).blocks_ready ==> watch.blocks_ready,
        watch.after(event) matches Some((after, reaction)) ==> {
            &&& reaction.readiness == Readiness::Keep ==> after.blocks_ready == watch.blocks_ready
            &&& reaction.readiness != Readiness::Keep ==> !after.blocks_ready
            &&& reaction.readiness == Readiness::ReleaseAfter <==> after.phase == WatchPhase::Ended
            &&& reaction.readiness == Readiness::Release <==> event is DeadlinePassed
        },
{
}

/// The deadline starts when the first workloads arrive, not before, and only then: no step leads
/// back to waiting for the first ones.
pub proof fn law_deadline_starts_with_first_arrival<W>(watch: WatchModel, event: WatchEvent<W>)
    ensures
        watch.after(event) matches Some((after, reaction)) ==> {
            &&& reaction.start_deadline == if watch.phase == WatchPhase::AwaitingInsert
                && event is Inserted {
                Some(SELF_WORKLOAD_TIMEOUT_SECS)
            } else {
                None
            }
            &&& after.phase == WatchPhase::AwaitingInsert ==> watch.phase
                == WatchPhase::FirstLookup
            &&& after.phase == WatchPhase::FirstLookup ==> watch.phase == WatchPhase::Subscribing
            &&& after.phase != WatchPhase::Subscribing
        },
{
}

/// When the deadline passes, readiness is freed but the watch goes on: a workload that is found
/// later is still taken, and the deadline is not waited for again.
pub proof fn law_timeout_keeps_watching<W>(
    watch: WatchModel,
    none: Vec<Candidate<W>>,
    found: Vec<Candidate<W>>,
)
    requires
        watch.phase == WatchPhase::Waiting,
        watch.blocks_ready,
        none@.len() == 0,
        found@.len() > 0,
    ensures
        ({
            let released = WatchModel {
                phase: WatchPhase::LookingUp,
                blocks_ready: false,
                ..watch
            };
            let waiting = released.at(WatchPhase::Waiting);
            &&& watch.after::<W>(WatchEvent::DeadlinePassed) matches Some((after, reaction))
                && after == released && reaction.readiness == Readiness::Release
                && reaction.action == watch.lookup::<W>()
            &&& released.after::<W>(WatchEvent::Found(none)) == Some(
                (waiting, watch_act(WatchAction::<Seq<char>, W>::Wait { deadline: false })),
            )
            &&& waiting.after::<W>(WatchEvent::DeadlinePassed) is None
            &&& waiting.after::<W>(WatchEvent::Inserted) == Some(
                (released, watch_act(watch.lookup::<W>())),
            )
            &&& released.after::<W>(WatchEvent::Found(found)) == Some(
                (
                    watch.ended(),
                    watch_end(
                        WatchAction::<Seq<char>, W>::Resolve {
                            workload: chosen(found@, watch.cluster_id)->0,
                        },
                    ),
                ),
            )
        }),
{
}

/// A watch that has asked the store and found a candidate takes it and ends, whether it was the
/// first time of asking or a later one.
pub proof fn law_found_is_taken<W>(watch: WatchModel, found: Vec<Candidate<W>>)
    requires
        watch.phase == WatchPhase::FirstLookup || watch.phase == WatchPhase::LookingUp,
        found@.len() > 0,
    ensures
        watch.after(WatchEvent::Found(found)) == Some(
            (
                watch.ended(),
                watch_end(
                    WatchAction::<Seq<char>, W>::Resolve {
                        workload: chosen(found@, watch.cluster_id)->0,
                    },
                ),
            ),
        ),
{
}

/// The reaction asks the store for the workloads with the name and namespace that the watch is for.
pub open spec fn asks_for<W>(watch: WatchModel, reaction: WatchReaction<Seq<char>, W>) -> bool {
    reaction.action matches WatchAction::Lookup { name, namespace } && name == watch.name
        && namespace == watch.namespace
}

/// `after` is the same watch as `before`: for the same workload and cluster, with the same control
/// plane.
pub open spec fn same_watch(before: WatchModel, after: WatchModel) -> bool {
    &&& after.name == before.name
    &&& after.namespace == before.namespace
    &&& after.cluster_id == before.cluster_id
    &&& after.has_xds == before.has_xds
}

/// Whenever workloads arrive while the watch waits for them, the store is asked for the own workload,
/// whether or not readiness is still held up, and readiness is left alone. No arrival ends a watch.
pub proof fn law_every_arrival_is_looked_up<W>(watch: WatchModel)
    requires
        watch.phase == WatchPhase::Waiting || watch.phase == WatchPhase::AwaitingInsert,
    ensures
        watch.after::<W>(WatchEvent::Inserted) is Some,
        ({
            let (after, reaction) = watch.after::<W>(WatchEvent::Inserted)->0;
            &&& asks_for(watch, reaction)
            &&& reaction.readiness == Readiness::Keep
            &&& after.blocks_ready == watch.blocks_ready
            &&& after.phase == WatchPhase::LookingUp
            &&& same_watch(watch, after)
            &&& reaction.start_deadline == if watch.phase == WatchPhase::AwaitingInsert {
                Some(60u64)
            } else {
                None
            }
        }),
{
}

/// A watch that is asking the store takes the last candidate in its own cluster, or else the last of
/// all, and ends with that, freeing readiness once it is taken.
pub proof fn law_found_workload_is_resolved<W>(watch: WatchModel, found: Vec<Candidate<W>>)
    requires
        watch.phase == WatchPhase::FirstLookup || watch.phase == WatchPhase::LookingUp,
        found@.len() > 0,
    ensures
        watch.after(WatchEvent::Found(found)) is Some,
        ({
            let (after, reaction) = watch.after(WatchEvent::Found(found))->0;
            &&& reaction.action matches WatchAction::Resolve { workload } && exists|i: int|
                0 <= i < found@.len() && (#[trigger] found@[i]).workload == workload && ((exists|
                    j: int,
                |
                    0 <= j < found@.len() && (#[trigger] found@[j]).cluster_id@
                        == watch.cluster_id) ==> found@[i].cluster_id@ == watch.cluster_id) && (
                forall|j: int|
                    i < j < found@.len() ==> found@[i].cluster_id@ == watch.cluster_id && (
                    #[trigger] found@[j]).cluster_id@ != watch.cluster_id)
            &&& reaction.readiness == Readiness::ReleaseAfter
            &&& reaction.start_deadline is None
            &&& after.phase == WatchPhase::Ended
            &&& !after.blocks_ready
            &&& same_watch(watch, after)
        }),
{
    law_cluster_is_a_tiebreaker(found@, watch.cluster_id);
}

/// A watch that finds nothing goes on as long as something can still arrive: after the first time of
/// asking it waits for the first arrival, and later for the next one and, while readiness is held up,
/// for the deadline. Only without a control plane it ends after the first time of asking.
pub proof fn law_nothing_found_means_waiting<W>(watch: WatchModel, found: Vec<Candidate<W>>)
    requires
        watch.phase == WatchPhase::FirstLookup || watch.phase == WatchPhase::LookingUp,
        found@.len() == 0,
    ensures
        watch.after(WatchEvent::Found(found)) is Some,
        ({
            let (after, reaction) = watch.after(WatchEvent::Found(found))->0;
            &&& same_watch(watch, after)
            &&& reaction.start_deadline is None
            &&& if watch.phase == WatchPhase::FirstLookup && !watch.has_xds {
                &&& reaction.action is Stop
                &&& reaction.readiness == Readiness::ReleaseAfter
                &&& after.phase == WatchPhase::Ended
                &&& !after.blocks_ready
            } else {
                &&& reaction.readiness == Readiness::Keep
                &&& after.blocks_ready == watch.blocks_ready
                &&& if watch.phase == WatchPhase::FirstLookup {
                    after.phase == WatchPhase::AwaitingInsert && reaction.action is AwaitInsert
                } else {
                    after.phase == WatchPhase::Waiting && reaction.action == (WatchAction::<
                        Seq<char>,
                        W,
                    >::Wait { deadline: watch.blocks_ready })
                }
            }
        }),
{
}

/// A watch begins by asking the store, and does nothing else with that: readiness stays held up and
/// no deadline runs.
pub proof fn law_watch_begins_by_asking<W>(watch: WatchModel)
    requires
        watch.phase == WatchPhase::Subscribing,
    ensures
        watch.after::<W>(WatchEvent::Subscribed) is Some,
        ({
            let (after, reaction) = watch.after::<W>(WatchEvent::Subscribed)->0;
            &&& asks_for(watch, reaction)
            &&& reaction.readiness == Readiness::Keep
            &&& reaction.start_deadline is None
            &&& after.phase == WatchPhase::FirstLookup
            &&& after.blocks_ready == watch.blocks_ready
            &&& same_watch(watch, after)
        }),
{
}

/// A deadline that passes while readiness is held up frees it before anything else, and the store is
/// asked once more; once readiness is free, no deadline matters.
pub proof fn law_deadline_frees_readiness_and_asks_again<W>(watch: WatchModel)
    requires
        watch.phase == WatchPhase::Waiting,
    ensures
        watch.after::<W>(WatchEvent::DeadlinePassed) is Some <==> watch.blocks_ready,
        watch.blocks_ready ==> ({
            let (after, reaction) = watch.after::<W>(WatchEvent::DeadlinePassed)->0;
            &&& asks_for(watch, reaction)
            &&& reaction.readiness == Readiness::Release
            &&& reaction.start_deadline is None
            &&& after.phase == WatchPhase::LookingUp
            &&& !after.blocks_ready
            &&& same_watch(watch, after)
        }),
{
}

/// Once no more workloads will arrive, a watch that waits for them ends without one, and frees
/// readiness.
pub proof fn law_closed_inserts_end_the_watch<W>(watch: WatchModel)
    requires
        watch.phase == WatchPhase::Waiting || watch.phase == WatchPhase::AwaitingInsert,
    ensures
        watch.after::<W>(WatchEvent::InsertsClosed) is Some,
        ({
            let (after, reaction) = watch.after::<W>(WatchEvent::InsertsClosed)->0;
            &&& reaction.action is Stop
            &&& reaction.readiness == Readiness::ReleaseAfter
            &&& reaction.start_deadline is None
            &&& after.phase == WatchPhase::Ended
            &&& !after.blocks_ready
            &&& same_watch(watch, after)
        }),
{
}

/// A watch ends only with a workload that was found, with closed inserts, or, without a control
/// plane, once the first time of asking has found nothing.
pub proof fn law_watch_ends_only_for_a_reason<W>(watch: WatchModel, event: WatchEvent<W>)
    ensures
        watch.after(event) is Some ==> ({
            let (after, reaction) = watch.after(event)->0;
            &&& after.phase == WatchPhase::Ended <==> reaction.action is Resolve
                || reaction.action is Stop
            &&& reaction.action is Resolve <==> (event matches WatchEvent::Found(found) && found@.len()
                > 0)
            &&& reaction.action is Stop <==> event is InsertsClosed || (
            event matches WatchEvent::Found(found) && found@.len() == 0 && watch.phase
                == WatchPhase::FirstLookup && !watch.has_xds)
        }),
{
}

/// A watch takes in exactly the events that it waits for: the end of the subscription, what the store
/// found where the store was asked, and arrivals, their end and, while readiness is held up, the
/// deadline where it waits. Any other event gives no reaction.
pub proof fn law_watch_takes_what_it_waits_for<W>(watch: WatchModel, event: WatchEvent<W>)
    ensures
        watch.after(event) is Some <==> (match event {
            WatchEvent::Subscribed => watch.phase == WatchPhase::Subscribing,
            WatchEvent::Found(_) => watch.phase == WatchPhase::FirstLookup || watch.phase
                == WatchPhase::LookingUp,
            WatchEvent::Inserted => watch.phase == WatchPhase::AwaitingInsert || watch.phase
                == WatchPhase::Waiting,
            WatchEvent::InsertsClosed => watch.phase == WatchPhase::AwaitingInsert || watch.phase
                == WatchPhase::Waiting,
            WatchEvent::DeadlinePassed => watch.phase == WatchPhase::Waiting && watch.blocks_ready,
        }),
{
}

/// Whatever happens to a watch with a control plane, it ends only where a workload was found or no
/// more will arrive; until then it goes on.
pub proof fn law_watch_with_xds_goes_on_until_found<W>(
    name: Seq<char>,
    namespace: Seq<char>,
    cluster_id: Seq<char>,
    events: Seq<WatchEvent<W>>,
)
    requires
        forall|i: int|
            0 <= i < events.len() ==> !((#[trigger] events[i]) is InsertsClosed) && (
            events[i] matches WatchEvent::Found(found) ==> found@.len() == 0),
    ensures
        watch_after_all(watch_started(name, namespace, cluster_id, true), events).phase
            != WatchPhase::Ended,
    decreases events.len(),
{
    if events.len() > 0 {
        let rest = events.drop_last();
        assert forall|i: int| 0 <= i < rest.len() implies !((#[trigger] rest[i]) is InsertsClosed)
            && (rest[i] matches WatchEvent::Found(found) ==> found@.len() == 0) by {
            assert(rest[i] == events[i]);
        }
        law_watch_with_xds_goes_on_until_found(name, namespace, cluster_id, rest);
        law_watch_keeps_its_question(name, namespace, cluster_id, true, rest);
        let watch = watch_after_all(watch_started(name, namespace, cluster_id, true), rest);
        assert(!(events.last() is InsertsClosed));
        law_watch_ends_only_for_a_reason(watch, events.last());
    }
}

/// A watch starts out subscribing, for the workload that it was given, and holds up readiness.
pub proof fn law_watch_starts_out(
    name: Seq<char>,
    namespace: Seq<char>,
    cluster_id: Seq<char>,
    has_xds: bool,
)
    ensures
        ({
            let watch = watch_started(name, namespace, cluster_id, has_xds);
            &&& watch.name == name
            &&& watch.namespace == namespace
            &&& watch.cluster_id == cluster_id
            &&& watch.has_xds == has_xds
            &&& watch.blocks_ready
            &&& watch.phase == WatchPhase::Subscribing
        }),
{
}

/// What a reaction says is what its fields say, texts and all.
pub proof fn law_reaction_is_its_fields<W>(reaction: WatchReaction<String, W>)
    ensures
        reaction@.readiness == reaction.readiness,
        reaction@.start_deadline == reaction.start_deadline,
        reaction.action matches WatchAction::Lookup { name, namespace } ==> reaction@.action == (
        WatchAction::<Seq<char>, W>::Lookup { name: name@, namespace: namespace@ }),
        reaction.action is AwaitInsert <==> reaction@.action is AwaitInsert,
        reaction.action is Stop <==> reaction@.action is Stop,
        reaction.action matches WatchAction::Wait { deadline } ==> reaction@.action == (
        WatchAction::<Seq<char>, W>::Wait { deadline }),
        reaction.action matches WatchAction::Resolve { workload } ==> reaction@.action == (
        WatchAction::<Seq<char>, W>::Resolve { workload }),
{
}

} // verus!
