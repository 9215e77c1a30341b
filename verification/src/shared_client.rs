//! A local config client with any number of owners.
//!
//! Clones of a [`SharedClient`] share one load status: what one of them records, all of them report.
//! Each run still has one owner.

use std::sync::{Arc, RwLock};

use vstd::prelude::*;

use crate::clock::{utc_now, Timestamp};
use crate::local_client::{
    act, handed_over, load_ended, Action, ConfigRun, ConfigSource, Event, LoadOutcome, LoadStatus,
    LoadStatusModel, Reaction, RunModel,
};
use crate::state_manager::is_copy;

verus! {

/// A lock of `std`. What is inside is not looked at here: it is read and written through the
/// functions below.
#[verifier::external_type_specification]
#[verifier::external_body]
#[verifier::reject_recursive_types(T)]
pub struct ExRwLock<T: ?Sized>(RwLock<T>);

/// Every status that the lock `lock` holds in the course of its life.
pub uninterp spec fn statuses_of(lock: RwLock<LoadStatus>) -> Set<LoadStatusModel>;

/// Every change that is made to the status in the lock `lock` in the course of its life: what it was
/// before, what it was after, and the time that the change gave.
pub uninterp spec fn changes_of(lock: RwLock<LoadStatus>) -> Set<
    (LoadStatusModel, LoadStatusModel, Timestamp),
>;

/// The status once loads have ended with `outcomes`, first to last.
pub open spec fn status_after(
    outcomes: Seq<(LoadOutcome<Seq<char>>, Timestamp)>,
) -> LoadStatusModel
    decreases outcomes.len(),
{
    if outcomes.len() == 0 {
        LoadStatusModel::empty()
    } else {
        status_after(outcomes.drop_last()).recorded(outcomes.last().0, outcomes.last().1)
    }
}

/// The end of some load, at the time `at`, which a clock can show, makes `after` of `before`.
pub open spec fn records_a_load(
    before: LoadStatusModel,
    after: LoadStatusModel,
    at: Timestamp,
) -> bool {
    &&& at.on_clock()
    &&& exists|outcome: LoadOutcome<Seq<char>>| after == #[trigger] before.recorded(outcome, at)
}

/// Calls `std::sync::RwLock::new`. The lock holds `init` at first, and from then on what the changes
/// made to it find and leave, and nothing else.
#[verifier::external_body]
fn new_lock(init: LoadStatus) -> (lock: RwLock<LoadStatus>)
    requires
        init@ == LoadStatusModel::empty(),
    ensures
        statuses_of(lock).contains(init@),
        forall|before: LoadStatusModel, after: LoadStatusModel, at: Timestamp| #[trigger]
            changes_of(lock).contains((before, after, at)) ==> statuses_of(lock).contains(before)
                && statuses_of(lock).contains(after),
        forall|status: LoadStatusModel| #[trigger]
            statuses_of(lock).contains(status) && status != init@ ==> exists|
                before: LoadStatusModel,
                at: Timestamp,
            | #[trigger]
                changes_of(lock).contains((before, status, at)),
{
    RwLock::new(init)
}

/// Calls `std::sync::RwLock::read`, which waits until no one writes and then gives the value in the
/// lock, and copies it out. Which of the statuses that the lock ever holds that is depends on what
/// has been written by then. It is what the ends of some loads made of the empty status, and its
/// time is one that a clock can show.
///
/// `read` fails only where a holder of the lock panicked. No one but the functions of this module
/// holds it, and those do not panic meanwhile.
#[verifier::external_body]
fn read_status(lock: &RwLock<LoadStatus>) -> (status: LoadStatus)
    ensures
        statuses_of(*lock).contains(status@),
        exists|outcomes: Seq<(LoadOutcome<Seq<char>>, Timestamp)>|
            status@ == status_after(outcomes),
        status@.last_updated_at matches Some(at) ==> at.on_clock(),
{
    lock.read().expect("mutex acquired").clone()
}

/// Calls `std::sync::RwLock::write`, which waits until no one else reads or writes, runs `modify`
/// once on the value in the lock, whatever that is by then, and hands on what `modify` gives. What
/// `modify` found and left is one of the changes made to the lock. Every change to a lock goes
/// through here, and `modify` must record the end of a load and do nothing else.
///
/// `write` fails only where a holder of the lock panicked. No one but the functions of this module
/// holds it, and those do not panic meanwhile.
#[verifier::external_body]
fn write_status<F: FnOnce(&mut LoadStatus) -> Timestamp>(
    lock: &RwLock<LoadStatus>,
    modify: F,
) -> (at: Timestamp)
    requires
        forall|s: &mut LoadStatus| call_requires(modify, (s,)),
        forall|s: &mut LoadStatus, t: Timestamp|
            call_ensures(modify, (s,), t) ==> records_a_load((*s)@, (*final(s))@, t),
    ensures
        exists|s: &mut LoadStatus|
            call_ensures(modify, (s,), at) && changes_of(*lock).contains(
                ((*s)@, (*final(s))@, at),
            ),
{
    modify(&mut lock.write().expect("mutex acquired"))
}

/// A local config client whose clones share one load status.
#[derive(Debug)]
pub struct SharedClient {
    source: ConfigSource,
    status: Arc<RwLock<LoadStatus>>,
}

/// `changes` and `shows` are those of one load status: it is empty at first, then what the changes
/// find and leave, and nothing else.
pub open spec fn one_status(
    changes: Set<(LoadStatusModel, LoadStatusModel, Timestamp)>,
    shows: Set<LoadStatusModel>,
) -> bool {
    &&& shows.contains(LoadStatusModel::empty())
    &&& forall|before: LoadStatusModel, after: LoadStatusModel, at: Timestamp| #[trigger]
        changes.contains((before, after, at)) ==> shows.contains(before) && shows.contains(after)
    &&& forall|status: LoadStatusModel| #[trigger]
        shows.contains(status) && status != LoadStatusModel::empty() ==> exists|
            before: LoadStatusModel,
            at: Timestamp,
        | #[trigger]
            changes.contains((before, status, at))
}

impl Clone for SharedClient {
    /// Another owner of the same client.
    fn clone(&self) -> (c: Self)
        ensures
            c.source() == self.source(),
            c.shares_status_with(*self),
    {
        SharedClient { source: self.source, status: self.status.clone() }
    }
}

impl SharedClient {
    /// Where the configuration comes from.
    pub closed spec fn source(self) -> ConfigSource {
        self.source
    }

    /// Every status that this client ever has.
    pub closed spec fn shows(self) -> Set<LoadStatusModel> {
        statuses_of(*self.status)
    }

    /// Every change that is ever made to the status of this client, through any of its owners: what
    /// it was before, what it was after, and when the load ended that was recorded.
    pub closed spec fn changes(self) -> Set<(LoadStatusModel, LoadStatusModel, Timestamp)> {
        changes_of(*self.status)
    }

    /// Whether the two have one and the same load status.
    pub closed spec fn shares_status_with(self, other: SharedClient) -> bool {
        self.status == other.status
    }

    /// A client that has not loaded anything yet.
    pub fn new(source: ConfigSource) -> (client: Self)
        ensures
            client.source() == source,
            one_status(client.changes(), client.shows()),
    {
        let lock = new_lock(LoadStatus::default());
        SharedClient { source, status: Arc::new(lock) }
    }

    /// A status of the client: what the loads that have ended by then made of it.
    /// [`LoadStatus::with_disk`] adds what the config source holds now.
    pub fn load_status(&self) -> (status: LoadStatus)
        ensures
            self.shows().contains(status@),
            exists|outcomes: Seq<(LoadOutcome<Seq<char>>, Timestamp)>|
                status@ == status_after(outcomes),
            status@.last_updated_at matches Some(at) ==> at.on_clock(),
    {
        read_status(&self.status)
    }

    /// Begins a run with its first load, which starts from the default state of the stores.
    pub fn run<B: Default, D: Default, BC, DC>(&self) -> (begun: (
        ConfigRun<B, D, DC>,
        Reaction<String, B, D, BC, DC>,
    ))
        ensures
            begun.0@ == RunModel::<B, D, DC>::begun(begun.0@.previous),
            call_ensures(B::default, (), begun.0@.previous.binds),
            call_ensures(D::default, (), begun.0@.previous.discovery),
            begun.1@ == act::<BC, DC>(Action::ReadConfig),
    {
        ConfigRun::begin()
    }

    /// Takes in `event` for `run`, and gives the reaction to it. An event that does not belong to
    /// where the run stands changes nothing and gives `None`. Where a load ends with the event, that
    /// is recorded in the status that this client shares with its clones. What the status was before
    /// is not known here: another owner may have recorded something meanwhile.
    pub fn step<B: Clone, D: Clone, BC, DC>(
        &self,
        run: &mut ConfigRun<B, D, DC>,
        event: Event<String, B, D, BC, DC>,
    ) -> (reaction: Option<Reaction<String, B, D, BC, DC>>)
        ensures
            match old(run)@.after(self.source() == ConfigSource::File, event@) {
                Some(next) => reaction matches Some(reaction) && (final(run)@, reaction@) == next,
                None => reaction is None && final(run)@ == old(run)@,
            },
            handed_over(old(run)@, reaction),
            load_ended(old(run)@.phase, event@) matches Some(outcome) ==> exists|
                before: LoadStatusModel,
                at: Timestamp,
            |
                at.on_clock() && self.changes().contains(
                    (before, #[trigger] before.recorded(outcome, at), at),
                ),
    {
        let decision = run.decide(self.source, event);
        if let Some(outcome) = decision.outcome {
            let at = utc_now();
            let ghost ended = outcome@;
            write_status(
                &self.status,
                |status: &mut LoadStatus| -> (t: Timestamp)
                    ensures
                        t == at && final(status)@ == old(status)@.recorded(ended, at)
                    {
                        status.record(outcome, at);
                        at
                    },
            );
        }
        decision.reaction
    }
}

/// The hash of the config that was applied last among `outcomes`.
pub open spec fn loaded_last(
    outcomes: Seq<(LoadOutcome<Seq<char>>, Timestamp)>,
) -> Option<Seq<char>>
    decreases outcomes.len(),
{
    if outcomes.len() == 0 {
        None
    } else {
        match outcomes.last().0 {
            LoadOutcome::Loaded { hash } => Some(hash),
            LoadOutcome::Failed { .. } => loaded_last(outcomes.drop_last()),
        }
    }
}

/// A status reports how the last of its loads ended and when, and the hash of what was applied last,
/// however many loads failed since.
pub proof fn law_status_reports_last_outcome(outcomes: Seq<(LoadOutcome<Seq<char>>, Timestamp)>)
    ensures
        ({
            let status = status_after(outcomes);
            &&& status.disk_hash is None
            &&& status.running_hash == loaded_last(outcomes)
            &&& outcomes.len() == 0 ==> status == LoadStatusModel::empty()
            &&& outcomes.len() > 0 ==> {
                &&& status.last_updated_at == Some(outcomes.last().1)
                &&& status.error == match outcomes.last().0 {
                    LoadOutcome::Loaded { .. } => None,
                    LoadOutcome::Failed { error } => Some(error),
                }
            }
        }),
    decreases outcomes.len(),
{
    if outcomes.len() > 0 {
        law_status_reports_last_outcome(outcomes.drop_last());
    }
}

/// Clients that share a load status report the same statuses, and see the same changes to it.
pub proof fn law_sharing_clients_agree(a: SharedClient, b: SharedClient)
    requires
        a.shares_status_with(b),
    ensures
        a.shows() == b.shows(),
        a.changes() == b.changes(),
        b.shares_status_with(a),
        forall|c: SharedClient| #[trigger] b.shares_status_with(c) == a.shares_status_with(c),
{
}

/// All local clients that a state manager hands out, at whatever time, share the load status of the
/// one that it holds.
pub proof fn law_handed_out_clients_share_one_status(
    held: Option<SharedClient>,
    a: Option<SharedClient>,
    b: Option<SharedClient>,
)
    requires
        is_copy(held, a),
        is_copy(held, b),
    ensures
        a is Some <==> held is Some,
        b is Some <==> held is Some,
        held matches Some(client) ==> {
            &&& a->0.shares_status_with(b->0) && b->0.shares_status_with(a->0)
            &&& a->0.shares_status_with(client) && client.shares_status_with(a->0)
            &&& a->0.source() == b->0.source()
            &&& a->0.shows() == b->0.shows()
            &&& a->0.changes() == b->0.changes()
        },
{
}

/// What is recorded through one client can be seen through every client that shares its status; and
/// each of them sees the empty status, what was recorded through one of them, and nothing else.
pub proof fn law_load_is_seen_through_every_client(
    a: SharedClient,
    b: SharedClient,
    before: LoadStatusModel,
    outcome: LoadOutcome<Seq<char>>,
    at: Timestamp,
    seen: LoadStatusModel,
)
    requires
        a.shares_status_with(b),
        one_status(a.changes(), a.shows()),
        a.changes().contains((before, before.recorded(outcome, at), at)),
        b.shows().contains(seen),
    ensures
        b.shows().contains(before.recorded(outcome, at)),
        seen == LoadStatusModel::empty() || exists|earlier: LoadStatusModel, t: Timestamp| #[trigger]
            a.changes().contains((earlier, seen, t)),
{
}

/// The statuses of one shared status are the empty one and what its changes found and left, and
/// nothing else; and a change is the end of one load, at a time that a clock can show.
pub proof fn law_shared_status_is_what_was_recorded(
    changes: Set<(LoadStatusModel, LoadStatusModel, Timestamp)>,
    shows: Set<LoadStatusModel>,
    change: (LoadStatusModel, LoadStatusModel, Timestamp),
    seen: LoadStatusModel,
)
    ensures
        one_status(changes, shows) ==> {
            &&& shows.contains(LoadStatusModel::empty())
            &&& changes.contains(change) ==> shows.contains(change.0) && shows.contains(change.1)
            &&& shows.contains(seen) ==> seen == LoadStatusModel::empty() || exists|
                before: LoadStatusModel,
                at: Timestamp,
            |
                changes.contains((before, seen, at))
        },
        records_a_load(change.0, change.1, change.2) ==> {
            &&& change.2.on_clock()
            &&& change.1.last_updated_at == Some(change.2)
            &&& change.1.disk_hash == change.0.disk_hash
            &&& change.1.error is Some ==> change.1.running_hash == change.0.running_hash
            &&& change.1.error is None ==> change.1.running_hash is Some
        },
{
    assert(changes.contains((change.0, change.1, change.2)) == changes.contains(change));
}

} // verus!
