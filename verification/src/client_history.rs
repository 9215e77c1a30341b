//! What holds of a local config client and its runs, whatever happens to them.

use vstd::prelude::*;
use vstd::utf8::encode_utf8;

use crate::clock::Timestamp;
use crate::hash::{
    content_hash_of, is_written_digest, law_hash_is_the_written_digest,
    law_hashes_agree_iff_digests_do, sha256,
};
use crate::local_client::{
    act, handed_over, load_ended, outcome_of, running, stepped, Action, Cause, ClientModel,
    ConfigSource, Event, LoadOutcome, LoadStatus, LoadStatusModel, NormalizedConfig, Phase,
    PreviousState, Reaction, RunModel, Running,
};
use crate::text::text_of;

verus! {

/// A client and its runs, in the order in which they were begun.
pub struct World<B, D, DC> {
    pub client: ClientModel,
    pub runs: Seq<RunModel<B, D, DC>>,
}

/// Something that happens to a client.
pub enum Occurrence<B, D, BC, DC> {
    /// It is run once more; the first load starts from `previous`.
    Begun { previous: PreviousState<B, D> },
    /// `event` happens to the run at `run`, at the time `at`.
    Happened { run: int, event: Event<Seq<char>, B, D, BC, DC>, at: Timestamp },
}

impl<B, D, DC> World<B, D, DC> {
    /// A client of `source` that was not run yet.
    pub open spec fn fresh(source: ConfigSource) -> Self {
        World {
            client: ClientModel { source, status: LoadStatusModel::empty() },
            runs: Seq::empty(),
        }
    }

    /// The run at `run`, together with the client.
    pub open spec fn at(self, run: int) -> Running<B, D, DC> {
        running(self.client, self.runs[run])
    }

    /// The client and its runs once `o` has happened. An event that does not belong to where the run
    /// stands, or that is for no run, changes nothing.
    pub open spec fn next<BC>(self, o: Occurrence<B, D, BC, DC>) -> Self {
        match o {
            Occurrence::Begun { previous } => World {
                runs: self.runs.push(RunModel::begun(previous)),
                ..self
            },
            Occurrence::Happened { run, event, at } => if 0 <= run < self.runs.len() {
                match self.at(run).after(event, at) {
                    Some((after, _)) => World {
                        client: after.client,
                        runs: self.runs.update(run, after.run),
                    },
                    None => self,
                }
            } else {
                self
            },
        }
    }

    /// The client and its runs once `trace` has happened, first to last.
    pub open spec fn after_all<BC>(self, trace: Seq<Occurrence<B, D, BC, DC>>) -> Self
        decreases trace.len(),
    {
        if trace.len() == 0 {
            self
        } else {
            self.after_all(trace.drop_last()).next(trace.last())
        }
    }

    /// The content that the run at `run` read last, in `trace`, while it waited for it.
    pub open spec fn read_last<BC>(
        self,
        trace: Seq<Occurrence<B, D, BC, DC>>,
        run: int,
    ) -> Option<Seq<char>>
        decreases trace.len(),
    {
        if trace.len() == 0 {
            None
        } else {
            let before = self.after_all(trace.drop_last());
            match trace.last() {
                Occurrence::Happened {
                    run: of,
                    event: Event::ConfigRead(Ok(content)),
                    ..
                } if of == run && before.runs[run].phase is Reading => Some(content),
                _ => self.read_last(trace.drop_last(), run),
            }
        }
    }

    /// The content of the last load, in `trace` and of any run, that went through to the end.
    pub open spec fn applied_last<BC>(self, trace: Seq<Occurrence<B, D, BC, DC>>) -> Option<Seq<char>>
        decreases trace.len(),
    {
        if trace.len() == 0 {
            None
        } else {
            let before = self.after_all(trace.drop_last());
            match trace.last() {
                Occurrence::Happened {
                    run,
                    event: Event::DiscoverySynced(Ok(_)),
                    ..
                } if 0 <= run < before.runs.len() && before.runs[run].phase is SyncingDiscovery =>
                    self.read_last(trace.drop_last(), run),
                _ => self.applied_last(trace.drop_last()),
            }
        }
    }

    /// How the last load, in `trace` and of any run, ended, and when.
    pub open spec fn ended_last<BC>(self, trace: Seq<Occurrence<B, D, BC, DC>>) -> Option<
        (LoadOutcome<Seq<char>>, Timestamp),
    >
        decreases trace.len(),
    {
        if trace.len() == 0 {
            None
        } else {
            let before = self.after_all(trace.drop_last());
            let earlier = self.ended_last(trace.drop_last());
            match trace.last() {
                Occurrence::Happened { run, event, at } if 0 <= run < before.runs.len() => {
                    match load_ended(before.runs[run].phase, event) {
                        Some(outcome) => Some((outcome, at)),
                        None => earlier,
                    }
                },
                _ => earlier,
            }
        }
    }

    /// Whether this is a state that a client and its runs can be in, as far as their parts tell:
    /// - the disk hash is not kept, it is computed for each query;
    /// - a time is recorded exactly where a load has ended, so beside a running hash or an error;
    /// - a run that is past its first load, and has not ended, has applied something;
    /// - only a run of a file has to do with a file watch.
    pub open spec fn consistent(self) -> bool {
        let status = self.client.status;
        &&& status.disk_hash is None
        &&& status.last_updated_at is Some <==> status.running_hash is Some || status.error is Some
        &&& forall|run: int|
            0 <= run < self.runs.len() ==> run_consistent(self.client, #[trigger] self.runs[run])
    }
}

/// What [`World::consistent`] says of one run.
pub open spec fn run_consistent<B, D, DC>(client: ClientModel, run: RunModel<B, D, DC>) -> bool {
    &&& cause_of(run.phase) != Some(Cause::Initial) && !(run.phase is Ended)
        ==> client.status.running_hash is Some
    &&& client.source != ConfigSource::File ==> {
        &&& !(run.phase is StartingWatch)
        &&& !(run.phase is Rewatching)
        &&& cause_of(run.phase) != Some(Cause::Change { rewatch: true })
    }
}

/// The hash of the content that is being loaded, where the run stands between reading it and
/// having applied it.
pub open spec fn hash_underway<B, DC>(phase: Phase<Seq<char>, B, DC>) -> Option<Seq<char>> {
    match phase {
        Phase::Normalizing { hash, .. } => Some(hash),
        Phase::SyncingBinds { hash, .. } => Some(hash),
        Phase::SyncingDiscovery { hash, .. } => Some(hash),
        _ => None,
    }
}

/// What the load underway is for, if one is.
pub open spec fn cause_of<B, DC>(phase: Phase<Seq<char>, B, DC>) -> Option<Cause> {
    match phase {
        Phase::Reading { cause } => Some(cause),
        Phase::Normalizing { cause, .. } => Some(cause),
        Phase::SyncingBinds { cause, .. } => Some(cause),
        Phase::SyncingDiscovery { cause, .. } => Some(cause),
        _ => None,
    }
}

/// The hash of an optional content.
pub open spec fn hash_of(content: Option<Seq<char>>) -> Option<Seq<char>> {
    match content {
        Some(content) => Some(content_hash_of(content)),
        None => None,
    }
}

/// Whatever happens to a client and its runs, they stay consistent: see [`World::consistent`]. In
/// particular the running hash is set whenever a run waits for changes.
pub proof fn law_client_stays_consistent<B, D, BC, DC>(
    source: ConfigSource,
    trace: Seq<Occurrence<B, D, BC, DC>>,
    run: int,
)
    ensures
        ({
            let world = World::<B, D, DC>::fresh(source).after_all(trace);
            &&& world.consistent()
            &&& world.client.source == source
            &&& 0 <= run < world.runs.len() && world.runs[run].phase is Watching
                ==> world.client.status.running_hash is Some
        }),
    decreases trace.len(),
{
    if trace.len() > 0 {
        law_client_stays_consistent(source, trace.drop_last(), run);
        let before = World::<B, D, DC>::fresh(source).after_all(trace.drop_last());
        let world = before.next(trace.last());
        assert(before.client.status.running_hash is Some
            ==> world.client.status.running_hash is Some);
        assert forall|i: int| 0 <= i < world.runs.len() implies run_consistent(
            world.client,
            #[trigger] world.runs[i],
        ) by {
            if i < before.runs.len() {
                assert(run_consistent(before.client, before.runs[i]));
            }
        }
    }
}

/// Whatever happens, the running hash is the content hash of the config that was applied last: of
/// the content that was read for the last load, of any run, that went through to the end.
pub proof fn law_running_hash_is_of_last_applied<B, D, BC, DC>(
    source: ConfigSource,
    trace: Seq<Occurrence<B, D, BC, DC>>,
)
    ensures
        ({
            let start = World::<B, D, DC>::fresh(source);
            let world = start.after_all(trace);
            &&& world.client.status.running_hash == hash_of(start.applied_last(trace))
            &&& forall|run: int|
                0 <= run < world.runs.len() ==> (hash_underway(
                    (#[trigger] world.runs[run]).phase,
                ) matches Some(hash) ==> Some(hash) == hash_of(start.read_last(trace, run)))
        }),
    decreases trace.len(),
{
    if trace.len() > 0 {
        law_running_hash_is_of_last_applied::<B, D, BC, DC>(source, trace.drop_last());
    }
}

/// Whatever happens, the status reports how the most recent load ended, a first load or a later one
/// and of any run: its error, if it failed, and its time.
pub proof fn law_status_reports_last_load<B, D, BC, DC>(
    source: ConfigSource,
    trace: Seq<Occurrence<B, D, BC, DC>>,
)
    ensures
        ({
            let start = World::<B, D, DC>::fresh(source);
            let status = start.after_all(trace).client.status;
            match start.ended_last(trace) {
                Some((LoadOutcome::Failed { error }, at)) => status.error == Some(error)
                    && status.last_updated_at == Some(at),
                Some((LoadOutcome::Loaded { hash }, at)) => status.error is None
                    && status.running_hash == Some(hash) && status.last_updated_at == Some(at),
                None => status == LoadStatusModel::empty(),
            }
        }),
    decreases trace.len(),
{
    if trace.len() > 0 {
        law_status_reports_last_load::<B, D, BC, DC>(source, trace.drop_last());
    }
}

/// What happens to one run leaves the others as they are, and a run that is begun leaves the status
/// and the other runs as they are.
pub proof fn law_runs_are_apart<B, D, BC, DC>(
    world: World<B, D, DC>,
    o: Occurrence<B, D, BC, DC>,
    run: int,
)
    requires
        0 <= run < world.runs.len(),
    ensures
        world.next(o).runs[run] != world.runs[run] ==> (o matches Occurrence::Happened {
            run: of,
            ..
        } && of == run),
        world.next(o).client != world.client ==> o is Happened,
{
}

/// A load that fails after a change, at whichever stage, keeps what is applied: the running hash,
/// and what the stores gave. Its error and time are recorded, the gauge goes down, and the run goes
/// on watching, with a new file watch where the change ended the old one.
pub proof fn law_failed_reload_keeps_applied<B, D, BC, DC>(
    r: Running<B, D, DC>,
    rewatch: bool,
    error: Seq<char>,
    at: Timestamp,
    event: Event<Seq<char>, B, D, BC, DC>,
)
    requires
        cause_of(r.run.phase) == Some(Cause::Change { rewatch }),
        load_ended(r.run.phase, event) == Some(LoadOutcome::Failed { error }),
    ensures
        r.after(event, at) matches Some((after, reaction)) && {
            &&& after.run.previous == r.run.previous
            &&& after.client.status == (LoadStatusModel {
                error: Some(error),
                last_updated_at: Some(at),
                ..r.client.status
            })
            &&& after.client.status.running_hash == r.client.status.running_hash
            &&& reaction.synchronized == Some(false)
            &&& if rewatch {
                after.run.phase is Rewatching && reaction.action is Rewatch
            } else {
                after.run.phase is Watching && reaction.action == (Action::<
                    Seq<char>,
                    (),
                    (),
                    BC,
                    DC,
                >::Wait { file: r.watches_file() })
            }
        },
{
}

/// A first load that fails, at whichever stage, ends the run with that error. The status reports the
/// error and the time, and keeps the hash of what is applied, if anything is; the gauge is left
/// alone.
pub proof fn law_failed_first_load_ends<B, D, BC, DC>(
    r: Running<B, D, DC>,
    error: Seq<char>,
    at: Timestamp,
    event: Event<Seq<char>, B, D, BC, DC>,
)
    requires
        cause_of(r.run.phase) == Some(Cause::Initial),
        load_ended(r.run.phase, event) == Some(LoadOutcome::Failed { error }),
    ensures
        r.after(event, at) == Some(
            (
                running(
                    ClientModel {
                        status: LoadStatusModel {
                            error: Some(error),
                            last_updated_at: Some(at),
                            ..r.client.status
                        },
                        ..r.client
                    },
                    r.run.at(Phase::Ended),
                ),
                act(Action::<Seq<char>, (), (), BC, DC>::Fail { error }),
            ),
        ),
{
}

/// A run can be begun on any client, whatever came of its other runs. Once its first load has gone
/// through, the content is what is applied: its hash is the running hash, no error is left, and the
/// next load of the run starts from what the stores gave. The gauge is left alone.
pub proof fn law_first_load_applies_content<B, D, BC, DC>(
    client: ClientModel,
    previous: PreviousState<B, D>,
    content: Seq<char>,
    config: NormalizedConfig<BC, DC>,
    gave: PreviousState<B, D>,
    t: Seq<Timestamp>,
)
    requires
        t.len() == 4,
    ensures
        ({
            let cause = Cause::Initial;
            let hash = content_hash_of(content);
            let reading = running(client, RunModel::<B, D, DC>::begun(previous));
            let normalizing = reading.at(Phase::Normalizing { cause, hash });
            let binding = reading.at(
                Phase::SyncingBinds { cause, hash, discovery: config.discovery },
            );
            let discovering = reading.at(
                Phase::SyncingDiscovery { cause, hash, binds: gave.binds },
            );
            let read: Event<Seq<char>, B, D, BC, DC> = Event::ConfigRead(Ok(content));
            let normalized: Event<Seq<char>, B, D, BC, DC> = Event::Normalized(Ok(config));
            let bound: Event<Seq<char>, B, D, BC, DC> = Event::BindsSynced(gave.binds);
            let discovered: Event<Seq<char>, B, D, BC, DC> = Event::DiscoverySynced(
                Ok(gave.discovery),
            );
            &&& reading.after(read, t[0]) == Some(
                (normalizing, act::<BC, DC>(Action::Normalize { content })),
            )
            &&& normalizing.after(normalized, t[1]) == Some(
                (
                    binding,
                    act::<BC, DC>(Action::SyncBinds { binds: config.binds, previous_binds: () }),
                ),
            )
            &&& binding.after(bound, t[2]) == Some(
                (
                    discovering,
                    act::<BC, DC>(
                        Action::SyncDiscovery {
                            discovery: config.discovery,
                            previous_discovery: (),
                        },
                    ),
                ),
            )
            &&& discovering.after(discovered, t[3]) matches Some((after, reaction)) && {
                &&& after.client.source == client.source
                &&& after.client.status == (LoadStatusModel {
                    running_hash: Some(hash),
                    disk_hash: client.status.disk_hash,
                    error: None,
                    last_updated_at: Some(t[3]),
                })
                &&& after.run.previous == gave
                &&& reaction.synchronized is None
                &&& if reading.watches_file() {
                    after.run.phase is StartingWatch && reaction.action is StartWatch
                } else {
                    after.run.phase is Subscribing && reaction.action is Subscribe
                }
            }
        }),
{
}

/// A run fails only at its start, and only where its first load fails or the file watch cannot be set
/// up; it fails with that very error, and has ended then. Where it gets past its first load, the
/// content of that load is applied by then. Every run has one first load.
pub proof fn law_run_fails_only_at_its_start<B, D, BC, DC>(
    r: Running<B, D, DC>,
    event: Event<Seq<char>, B, D, BC, DC>,
    at: Timestamp,
    error: Seq<char>,
)
    ensures
        r.after(event, at) matches Some((after, reaction)) ==> {
            &&& reaction.action == (Action::<Seq<char>, (), (), BC, DC>::Fail { error }) <==> {
                ||| cause_of(r.run.phase) == Some(Cause::Initial) && load_ended(r.run.phase, event)
                    == Some(LoadOutcome::Failed { error })
                ||| r.run.phase is StartingWatch && event == Event::<
                    Seq<char>,
                    B,
                    D,
                    BC,
                    DC,
                >::WatchStarted(Err(error))
            }
            &&& reaction.action is Fail ==> after.run.phase is Ended
            &&& cause_of(r.run.phase) == Some(Cause::Initial) && cause_of(after.run.phase) != Some(
                Cause::Initial,
            ) && !(after.run.phase is Ended) ==> {
                &&& load_ended(r.run.phase, event) matches Some(LoadOutcome::Loaded { hash })
                &&& after.client.status.running_hash == Some(hash)
                &&& hash_underway(r.run.phase) == Some(hash)
            }
            &&& cause_of(after.run.phase) == Some(Cause::Initial) ==> cause_of(r.run.phase) == Some(
                Cause::Initial,
            )
        },
{
}

/// A change leads to a load of what the config source holds by then; once it has gone through, that
/// is what is applied: its hash is the running hash, no error is left, the next load starts from
/// what the stores gave, the gauge goes up, and the run watches on, with a new file watch where
/// the change ended the old one.
pub proof fn law_reload_applies_content<B, D, BC, DC>(
    r: Running<B, D, DC>,
    change: Event<Seq<char>, B, D, BC, DC>,
    rewatch: bool,
    content: Seq<char>,
    config: NormalizedConfig<BC, DC>,
    gave: PreviousState<B, D>,
    t: Seq<Timestamp>,
)
    requires
        r.run.phase is Watching,
        change == (Event::<Seq<char>, B, D, BC, DC>::FileChanged { invalidated: rewatch })
            && r.watches_file() || change
            == Event::<Seq<char>, B, D, BC, DC>::ResourceChanged && !rewatch,
        t.len() == 5,
    ensures
        ({
            let cause = Cause::Change { rewatch };
            let hash = content_hash_of(content);
            let reading = r.at(Phase::Reading { cause });
            let normalizing = r.at(Phase::Normalizing { cause, hash });
            let binding = r.at(
                Phase::SyncingBinds { cause, hash, discovery: config.discovery },
            );
            let discovering = r.at(
                Phase::SyncingDiscovery { cause, hash, binds: gave.binds },
            );
            let read: Event<Seq<char>, B, D, BC, DC> = Event::ConfigRead(Ok(content));
            let normalized: Event<Seq<char>, B, D, BC, DC> = Event::Normalized(Ok(config));
            let bound: Event<Seq<char>, B, D, BC, DC> = Event::BindsSynced(gave.binds);
            let discovered: Event<Seq<char>, B, D, BC, DC> = Event::DiscoverySynced(
                Ok(gave.discovery),
            );
            &&& r.after(change, t[0]) == Some((reading, act::<BC, DC>(Action::ReadConfig)))
            &&& reading.after(read, t[1]) == Some(
                (normalizing, act::<BC, DC>(Action::Normalize { content })),
            )
            &&& normalizing.after(normalized, t[2]) == Some(
                (
                    binding,
                    act::<BC, DC>(Action::SyncBinds { binds: config.binds, previous_binds: () }),
                ),
            )
            &&& binding.after(bound, t[3]) == Some(
                (
                    discovering,
                    act::<BC, DC>(
                        Action::SyncDiscovery {
                            discovery: config.discovery,
                            previous_discovery: (),
                        },
                    ),
                ),
            )
            &&& discovering.after(discovered, t[4]) matches Some((after, reaction)) && {
                &&& after.client.status == (LoadStatusModel {
                    running_hash: Some(hash),
                    disk_hash: r.client.status.disk_hash,
                    error: None,
                    last_updated_at: Some(t[4]),
                })
                &&& after.run.previous == gave
                &&& reaction.synchronized == Some(true)
                &&& if rewatch {
                    after.run.phase is Rewatching && reaction.action is Rewatch
                } else {
                    after.run.phase is Watching && reaction.action == (Action::<
                        Seq<char>,
                        (),
                        (),
                        BC,
                        DC,
                    >::Wait { file: r.watches_file() })
                }
            }
        }),
{
}

/// The gauge is moved only when a load after a change is over, and by then the status agrees with
/// it: it shows an error exactly when the gauge goes down.
pub proof fn law_gauge_agrees_with_status<B, D, BC, DC>(
    r: Running<B, D, DC>,
    event: Event<Seq<char>, B, D, BC, DC>,
    at: Timestamp,
)
    ensures
        r.after(event, at) matches Some((after, reaction)) ==> (
        reaction.synchronized matches Some(up) ==> {
            &&& cause_of(r.run.phase) matches Some(Cause::Change { .. })
            &&& up <==> after.client.status.error is None
            &&& after.client.status.last_updated_at == Some(at)
        }),
        r.after(event, at) matches Some((after, reaction)) ==> (reaction.synchronized is None
            && r.client.status != after.client.status ==> cause_of(r.run.phase) == Some(
            Cause::Initial,
        )),
{
}

/// A run that has ended stays as it is, whatever happens, and reacts to nothing.
pub proof fn law_ended_for_good<B, D, BC, DC>(
    world: World<B, D, DC>,
    run: int,
    trace: Seq<Occurrence<B, D, BC, DC>>,
)
    requires
        0 <= run < world.runs.len(),
        world.runs[run].phase is Ended,
    ensures
        ({
            let after = world.after_all(trace);
            &&& run < after.runs.len()
            &&& after.runs[run] == world.runs[run]
            &&& forall|event: Event<Seq<char>, B, D, BC, DC>, at: Timestamp|
                #[trigger] after.at(run).after(event, at) is None
        }),
    decreases trace.len(),
{
    if trace.len() > 0 {
        law_ended_for_good(world, run, trace.drop_last());
    }
}

/// While the config source still holds what was applied last, the running hash and the disk hash
/// agree.
pub proof fn law_hashes_agree_when_unchanged(status: LoadStatusModel, content: Seq<char>)
    requires
        status.running_hash == Some(content_hash_of(content)),
    ensures
        status.with_disk(Some(content)).running_hash == status.with_disk(Some(content)).disk_hash,
{
}

/// For every status and whatever it says of the loads, the disk hash is the written-out digest of
/// what the config source holds, where that could be read, and missing where it could not; nothing
/// else changes.
pub proof fn law_disk_hash_is_of_the_content(status: LoadStatusModel, content: Seq<char>)
    ensures
        status.with_disk(Some(content)).disk_hash matches Some(hash) && is_written_digest(
            hash,
            sha256(encode_utf8(content)),
        ),
        status.with_disk(None).disk_hash is None,
        forall|disk: Option<Seq<char>>| #![trigger status.with_disk(disk)]
            {
                &&& status.with_disk(disk).running_hash == status.running_hash
                &&& status.with_disk(disk).error == status.error
                &&& status.with_disk(disk).last_updated_at == status.last_updated_at
            },
{
    law_hash_is_the_written_digest(content, content);
}

/// Once `applied` was applied, the running hash and the disk hash agree exactly where SHA-256 gives
/// the same for it and for what the config source holds: a difference between the two is never
/// covered up, whether or not the last load failed.
pub proof fn law_hashes_differ_where_digests_do(
    status: LoadStatusModel,
    applied: Seq<char>,
    content: Seq<char>,
)
    requires
        status.running_hash matches Some(hash) && is_written_digest(
            hash,
            sha256(encode_utf8(applied)),
        ),
    ensures
        status.with_disk(Some(content)).running_hash == status.with_disk(Some(content)).disk_hash
            <==> sha256(encode_utf8(applied)) == sha256(encode_utf8(content)),
{
    law_hash_is_the_written_digest(applied, status.running_hash->0);
    law_hash_is_the_written_digest(content, content_hash_of(content));
    law_hashes_agree_iff_digests_do(applied, content);
}

/// What two statuses report of the same content is the same disk hash, whatever else they say.
pub proof fn law_disk_hash_depends_on_the_content_alone(
    a: LoadStatusModel,
    b: LoadStatusModel,
    content: Option<Seq<char>>,
)
    ensures
        a.with_disk(content).disk_hash == b.with_disk(content).disk_hash,
{
}

/// The end of a load is recorded with its time. One that went through sets the running hash and
/// clears the error; one that failed sets the error and leaves the running hash. The disk hash is not
/// touched.
pub proof fn law_load_end_is_recorded(
    status: LoadStatusModel,
    text: Seq<char>,
    at: Timestamp,
)
    ensures
        ({
            let loaded = status.recorded(LoadOutcome::Loaded { hash: text }, at);
            &&& loaded.running_hash == Some(text)
            &&& loaded.error is None
            &&& loaded.last_updated_at == Some(at)
            &&& loaded.disk_hash == status.disk_hash
        }),
        ({
            let failed = status.recorded(LoadOutcome::Failed { error: text }, at);
            &&& failed.running_hash == status.running_hash
            &&& failed.error == Some(text)
            &&& failed.last_updated_at == Some(at)
            &&& failed.disk_hash == status.disk_hash
        }),
        LoadStatusModel::empty().running_hash is None,
        LoadStatusModel::empty().disk_hash is None,
        LoadStatusModel::empty().error is None,
        LoadStatusModel::empty().last_updated_at is None,
{
}

/// A model of a status says what the status says, field by field.
pub proof fn law_load_status_is_its_fields(status: LoadStatus)
    ensures
        status.running_hash is Some <==> status@.running_hash is Some,
        status.running_hash is Some ==> status@.running_hash->0 == status.running_hash->0@,
        status.disk_hash is Some <==> status@.disk_hash is Some,
        status.disk_hash is Some ==> status@.disk_hash->0 == status.disk_hash->0@,
        status.error is Some <==> status@.error is Some,
        status.error is Some ==> status@.error->0 == status.error->0@,
        status@.last_updated_at == status.last_updated_at,
        text_of(status.error) == status@.error,
{
}

/// `next` is where `run` goes on to: to `phase`, with `action` as the next thing to do. What the
/// stores gave at the last load that went through, and the gauge, are left as they were.
pub open spec fn goes_to<B, D, BC, DC>(
    run: RunModel<B, D, DC>,
    next: Option<(RunModel<B, D, DC>, Reaction<Seq<char>, (), (), BC, DC>)>,
    phase: Phase<Seq<char>, B, DC>,
    action: Action<Seq<char>, (), (), BC, DC>,
) -> bool {
    &&& next matches Some((after, reaction))
    &&& after.phase == phase
    &&& after.previous == run.previous
    &&& reaction.synchronized is None
    &&& reaction.action == action
}

/// The whole content that was read is what is normalized, under its hash, whatever the load is for.
pub proof fn law_content_read_is_normalized<B, D, BC, DC>(
    run: RunModel<B, D, DC>,
    file: bool,
    cause: Cause,
    content: Seq<char>,
)
    requires
        run.phase == (Phase::<Seq<char>, B, DC>::Reading { cause }),
    ensures
        exists|hash: Seq<char>|
            is_written_digest(hash, sha256(encode_utf8(content))) && #[trigger] goes_to(
                run,
                run.after::<BC>(file, Event::ConfigRead(Ok(content))),
                Phase::Normalizing { cause, hash },
                Action::Normalize { content },
            ),
{
    let hash = content_hash_of(content);
    law_hash_is_the_written_digest(content, hash);
    assert(goes_to(
        run,
        run.after::<BC>(file, Event::ConfigRead(Ok(content))),
        Phase::Normalizing { cause, hash },
        Action::Normalize { content },
    ));
}

/// A normalized config goes to the two stores one after the other, each its own part of it, and
/// neither the cause nor the hash of the load changes on the way.
pub proof fn law_each_store_gets_its_part<B, D, BC, DC>(
    run: RunModel<B, D, DC>,
    file: bool,
    cause: Cause,
    hash: Seq<char>,
    config: NormalizedConfig<BC, DC>,
    binds: B,
)
    ensures
        run.phase == (Phase::<Seq<char>, B, DC>::Normalizing { cause, hash }) ==> goes_to(
            run,
            run.after::<BC>(file, Event::Normalized(Ok(config))),
            Phase::SyncingBinds { cause, hash, discovery: config.discovery },
            Action::SyncBinds { binds: config.binds, previous_binds: () },
        ),
        run.phase == (Phase::<Seq<char>, B, DC>::SyncingBinds {
            cause,
            hash,
            discovery: config.discovery,
        }) ==> goes_to(
            run,
            run.after::<BC>(file, Event::BindsSynced(binds)),
            Phase::SyncingDiscovery { cause, hash, binds },
            Action::SyncDiscovery { discovery: config.discovery, previous_discovery: () },
        ),
{
}

/// Once both stores have taken over their part, the next load starts from what they gave. After a
/// first load a file is watched from then on, and the resources at once where there is no file; the
/// gauge is left alone. After a change the gauge goes up, and the run watches on, with a new file
/// watch where the change ended the old one.
pub proof fn law_load_that_goes_through<B, D, BC, DC>(
    run: RunModel<B, D, DC>,
    file: bool,
    cause: Cause,
    hash: Seq<char>,
    binds: B,
    discovery: D,
)
    requires
        run.phase == (Phase::<Seq<char>, B, DC>::SyncingDiscovery { cause, hash, binds }),
    ensures
        run.after::<BC>(file, Event::DiscoverySynced(Ok(discovery))) is Some,
        ({
            let (after, reaction) = run.after::<BC>(file, Event::DiscoverySynced(Ok(discovery)))->0;
            &&& after.previous.binds == binds
            &&& after.previous.discovery == discovery
            &&& goes_on(file, cause, true, after.phase, reaction)
        }),
        load_ended(
            run.phase,
            Event::<Seq<char>, B, D, BC, DC>::DiscoverySynced(Ok(discovery)),
        ) == Some(LoadOutcome::Loaded { hash }),
{
}

/// Where a run goes once a load for `cause` has gone through.
pub open spec fn goes_on<B, BC, DC>(
    file: bool,
    cause: Cause,
    synchronized: bool,
    phase: Phase<Seq<char>, B, DC>,
    reaction: Reaction<Seq<char>, (), (), BC, DC>,
) -> bool {
    match cause {
        Cause::Initial => {
            &&& reaction.synchronized is None
            &&& if file {
                phase is StartingWatch && reaction.action is StartWatch
            } else {
                phase is Subscribing && reaction.action is Subscribe
            }
        },
        Cause::Change { rewatch } => {
            &&& reaction.synchronized == Some(synchronized)
            &&& if rewatch {
                phase is Rewatching && reaction.action is Rewatch
            } else {
                phase is Watching && reaction.action == (Action::<Seq<char>, (), (), BC, DC>::Wait {
                    file,
                })
            }
        },
    }
}

/// A load that fails, at whichever stage, keeps what the stores gave. A first one ends the run with
/// that very error; a later one takes the gauge down, and the run watches on as after one that goes
/// through.
pub proof fn law_load_that_fails<B, D, BC, DC>(
    run: RunModel<B, D, DC>,
    file: bool,
    cause: Cause,
    error: Seq<char>,
    event: Event<Seq<char>, B, D, BC, DC>,
)
    requires
        cause_of(run.phase) == Some(cause),
        run.phase is Reading && event == Event::<Seq<char>, B, D, BC, DC>::ConfigRead(Err(error))
            || run.phase is Normalizing && event == Event::<Seq<char>, B, D, BC, DC>::Normalized(
            Err(error),
        ) || run.phase is SyncingDiscovery && event == Event::<
            Seq<char>,
            B,
            D,
            BC,
            DC,
        >::DiscoverySynced(Err(error)),
    ensures
        load_ended(run.phase, event) == Some(LoadOutcome::Failed { error }),
        run.after(file, event) is Some,
        ({
            let (after, reaction) = run.after(file, event)->0;
            &&& after.previous == run.previous
            &&& if cause == Cause::Initial {
                &&& after.phase is Ended
                &&& reaction.synchronized is None
                &&& reaction.action == (Action::<Seq<char>, (), (), BC, DC>::Fail { error })
            } else {
                goes_on(file, cause, false, after.phase, reaction)
            }
        }),
{
}

/// After its first load a run sets up what it watches: the file, where there is one, and then the
/// resources; then it waits for either. A file watch that cannot be set up ends the run with that
/// very error.
pub proof fn law_run_sets_up_its_watches<B, D, BC, DC>(
    run: RunModel<B, D, DC>,
    file: bool,
    error: Seq<char>,
)
    ensures
        run.phase is StartingWatch ==> goes_to(
            run,
            run.after::<BC>(file, Event::WatchStarted(Ok(()))),
            Phase::Subscribing,
            Action::Subscribe,
        ),
        run.phase is StartingWatch ==> goes_to(
            run,
            run.after::<BC>(file, Event::WatchStarted(Err(error))),
            Phase::Ended,
            Action::Fail { error },
        ),
        run.phase is Subscribing ==> goes_to(
            run,
            run.after::<BC>(file, Event::Subscribed),
            Phase::Watching,
            Action::Wait { file },
        ),
{
}

/// While a run waits, every change of a resource and, with a file, of that file leads to a new load
/// from the config source, and the file watch is set up again afterwards exactly where the change
/// ended it. Only a source that is gone ends the run, without an error; a static config has no file
/// to change.
pub proof fn law_every_change_is_loaded<B, D, BC, DC>(
    run: RunModel<B, D, DC>,
    file: bool,
    invalidated: bool,
)
    requires
        run.phase is Watching,
    ensures
        goes_to(
            run,
            run.after::<BC>(file, Event::ResourceChanged),
            Phase::Reading { cause: Cause::Change { rewatch: false } },
            Action::ReadConfig,
        ),
        file ==> goes_to(
            run,
            run.after::<BC>(file, Event::FileChanged { invalidated }),
            Phase::Reading { cause: Cause::Change { rewatch: invalidated } },
            Action::ReadConfig,
        ),
        file ==> goes_to(run, run.after::<BC>(file, Event::FileClosed), Phase::Ended, Action::Stop),
        !file ==> run.after::<BC>(file, Event::FileChanged { invalidated }) is None,
        !file ==> run.after::<BC>(file, Event::FileClosed) is None,
        goes_to(run, run.after::<BC>(file, Event::ResourcesClosed), Phase::Ended, Action::Stop),
{
}

/// A file watch that was set up again is waited on as before; one that could not be ends the run.
pub proof fn law_rewatched_file_is_waited_on<B, D, BC, DC>(run: RunModel<B, D, DC>, file: bool)
    requires
        run.phase is Rewatching,
    ensures
        goes_to(
            run,
            run.after::<BC>(file, Event::Rewatched { ok: true }),
            Phase::Watching,
            Action::Wait { file },
        ),
        goes_to(
            run,
            run.after::<BC>(file, Event::Rewatched { ok: false }),
            Phase::Ended,
            Action::Stop,
        ),
{
}

/// A run takes in exactly what it waits for, whatever came of it; any other event gives no reaction.
pub proof fn law_run_takes_what_it_waits_for<B, D, BC, DC>(
    run: RunModel<B, D, DC>,
    file: bool,
    event: Event<Seq<char>, B, D, BC, DC>,
)
    ensures
        run.after(file, event) is Some <==> (match event {
            Event::ConfigRead(_) => run.phase is Reading,
            Event::Normalized(_) => run.phase is Normalizing,
            Event::BindsSynced(_) => run.phase is SyncingBinds,
            Event::DiscoverySynced(_) => run.phase is SyncingDiscovery,
            Event::WatchStarted(_) => run.phase is StartingWatch,
            Event::Subscribed => run.phase is Subscribing,
            Event::FileChanged { .. } => run.phase is Watching && file,
            Event::FileClosed => run.phase is Watching && file,
            Event::ResourceChanged => run.phase is Watching,
            Event::ResourcesClosed => run.phase is Watching,
            Event::Rewatched { .. } => run.phase is Rewatching,
        }),
        load_ended(run.phase, event) is Some ==> run.after(file, event) is Some,
        load_ended(run.phase, event) is Some <==> {
            ||| run.phase is Reading && (event matches Event::ConfigRead(Err(_)))
            ||| run.phase is Normalizing && (event matches Event::Normalized(Err(_)))
            ||| run.phase is SyncingDiscovery && event is DiscoverySynced
        },
{
}

/// A run begins by reading, for its first load, and the next load starts from what it was given.
pub proof fn law_run_begins_with_its_first_load<B, D, DC>(previous: PreviousState<B, D>)
    ensures
        RunModel::<B, D, DC>::begun(previous).previous == previous,
        RunModel::<B, D, DC>::begun(previous).phase == (Phase::<Seq<char>, B, DC>::Reading {
            cause: Cause::Initial,
        }),
{
}

/// A client follows its runs: the run goes on as it would by itself, the source never changes, and
/// the status changes exactly where a load ends, by that end and its time.
pub proof fn law_client_follows_its_run<B, D, BC, DC>(
    r: Running<B, D, DC>,
    event: Event<Seq<char>, B, D, BC, DC>,
    at: Timestamp,
)
    ensures
        running(r.client, r.run) == r,
        r.after(event, at) is Some <==> r.run.after(
            r.client.source == ConfigSource::File,
            event,
        ) is Some,
        r.after(event, at) is Some ==> {
            let (after, reaction) = r.after(event, at)->0;
            &&& (after.run, reaction) == r.run.after(r.client.source == ConfigSource::File, event)->0
            &&& after.client.source == r.client.source
            &&& match load_ended(r.run.phase, event) {
                None => after.client.status == r.client.status,
                Some(LoadOutcome::Loaded { hash }) => {
                    &&& after.client.status.running_hash == Some(hash)
                    &&& after.client.status.error is None
                    &&& after.client.status.last_updated_at == Some(at)
                    &&& after.client.status.disk_hash == r.client.status.disk_hash
                },
                Some(LoadOutcome::Failed { error }) => {
                    &&& after.client.status.running_hash == r.client.status.running_hash
                    &&& after.client.status.error == Some(error)
                    &&& after.client.status.last_updated_at == Some(at)
                    &&& after.client.status.disk_hash == r.client.status.disk_hash
                },
            }
        },
{
}

/// A step gives a reaction exactly where the event belongs to where the run stands, and otherwise
/// leaves the run and its client as they were; each store is handed a clone of what it gave.
pub proof fn law_step_reacts_or_changes_nothing<B: Clone, D: Clone, BC, DC>(
    before: Running<B, D, DC>,
    event: Event<Seq<char>, B, D, BC, DC>,
    at: Timestamp,
    after: Running<B, D, DC>,
    reaction: Option<Reaction<String, B, D, BC, DC>>,
)
    requires
        stepped(before, event, at, after, reaction),
        handed_over(before.run, reaction),
    ensures
        reaction is Some <==> before.after(event, at) is Some,
        reaction is None ==> after == before,
        reaction is Some ==> before.after(event, at) == Some((after, reaction->0@)),
        reaction matches Some(Reaction {
            action: Action::SyncBinds { previous_binds, .. },
            ..
        }) ==> cloned(before.run.previous.binds, previous_binds),
        reaction matches Some(Reaction {
            action: Action::SyncDiscovery { previous_discovery, .. },
            ..
        }) ==> cloned(before.run.previous.discovery, previous_discovery),
{
}

/// What an event says is what its fields say, texts and all.
pub proof fn law_event_is_its_fields<B, D, BC, DC>(event: Event<String, B, D, BC, DC>)
    ensures
        match event {
            Event::ConfigRead(Ok(content)) => event@ == Event::<Seq<char>, B, D, BC, DC>::ConfigRead(
                Ok(content@),
            ),
            Event::ConfigRead(Err(error)) => event@ == Event::<Seq<char>, B, D, BC, DC>::ConfigRead(
                Err(error@),
            ),
            Event::Normalized(Ok(config)) => event@ == Event::<Seq<char>, B, D, BC, DC>::Normalized(
                Ok(config),
            ),
            Event::Normalized(Err(error)) => event@ == Event::<Seq<char>, B, D, BC, DC>::Normalized(
                Err(error@),
            ),
            Event::BindsSynced(binds) => event@ == Event::<Seq<char>, B, D, BC, DC>::BindsSynced(
                binds,
            ),
            Event::DiscoverySynced(Ok(discovery)) => event@ == Event::<
                Seq<char>,
                B,
                D,
                BC,
                DC,
            >::DiscoverySynced(Ok(discovery)),
            Event::DiscoverySynced(Err(error)) => event@ == Event::<
                Seq<char>,
                B,
                D,
                BC,
                DC,
            >::DiscoverySynced(Err(error@)),
            Event::WatchStarted(Ok(_)) => event@ matches Event::WatchStarted(Ok(_)),
            Event::WatchStarted(Err(error)) => event@ == Event::<
                Seq<char>,
                B,
                D,
                BC,
                DC,
            >::WatchStarted(Err(error@)),
            Event::Subscribed => event@ is Subscribed,
            Event::FileChanged { invalidated } => event@ == (Event::<
                Seq<char>,
                B,
                D,
                BC,
                DC,
            >::FileChanged { invalidated }),
            Event::FileClosed => event@ is FileClosed,
            Event::ResourceChanged => event@ is ResourceChanged,
            Event::ResourcesClosed => event@ is ResourcesClosed,
            Event::Rewatched { ok } => event@ == (Event::<Seq<char>, B, D, BC, DC>::Rewatched {
                ok,
            }),
        },
{
}

/// What a reaction says is what its fields say, texts and all, but for what is handed over from the
/// last load.
pub proof fn law_client_reaction_is_its_fields<B, D, BC, DC>(
    reaction: Reaction<String, B, D, BC, DC>,
    outcome: LoadOutcome<String>,
)
    ensures
        reaction@.synchronized == reaction.synchronized,
        match reaction.action {
            Action::ReadConfig => reaction@.action is ReadConfig,
            Action::Normalize { content } => reaction@.action == (Action::<
                Seq<char>,
                (),
                (),
                BC,
                DC,
            >::Normalize { content: content@ }),
            Action::SyncBinds { binds, .. } => reaction@.action matches Action::SyncBinds {
                binds: b,
                ..
            } && b == binds,
            Action::SyncDiscovery { discovery, .. } => reaction@.action matches Action::SyncDiscovery {
                discovery: d,
                ..
            } && d == discovery,
            Action::StartWatch => reaction@.action is StartWatch,
            Action::Subscribe => reaction@.action is Subscribe,
            Action::Wait { file } => reaction@.action == (Action::<Seq<char>, (), (), BC, DC>::Wait {
                file,
            }),
            Action::Rewatch => reaction@.action is Rewatch,
            Action::Fail { error } => reaction@.action == (Action::<
                Seq<char>,
                (),
                (),
                BC,
                DC,
            >::Fail { error: error@ }),
            Action::Stop => reaction@.action is Stop,
        },
        outcome_of(Some(outcome)) == Some(outcome@),
        outcome_of(None) is None,
        outcome matches LoadOutcome::Loaded { hash } ==> outcome@ == (LoadOutcome::<
            Seq<char>,
        >::Loaded { hash: hash@ }),
        outcome matches LoadOutcome::Failed { error } ==> outcome@ == (LoadOutcome::<
            Seq<char>,
        >::Failed { error: error@ }),
{
}

} // verus!
