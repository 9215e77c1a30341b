//! What holds of every sequence of load attempts.

use vstd::prelude::*;
use vstd::utf8::encode_utf8;

use crate::clock::Timestamp;
use crate::equivalence::{parsed, same_value};
use crate::hash::{content_hash_of, is_written_digest, law_hash_is_the_written_digest, sha256};
use crate::load_status::{
    attempt_of, carried, failure_published, failure_published_sometime, first_snapshot,
    is_recorded_history, joined, lemma_carried_keeps_kind, live_step, records_an_outcome,
    snapshot_on_clock, snapshot_recorded, snapshot_wf, status_step, success_published, AppliedModel, Attempt, AttemptModel, LoadModel, Outcome, Snapshot,
    State, Status, StatusModel, Step,
};

verus! {

/// The load history once `outcomes` have been recorded, first to last.
pub open spec fn history(outcomes: Seq<Outcome>) -> LoadModel
    decreases outcomes.len(),
{
    if outcomes.len() == 0 {
        LoadModel::empty()
    } else {
        history(outcomes.drop_last()).recorded(outcomes.last())
    }
}

/// How many of `outcomes` are successes.
pub open spec fn successes(outcomes: Seq<Outcome>) -> nat
    decreases outcomes.len(),
{
    if outcomes.len() == 0 {
        0
    } else {
        successes(outcomes.drop_last()) + if outcomes.last() is Success {
            1nat
        } else {
            0nat
        }
    }
}

/// The last success among `outcomes`.
pub open spec fn last_success(outcomes: Seq<Outcome>) -> Option<(Seq<char>, Timestamp)>
    decreases outcomes.len(),
{
    if outcomes.len() == 0 {
        None
    } else {
        match outcomes.last() {
            Outcome::Success { raw, at } => Some((raw, at)),
            Outcome::Failure { .. } => last_success(outcomes.drop_last()),
        }
    }
}

/// The attempt that `outcome` was.
pub open spec fn attempt(outcome: Outcome) -> AttemptModel {
    match outcome {
        Outcome::Success { at, .. } => AttemptModel { at, error: None },
        Outcome::Failure { error, at } => AttemptModel { at, error: Some(error) },
    }
}

/// Without a local config the channel carries nothing, whatever is recorded, and every query is
/// answered with no status.
pub proof fn law_disabled_for_good(
    outcomes: Seq<Outcome>,
    live: Step<(Option<String>, Status)>,
    status: Step<Status>,
)
    requires
        live_step(carried(None, outcomes), live),
        status_step(carried(None, outcomes), status),
    ensures
        carried(None, outcomes) is None,
        live matches Step::Done(None),
        status matches Step::Done(None),
{
    lemma_carried_keeps_kind(None, outcomes);
}

/// With a local config the channel carries the history of what was recorded.
pub proof fn law_enabled_carries_history(outcomes: Seq<Outcome>)
    ensures
        carried(first_snapshot(true), outcomes) == Some(history(outcomes)),
    decreases outcomes.len(),
{
    if outcomes.len() > 0 {
        law_enabled_carries_history(outcomes.drop_last());
    }
}

/// What an enabled watcher sees is a history: that of some outcomes.
pub proof fn law_enabled_watcher_sees_a_history(snapshot: Option<LoadModel>)
    requires
        is_recorded_history(true, snapshot),
    ensures
        exists|outcomes: Seq<Outcome>| snapshot == Some(#[trigger] history(outcomes)),
{
    let outcomes = choose|outcomes: Seq<Outcome>|
        snapshot == carried(first_snapshot(true), outcomes);
    law_enabled_carries_history(outcomes);
    assert(snapshot == Some(history(outcomes)));
}

/// Records at times that a clock can show keep the times in a snapshot such times, and a status
/// reports these times and no others.
pub proof fn law_reported_times_are_recorded_ones(
    outcomes: Seq<Outcome>,
    stored: Option<Seq<char>>,
)
    requires
        forall|i: int| 0 <= i < outcomes.len() ==> (#[trigger] outcomes[i]).at().on_clock(),
    ensures
        snapshot_on_clock(Some(history(outcomes))),
        history(outcomes).status(stored).applied_at matches Some(at) ==> at.on_clock(),
        history(outcomes).status(stored).last_attempt matches Some(a) ==> a.at.on_clock(),
    decreases outcomes.len(),
{
    if outcomes.len() > 0 {
        assert(outcomes.last().at().on_clock());
        assert forall|i: int| 0 <= i < outcomes.drop_last().len() implies (
        #[trigger] outcomes.drop_last()[i]).at().on_clock() by {
            assert(outcomes[i].at().on_clock());
        }
        law_reported_times_are_recorded_ones(outcomes.drop_last(), stored);
    }
}

/// A success that a publisher records can be seen by the watchers of its channel, and a query that
/// sees it gives back the text that was published, with no failure.
pub proof fn law_published_success_is_shown(
    changes: Set<(Option<LoadModel>, Option<LoadModel>, bool)>,
    shows: Set<Option<LoadModel>>,
    before: Option<LoadModel>,
    raw: Seq<char>,
    at: Timestamp,
    after: Option<LoadModel>,
)
    requires
        joined(changes, shows, first_snapshot(true)),
        before is Some,
        changes.contains((before, after, true)),
        success_published(before, raw, at, after, true),
    ensures
        shows.contains(after),
        after matches Some(load) && load.raw() == Some(raw) && !load.failed() && load.generation()
            == before->0.generation() + 1,
        forall|step: Step<(Option<String>, Status)>| #[trigger]
            live_step(after, step) ==> (step matches Step::ReadStored(pending) && Some(pending@)
                == after),
{
}

/// A failure that a publisher records can be seen by the watchers of its channel, and a query that
/// sees it reports that error, and still gives back the text that was applied before.
pub proof fn law_published_failure_is_shown(
    changes: Set<(Option<LoadModel>, Option<LoadModel>, bool)>,
    shows: Set<Option<LoadModel>>,
    before: Option<LoadModel>,
    error: Seq<char>,
    at: Timestamp,
    after: Option<LoadModel>,
    stored: Option<Seq<char>>,
)
    requires
        joined(changes, shows, first_snapshot(true)),
        before is Some,
        changes.contains((before, after, true)),
        failure_published(before, error, at, after),
    ensures
        shows.contains(after),
        after matches Some(load) && load.raw() == before->0.raw() && load.status(stored).state
            == State::Failed && load.status(stored).last_attempt == Some(
            AttemptModel { at, error: Some(error) },
        ),
{
}

/// Whatever is recorded, the generation is the number of successes (as far as the counter goes), and
/// the history stays well formed.
pub proof fn law_generation_counts_successes(outcomes: Seq<Outcome>)
    ensures
        history(outcomes).wf(),
        history(outcomes).generation() == if successes(outcomes) <= u64::MAX {
            successes(outcomes)
        } else {
            u64::MAX as nat
        },
    decreases outcomes.len(),
{
    if outcomes.len() > 0 {
        law_generation_counts_successes(outcomes.drop_last());
    }
}

/// The applied config is that of the last success, no matter how many failures followed, and the
/// last attempt is the last outcome.
pub proof fn law_history_is_last_success_and_last_attempt(outcomes: Seq<Outcome>)
    requires
        successes(outcomes) <= u64::MAX,
    ensures
        history(outcomes).applied == (match last_success(outcomes) {
            Some((raw, at)) => Some(AppliedModel { raw, generation: successes(outcomes), at }),
            None => None,
        }),
        history(outcomes).last_attempt == (if outcomes.len() == 0 {
            None
        } else {
            Some(attempt(outcomes.last()))
        }),
    decreases outcomes.len(),
{
    if outcomes.len() > 0 {
        law_history_is_last_success_and_last_attempt(outcomes.drop_last());
        law_generation_counts_successes(outcomes.drop_last());
    }
}

/// The state is failed exactly when the last outcome is a failure, whatever the stored config says.
pub proof fn law_failed_iff_last_attempt_failed(outcomes: Seq<Outcome>, stored: Option<Seq<char>>)
    requires
        successes(outcomes) <= u64::MAX,
    ensures
        history(outcomes).status(stored).state == State::Failed <==> (outcomes.len() > 0
            && outcomes.last() is Failure),
{
    law_history_is_last_success_and_last_attempt(outcomes);
}

/// A success is reported as such: its text, hash and time, the next generation and no error. Whether
/// the state is synced or drifted depends on the stored config alone.
pub proof fn law_success_is_reported(
    load: LoadModel,
    raw: Seq<char>,
    at: Timestamp,
    stored: Option<Seq<char>>,
)
    ensures
        load.after_success(raw, at).raw() == Some(raw),
        ({
            let status = load.after_success(raw, at).status(stored);
            &&& status.applied_generation == Some(load.generation() + 1)
            &&& status.applied_at == Some(at)
            &&& status.applied_hash == Some(content_hash_of(raw))
            &&& status.last_attempt == Some(AttemptModel { at, error: None })
            &&& status.stored_matches_applied == load.after_success(raw, at).matches_stored(stored)
            &&& status.state == if status.stored_matches_applied {
                State::Synced
            } else {
                State::Drifted
            }
        }),
{
}

/// A failure is reported with its error and time, and changes nothing else that is reported: the
/// text, generation, time and hash of what was applied, and whether the stored config matches it.
pub proof fn law_failure_keeps_applied(
    load: LoadModel,
    error: Seq<char>,
    at: Timestamp,
    stored: Option<Seq<char>>,
)
    ensures
        load.after_failure(error, at).raw() == load.raw(),
        load.after_failure(error, at).status(stored) == (StatusModel {
            state: State::Failed,
            last_attempt: Some(AttemptModel { at, error: Some(error) }),
            ..load.status(stored)
        }),
{
}

/// Stored configs that parse to the same value are reported alike: formatting and comments do not
/// count as drift.
pub proof fn law_formatting_is_no_drift(load: LoadModel, a: Seq<char>, b: Seq<char>)
    requires
        parsed(a) == parsed(b),
    ensures
        load.status(Some(a)) == load.status(Some(b)),
{
}

/// A stored config that cannot be read, or does not parse, never counts as synced.
pub proof fn law_unreadable_is_not_synced(load: LoadModel, stored: Option<Seq<char>>)
    requires
        stored matches Some(text) ==> parsed(text) is None,
    ensures
        !load.status(stored).stored_matches_applied,
        load.status(stored).state != State::Synced,
{
}

/// While nothing has been applied, the stored config has no bearing on the status.
pub proof fn law_nothing_applied_ignores_stored(
    load: LoadModel,
    a: Option<Seq<char>>,
    b: Option<Seq<char>>,
)
    requires
        load.applied is None,
    ensures
        load.status(a) == load.status(b),
        load.status(a).state != State::Synced,
{
}

/// Whatever was loaded before, however often, the stored config matches exactly where something is
/// applied, the stored config could be read, both texts parse, and `==` takes their values to be
/// equal. So texts that parse to unequal values never count as matching.
pub proof fn law_match_means_equal_values(load: LoadModel, stored: Option<Seq<char>>)
    ensures
        load.status(stored).stored_matches_applied <==> {
            &&& load.applied is Some
            &&& stored is Some
            &&& parsed(load.applied->0.raw) is Some
            &&& parsed(stored->0) is Some
            &&& same_value(parsed(load.applied->0.raw)->0, parsed(stored->0)->0)
        },
{
}

/// Where the last attempt did not fail, the status is synced where the stored config parses to a
/// value equal to that of the applied one, and drifted in every other case; where it failed, the
/// status is failed whatever is stored.
pub proof fn law_unequal_values_are_drift(
    load: LoadModel,
    applied: AppliedModel,
    stored: Option<Seq<char>>,
)
    requires
        load.applied == Some(applied),
    ensures
        load.last_attempt matches Some(AttemptModel { error: Some(_), .. }) ==> load.status(
            stored,
        ).state == State::Failed,
        !(load.last_attempt matches Some(AttemptModel { error: Some(_), .. })) ==> {
            &&& load.status(stored).state != State::Failed
            &&& load.status(stored).state == State::Synced <==> stored is Some && parsed(
                applied.raw,
            ) is Some && parsed(stored->0) is Some && same_value(
                parsed(applied.raw)->0,
                parsed(stored->0)->0,
            )
        },
{
}

/// What is reported of a match does not depend on which generation is applied, when, or how the last
/// attempt went: two histories that have applied the same text agree on every stored config.
pub proof fn law_match_depends_on_the_texts_alone(
    a: LoadModel,
    b: LoadModel,
    stored: Option<Seq<char>>,
)
    requires
        a.raw() == b.raw(),
    ensures
        a.status(stored).stored_matches_applied == b.status(stored).stored_matches_applied,
{
}

/// A status reports what is applied, field by field: its generation and time, the written-out digest
/// of its whole text, and the last attempt as it was. Without anything applied there is nothing of
/// the first three.
pub proof fn law_status_reports_what_is_remembered(load: LoadModel, stored: Option<Seq<char>>)
    ensures
        load.status(stored).last_attempt == load.last_attempt,
        match load.applied {
            Some(applied) => {
                &&& load.raw() == Some(applied.raw)
                &&& load.status(stored).applied_generation == Some(applied.generation)
                &&& load.status(stored).applied_at == Some(applied.at)
                &&& load.status(stored).applied_hash matches Some(hash) && is_written_digest(
                    hash,
                    sha256(encode_utf8(applied.raw)),
                )
            },
            None => {
                &&& load.raw() is None
                &&& load.status(stored).applied_generation is None
                &&& load.status(stored).applied_at is None
                &&& load.status(stored).applied_hash is None
                &&& !load.status(stored).stored_matches_applied
            },
        },
{
    if let Some(applied) = load.applied {
        law_hash_is_the_written_digest(applied.raw, applied.raw);
    }
}

/// What a query was told of the match decides between synced and drifted, and nothing else that is
/// reported.
pub proof fn law_match_decides_the_state_alone(load: LoadModel, a: bool, b: bool)
    ensures
        load.status_given(a).stored_matches_applied == a,
        load.status_given(a) == (StatusModel {
            state: load.status_given(a).state,
            stored_matches_applied: a,
            ..load.status_given(b)
        }),
        load.last_attempt matches Some(AttemptModel { error: Some(_), .. }) ==> load.status_given(
            a,
        ).state == State::Failed,
        !(load.last_attempt matches Some(AttemptModel { error: Some(_), .. }))
            ==> load.status_given(a).state == if a {
            State::Synced
        } else {
            State::Drifted
        },
{
}

/// The status that a query without a stored config gives is that of no match, and a query with one is
/// that of whether it matches.
pub proof fn law_status_is_that_of_the_match(load: LoadModel, stored: Option<Seq<char>>)
    ensures
        load.status(None) == load.status_given(false),
        load.status(stored) == load.status_given(load.status(stored).stored_matches_applied),
{
}

/// A success takes the place of what was applied, as the next generation, counted from one, and is
/// the last attempt; once the count is exhausted it changes nothing. A failure is the last attempt,
/// and what was applied stays as it was.
pub proof fn law_record_changes_exactly_this(
    load: LoadModel,
    raw: Seq<char>,
    error: Seq<char>,
    at: Timestamp,
)
    ensures
        ({
            let after = load.recorded(Outcome::Success { raw, at });
            match load.applied {
                None => {
                    &&& after.applied == Some(AppliedModel { raw, generation: 1, at })
                    &&& after.last_attempt == Some(AttemptModel { at, error: None })
                },
                Some(old) => if old.generation < u64::MAX {
                    &&& after.applied == Some(
                        AppliedModel { raw, generation: old.generation + 1, at },
                    )
                    &&& after.last_attempt == Some(AttemptModel { at, error: None })
                } else {
                    after == load
                },
            }
        }),
        ({
            let after = load.recorded(Outcome::Failure { error, at });
            &&& after.applied == load.applied
            &&& after.last_attempt == Some(AttemptModel { at, error: Some(error) })
        }),
        load.has_room() <==> (load.applied matches Some(old) ==> old.generation < u64::MAX),
{
}

/// A channel with a local config starts out with nothing applied and no attempt, and each record
/// changes the history in it; one without a local config carries nothing, before and after.
pub proof fn law_channel_carries_records(load: LoadModel, outcome: Outcome)
    ensures
        first_snapshot(true) matches Some(first) && first.applied is None
            && first.last_attempt is None,
        first_snapshot(false) is None,
        snapshot_recorded(Some(load), outcome) == Some(load.recorded(outcome)),
        snapshot_recorded(None, outcome) is None,
{
}

/// A query of a channel without a local config is answered with no status at once. While nothing is
/// applied it is answered at once, without a text, as failed or drifted. Once something is applied
/// the stored config is asked for, and the query goes on from the very history that it looked at.
pub proof fn law_query_asks_for_the_stored_config_when_needed(
    snapshot: Option<LoadModel>,
    live: Step<(Option<String>, Status)>,
    status: Step<Status>,
)
    requires
        live_step(snapshot, live),
        status_step(snapshot, status),
    ensures
        snapshot is None ==> live == Step::<(Option<String>, Status)>::Done(None) && status
            == Step::<Status>::Done(None),
        snapshot is Some && snapshot->0.applied is None ==> {
            &&& live matches Step::Done(Some((None, answer))) && answer_without_applied(
                snapshot->0,
                answer,
            )
            &&& status matches Step::Done(Some(answer)) && answer_without_applied(
                snapshot->0,
                answer,
            )
        },
        snapshot is Some && snapshot->0.applied is Some ==> {
            &&& live matches Step::ReadStored(pending) && pending@ == snapshot->0
            &&& status matches Step::ReadStored(pending) && pending@ == snapshot->0
        },
{
}

/// What a status says while nothing is applied: the last attempt, and that it failed if it did.
pub open spec fn answer_without_applied(load: LoadModel, status: Status) -> bool {
    &&& status.applied_generation is None
    &&& status.applied_at is None
    &&& status.applied_hash is None
    &&& !status.stored_matches_applied
    &&& status.last_attempt is Some <==> load.last_attempt is Some
    &&& status.last_attempt matches Some(attempt) ==> {
        &&& attempt.at == load.last_attempt->0.at
        &&& attempt.error is Some <==> load.last_attempt->0.error is Some
        &&& attempt.error matches Some(error) ==> Some(error@) == load.last_attempt->0.error
    }
    &&& status.state == if status.last_attempt is Some && status.last_attempt->0.error is Some {
        State::Failed
    } else {
        State::Drifted
    }
}

/// A model of a status says what the status says, field by field.
pub proof fn law_status_is_its_fields(status: Status, attempt: Attempt)
    ensures
        status@.state == status.state,
        status@.stored_matches_applied == status.stored_matches_applied,
        status@.applied_at == status.applied_at,
        status.applied_generation is Some <==> status@.applied_generation is Some,
        status.applied_generation is Some ==> status@.applied_generation->0
            == status.applied_generation->0,
        status.applied_hash is Some <==> status@.applied_hash is Some,
        status.applied_hash is Some ==> status@.applied_hash->0 == status.applied_hash->0@,
        status.last_attempt is Some <==> status@.last_attempt is Some,
        status.last_attempt is Some ==> status@.last_attempt->0 == status.last_attempt->0@,
        attempt@.at == attempt.at,
        attempt.error is Some <==> attempt@.error is Some,
        attempt.error is Some ==> attempt@.error->0 == attempt.error->0@,
        attempt_of(Some(attempt)) == Some(attempt@),
        attempt_of(None) is None,
{
}

/// A publisher that records a success makes of the history in the channel what [`LoadModel::recorded`]
/// makes of it, and says whether that was recorded: it was not only where the count of generations is
/// exhausted, and then the history is as before. One that records a failure always does.
pub proof fn law_published_is_recorded(
    before: Option<LoadModel>,
    raw: Seq<char>,
    at: Timestamp,
    after: Option<LoadModel>,
    recorded: bool,
)
    ensures
        success_published(before, raw, at, after, recorded) ==> {
            &&& before is None ==> after is None && recorded
            &&& before matches Some(load) ==> {
                &&& load.wf()
                &&& recorded <==> (load.applied matches Some(old) ==> old.generation < u64::MAX)
                &&& after == Some(load.recorded(Outcome::Success { raw, at }))
                &&& !recorded ==> after == before
            }
        },
        failure_published(before, raw, at, after) ==> {
            &&& before is None ==> after is None
            &&& before matches Some(load) ==> load.wf() && after == Some(
                load.recorded(Outcome::Failure { error: raw, at }),
            )
        },
{
}

/// The watchers of a channel see its first snapshot and what its publishers found and left, and
/// nothing else.
pub proof fn law_watchers_see_what_is_recorded(
    changes: Set<(Option<LoadModel>, Option<LoadModel>, bool)>,
    shows: Set<Option<LoadModel>>,
    first: Option<LoadModel>,
    seen: Option<LoadModel>,
    change: (Option<LoadModel>, Option<LoadModel>, bool),
)
    requires
        joined(changes, shows, first),
    ensures
        shows.contains(first),
        changes.contains(change) ==> shows.contains(change.0) && shows.contains(change.1),
        shows.contains(seen) ==> seen == first || exists|before: Option<LoadModel>, recorded: bool|
            changes.contains((before, seen, recorded)),
{
    assert(changes.contains((change.0, change.1, change.2)) == changes.contains(change));
}

/// A history is well formed where what is applied has a generation from one on and was an attempt,
/// and an attempt without an error applied what is applied, at its time.
pub proof fn law_well_formed_history(snapshot: Option<LoadModel>)
    requires
        snapshot_wf(snapshot),
        snapshot is Some,
    ensures
        ({
            let load = snapshot->0;
            &&& load.applied is Some ==> load.last_attempt is Some && 1
                <= load.applied->0.generation <= u64::MAX
            &&& load.last_attempt is Some && load.last_attempt->0.error is None
                ==> load.applied is Some && load.applied->0.at == load.last_attempt->0.at
            &&& load.last_attempt is None ==> load.applied is None
        }),
{
}

/// A snapshot carries its history where a local config is set up, and nothing where none is.
pub proof fn law_snapshot_carries_its_history(snapshot: Snapshot)
    ensures
        snapshot is Disabled <==> snapshot@ is None,
        snapshot matches Snapshot::Enabled(inner) ==> snapshot@ == Some(inner@),
{
}

/// A failure that is published becomes the last attempt in the channel, with its error and a time
/// that a clock can show, and takes nothing away from what is applied; without a local config nothing
/// becomes of it.
pub proof fn law_published_failure_is_the_last_attempt(
    before: Option<LoadModel>,
    error: Seq<char>,
    after: Option<LoadModel>,
)
    requires
        failure_published_sometime(before, error, after),
    ensures
        before is Some <==> after is Some,
        before is Some ==> {
            &&& after->0.applied == before->0.applied
            &&& after->0.last_attempt is Some
            &&& after->0.last_attempt->0.error == Some(error)
            &&& after->0.last_attempt->0.at.on_clock()
        },
{
}

/// Every change to a channel leaves an attempt at a time that a clock can show: one that failed, with
/// what was applied as before, or one that applied something, as the next generation. Only a count of
/// generations that is exhausted leaves a history as it was.
pub proof fn law_every_change_leaves_an_attempt(
    before: Option<LoadModel>,
    after: Option<LoadModel>,
)
    requires
        records_an_outcome(before, after),
    ensures
        before is Some <==> after is Some,
        before is Some && after == before && before->0.last_attempt is None ==> !before->0.has_room(),
        before is Some && (after != before || before->0.has_room()) ==> {
            let (old, new) = (before->0, after->0);
            &&& new.last_attempt is Some
            &&& new.last_attempt->0.at.on_clock()
            &&& new.last_attempt->0.error is Some ==> new.applied == old.applied
            &&& new.last_attempt->0.error is None ==> {
                &&& new.applied is Some
                &&& new.applied->0.at == new.last_attempt->0.at
                &&& new.applied->0.generation == 1 + if old.applied is Some {
                    old.applied->0.generation
                } else {
                    0
                }
            }
        },
{
}

/// The times in a snapshot that a clock can show are that of what is applied and that of the last
/// attempt.
pub proof fn law_snapshot_times_are_on_the_clock(load: LoadModel)
    requires
        snapshot_on_clock(Some(load)),
    ensures
        load.applied is Some ==> load.applied->0.at.on_clock(),
        load.last_attempt is Some ==> load.last_attempt->0.at.on_clock(),
{
}

} // verus!
