//! The load status channel: what was last applied of the local config, how the last load attempt
//! went, and whether the stored config still says the same.

use tokio::sync::watch;
use vstd::prelude::*;

use crate::clock::{utc_now, Timestamp};
use crate::equivalence::{equivalent, equivalent_texts, parsed, same_value};
use crate::hash::{content_hash, content_hash_of};
use crate::text::{clone_text, str_of, text_of};

verus! {

/// The sending half of a `tokio` watch channel.
#[verifier::external_type_specification]
#[verifier::external_body]
#[verifier::reject_recursive_types(T)]
pub struct ExSender<T>(tokio::sync::watch::Sender<T>);

/// The receiving half of a `tokio` watch channel.
#[verifier::external_type_specification]
#[verifier::external_body]
#[verifier::reject_recursive_types(T)]
pub struct ExReceiver<T>(tokio::sync::watch::Receiver<T>);

/// A config that was applied: its text, the how-manieth it was, and when.
#[verifier::ext_equal]
pub struct AppliedModel {
    pub raw: Seq<char>,
    pub generation: nat,
    pub at: Timestamp,
}

/// A load attempt: when it was, and what went wrong, if anything did.
#[verifier::ext_equal]
pub struct AttemptModel {
    pub at: Timestamp,
    pub error: Option<Seq<char>>,
}

/// What a status says.
#[verifier::ext_equal]
pub struct StatusModel {
    pub state: State,
    pub applied_generation: Option<nat>,
    pub applied_at: Option<Timestamp>,
    pub applied_hash: Option<Seq<char>>,
    pub last_attempt: Option<AttemptModel>,
    pub stored_matches_applied: bool,
}

/// How a load attempt went.
pub enum Outcome {
    Success { raw: Seq<char>, at: Timestamp },
    Failure { error: Seq<char>, at: Timestamp },
}

impl Outcome {
    /// When the attempt ended.
    pub open spec fn at(self) -> Timestamp {
        match self {
            Outcome::Success { at, .. } => at,
            Outcome::Failure { at, .. } => at,
        }
    }
}

/// The load history of a local config, as far as it is remembered.
#[verifier::ext_equal]
pub struct LoadModel {
    pub applied: Option<AppliedModel>,
    pub last_attempt: Option<AttemptModel>,
}

impl LoadModel {
    /// Nothing has been loaded yet.
    pub open spec fn empty() -> LoadModel {
        LoadModel { applied: None, last_attempt: None }
    }

    /// Applied configs are counted from one; applying one was an attempt; and an attempt without an
    /// error is the one that applied what is applied.
    pub open spec fn wf(self) -> bool {
        &&& self.applied matches Some(applied) ==> {
            &&& 1 <= applied.generation <= u64::MAX
            &&& self.last_attempt is Some
        }
        &&& self.last_attempt matches Some(attempt) ==> (attempt.error is None ==> (
        self.applied matches Some(applied) && applied.at == attempt.at))
    }

    /// How many configs have been applied.
    pub open spec fn generation(self) -> nat {
        match self.applied {
            Some(applied) => applied.generation,
            None => 0,
        }
    }

    /// Whether the count of applied configs can still grow.
    pub open spec fn has_room(self) -> bool {
        self.generation() < u64::MAX
    }

    /// The config `raw` was applied at `at`.
    pub open spec fn after_success(self, raw: Seq<char>, at: Timestamp) -> LoadModel {
        LoadModel {
            applied: Some(AppliedModel { raw, generation: self.generation() + 1, at }),
            last_attempt: Some(AttemptModel { at, error: None }),
        }
    }

    /// A load failed with `error` at `at`.
    pub open spec fn after_failure(self, error: Seq<char>, at: Timestamp) -> LoadModel {
        LoadModel { last_attempt: Some(AttemptModel { at, error: Some(error) }), ..self }
    }

    /// The history once `outcome` has been recorded in it. A success past the last generation is not.
    pub open spec fn recorded(self, outcome: Outcome) -> LoadModel {
        match outcome {
            Outcome::Success { raw, at } => if self.has_room() {
                self.after_success(raw, at)
            } else {
                self
            },
            Outcome::Failure { error, at } => self.after_failure(error, at),
        }
    }

    /// Whether the last attempt failed.
    pub open spec fn failed(self) -> bool {
        self.last_attempt matches Some(attempt) && attempt.error is Some
    }

    /// Whether something was applied and the stored config, if it could be read, says the same.
    pub open spec fn matches_stored(self, stored: Option<Seq<char>>) -> bool {
        match (self.applied, stored) {
            (Some(applied), Some(stored)) => equivalent_texts(applied.raw, stored),
            _ => false,
        }
    }

    /// Whether something was applied and the stored config parses to the very same result.
    pub open spec fn parses_like_stored(self, stored: Option<Seq<char>>) -> bool {
        match (self.applied, stored) {
            (Some(applied), Some(stored)) => parsed(applied.raw) == parsed(stored),
            _ => false,
        }
    }

    /// Failed beats everything; otherwise it depends on whether the stored config matches.
    pub open spec fn state_given(self, stored_matches_applied: bool) -> State {
        if self.failed() {
            State::Failed
        } else if stored_matches_applied {
            State::Synced
        } else {
            State::Drifted
        }
    }

    /// The status, given whether the stored config says the same as what is applied.
    pub open spec fn status_given(self, stored_matches_applied: bool) -> StatusModel {
        StatusModel {
            state: self.state_given(stored_matches_applied),
            applied_generation: match self.applied {
                Some(applied) => Some(applied.generation),
                None => None,
            },
            applied_at: match self.applied {
                Some(applied) => Some(applied.at),
                None => None,
            },
            applied_hash: match self.applied {
                Some(applied) => Some(content_hash_of(applied.raw)),
                None => None,
            },
            last_attempt: self.last_attempt,
            stored_matches_applied,
        }
    }

    /// The status against the stored config.
    pub open spec fn status(self, stored: Option<Seq<char>>) -> StatusModel {
        self.status_given(self.matches_stored(stored))
    }

    /// The text last applied.
    pub open spec fn raw(self) -> Option<Seq<char>> {
        match self.applied {
            Some(applied) => Some(applied.raw),
            None => None,
        }
    }
}

/// A config text together with its content hash.
#[derive(Debug)]
pub struct Content {
    raw: String,
    hash: String,
}

impl View for Content {
    type V = Seq<char>;

    closed spec fn view(&self) -> Seq<char> {
        self.raw@
    }
}

impl Content {
    #[verifier::type_invariant]
    spec fn inv(self) -> bool {
        self.hash@ == content_hash_of(self.raw@)
    }

    /// Takes up `raw` and computes its hash.
    pub fn new(raw: String) -> (content: Content)
        ensures
            content@ == raw@,
    {
        let hash = content_hash(raw.as_str());
        Content { raw, hash }
    }
}

impl Clone for Content {
    fn clone(&self) -> (c: Self)
        ensures
            c == *self,
    {
        proof {
            use_type_invariant(self);
        }
        Content { raw: self.raw.clone(), hash: self.hash.clone() }
    }
}

#[derive(Debug)]
struct Applied {
    content: Content,
    generation: u64,
    at: Timestamp,
}

impl View for Applied {
    type V = AppliedModel;

    closed spec fn view(&self) -> AppliedModel {
        AppliedModel { raw: self.content@, generation: self.generation as nat, at: self.at }
    }
}

impl Clone for Applied {
    fn clone(&self) -> (c: Self)
        ensures
            c == *self,
    {
        Applied { content: self.content.clone(), generation: self.generation, at: self.at }
    }
}

/// A load attempt: when it was made, and its error if it failed.
#[derive(Debug)]
pub struct Attempt {
    pub at: Timestamp,
    pub error: Option<String>,
}

impl View for Attempt {
    type V = AttemptModel;

    open spec fn view(&self) -> AttemptModel {
        AttemptModel { at: self.at, error: text_of(self.error) }
    }
}

impl Clone for Attempt {
    fn clone(&self) -> (c: Self)
        ensures
            c == *self,
    {
        Attempt { at: self.at, error: clone_text(&self.error) }
    }
}

fn clone_attempt(attempt: &Option<Attempt>) -> (c: Option<Attempt>)
    ensures
        c == *attempt,
{
    match attempt {
        Some(attempt) => Some(attempt.clone()),
        None => None,
    }
}

/// How the applied config relates to the last attempt and to the stored config.
#[derive(Debug, Clone, Copy, PartialEq, Eq, Structural)]
pub enum State {
    /// The stored config is what was applied.
    Synced,
    /// Nothing was applied, or the stored config says something else or could not be read.
    Drifted,
    /// The last load attempt failed.
    Failed,
}

/// The load status of the local config.
#[derive(Debug)]
pub struct Status {
    pub state: State,
    pub applied_generation: Option<u64>,
    pub applied_at: Option<Timestamp>,
    pub applied_hash: Option<String>,
    pub last_attempt: Option<Attempt>,
    pub stored_matches_applied: bool,
}

impl Status {
    /// The state that goes with the other fields: failed where the last attempt was, and otherwise
    /// synced or drifted by whether the stored config matches.
    pub open spec fn expected_state(self) -> State {
        match self.last_attempt {
            Some(Attempt { error: Some(_), .. }) => State::Failed,
            _ => if self.stored_matches_applied {
                State::Synced
            } else {
                State::Drifted
            },
        }
    }
}

/// The attempt behind an optional attempt.
pub open spec fn attempt_of(attempt: Option<Attempt>) -> Option<AttemptModel> {
    match attempt {
        Some(attempt) => Some(attempt@),
        None => None,
    }
}

impl View for Status {
    type V = StatusModel;

    open spec fn view(&self) -> StatusModel {
        StatusModel {
            state: self.state,
            applied_generation: match self.applied_generation {
                Some(generation) => Some(generation as nat),
                None => None,
            },
            applied_at: self.applied_at,
            applied_hash: text_of(self.applied_hash),
            last_attempt: attempt_of(self.last_attempt),
            stored_matches_applied: self.stored_matches_applied,
        }
    }
}

impl Clone for Status {
    fn clone(&self) -> (c: Self)
        ensures
            c == *self,
    {
        Status {
            state: self.state,
            applied_generation: self.applied_generation,
            applied_at: self.applied_at,
            applied_hash: clone_text(&self.applied_hash),
            last_attempt: clone_attempt(&self.last_attempt),
            stored_matches_applied: self.stored_matches_applied,
        }
    }
}

/// The load history that the channel carries while a local config is set up.
#[derive(Debug)]
pub struct Inner {
    applied: Option<Applied>,
    last_attempt: Option<Attempt>,
}

impl View for Inner {
    type V = LoadModel;

    closed spec fn view(&self) -> LoadModel {
        LoadModel {
            applied: match self.applied {
                Some(applied) => Some(applied@),
                None => None,
            },
            last_attempt: attempt_of(self.last_attempt),
        }
    }
}

impl Inner {
    #[verifier::type_invariant]
    spec fn inv(self) -> bool {
        self@.wf()
    }
}

impl Clone for Inner {
    fn clone(&self) -> (c: Self)
        ensures
            c == *self,
    {
        proof {
            use_type_invariant(self);
        }
        let applied = match &self.applied {
            Some(applied) => Some(applied.clone()),
            None => None,
        };
        Inner { applied, last_attempt: clone_attempt(&self.last_attempt) }
    }
}

impl Inner {
    /// No load has been attempted.
    pub fn new() -> (inner: Inner)
        ensures
            inner@ == LoadModel::empty(),
    {
        Inner { applied: None, last_attempt: None }
    }

    /// Records that `content` was applied at `at`, as the next generation. Gives `false`, and
    /// records nothing, where the count of generations is exhausted.
    fn success(&mut self, content: Content, at: Timestamp) -> (recorded: bool)
        ensures
            old(self)@.wf(),
            recorded == old(self)@.has_room(),
            recorded ==> final(self)@ == old(self)@.after_success(content@, at),
            !recorded ==> final(self)@ == old(self)@,
    {
        proof {
            use_type_invariant(&*self);
        }
        let generation: u64 = match &self.applied {
            Some(applied) => applied.generation,
            None => 0,
        };
        if generation == u64::MAX {
            return false;
        }
        *self = Inner {
            applied: Some(Applied { content, generation: generation + 1, at }),
            last_attempt: Some(Attempt { at, error: None }),
        };
        true
    }

    /// Records that a load failed with `error` at `at`. What was applied before stays applied.
    fn failure(&mut self, error: String, at: Timestamp)
        ensures
            old(self)@.wf(),
            final(self)@ == old(self)@.after_failure(error@, at),
    {
        proof {
            use_type_invariant(&*self);
        }
        self.last_attempt = Some(Attempt { at, error: Some(error) });
    }

    /// Gives the text last applied, and the status, given whether the stored config says the same.
    fn answer(self, stored_matches_applied: bool) -> (answer: (Option<String>, Status))
        ensures
            self@.wf(),
            text_of(answer.0) == self@.raw(),
            answer.1@ == self@.status_given(stored_matches_applied),
    {
        proof {
            use_type_invariant(&self);
        }
        let failed = match &self.last_attempt {
            Some(attempt) => attempt.error.is_some(),
            None => false,
        };
        let state = if failed {
            State::Failed
        } else if stored_matches_applied {
            State::Synced
        } else {
            State::Drifted
        };
        match self.applied {
            Some(applied) => {
                proof {
                    use_type_invariant(&applied.content);
                }
                let status = Status {
                    state,
                    applied_generation: Some(applied.generation),
                    applied_at: Some(applied.at),
                    applied_hash: Some(applied.content.hash),
                    last_attempt: self.last_attempt,
                    stored_matches_applied,
                };
                (Some(applied.content.raw), status)
            },
            None => {
                let status = Status {
                    state,
                    applied_generation: None,
                    applied_at: None,
                    applied_hash: None,
                    last_attempt: self.last_attempt,
                    stored_matches_applied,
                };
                (None, status)
            },
        }
    }
}

/// What the channel carries.
#[derive(Debug)]
pub enum Snapshot {
    /// No local config is set up.
    Disabled,
    /// A local config is set up, with this load history.
    Enabled(Inner),
}

impl View for Snapshot {
    type V = Option<LoadModel>;

    open spec fn view(&self) -> Option<LoadModel> {
        match self {
            Snapshot::Disabled => None,
            Snapshot::Enabled(inner) => Some(inner@),
        }
    }
}

impl Clone for Snapshot {
    fn clone(&self) -> (c: Self)
        ensures
            c == *self,
    {
        match self {
            Snapshot::Disabled => Snapshot::Disabled,
            Snapshot::Enabled(inner) => Snapshot::Enabled(inner.clone()),
        }
    }
}

/// What a status query asks of its caller next.
pub enum Step<A> {
    /// The query is answered; `None` where no local config is set up.
    Done(Option<A>),
    /// Read the stored config, and hand it to the pending query.
    ReadStored(Pending),
}

/// A status query that waits for the stored config. It answers from the load history as it was when
/// the query began.
#[derive(Debug)]
pub struct Pending {
    inner: Inner,
}

impl View for Pending {
    type V = LoadModel;

    closed spec fn view(&self) -> LoadModel {
        self.inner@
    }
}

impl Pending {
    #[verifier::type_invariant]
    spec fn inv(self) -> bool {
        self@.applied is Some
    }

    /// Gives the text last applied, and the status against the stored config; `stored` is `None`
    /// where that could not be read.
    pub fn resume(self, stored: Option<&str>) -> (answer: (Option<String>, Status))
        ensures
            self@.wf(),
            self@.applied is Some,
            text_of(answer.0) == self@.raw(),
            answer.1@ == self@.status(str_of(stored)),
            self@.parses_like_stored(str_of(stored)) ==> answer.1.stored_matches_applied == (parsed(
                self@.raw()->0,
            ) is Some),
            answer.0 matches Some(raw) && answer.1.stored_matches_applied == (match stored {
                Some(stored) => parsed(raw@) is Some && parsed(stored@) is Some && same_value(
                    parsed(raw@)->0,
                    parsed(stored@)->0,
                ),
                None => false,
            }),
            answer.1.state == answer.1.expected_state(),
            answer.0 matches Some(raw) && answer.1.applied_hash matches Some(hash) && hash@
                == content_hash_of(raw@),
    {
        proof {
            use_type_invariant(&self);
        }
        let stored_matches_applied = match (&self.inner.applied, stored) {
            (Some(applied), Some(stored)) => equivalent(applied.content.raw.as_str(), stored),
            _ => false,
        };
        self.conclude(stored_matches_applied)
    }

    /// Gives the text last applied, and the status, given whether the stored config says the same
    /// as what is applied.
    pub fn conclude(self, stored_matches_applied: bool) -> (answer: (Option<String>, Status))
        ensures
            self@.wf(),
            self@.applied is Some,
            text_of(answer.0) == self@.raw(),
            answer.1@ == self@.status_given(stored_matches_applied),
            answer.1.stored_matches_applied == stored_matches_applied,
            answer.1.state == answer.1.expected_state(),
    {
        proof {
            use_type_invariant(&self);
        }
        self.inner.answer(stored_matches_applied)
    }

    /// Gives the status alone.
    pub fn resume_status(self, stored: Option<&str>) -> (status: Status)
        ensures
            self@.wf(),
            self@.applied is Some,
            status@ == self@.status(str_of(stored)),
            self@.parses_like_stored(str_of(stored)) ==> status.stored_matches_applied == (parsed(
                self@.raw()->0,
            ) is Some),
            self@.applied matches Some(applied) && status.stored_matches_applied == (match stored {
                Some(stored) => parsed(applied.raw) is Some && parsed(stored@) is Some && same_value(
                    parsed(applied.raw)->0,
                    parsed(stored@)->0,
                ),
                None => false,
            }),
            status.state == status.expected_state(),
    {
        self.resume(stored).1
    }
}

/// `step` is where a query for the applied text and the status stands after looking at `snapshot`.
pub open spec fn live_step(
    snapshot: Option<LoadModel>,
    step: Step<(Option<String>, Status)>,
) -> bool {
    match snapshot {
        None => step matches Step::Done(None),
        Some(load) => match load.applied {
            None => step matches Step::Done(Some(answer)) && answer.0 is None && answer.1@
                == load.status(None),
            Some(_) => step matches Step::ReadStored(pending) && pending@ == load,
        },
    }
}

/// `step` is where a query for the status alone stands after looking at `snapshot`.
pub open spec fn status_step(snapshot: Option<LoadModel>, step: Step<Status>) -> bool {
    match snapshot {
        None => step matches Step::Done(None),
        Some(load) => match load.applied {
            None => step matches Step::Done(Some(status)) && status@ == load.status(None),
            Some(_) => step matches Step::ReadStored(pending) && pending@ == load,
        },
    }
}

/// Well-formedness of what the channel carries.
pub open spec fn snapshot_wf(snapshot: Option<LoadModel>) -> bool {
    snapshot matches Some(load) ==> load.wf()
}

/// What a channel carries once `outcome` has been recorded: where no local config is set up, nothing
/// is.
pub open spec fn snapshot_recorded(
    snapshot: Option<LoadModel>,
    outcome: Outcome,
) -> Option<LoadModel> {
    match snapshot {
        Some(load) => Some(load.recorded(outcome)),
        None => None,
    }
}

/// Whether the times in a snapshot are ones that a clock can show.
pub open spec fn snapshot_on_clock(snapshot: Option<LoadModel>) -> bool {
    snapshot matches Some(load) ==> {
        &&& load.applied matches Some(applied) ==> applied.at.on_clock()
        &&& load.last_attempt matches Some(attempt) ==> attempt.at.on_clock()
    }
}

/// The first snapshot of a channel.
pub open spec fn first_snapshot(enabled: bool) -> Option<LoadModel> {
    if enabled {
        Some(LoadModel::empty())
    } else {
        None
    }
}

/// What a channel that started out with `first` carries once `outcomes` have been recorded, first to
/// last.
pub open spec fn carried(first: Option<LoadModel>, outcomes: Seq<Outcome>) -> Option<LoadModel>
    decreases outcomes.len(),
{
    if outcomes.len() == 0 {
        first
    } else {
        snapshot_recorded(carried(first, outcomes.drop_last()), outcomes.last())
    }
}

/// Some outcome, at a time that a clock can show, recorded in `before`, makes `after` of it.
pub open spec fn records_an_outcome(before: Option<LoadModel>, after: Option<LoadModel>) -> bool {
    exists|outcome: Outcome|
        outcome.at().on_clock() && after == #[trigger] snapshot_recorded(before, outcome)
}

impl Snapshot {
    /// The first snapshot of a channel.
    pub fn new(enabled: bool) -> (snapshot: Snapshot)
        ensures
            snapshot@ == first_snapshot(enabled),
    {
        if enabled {
            Snapshot::Enabled(Inner::new())
        } else {
            Snapshot::Disabled
        }
    }

    /// Records that `content` was applied at `at`, as the next generation, unless no local config is
    /// set up. Gives `false`, and leaves the snapshot as it was, only where the count of generations
    /// is exhausted.
    pub fn success(&mut self, content: Content, at: Timestamp) -> (recorded: bool)
        ensures
            snapshot_wf(old(self)@),
            recorded == (old(self)@ matches Some(load) ==> load.has_room()),
            final(self)@ == snapshot_recorded(
                old(self)@,
                Outcome::Success { raw: content@, at },
            ),
    {
        match self {
            Snapshot::Disabled => true,
            Snapshot::Enabled(inner) => inner.success(content, at),
        }
    }

    /// Records that a load failed with `error` at `at`, unless no local config is set up. What was
    /// applied before stays applied.
    pub fn failure(&mut self, error: String, at: Timestamp)
        ensures
            snapshot_wf(old(self)@),
            final(self)@ == snapshot_recorded(old(self)@, Outcome::Failure { error: error@, at }),
    {
        match self {
            Snapshot::Disabled => {},
            Snapshot::Enabled(inner) => inner.failure(error, at),
        }
    }

    /// Begins a query for the text last applied and the status.
    pub fn live(self) -> (step: Step<(Option<String>, Status)>)
        ensures
            snapshot_wf(self@),
            live_step(self@, step),
    {
        match self {
            Snapshot::Disabled => Step::Done(None),
            Snapshot::Enabled(inner) => {
                proof {
                    use_type_invariant(&inner);
                }
                match &inner.applied {
                    Some(_) => Step::ReadStored(Pending { inner }),
                    None => Step::Done(Some(inner.answer(false))),
                }
            },
        }
    }

    /// Begins a query for the status alone.
    pub fn status(self) -> (step: Step<Status>)
        ensures
            snapshot_wf(self@),
            status_step(self@, step),
    {
        match self.live() {
            Step::Done(Some((_, status))) => Step::Done(Some(status)),
            Step::Done(None) => Step::Done(None),
            Step::ReadStored(pending) => Step::ReadStored(pending),
        }
    }
}

/// Every snapshot that the channel behind `rx` carries in the course of its life.
pub uninterp spec fn shown_to(rx: watch::Receiver<Snapshot>) -> Set<Option<LoadModel>>;

/// Every change that is made to the snapshot in the channel behind `tx` in the course of its life:
/// what it was before, what it was after, and what the change gave.
pub uninterp spec fn changes_over(tx: watch::Sender<Snapshot>) -> Set<
    (Option<LoadModel>, Option<LoadModel>, bool),
>;

/// Whether the channel behind `rx` carries the status of a local config. A channel is made one way
/// or the other, and nothing that is sent over it changes that.
pub uninterp spec fn carries_status(rx: watch::Receiver<Snapshot>) -> bool;

/// Calls `tokio::sync::watch::channel`. The channel starts out with `init`, which decides whether it
/// carries the status of a local config. What the receiving half is shown is `init` and what the
/// changes over the sending half find and leave, and nothing else.
#[verifier::external_body]
fn watch_channel(init: Snapshot) -> (halves: (watch::Sender<Snapshot>, watch::Receiver<Snapshot>))
    requires
        init@ == first_snapshot(init@ is Some),
    ensures
        carries_status(halves.1) == (init@ is Some),
        shown_to(halves.1).contains(init@),
        forall|before: Option<LoadModel>, after: Option<LoadModel>, modified: bool| #[trigger]
            changes_over(halves.0).contains((before, after, modified)) ==> shown_to(
                halves.1,
            ).contains(before) && shown_to(halves.1).contains(after),
        forall|snapshot: Option<LoadModel>| #[trigger]
            shown_to(halves.1).contains(snapshot) && snapshot != init@ ==> exists|
                before: Option<LoadModel>,
                modified: bool,
            | #[trigger]
                changes_over(halves.0).contains((before, snapshot, modified)),
{
    watch::channel(init)
}

/// Calls `tokio::sync::watch::Sender::send_if_modified`, which runs `modify` once on the value in the
/// channel, whatever that is by then, and hands on what `modify` gives. Receivers are notified where
/// that is `true`. What `modify` found and left is one of the changes made over the channel. Every
/// change to a channel goes through here, and `modify` must record an outcome and do nothing else.
#[verifier::external_body]
fn send_if_modified<F: FnOnce(&mut Snapshot) -> bool>(
    tx: &watch::Sender<Snapshot>,
    modify: F,
) -> (modified: bool)
    requires
        forall|s: &mut Snapshot| call_requires(modify, (s,)),
        forall|s: &mut Snapshot, m: bool|
            call_ensures(modify, (s,), m) ==> records_an_outcome((*s)@, (*final(s))@),
    ensures
        exists|s: &mut Snapshot|
            call_ensures(modify, (s,), modified) && changes_over(*tx).contains(
                ((*s)@, (*final(s))@, modified),
            ),
{
    tx.send_if_modified(modify)
}

/// Calls `tokio::sync::watch::Receiver::borrow`, which gives the value in the channel, and copies it
/// out. Which of the snapshots that the channel ever carries that is depends on what has been sent by
/// then. It is what some outcomes, recorded one after the other, made of the first snapshot, and its
/// times are ones that a clock can show.
#[verifier::external_body]
fn borrow_snapshot(rx: &watch::Receiver<Snapshot>) -> (snapshot: Snapshot)
    ensures
        shown_to(*rx).contains(snapshot@),
        exists|outcomes: Seq<Outcome>|
            snapshot@ == carried(first_snapshot(carries_status(*rx)), outcomes),
        snapshot_on_clock(snapshot@),
{
    rx.borrow().clone()
}

/// Calls `clone` of `tokio::sync::watch::Receiver`: the new receiver is one of the same channel.
#[verifier::external_body]
fn clone_receiver(rx: &watch::Receiver<Snapshot>) -> (c: watch::Receiver<Snapshot>)
    ensures
        shown_to(c) == shown_to(*rx),
        carries_status(c) == carries_status(*rx),
{
    rx.clone()
}

/// Calls `clone` of `tokio::sync::watch::Sender`: the new sender is one of the same channel.
#[verifier::external_body]
fn clone_sender(tx: &watch::Sender<Snapshot>) -> (c: watch::Sender<Snapshot>)
    ensures
        changes_over(c) == changes_over(*tx),
{
    tx.clone()
}

/// Records the outcome of local config load attempts.
#[derive(Debug)]
pub struct Publisher {
    tx: watch::Sender<Snapshot>,
}

/// Reads the load status that the publishers of its channel recorded.
#[derive(Debug)]
pub struct Watcher {
    rx: watch::Receiver<Snapshot>,
}

/// `changes` and `shows` are those of one channel that starts out with `first`: its watchers are
/// shown the first snapshot, and what its publishers found and left, and nothing else.
pub open spec fn joined(
    changes: Set<(Option<LoadModel>, Option<LoadModel>, bool)>,
    shows: Set<Option<LoadModel>>,
    first: Option<LoadModel>,
) -> bool {
    &&& shows.contains(first)
    &&& forall|before: Option<LoadModel>, after: Option<LoadModel>, recorded: bool| #[trigger]
        changes.contains((before, after, recorded)) ==> shows.contains(before) && shows.contains(
            after,
        )
    &&& forall|snapshot: Option<LoadModel>| #[trigger]
        shows.contains(snapshot) && snapshot != first ==> exists|
            before: Option<LoadModel>,
            recorded: bool,
        | #[trigger]
            changes.contains((before, snapshot, recorded))
}

/// Creates the config load status channel. The publisher records load attempts of the local config
/// loader; the watcher serves status snapshots. When `enabled` is false (no local config), the
/// watcher reports no status, for good.
pub fn channel(enabled: bool) -> (halves: (Publisher, Watcher))
    ensures
        halves.1.enabled() == enabled,
        joined(halves.0.changes(), halves.1.shows(), first_snapshot(enabled)),
{
    let (tx, rx) = watch_channel(Snapshot::new(enabled));
    (Publisher { tx }, Watcher { rx })
}

/// A publisher found `before` in its channel and left `after` there: `raw` is recorded as applied at
/// `at`, unless the count of generations is exhausted, which `recorded` tells.
pub open spec fn success_published(
    before: Option<LoadModel>,
    raw: Seq<char>,
    at: Timestamp,
    after: Option<LoadModel>,
    recorded: bool,
) -> bool {
    &&& snapshot_wf(before)
    &&& after == snapshot_recorded(before, Outcome::Success { raw, at })
    &&& recorded == (before matches Some(load) ==> load.has_room())
}

/// A publisher found `before` in its channel and left `after` there: `error` is recorded as the
/// outcome of a load that failed at `at`.
pub open spec fn failure_published(
    before: Option<LoadModel>,
    error: Seq<char>,
    at: Timestamp,
    after: Option<LoadModel>,
) -> bool {
    &&& snapshot_wf(before)
    &&& after == snapshot_recorded(before, Outcome::Failure { error, at })
}

/// [`failure_published`] at some time that a clock can show.
pub open spec fn failure_published_sometime(
    before: Option<LoadModel>,
    error: Seq<char>,
    after: Option<LoadModel>,
) -> bool {
    exists|at: Timestamp| at.on_clock() && #[trigger] failure_published(before, error, at, after)
}

impl Clone for Publisher {
    /// Another publisher of the same channel.
    fn clone(&self) -> (c: Self)
        ensures
            c.changes() == self.changes(),
    {
        Publisher { tx: clone_sender(&self.tx) }
    }
}

impl Publisher {
    /// Every change that the publishers of this channel ever make: what they find in it, what they
    /// leave there, and whether that was recorded.
    pub closed spec fn changes(self) -> Set<(Option<LoadModel>, Option<LoadModel>, bool)> {
        changes_over(self.tx)
    }

    /// Records that `raw` was applied just now, as the next generation. Gives `false`, and records
    /// nothing, only where the count of generations is exhausted.
    ///
    /// The snapshot in the channel is shared with every other publisher, so what it was before is
    /// not known here. Whatever it was, the channel went on from it as [`success_published`] says.
    pub fn success(&self, raw: String) -> (recorded: bool)
        ensures
            exists|before: Option<LoadModel>, at: Timestamp, after: Option<LoadModel>|
                self.changes().contains((before, after, recorded)) && at.on_clock()
                    && #[trigger] success_published(before, raw@, at, after, recorded),
    {
        let at = utc_now();
        let ghost text = raw@;
        let content = Content::new(raw);
        let recorded = send_if_modified(
            &self.tx,
            |snapshot: &mut Snapshot| -> (recorded: bool)
                ensures
                    success_published(old(snapshot)@, text, at, final(snapshot)@, recorded)
                { snapshot.success(content, at) },
        );
        recorded
    }

    /// Records that a load failed just now with `error`.
    ///
    /// The snapshot in the channel is shared with every other publisher, so what it was before is
    /// not known here. Whatever it was, the channel went on from it as [`failure_published`] says.
    pub fn failure(&self, error: String)
        ensures
            exists|before: Option<LoadModel>, after: Option<LoadModel>|
                self.changes().contains((before, after, true))
                    && #[trigger] failure_published_sometime(before, error@, after),
    {
        let ghost text = error@;
        send_if_modified(
            &self.tx,
            |snapshot: &mut Snapshot| -> (recorded: bool)
                ensures
                    failure_published_sometime(old(snapshot)@, text, final(snapshot)@) && recorded
                {
                    let at = utc_now();
                    let ghost before = snapshot@;
                    snapshot.failure(error, at);
                    assert(failure_published(before, text, at, snapshot@));
                    true
                },
        );
    }
}

impl Clone for Watcher {
    /// Another watcher of the same channel.
    fn clone(&self) -> (c: Self)
        ensures
            c.shows() == self.shows(),
            c.enabled() == self.enabled(),
    {
        Watcher { rx: clone_receiver(&self.rx) }
    }
}

/// `snapshot` is what some outcomes, recorded one after the other, made of the first snapshot of a
/// channel.
pub open spec fn is_recorded_history(enabled: bool, snapshot: Option<LoadModel>) -> bool {
    exists|outcomes: Seq<Outcome>| snapshot == carried(first_snapshot(enabled), outcomes)
}

impl Watcher {
    /// Whether a local config is set up.
    pub closed spec fn enabled(self) -> bool {
        carries_status(self.rx)
    }

    /// Every snapshot that the watchers of this channel can ever see.
    pub closed spec fn shows(self) -> Set<Option<LoadModel>> {
        shown_to(self.rx)
    }

    fn snapshot(&self) -> (snapshot: Snapshot)
        ensures
            self.shows().contains(snapshot@),
            is_recorded_history(self.enabled(), snapshot@),
            (snapshot@ is Some) == self.enabled(),
            snapshot_on_clock(snapshot@),
    {
        let snapshot = borrow_snapshot(&self.rx);
        proof {
            let first = first_snapshot(self.enabled());
            let outcomes = choose|outcomes: Seq<Outcome>| snapshot@ == carried(first, outcomes);
            lemma_carried_keeps_kind(first, outcomes);
        }
        snapshot
    }

    /// Begins a query for the text last applied and the load status, as one consistent snapshot: one
    /// that the channel carries, made by the outcomes that its publishers recorded.
    pub fn live(&self) -> (step: Step<(Option<String>, Status)>)
        ensures
            exists|snapshot: Option<LoadModel>|
                #![trigger live_step(snapshot, step)]
                {
                    &&& self.shows().contains(snapshot)
                    &&& is_recorded_history(self.enabled(), snapshot)
                    &&& (snapshot is Some) == self.enabled()
                    &&& snapshot_on_clock(snapshot)
                    &&& snapshot_wf(snapshot)
                    &&& live_step(snapshot, step)
                },
    {
        let snapshot = self.snapshot();
        let ghost model = snapshot@;
        let step = snapshot.live();
        assert(live_step(model, step));
        step
    }

    /// Begins a query for the load status alone, from such a snapshot.
    pub fn status(&self) -> (step: Step<Status>)
        ensures
            exists|snapshot: Option<LoadModel>|
                #![trigger status_step(snapshot, step)]
                {
                    &&& self.shows().contains(snapshot)
                    &&& is_recorded_history(self.enabled(), snapshot)
                    &&& (snapshot is Some) == self.enabled()
                    &&& snapshot_on_clock(snapshot)
                    &&& snapshot_wf(snapshot)
                    &&& status_step(snapshot, step)
                },
    {
        let snapshot = self.snapshot();
        let ghost model = snapshot@;
        let step = snapshot.status();
        assert(status_step(model, step));
        step
    }
}

/// Recording outcomes neither begins nor ends a load history.
pub proof fn lemma_carried_keeps_kind(first: Option<LoadModel>, outcomes: Seq<Outcome>)
    ensures
        carried(first, outcomes) is Some <==> first is Some,
    decreases outcomes.len(),
{
    if outcomes.len() > 0 {
        lemma_carried_keeps_kind(first, outcomes.drop_last());
    }
}

} // verus!
