//! The local config client: loads the configuration from a file or from static content, and loads
//! it again when the file or a resource that it refers to changes.
//!
//! The client decides and its caller acts: [`LocalClient::run`] begins a run, and gives the first
//! thing to do; what came of it is handed to [`LocalClient::step`], which gives the next. A client
//! may be run any number of times, one run beside the other. Each run has a state of its own, and all
//! of them record what comes of their loads in the one status of the client.

use vstd::prelude::*;
use vstd::utf8::encode_utf8;

use crate::clock::{utc_now, Timestamp};
use crate::hash::{content_hash, content_hash_of, is_written_digest, sha256};
use crate::text::{clone_text, result_of, str_of, text_of};

verus! {

/// How a load ended. `S` is the type of its texts.
#[derive(Debug)]
pub enum LoadOutcome<S> {
    /// A config with hash `hash` was applied.
    Loaded { hash: S },
    /// The load failed with `error`.
    Failed { error: S },
}

impl View for LoadOutcome<String> {
    type V = LoadOutcome<Seq<char>>;

    open spec fn view(&self) -> LoadOutcome<Seq<char>> {
        match *self {
            LoadOutcome::Loaded { hash } => LoadOutcome::Loaded { hash: hash@ },
            LoadOutcome::Failed { error } => LoadOutcome::Failed { error: error@ },
        }
    }
}

/// What a load status says.
#[verifier::ext_equal]
pub struct LoadStatusModel {
    pub running_hash: Option<Seq<char>>,
    pub disk_hash: Option<Seq<char>>,
    pub error: Option<Seq<char>>,
    pub last_updated_at: Option<Timestamp>,
}

impl LoadStatusModel {
    /// Nothing has been loaded yet.
    pub open spec fn empty() -> LoadStatusModel {
        LoadStatusModel { running_hash: None, disk_hash: None, error: None, last_updated_at: None }
    }

    /// A load ended with `outcome` at `at`. One that failed keeps the hash of what is applied.
    pub open spec fn recorded(
        self,
        outcome: LoadOutcome<Seq<char>>,
        at: Timestamp,
    ) -> LoadStatusModel {
        match outcome {
            LoadOutcome::Loaded { hash } => LoadStatusModel {
                running_hash: Some(hash),
                error: None,
                last_updated_at: Some(at),
                ..self
            },
            LoadOutcome::Failed { error } => LoadStatusModel {
                error: Some(error),
                last_updated_at: Some(at),
                ..self
            },
        }
    }

    /// The config source holds `content`, or could not be read.
    pub open spec fn with_disk(self, content: Option<Seq<char>>) -> LoadStatusModel {
        LoadStatusModel {
            disk_hash: match content {
                Some(content) => Some(content_hash_of(content)),
                None => None,
            },
            ..self
        }
    }
}

/// The outcome of the most recent local config load.
#[derive(Debug)]
pub struct LoadStatus {
    /// The hash of the config that is applied.
    pub running_hash: Option<String>,
    /// The hash of what the config source holds.
    pub disk_hash: Option<String>,
    /// What went wrong with the last load.
    pub error: Option<String>,
    /// When the last load ended.
    pub last_updated_at: Option<Timestamp>,
}

impl View for LoadStatus {
    type V = LoadStatusModel;

    open spec fn view(&self) -> LoadStatusModel {
        LoadStatusModel {
            running_hash: text_of(self.running_hash),
            disk_hash: text_of(self.disk_hash),
            error: text_of(self.error),
            last_updated_at: self.last_updated_at,
        }
    }
}

impl Default for LoadStatus {
    fn default() -> (status: Self)
        ensures
            status@ == LoadStatusModel::empty(),
    {
        LoadStatus { running_hash: None, disk_hash: None, error: None, last_updated_at: None }
    }
}

impl Clone for LoadStatus {
    fn clone(&self) -> (c: Self)
        ensures
            c == *self,
    {
        LoadStatus {
            running_hash: clone_text(&self.running_hash),
            disk_hash: clone_text(&self.disk_hash),
            error: clone_text(&self.error),
            last_updated_at: self.last_updated_at,
        }
    }
}

impl LoadStatus {
    /// Records that a load ended with `outcome` at `at`.
    pub fn record(&mut self, outcome: LoadOutcome<String>, at: Timestamp)
        ensures
            final(self)@ == old(self)@.recorded(outcome@, at),
    {
        match outcome {
            LoadOutcome::Loaded { hash } => {
                self.running_hash = Some(hash);
                self.error = None;
            },
            LoadOutcome::Failed { error } => {
                self.error = Some(error);
            },
        }
        self.last_updated_at = Some(at);
    }

    /// Adds the hash of what the config source holds now; `content` is `None` where it could not be
    /// read.
    pub fn with_disk(self, content: Option<&str>) -> (status: LoadStatus)
        ensures
            status@ == self@.with_disk(str_of(content)),
            status.disk_hash is Some <==> content is Some,
            content matches Some(content) ==> (status.disk_hash matches Some(hash) && is_written_digest(
                hash@,
                sha256(encode_utf8(content@)),
            )),
            status.running_hash == self.running_hash,
            status.error == self.error,
            status.last_updated_at == self.last_updated_at,
    {
        let disk_hash = match content {
            Some(content) => Some(content_hash(content)),
            None => None,
        };
        LoadStatus { disk_hash, ..self }
    }
}

/// Where the configuration comes from.
#[derive(Debug, Clone, Copy, PartialEq, Eq, Structural)]
pub enum ConfigSource {
    /// A file, which is watched.
    File,
    /// Content that never changes.
    Static,
}

/// What the stores took over from the last load, which the next load starts from.
#[derive(Debug, Clone, Default)]
pub struct PreviousState<B, D> {
    pub binds: B,
    pub discovery: D,
}

/// A parsed and checked configuration, split by the store that takes it over.
#[derive(Debug)]
pub struct NormalizedConfig<BC, DC> {
    pub binds: BC,
    pub discovery: DC,
}

/// Why the configuration is being loaded.
#[derive(Debug, Clone, Copy, PartialEq, Eq, Structural)]
pub enum Cause {
    /// It is the first load.
    Initial,
    /// Something changed; `rewatch` where the file watch has to be set up again afterwards.
    Change { rewatch: bool },
}

/// Where a run stands. `S` is the type of its texts.
#[derive(Debug)]
pub enum Phase<S, B, DC> {
    /// The config source is being read.
    Reading { cause: Cause },
    /// The content with hash `hash` is being normalized.
    Normalizing { cause: Cause, hash: S },
    /// The store of binds is taking over its part; `discovery` is for later.
    SyncingBinds { cause: Cause, hash: S, discovery: DC },
    /// The discovery store is taking over its part; `binds` is what the store of binds gave.
    SyncingDiscovery { cause: Cause, hash: S, binds: B },
    /// The file watch is being set up.
    StartingWatch,
    /// The resource changes are being subscribed to.
    Subscribing,
    /// Waiting for a change.
    Watching,
    /// The file watch is being set up again.
    Rewatching,
    /// Nothing more will be done.
    Ended,
}

impl<B, DC> View for Phase<String, B, DC> {
    type V = Phase<Seq<char>, B, DC>;

    open spec fn view(&self) -> Phase<Seq<char>, B, DC> {
        match *self {
            Phase::Reading { cause } => Phase::Reading { cause },
            Phase::Normalizing { cause, hash } => Phase::Normalizing { cause, hash: hash@ },
            Phase::SyncingBinds { cause, hash, discovery } => Phase::SyncingBinds {
                cause,
                hash: hash@,
                discovery,
            },
            Phase::SyncingDiscovery { cause, hash, binds } => Phase::SyncingDiscovery {
                cause,
                hash: hash@,
                binds,
            },
            Phase::StartingWatch => Phase::StartingWatch,
            Phase::Subscribing => Phase::Subscribing,
            Phase::Watching => Phase::Watching,
            Phase::Rewatching => Phase::Rewatching,
            Phase::Ended => Phase::Ended,
        }
    }
}

/// What happened outside the run. `S` is the type of its texts.
#[derive(Debug)]
pub enum Event<S, B, D, BC, DC> {
    /// The config source was read.
    ConfigRead(Result<S, S>),
    /// The content was normalized.
    Normalized(Result<NormalizedConfig<BC, DC>, S>),
    /// The store of binds took over its part.
    BindsSynced(B),
    /// The discovery store took over its part, or refused it.
    DiscoverySynced(Result<D, S>),
    /// The file watch was set up.
    WatchStarted(Result<(), S>),
    /// The resource changes were subscribed to.
    Subscribed,
    /// The watched file changed; `invalidated` where the watch ended with that.
    FileChanged { invalidated: bool },
    /// The file watch is gone.
    FileClosed,
    /// A resource changed.
    ResourceChanged,
    /// There will be no more resource changes.
    ResourcesClosed,
    /// The file watch was set up again, or could not be.
    Rewatched { ok: bool },
}

impl<B, D, BC, DC> View for Event<String, B, D, BC, DC> {
    type V = Event<Seq<char>, B, D, BC, DC>;

    open spec fn view(&self) -> Event<Seq<char>, B, D, BC, DC> {
        match *self {
            Event::ConfigRead(Ok(content)) => Event::ConfigRead(Ok(content@)),
            Event::ConfigRead(Err(error)) => Event::ConfigRead(Err(error@)),
            Event::Normalized(result) => Event::Normalized(result_of(result)),
            Event::BindsSynced(binds) => Event::BindsSynced(binds),
            Event::DiscoverySynced(result) => Event::DiscoverySynced(result_of(result)),
            Event::WatchStarted(result) => Event::WatchStarted(result_of(result)),
            Event::Subscribed => Event::Subscribed,
            Event::FileChanged { invalidated } => Event::FileChanged { invalidated },
            Event::FileClosed => Event::FileClosed,
            Event::ResourceChanged => Event::ResourceChanged,
            Event::ResourcesClosed => Event::ResourcesClosed,
            Event::Rewatched { ok } => Event::Rewatched { ok },
        }
    }
}

/// What to do next. `S` is the type of its texts.
#[derive(Debug)]
pub enum Action<S, B, D, BC, DC> {
    /// Read the config source.
    ReadConfig,
    /// Parse, resolve and check `content`.
    Normalize { content: S },
    /// Let the store of binds take over `binds`, in place of what it took over last.
    SyncBinds { binds: BC, previous_binds: B },
    /// Let the discovery store take over `discovery`, in place of what it took over last.
    SyncDiscovery { discovery: DC, previous_discovery: D },
    /// Set up the file watch, so that it closes when the file is removed.
    StartWatch,
    /// Subscribe to resource changes.
    Subscribe,
    /// Wait for a resource change and, with `file`, for a change of the watched file.
    Wait { file: bool },
    /// Set up the file watch again.
    Rewatch,
    /// Give up: the run could not be started.
    Fail { error: S },
    /// Stop watching.
    Stop,
}

impl<B, D, BC, DC> View for Action<String, B, D, BC, DC> {
    type V = Action<Seq<char>, (), (), BC, DC>;

    /// The action but for what is handed over from the last load.
    open spec fn view(&self) -> Action<Seq<char>, (), (), BC, DC> {
        match *self {
            Action::ReadConfig => Action::ReadConfig,
            Action::Normalize { content } => Action::Normalize { content: content@ },
            Action::SyncBinds { binds, .. } => Action::SyncBinds { binds, previous_binds: () },
            Action::SyncDiscovery { discovery, .. } => Action::SyncDiscovery {
                discovery,
                previous_discovery: (),
            },
            Action::StartWatch => Action::StartWatch,
            Action::Subscribe => Action::Subscribe,
            Action::Wait { file } => Action::Wait { file },
            Action::Rewatch => Action::Rewatch,
            Action::Fail { error } => Action::Fail { error: error@ },
            Action::Stop => Action::Stop,
        }
    }
}

/// How a run reacts to an event.
#[derive(Debug)]
pub struct Reaction<S, B, D, BC, DC> {
    /// What to set the "config synchronized" gauge to, if anything, before acting.
    pub synchronized: Option<bool>,
    /// What to do next.
    pub action: Action<S, B, D, BC, DC>,
}

impl<B, D, BC, DC> View for Reaction<String, B, D, BC, DC> {
    type V = Reaction<Seq<char>, (), (), BC, DC>;

    open spec fn view(&self) -> Reaction<Seq<char>, (), (), BC, DC> {
        Reaction { synchronized: self.synchronized, action: self.action@ }
    }
}

/// The state of a client, which all of its runs share.
#[verifier::ext_equal]
pub struct ClientModel {
    pub source: ConfigSource,
    pub status: LoadStatusModel,
}

/// The state of one run of a client.
#[verifier::ext_equal]
pub struct RunModel<B, D, DC> {
    pub previous: PreviousState<B, D>,
    pub phase: Phase<Seq<char>, B, DC>,
}

/// A run together with its client.
#[verifier::ext_equal]
pub struct Running<B, D, DC> {
    pub client: ClientModel,
    pub run: RunModel<B, D, DC>,
}

/// A reaction that leaves the gauge alone.
pub open spec fn act<BC, DC>(action: Action<Seq<char>, (), (), BC, DC>) -> Reaction<
    Seq<char>,
    (),
    (),
    BC,
    DC,
> {
    Reaction { synchronized: None, action }
}

/// How the load of a run that stands at `phase` ends with `event`, if it does.
pub open spec fn load_ended<B, D, BC, DC>(
    phase: Phase<Seq<char>, B, DC>,
    event: Event<Seq<char>, B, D, BC, DC>,
) -> Option<LoadOutcome<Seq<char>>> {
    match (phase, event) {
        (Phase::Reading { .. }, Event::ConfigRead(Err(error))) => Some(
            LoadOutcome::Failed { error },
        ),
        (Phase::Normalizing { .. }, Event::Normalized(Err(error))) => Some(
            LoadOutcome::Failed { error },
        ),
        (Phase::SyncingDiscovery { .. }, Event::DiscoverySynced(Err(error))) => Some(
            LoadOutcome::Failed { error },
        ),
        (Phase::SyncingDiscovery { hash, .. }, Event::DiscoverySynced(Ok(_))) => Some(
            LoadOutcome::Loaded { hash },
        ),
        _ => None,
    }
}

impl ClientModel {
    /// The client once a load has ended with `outcome` at `at`, if one has.
    pub open spec fn recorded(
        self,
        outcome: Option<LoadOutcome<Seq<char>>>,
        at: Timestamp,
    ) -> ClientModel {
        match outcome {
            Some(outcome) => ClientModel { status: self.status.recorded(outcome, at), ..self },
            None => self,
        }
    }
}

impl<B, D, DC> RunModel<B, D, DC> {
    /// A run that begins with its first load, which starts from `previous`.
    pub open spec fn begun(previous: PreviousState<B, D>) -> Self {
        RunModel { previous, phase: Phase::Reading { cause: Cause::Initial } }
    }

    /// The run, gone on to `phase`.
    pub open spec fn at(self, phase: Phase<Seq<char>, B, DC>) -> Self {
        RunModel { phase, ..self }
    }

    /// Where the run goes, and what it asks for, once a reload after a change is over. With `file`
    /// it waits for changes of a file.
    pub open spec fn resumed<BC>(self, file: bool, rewatch: bool, synchronized: bool) -> (
        Self,
        Reaction<Seq<char>, (), (), BC, DC>,
    ) {
        if rewatch {
            (
                self.at(Phase::Rewatching),
                Reaction { synchronized: Some(synchronized), action: Action::Rewatch },
            )
        } else {
            (
                self.at(Phase::Watching),
                Reaction {
                    synchronized: Some(synchronized),
                    action: Action::Wait { file },
                },
            )
        }
    }

    /// A load for `cause` failed with `error`. A first load ends the run; after a later one the run
    /// goes on with what it had applied before.
    pub open spec fn load_failed<BC>(self, file: bool, cause: Cause, error: Seq<char>) -> (
        Self,
        Reaction<Seq<char>, (), (), BC, DC>,
    ) {
        match cause {
            Cause::Initial => (self.at(Phase::Ended), act(Action::Fail { error })),
            Cause::Change { rewatch } => self.resumed(file, rewatch, false),
        }
    }

    /// A load for `cause` went through, and the stores gave `previous`.
    pub open spec fn load_succeeded<BC>(
        self,
        file: bool,
        cause: Cause,
        previous: PreviousState<B, D>,
    ) -> (Self, Reaction<Seq<char>, (), (), BC, DC>) {
        let loaded = RunModel { previous, ..self };
        match cause {
            Cause::Initial => if file {
                (loaded.at(Phase::StartingWatch), act(Action::StartWatch))
            } else {
                (loaded.at(Phase::Subscribing), act(Action::Subscribe))
            },
            Cause::Change { rewatch } => loaded.resumed(file, rewatch, true),
        }
    }

    /// What `event` makes of the run, and how the run reacts; `None` for an event that does not
    /// belong to where the run stands. With `file` the config source is a file.
    pub open spec fn after<BC>(self, file: bool, event: Event<Seq<char>, B, D, BC, DC>) -> Option<
        (Self, Reaction<Seq<char>, (), (), BC, DC>),
    > {
        match (self.phase, event) {
            (Phase::Reading { cause }, Event::ConfigRead(Ok(content))) => Some(
                (
                    self.at(Phase::Normalizing { cause, hash: content_hash_of(content) }),
                    act(Action::Normalize { content }),
                ),
            ),
            (Phase::Reading { cause }, Event::ConfigRead(Err(error))) => Some(
                self.load_failed(file, cause, error),
            ),
            (Phase::Normalizing { cause, hash }, Event::Normalized(Ok(config))) => Some(
                (
                    self.at(Phase::SyncingBinds { cause, hash, discovery: config.discovery }),
                    act(Action::SyncBinds { binds: config.binds, previous_binds: () }),
                ),
            ),
            (Phase::Normalizing { cause, .. }, Event::Normalized(Err(error))) => Some(
                self.load_failed(file, cause, error),
            ),
            (Phase::SyncingBinds { cause, hash, discovery }, Event::BindsSynced(binds)) => Some(
                (
                    self.at(Phase::SyncingDiscovery { cause, hash, binds }),
                    act(Action::SyncDiscovery { discovery, previous_discovery: () }),
                ),
            ),
            (
                Phase::SyncingDiscovery { cause, binds, .. },
                Event::DiscoverySynced(Ok(discovery)),
            ) => Some(
                self.load_succeeded(file, cause, PreviousState { binds, discovery }),
            ),
            (Phase::SyncingDiscovery { cause, .. }, Event::DiscoverySynced(Err(error))) => Some(
                self.load_failed(file, cause, error),
            ),
            (Phase::StartingWatch, Event::WatchStarted(Ok(_))) => Some(
                (self.at(Phase::Subscribing), act(Action::Subscribe)),
            ),
            (Phase::StartingWatch, Event::WatchStarted(Err(error))) => Some(
                (self.at(Phase::Ended), act(Action::Fail { error })),
            ),
            (Phase::Subscribing, Event::Subscribed) => Some(
                (self.at(Phase::Watching), act(Action::Wait { file })),
            ),
            (Phase::Watching, Event::FileChanged { invalidated }) => if file {
                Some(
                    (
                        self.at(Phase::Reading { cause: Cause::Change { rewatch: invalidated } }),
                        act(Action::ReadConfig),
                    ),
                )
            } else {
                None
            },
            (Phase::Watching, Event::FileClosed) => if file {
                Some((self.at(Phase::Ended), act(Action::Stop)))
            } else {
                None
            },
            (Phase::Watching, Event::ResourceChanged) => Some(
                (
                    self.at(Phase::Reading { cause: Cause::Change { rewatch: false } }),
                    act(Action::ReadConfig),
                ),
            ),
            (Phase::Watching, Event::ResourcesClosed) => Some(
                (self.at(Phase::Ended), act(Action::Stop)),
            ),
            (Phase::Rewatching, Event::Rewatched { ok }) => if ok {
                Some((self.at(Phase::Watching), act(Action::Wait { file })))
            } else {
                Some((self.at(Phase::Ended), act(Action::Stop)))
            },
            _ => None,
        }
    }
}

impl<B, D, DC> Running<B, D, DC> {
    /// The run, gone on to `phase`.
    pub open spec fn at(self, phase: Phase<Seq<char>, B, DC>) -> Self {
        Running { run: self.run.at(phase), ..self }
    }

    /// Whether the run waits for changes of a file.
    pub open spec fn watches_file(self) -> bool {
        self.client.source == ConfigSource::File
    }

    /// What `event`, at `at`, makes of the run and its client, and how the run reacts; `None` for an
    /// event that does not belong to where the run stands. The client records how a load ended.
    pub open spec fn after<BC>(self, event: Event<Seq<char>, B, D, BC, DC>, at: Timestamp) -> Option<
        (Self, Reaction<Seq<char>, (), (), BC, DC>),
    > {
        match self.run.after(self.watches_file(), event) {
            Some((run, reaction)) => Some(
                (
                    running(self.client.recorded(load_ended(self.run.phase, event), at), run),
                    reaction,
                ),
            ),
            None => None,
        }
    }
}

/// Loads configuration from a local file or static content, and watches it for changes. It has one
/// owner; [`crate::shared_client::SharedClient`] has any number of them.
#[derive(Debug)]
pub struct LocalClient {
    source: ConfigSource,
    status: LoadStatus,
}

impl View for LocalClient {
    type V = ClientModel;

    closed spec fn view(&self) -> ClientModel {
        ClientModel { source: self.source, status: self.status@ }
    }
}

/// One run of a local client.
#[derive(Debug)]
pub struct ConfigRun<B, D, DC> {
    previous: PreviousState<B, D>,
    phase: Phase<String, B, DC>,
}

impl<B, D, DC> View for ConfigRun<B, D, DC> {
    type V = RunModel<B, D, DC>;

    closed spec fn view(&self) -> RunModel<B, D, DC> {
        RunModel { previous: self.previous, phase: self.phase@ }
    }
}

/// What a run decides on an event.
#[derive(Debug)]
pub struct Decision<B, D, BC, DC> {
    /// How the run reacts; `None` for an event that does not belong to where the run stands.
    pub reaction: Option<Reaction<String, B, D, BC, DC>>,
    /// How its load ended with that, if it did.
    pub outcome: Option<LoadOutcome<String>>,
}

impl<B, D, BC, DC> Decision<B, D, BC, DC> {
    fn act(action: Action<String, B, D, BC, DC>) -> (decision: Self)
        ensures
            decision.reaction == Some(Reaction { synchronized: None, action }),
            decision.outcome is None,
    {
        Decision { reaction: Some(Reaction { synchronized: None, action }), outcome: None }
    }
}

/// The outcome behind an optional one.
pub open spec fn outcome_of(outcome: Option<LoadOutcome<String>>) -> Option<
    LoadOutcome<Seq<char>>,
> {
    match outcome {
        Some(outcome) => Some(outcome@),
        None => None,
    }
}

/// The run `run` of `client`.
pub open spec fn running<B, D, DC>(client: ClientModel, run: RunModel<B, D, DC>) -> Running<
    B,
    D,
    DC,
> {
    Running { client, run }
}

impl<B, D, DC> ConfigRun<B, D, DC> {
    fn resume<BC>(&mut self, file: bool, rewatch: bool, synchronized: bool) -> (reaction: Reaction<
        String,
        B,
        D,
        BC,
        DC,
    >)
        ensures
            (final(self)@, reaction@) == old(self)@.resumed::<BC>(file, rewatch, synchronized),
            !(reaction.action is SyncBinds),
            !(reaction.action is SyncDiscovery),
    {
        if rewatch {
            self.phase = Phase::Rewatching;
            Reaction { synchronized: Some(synchronized), action: Action::Rewatch }
        } else {
            self.phase = Phase::Watching;
            Reaction { synchronized: Some(synchronized), action: Action::Wait { file } }
        }
    }

    fn fail<BC>(&mut self, file: bool, cause: Cause, error: String) -> (decision: Decision<
        B,
        D,
        BC,
        DC,
    >)
        ensures
            decision.outcome matches Some(outcome) && outcome@ == (LoadOutcome::Failed {
                error: error@,
            }),
            decision.reaction matches Some(reaction) && (final(self)@, reaction@)
                == old(self)@.load_failed::<BC>(file, cause, error@) && !(
            reaction.action is SyncBinds) && !(reaction.action is SyncDiscovery),
    {
        let outcome = LoadOutcome::Failed { error: error.clone() };
        let reaction = match cause {
            Cause::Initial => {
                self.phase = Phase::Ended;
                Reaction { synchronized: None, action: Action::Fail { error } }
            },
            Cause::Change { rewatch } => self.resume(file, rewatch, false),
        };
        Decision { reaction: Some(reaction), outcome: Some(outcome) }
    }

    fn succeed<BC>(
        &mut self,
        file: bool,
        cause: Cause,
        hash: String,
        previous: PreviousState<B, D>,
    ) -> (decision: Decision<B, D, BC, DC>)
        ensures
            decision.outcome matches Some(outcome) && outcome@ == (LoadOutcome::Loaded {
                hash: hash@,
            }),
            decision.reaction matches Some(reaction) && (final(self)@, reaction@)
                == old(self)@.load_succeeded::<BC>(file, cause, previous) && !(
            reaction.action is SyncBinds) && !(reaction.action is SyncDiscovery),
    {
        self.previous = previous;
        let reaction = match cause {
            Cause::Initial => {
                if file {
                    self.phase = Phase::StartingWatch;
                    Reaction { synchronized: None, action: Action::StartWatch }
                } else {
                    self.phase = Phase::Subscribing;
                    Reaction { synchronized: None, action: Action::Subscribe }
                }
            },
            Cause::Change { rewatch } => self.resume(file, rewatch, true),
        };
        Decision { reaction: Some(reaction), outcome: Some(LoadOutcome::Loaded { hash }) }
    }

    /// Begins a run with its first load, which starts from the default state of the stores.
    pub fn begin<BC>() -> (begun: (Self, Reaction<String, B, D, BC, DC>)) where B: Default, D: Default
        ensures
            begun.0@ == RunModel::<B, D, DC>::begun(begun.0@.previous),
            call_ensures(B::default, (), begun.0@.previous.binds),
            call_ensures(D::default, (), begun.0@.previous.discovery),
            begun.1@ == act::<BC, DC>(Action::ReadConfig),
    {
        let previous = PreviousState { binds: B::default(), discovery: D::default() };
        let run = ConfigRun { previous, phase: Phase::Reading { cause: Cause::Initial } };
        (run, Reaction { synchronized: None, action: Action::ReadConfig })
    }

    /// Takes in `event`, and decides on the reaction to it and on what the client is to record.
    pub fn decide<BC>(
        &mut self,
        source: ConfigSource,
        event: Event<String, B, D, BC, DC>,
    ) -> (decision: Decision<B, D, BC, DC>) where B: Clone, D: Clone
        ensures
            match old(self)@.after(source == ConfigSource::File, event@) {
                Some(next) => decision.reaction matches Some(reaction) && (
                    final(self)@,
                    reaction@,
                ) == next,
                None => decision.reaction is None && final(self)@ == old(self)@,
            },
            outcome_of(decision.outcome) == load_ended(old(self)@.phase, event@),
            handed_over(old(self)@, decision.reaction),
    {
        let file = source == ConfigSource::File;
        let mut phase = Phase::Ended;
        std::mem::swap(&mut phase, &mut self.phase);
        match (phase, event) {
            (Phase::Reading { cause }, Event::ConfigRead(Ok(content))) => {
                let hash = content_hash(content.as_str());
                self.phase = Phase::Normalizing { cause, hash };
                Decision::act(Action::Normalize { content })
            },
            (Phase::Reading { cause }, Event::ConfigRead(Err(error))) => self.fail(
                file,
                cause,
                error,
            ),
            (Phase::Normalizing { cause, hash }, Event::Normalized(Ok(config))) => {
                self.phase = Phase::SyncingBinds { cause, hash, discovery: config.discovery };
                let previous_binds = self.previous.binds.clone();
                let action = Action::SyncBinds { binds: config.binds, previous_binds };
                Decision::act(action)
            },
            (Phase::Normalizing { cause, .. }, Event::Normalized(Err(error))) => self.fail(
                file,
                cause,
                error,
            ),
            (Phase::SyncingBinds { cause, hash, discovery }, Event::BindsSynced(binds)) => {
                self.phase = Phase::SyncingDiscovery { cause, hash, binds };
                let previous_discovery = self.previous.discovery.clone();
                let action = Action::SyncDiscovery { discovery, previous_discovery };
                Decision::act(action)
            },
            (
                Phase::SyncingDiscovery { cause, hash, binds },
                Event::DiscoverySynced(Ok(discovery)),
            ) => self.succeed(file, cause, hash, PreviousState { binds, discovery }),
            (Phase::SyncingDiscovery { cause, .. }, Event::DiscoverySynced(Err(error))) => self.fail(
                file,
                cause,
                error,
            ),
            (Phase::StartingWatch, Event::WatchStarted(Ok(_))) => {
                self.phase = Phase::Subscribing;
                Decision::act(Action::Subscribe)
            },
            (Phase::StartingWatch, Event::WatchStarted(Err(error))) => Decision::act(
                Action::Fail { error },
            ),
            (Phase::Subscribing, Event::Subscribed) => {
                self.phase = Phase::Watching;
                Decision::act(Action::Wait { file })
            },
            (Phase::Watching, Event::FileChanged { invalidated }) if file => {
                self.phase = Phase::Reading { cause: Cause::Change { rewatch: invalidated } };
                Decision::act(Action::ReadConfig)
            },
            (Phase::Watching, Event::FileClosed) if file => Decision::act(Action::Stop),
            (Phase::Watching, Event::ResourceChanged) => {
                self.phase = Phase::Reading { cause: Cause::Change { rewatch: false } };
                Decision::act(Action::ReadConfig)
            },
            (Phase::Watching, Event::ResourcesClosed) => Decision::act(Action::Stop),
            (Phase::Rewatching, Event::Rewatched { ok }) => {
                if ok {
                    self.phase = Phase::Watching;
                    Decision::act(Action::Wait { file })
                } else {
                    Decision::act(Action::Stop)
                }
            },
            (phase, _) => {
                self.phase = phase;
                Decision { reaction: None, outcome: None }
            },
        }
    }
}

impl LocalClient {
    /// A client that has not loaded anything yet.
    pub fn new(source: ConfigSource) -> (client: Self)
        ensures
            client@ == (ClientModel { source, status: LoadStatusModel::empty() }),
    {
        LocalClient { source, status: LoadStatus::default() }
    }

    /// The status of the most recent load. [`LoadStatus::with_disk`] adds what the config source
    /// holds now.
    pub fn load_status(&self) -> (status: LoadStatus)
        ensures
            status@ == self@.status,
    {
        self.status.clone()
    }

    /// Begins a run with its first load, which starts from the default state of the stores.
    pub fn run<B: Default, D: Default, BC, DC>(&self) -> (begun: (
        ConfigRun<B, D, DC>,
        Reaction<String, B, D, BC, DC>,
    ))
        ensures
            begun.0@ == RunModel::<B, D, DC>::begun(begun.0@.previous),
            call_ensures(B::default, (), begun.0@.previous.binds),
            call_ensures(D::default, (), begun.0@.previous.discovery),
            begun.1@ == act::<BC, DC>(Action::ReadConfig),
    {
        ConfigRun::begin()
    }

    /// Takes in `event` for `run`, and gives the reaction to it. An event that does not belong to
    /// where the run stands changes nothing and gives `None`.
    pub fn step<B: Clone, D: Clone, BC, DC>(
        &mut self,
        run: &mut ConfigRun<B, D, DC>,
        event: Event<String, B, D, BC, DC>,
    ) -> (reaction: Option<Reaction<String, B, D, BC, DC>>)
        ensures
            exists|at: Timestamp|
                #![trigger running(old(self)@, old(run)@).after(event@, at)]
                at.on_clock() && stepped(
                    running(old(self)@, old(run)@),
                    event@,
                    at,
                    running(final(self)@, final(run)@),
                    reaction,
                ),
            handed_over(old(run)@, reaction),
    {
        let at = utc_now();
        self.step_at(run, event, at)
    }

    /// Takes in `event` for `run`, which happened at `at`: [`LocalClient::step`] with the time
    /// given.
    pub fn step_at<B: Clone, D: Clone, BC, DC>(
        &mut self,
        run: &mut ConfigRun<B, D, DC>,
        event: Event<String, B, D, BC, DC>,
        at: Timestamp,
    ) -> (reaction: Option<Reaction<String, B, D, BC, DC>>)
        ensures
            stepped(
                running(old(self)@, old(run)@),
                event@,
                at,
                running(final(self)@, final(run)@),
                reaction,
            ),
            handed_over(old(run)@, reaction),
    {
        let decision = run.decide(self.source, event);
        if let Some(outcome) = decision.outcome {
            self.status.record(outcome, at);
        }
        decision.reaction
    }
}

/// `event` at `at` took the run and its client from `before` to `after`, and `reaction` is how the
/// run reacted.
pub open spec fn stepped<B, D, BC, DC>(
    before: Running<B, D, DC>,
    event: Event<Seq<char>, B, D, BC, DC>,
    at: Timestamp,
    after: Running<B, D, DC>,
    reaction: Option<Reaction<String, B, D, BC, DC>>,
) -> bool {
    match before.after(event, at) {
        Some(next) => reaction matches Some(reaction) && (after, reaction@) == next,
        None => reaction is None && after == before,
    }
}

/// Each store is handed a copy of what it gave at the last load of the run that went through.
pub open spec fn handed_over<B: Clone, D: Clone, BC, DC>(
    before: RunModel<B, D, DC>,
    reaction: Option<Reaction<String, B, D, BC, DC>>,
) -> bool {
    reaction matches Some(reaction) ==> match reaction.action {
        Action::SyncBinds { previous_binds, .. } => cloned(before.previous.binds, previous_binds),
        Action::SyncDiscovery { previous_discovery, .. } => cloned(
            before.previous.discovery,
            previous_discovery,
        ),
        _ => true,
    }
}

} // verus!
