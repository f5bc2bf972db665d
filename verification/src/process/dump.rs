//! The three storage tiers and the operations that reconcile them.
//!
//! The registry is kept in the daemon's memory cache, in a transient file that
//! short-lived commands hand to each other, and in a durable file. Nothing here
//! touches a file. An operation takes what the caller [`Found`] at a path, and
//! answers with an [`Outcome`]: the registry, and the [`Effect`]s that the caller has
//! to carry out on the files, in order.

use crate::process::Runner;
use crate::process::RunnerView;
use crate::process::id::Id;
use std::collections::BTreeMap;
use vstd::prelude::*;
use vstd::string::StringExecFns;

verus! {

/// What the caller found at the path of a file-backed tier.
#[derive(Debug, PartialEq, Eq)]
pub enum Found {
    /// No file is there.
    Missing,
    /// A file is there, and its content does not decode to a registry.
    Unreadable,
    /// A file is there and holds this registry.
    Registry(Runner),
}

/// One change to the files that the caller has to carry out.
#[derive(Debug, PartialEq, Eq)]
pub enum Effect {
    /// Move the durable file aside, to a backup path of its own.
    Quarantine,
    /// Replace the content of the durable file by this registry.
    WriteDurable(Runner),
    /// Replace the content of the transient file by this registry.
    WriteTransient(Runner),
    /// Delete the transient file, if there is one.
    RemoveTransient,
}

/// What the caller does when it cannot carry out an effect.
#[derive(Debug, PartialEq, Eq, Clone, Copy)]
pub enum Reaction {
    /// Stop the process with a diagnostic: going on would silently lose state.
    Abort,
    /// Log the failure and go on.
    Report,
    /// Go on.
    Ignore,
}

/// The answer of an operation: the registry it yields, and what has to happen on
/// disk, first effect first.
#[derive(Debug, PartialEq, Eq)]
pub struct Outcome {
    pub registry: Runner,
    pub effects: Vec<Effect>,
}

/// The answer to a request for the bytes of the durable file.
#[derive(Debug, PartialEq, Eq)]
pub enum Raw {
    /// The bytes of the file.
    Ready(Vec<u8>),
    /// There is no file yet: carry out these effects, then look again.
    Bootstrap(Vec<Effect>),
}

/// A request to the daemon of another host, for the caller to send.
#[derive(Debug, PartialEq, Eq)]
pub struct Request {
    pub url: String,
    pub headers: Vec<(String, String)>,
}

/// The registry that the daemon works on while it runs, if it has one.
///
/// Every operation takes the cache by reference, so none can see another half done.
/// A daemon that shares the cache between threads keeps it behind a lock and holds
/// the lock for the length of one operation.
#[derive(Debug, PartialEq, Eq)]
pub struct MemoryCache {
    pub runner: Option<Runner>,
}

/// A [`Found`] with the registry as a value.
pub enum FoundView {
    Missing,
    Unreadable,
    Registry(RunnerView),
}

/// An [`Effect`] with the registry as a value.
pub enum EffectView {
    Quarantine,
    WriteDurable(RunnerView),
    WriteTransient(RunnerView),
    RemoveTransient,
}

/// An [`Outcome`] as values: the registry, and the effects first to last.
#[verifier::ext_equal]
pub struct OutcomeView {
    pub registry: RunnerView,
    pub effects: Seq<EffectView>,
}

/// A [`Raw`] as values.
pub enum RawView {
    Ready(Seq<u8>),
    Bootstrap(Seq<EffectView>),
}

/// A [`Request`] as text: the address, and the headers as pairs of name and value.
#[verifier::ext_equal]
pub struct RequestView {
    pub url: Seq<char>,
    pub headers: Seq<(Seq<char>, Seq<char>)>,
}

impl View for Raw {
    type V = RawView;

    open spec fn view(&self) -> RawView {
        match self {
            Raw::Ready(bytes) => RawView::Ready(bytes@),
            Raw::Bootstrap(effects) => RawView::Bootstrap(
                effects@.map_values(|effect: Effect| effect@),
            ),
        }
    }
}

impl View for Request {
    type V = RequestView;

    open spec fn view(&self) -> RequestView {
        RequestView {
            url: self.url@,
            headers: self.headers@.map_values(|header: (String, String)| (header.0@, header.1@)),
        }
    }
}

impl View for Found {
    type V = FoundView;

    open spec fn view(&self) -> FoundView {
        match self {
            Found::Missing => FoundView::Missing,
            Found::Unreadable => FoundView::Unreadable,
            Found::Registry(runner) => FoundView::Registry(runner@),
        }
    }
}

impl View for Effect {
    type V = EffectView;

    open spec fn view(&self) -> EffectView {
        match self {
            Effect::Quarantine => EffectView::Quarantine,
            Effect::WriteDurable(runner) => EffectView::WriteDurable(runner@),
            Effect::WriteTransient(runner) => EffectView::WriteTransient(runner@),
            Effect::RemoveTransient => EffectView::RemoveTransient,
        }
    }
}

impl View for Outcome {
    type V = OutcomeView;

    open spec fn view(&self) -> OutcomeView {
        OutcomeView {
            registry: self.registry@,
            effects: self.effects@.map_values(|effect: Effect| effect@),
        }
    }
}

impl View for MemoryCache {
    type V = Option<RunnerView>;

    open spec fn view(&self) -> Option<RunnerView> {
        match self.runner {
            Some(runner) => Some(runner@),
            None => None,
        }
    }
}

/// What a read of the memory cache yields: the cached registry, or the empty one.
pub open spec fn memory_read(cache: Option<RunnerView>) -> RunnerView {
    match cache {
        Some(runner) => runner,
        None => RunnerView::empty(),
    }
}

/// What a read of the durable tier yields. A missing file is created with the empty
/// registry. An unreadable file is moved aside and replaced by the empty registry.
pub open spec fn durable_read(found: FoundView) -> OutcomeView {
    match found {
        FoundView::Missing => OutcomeView {
            registry: RunnerView::empty(),
            effects: seq![EffectView::WriteDurable(RunnerView::empty())],
        },
        FoundView::Unreadable => OutcomeView {
            registry: RunnerView::empty(),
            effects: seq![EffectView::Quarantine, EffectView::WriteDurable(RunnerView::empty())],
        },
        FoundView::Registry(runner) => OutcomeView { registry: runner, effects: seq![] },
    }
}

/// What a read of the transient tier yields: the registry in the file, or the empty
/// one, and never anything to do on disk.
pub open spec fn transient_read(found: FoundView) -> OutcomeView {
    match found {
        FoundView::Registry(runner) => OutcomeView { registry: runner, effects: seq![] },
        _ => OutcomeView { registry: RunnerView::empty(), effects: seq![] },
    }
}

/// What clearing the transient tier asks for: the file is deleted if there is one.
pub open spec fn transient_clear(found: FoundView) -> Seq<EffectView> {
    if found is Missing {
        seq![]
    } else {
        seq![EffectView::RemoveTransient]
    }
}

/// Committing the memory cache: the durable registry with the cached one laid on
/// top is written to the durable file.
pub open spec fn memory_commit(cache: Option<RunnerView>, durable: FoundView) -> OutcomeView {
    let read = durable_read(durable);
    let merged = read.registry.merge(memory_read(cache));
    OutcomeView { registry: merged, effects: read.effects.push(EffectView::WriteDurable(merged)) }
}

/// Committing the transient file: the durable registry with the transient one laid
/// on top is written to the durable file, and the transient file, if there is one,
/// is deleted.
pub open spec fn transient_commit(durable: FoundView, transient: FoundView) -> OutcomeView {
    let read = durable_read(durable);
    let merged = read.registry.merge(transient_read(transient).registry);
    OutcomeView {
        registry: merged,
        effects: read.effects.push(EffectView::WriteDurable(merged)) + transient_clear(transient),
    }
}

/// The most complete view of the registry: the durable registry, the transient one
/// on top of it, the cached one on top of both. Nothing is committed.
pub open spec fn merged_read(
    cache: Option<RunnerView>,
    durable: FoundView,
    transient: FoundView,
) -> OutcomeView {
    let read = durable_read(durable);
    OutcomeView {
        registry: read.registry.merge(transient_read(transient).registry).merge(
            memory_read(cache),
        ),
        effects: read.effects,
    }
}

/// The registry that the daemon starts from: the durable registry with the transient
/// one on top, crashes of the earlier run taken into account. Nothing is committed
/// and the transient file stays.
pub open spec fn startup(durable: FoundView, transient: FoundView) -> OutcomeView {
    let read = durable_read(durable);
    OutcomeView {
        registry: read.registry.merge(transient_read(transient).registry).reconciled(),
        effects: read.effects,
    }
}

/// What a request for the bytes of the durable file yields, given the bytes on
/// disk if there is a file: those bytes, or the order to create the file first.
pub open spec fn raw_read(on_disk: Option<Seq<u8>>) -> RawView {
    match on_disk {
        Some(bytes) => RawView::Ready(bytes),
        None => RawView::Bootstrap(seq![EffectView::WriteDurable(RunnerView::empty())]),
    }
}

/// The request that asks the daemon at `address` for its registry. The token, where
/// there is one, travels in a header of its own.
pub open spec fn dump_request(address: Seq<char>, token: Option<Seq<char>>) -> RequestView {
    RequestView {
        url: address + "/daemon/dump"@,
        headers: match token {
            Some(secret) => seq![("token"@, secret)],
            None => seq![],
        },
    }
}

impl EffectView {
    /// What to do when the effect cannot be carried out, be it that the registry
    /// cannot be encoded or that the file cannot be changed. The durable file is the
    /// single source of truth, so a failure to write it ends the process. A backup
    /// that cannot be made and a transient file that cannot be written are reported
    /// and otherwise let pass.
    pub open spec fn on_failure(self) -> Reaction {
        match self {
            EffectView::WriteDurable(_) => Reaction::Abort,
            EffectView::Quarantine => Reaction::Report,
            EffectView::WriteTransient(_) => Reaction::Report,
            EffectView::RemoveTransient => Reaction::Ignore,
        }
    }
}

impl Effect {
    /// What to do when this effect cannot be carried out.
    pub fn on_failure(&self) -> (reaction: Reaction)
        ensures
            reaction == self@.on_failure(),
    {
        match self {
            Effect::WriteDurable(_) => Reaction::Abort,
            Effect::Quarantine => Reaction::Report,
            Effect::WriteTransient(_) => Reaction::Report,
            Effect::RemoveTransient => Reaction::Ignore,
        }
    }
}

impl MemoryCache {
    /// A cache that holds nothing.
    pub fn new() -> (cache: MemoryCache)
        ensures
            cache@ is None,
    {
        MemoryCache { runner: None }
    }
}

/// The empty registry: no record, no remote, the allocator at zero.
pub fn empty_runner() -> (runner: Runner)
    ensures
        runner@ == RunnerView::empty(),
{
    let runner = Runner { id: Id::new(0), list: BTreeMap::new(), remote: None };
    assert(runner@.list =~= RunnerView::empty().list);
    runner
}

/// Reads the durable tier. The caller always gets a registry: where the file is
/// missing or unreadable it gets the empty one, together with the effects that put
/// the durable file right.
pub fn read(found: Found) -> (out: Outcome)
    ensures
        out@ == durable_read(found@),
{
    let mut effects: Vec<Effect> = Vec::new();
    let registry = match found {
        Found::Missing => {
            effects.push(Effect::WriteDurable(empty_runner()));
            empty_runner()
        },
        Found::Unreadable => {
            effects.push(Effect::Quarantine);
            effects.push(Effect::WriteDurable(empty_runner()));
            empty_runner()
        },
        Found::Registry(runner) => runner,
    };
    let out = Outcome { registry, effects };
    assert(out@.effects =~= durable_read(found@).effects);
    out
}

/// Answers a request for the bytes of the durable file as they are on disk.
/// `on_disk` holds them if there is a file. Where there is none, the file is to be
/// created with the empty registry first, and the caller looks again.
pub fn raw(on_disk: Option<Vec<u8>>) -> (step: Raw)
    ensures
        step@ == raw_read(
            match on_disk {
                Some(bytes) => Some(bytes@),
                None => None,
            },
        ),
{
    match on_disk {
        Some(bytes) => Raw::Ready(bytes),
        None => {
            let mut effects: Vec<Effect> = Vec::new();
            effects.push(Effect::WriteDurable(empty_runner()));
            assert(effects@.map_values(|effect: Effect| effect@) =~= seq![
                EffectView::WriteDurable(RunnerView::empty()),
            ]);
            Raw::Bootstrap(effects)
        },
    }
}

/// Prepares the request that fetches the registry of the daemon at `address`.
pub fn from(address: &str, token: Option<&str>) -> (request: Request)
    ensures
        request@ == dump_request(
            address@,
            match token {
                Some(secret) => Some(secret@),
                None => None,
            },
        ),
{
    let mut url = String::from_str(address);
    url.append("/daemon/dump");
    let mut headers: Vec<(String, String)> = Vec::new();
    if let Some(secret) = token {
        headers.push((String::from_str("token"), String::from_str(secret)));
    }
    let request = Request { url, headers };
    assert(request@.headers =~= dump_request(
        address@,
        match token {
            Some(secret) => Some(secret@),
            None => None,
        },
    ).headers);
    request
}

/// Replaces the content of the durable tier by `dump`.
pub fn write(dump: &Runner) -> (effects: Vec<Effect>)
    ensures
        effects@.map_values(|effect: Effect| effect@) == seq![EffectView::WriteDurable(dump@)],
{
    let mut effects: Vec<Effect> = Vec::new();
    effects.push(Effect::WriteDurable(dump.clone()));
    assert(effects@.map_values(|effect: Effect| effect@) =~= seq![
        EffectView::WriteDurable(dump@),
    ]);
    effects
}

/// Reads the memory cache: a copy of the cached registry, or the empty registry
/// where the cache holds nothing.
pub fn read_memory(cache: &MemoryCache) -> (runner: Runner)
    ensures
        runner@ == memory_read(cache@),
{
    match &cache.runner {
        Some(runner) => runner.clone(),
        None => empty_runner(),
    }
}

/// Replaces what the memory cache holds by a copy of `dump`. Nothing is merged.
pub fn write_memory(cache: &mut MemoryCache, dump: &Runner)
    ensures
        final(cache)@ == Some(dump@),
{
    cache.runner = Some(dump.clone());
}

/// Empties the memory cache.
pub fn clear_memory(cache: &mut MemoryCache)
    ensures
        final(cache)@ is None,
{
    cache.runner = None;
}

/// Reads the transient tier. The file is optional: where it is missing or
/// unreadable the caller gets the empty registry, and there is never anything to do
/// on disk.
pub fn read_temp(found: Found) -> (out: Outcome)
    ensures
        out@ == transient_read(found@),
{
    let registry = match found {
        Found::Registry(runner) => runner,
        _ => empty_runner(),
    };
    let out = Outcome { registry, effects: Vec::new() };
    assert(out@.effects =~= transient_read(found@).effects);
    out
}

/// Replaces the content of the transient tier by `dump`.
pub fn write_temp(dump: &Runner) -> (effects: Vec<Effect>)
    ensures
        effects@.map_values(|effect: Effect| effect@) == seq![EffectView::WriteTransient(dump@)],
{
    let mut effects: Vec<Effect> = Vec::new();
    effects.push(Effect::WriteTransient(dump.clone()));
    assert(effects@.map_values(|effect: Effect| effect@) =~= seq![
        EffectView::WriteTransient(dump@),
    ]);
    effects
}

/// Clears the transient tier: the file is deleted if there is one, and nothing
/// happens if there is none.
pub fn clear_temp(found: &Found) -> (effects: Vec<Effect>)
    ensures
        effects@.map_values(|effect: Effect| effect@) == transient_clear(found@),
{
    let mut effects: Vec<Effect> = Vec::new();
    match found {
        Found::Missing => {},
        _ => {
            effects.push(Effect::RemoveTransient);
        },
    }
    assert(effects@.map_values(|effect: Effect| effect@) =~= transient_clear(found@));
    effects
}

/// Commits the memory cache: lays the cached registry on top of the durable one,
/// has the result written to the durable file, and empties the cache.
pub fn commit_memory(cache: &mut MemoryCache, durable: Found) -> (out: Outcome)
    ensures
        out@ == memory_commit(old(cache)@, durable@),
        final(cache)@ is None,
{
    let Outcome { registry, effects } = read(durable);
    let mut permanent = registry;
    let mut effects = effects;
    let memory = read_memory(cache);
    permanent.merge(&memory);
    effects.push(Effect::WriteDurable(permanent.clone()));
    clear_memory(cache);
    let out = Outcome { registry: permanent, effects };
    assert(out@.effects =~= memory_commit(old(cache)@, durable@).effects);
    out
}

/// Commits the transient file: lays the transient registry on top of the durable
/// one, has the result written to the durable file and the transient file deleted.
pub fn commit_temp(durable: Found, transient: Found) -> (out: Outcome)
    ensures
        out@ == transient_commit(durable@, transient@),
{
    let Outcome { registry, effects } = read(durable);
    let mut permanent = registry;
    let mut effects = effects;
    let mut clearing = clear_temp(&transient);
    let temp = read_temp(transient);
    permanent.merge(&temp.registry);
    effects.push(Effect::WriteDurable(permanent.clone()));
    effects.append(&mut clearing);
    let out = Outcome { registry: permanent, effects };
    assert(out@.effects =~= transient_commit(durable@, transient@).effects);
    out
}

/// Reads the most complete view of the registry without committing anything: the
/// durable registry, the transient one on top, the cached one on top of both.
pub fn read_merged(cache: &MemoryCache, durable: Found, transient: Found) -> (out: Outcome)
    ensures
        out@ == merged_read(cache@, durable@, transient@),
{
    let Outcome { registry, effects } = read(durable);
    let mut permanent = registry;
    let temp = read_temp(transient);
    permanent.merge(&temp.registry);
    let memory = read_memory(cache);
    permanent.merge(&memory);
    Outcome { registry: permanent, effects }
}

/// Prepares the registry that the daemon starts from: the durable registry with the
/// transient one on top, every record that an earlier run left flagged as crashed
/// marked as not running. The transient file is left in place and nothing is written
/// back to the durable tier; the memory cache is emptied.
pub fn init_on_startup(cache: &mut MemoryCache, durable: Found, transient: Found) -> (out: Outcome)
    ensures
        out@ == startup(durable@, transient@),
        final(cache)@ is None,
{
    let Outcome { registry, effects } = read(durable);
    let mut permanent = registry;
    let temp = read_temp(transient);
    permanent.merge(&temp.registry);
    permanent.reconcile();
    clear_memory(cache);
    Outcome { registry: permanent, effects }
}

} // verus!
