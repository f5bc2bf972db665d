//! The registry of managed processes.

pub mod backup;
pub mod disk;
pub mod dump;
pub mod id;

use crate::process::id::Id;
use crate::process::id::highest;
use crate::process::id::issued;
use crate::process::id::lemma_issued_is_offset;
use std::collections::BTreeMap;
use vstd::prelude::*;
use vstd::std_specs::iter::IteratorSpec;

verus! {

/// How a process last ended abnormally. Apart from the flag, the core only carries
/// these fields along.
#[derive(Debug, PartialEq, Eq)]
pub struct Crash {
    pub crashed: bool,
    pub reason: String,
    pub at: u64,
}

/// One managed process.
#[derive(Debug, PartialEq, Eq)]
pub struct Process {
    pub id: usize,
    pub name: String,
    pub running: bool,
    pub crash: Crash,
}

/// The daemon on another host that a registry is a view of.
#[derive(Debug, PartialEq, Eq)]
pub struct Remote {
    pub address: String,
    pub token: Option<String>,
}

/// The registry: the identifier allocator, the records by identifier, and the remote
/// daemon where the registry stands for one.
#[derive(Debug, PartialEq, Eq)]
pub struct Runner {
    pub id: Id,
    pub list: BTreeMap<usize, Process>,
    pub remote: Option<Remote>,
}

/// A [`Crash`] with its text as a sequence of characters.
pub struct CrashView {
    pub crashed: bool,
    pub reason: Seq<char>,
    pub at: u64,
}

/// A [`Process`] with its text as sequences of characters.
pub struct ProcessView {
    pub id: usize,
    pub name: Seq<char>,
    pub running: bool,
    pub crash: CrashView,
}

/// A [`Remote`] with its text as sequences of characters.
pub struct RemoteView {
    pub address: Seq<char>,
    pub token: Option<Seq<char>>,
}

/// A [`Runner`] as a value: the counter of its allocator, its records as a map from
/// identifier to record, and its remote.
#[verifier::ext_equal]
pub struct RunnerView {
    pub counter: nat,
    pub list: Map<usize, ProcessView>,
    pub remote: Option<RemoteView>,
}

impl View for Crash {
    type V = CrashView;

    open spec fn view(&self) -> CrashView {
        CrashView { crashed: self.crashed, reason: self.reason@, at: self.at }
    }
}

impl View for Process {
    type V = ProcessView;

    open spec fn view(&self) -> ProcessView {
        ProcessView { id: self.id, name: self.name@, running: self.running, crash: self.crash@ }
    }
}

impl View for Remote {
    type V = RemoteView;

    open spec fn view(&self) -> RemoteView {
        RemoteView {
            address: self.address@,
            token: match self.token {
                Some(t) => Some(t@),
                None => None,
            },
        }
    }
}

impl View for Runner {
    type V = RunnerView;

    open spec fn view(&self) -> RunnerView {
        RunnerView {
            counter: self.id@,
            list: self.list@.map_values(|p: Process| p@),
            remote: match self.remote {
                Some(r) => Some(r@),
                None => None,
            },
        }
    }
}

impl Clone for Crash {
    fn clone(&self) -> (copy: Crash)
        ensures
            copy == *self,
    {
        Crash { crashed: self.crashed, reason: self.reason.clone(), at: self.at }
    }
}

impl Clone for Process {
    fn clone(&self) -> (copy: Process)
        ensures
            copy == *self,
    {
        Process {
            id: self.id,
            name: self.name.clone(),
            running: self.running,
            crash: self.crash.clone(),
        }
    }
}

impl Clone for Remote {
    fn clone(&self) -> (copy: Remote)
        ensures
            copy == *self,
    {
        Remote { address: self.address.clone(), token: self.token.clone() }
    }
}

impl Clone for Runner {
    fn clone(&self) -> (copy: Runner)
        ensures
            copy@ == self@,
    {
        Runner { id: self.id.clone(), list: self.list.clone(), remote: self.remote.clone() }
    }
}

impl ProcessView {
    /// The record as it stands once a crash left over from an earlier run has been
    /// taken into account: a record flagged as crashed is not running. The flag itself
    /// stays, so that crashed records can still be told apart and restored later.
    pub open spec fn reconciled(self) -> ProcessView {
        if self.crash.crashed {
            ProcessView { running: false, ..self }
        } else {
            self
        }
    }
}

impl RunnerView {
    /// The registry with no record, no remote, and the counter at zero.
    pub open spec fn empty() -> RunnerView {
        RunnerView { counter: 0, list: Map::empty(), remote: None }
    }

    /// The registry that results from laying `over` on top of `self`: every record of
    /// either, the one of `over` where both hold the identifier; the higher of the two
    /// counters; the remote of `self`.
    pub open spec fn merge(self, over: RunnerView) -> RunnerView {
        RunnerView {
            counter: highest(self.counter, over.counter),
            list: self.list.union_prefer_right(over.list),
            remote: self.remote,
        }
    }

    /// The registry with every record reconciled, see [`ProcessView::reconciled`].
    pub open spec fn reconciled(self) -> RunnerView {
        RunnerView { list: self.list.map_values(|p: ProcessView| p.reconciled()), ..self }
    }

    /// No record is both flagged as crashed and marked as running.
    pub open spec fn none_crashed_running(self) -> bool {
        forall|k: usize| #[trigger]
            self.list.contains_key(k) ==> !(self.list[k].crash.crashed && self.list[k].running)
    }

    /// Every record is filed under its own identifier, and the allocator is past all
    /// of them, so that the next identifier it hands out is not in use.
    pub open spec fn well_formed(self) -> bool {
        forall|k: usize| #[trigger]
            self.list.contains_key(k) ==> self.list[k].id == k && k < self.counter
    }
}

/// Whether `key` is among the first `upto` keys of `entries`.
spec fn among(entries: Seq<(&usize, &Process)>, upto: int, key: usize) -> bool {
    exists|j: int| 0 <= j < upto && j < entries.len() && *(#[trigger] entries[j]).0 == key
}

impl Runner {
    /// Lays `over` on top of this registry: its records replace or join those held
    /// here, and the allocator moves up to the one of `over` if that one is ahead.
    pub fn merge(&mut self, over: &Runner)
        ensures
            final(self)@ == old(self)@.merge(over@),
            old(self)@.well_formed() && over@.well_formed() ==> final(self)@.well_formed(),
    {
        broadcast use vstd::std_specs::btree::group_btree_axioms;
        broadcast use vstd::laws_cmp::group_laws_cmp;

        let ghost base = self.list@;
        for entry in it: over.list.iter()
            invariant
                self.id == old(self).id,
                self.remote == old(self).remote,
                it.seq() == over.list.iter().remaining(),
                forall|k: usize| #[trigger]
                    self.list@.contains_key(k) <==> base.contains_key(k) || among(
                        it.seq(),
                        it.index(),
                        k,
                    ),
                forall|k: usize|
                    among(it.seq(), it.index(), k) ==> #[trigger] self.list@[k] == over.list@[k],
                forall|k: usize|
                    !among(it.seq(), it.index(), k) && base.contains_key(k)
                        ==> #[trigger] self.list@[k] == base[k],
        {
            let (key, process) = entry;
            self.list.insert(*key, process.clone());
        }
        self.id.merge(&over.id);
        assert(self@.list =~= old(self)@.merge(over@).list);
    }

    /// Takes crashes left over from an earlier run into account: every record flagged
    /// as crashed is marked as not running. The flag is kept.
    pub fn reconcile(&mut self)
        ensures
            final(self)@ == old(self)@.reconciled(),
            old(self)@.well_formed() ==> final(self)@.well_formed(),
    {
        broadcast use vstd::std_specs::btree::group_btree_axioms;
        broadcast use vstd::laws_cmp::group_laws_cmp;

        let mut settled: BTreeMap<usize, Process> = BTreeMap::new();
        for entry in it: self.list.iter()
            invariant
                it.seq() == self.list.iter().remaining(),
                forall|k: usize| #[trigger]
                    settled@.contains_key(k) <==> among(it.seq(), it.index(), k),
                forall|k: usize|
                    among(it.seq(), it.index(), k) ==> (#[trigger] settled@[k])@
                        == self.list@[k]@.reconciled(),
        {
            let (key, process) = entry;
            let mut copy = process.clone();
            if copy.crash.crashed {
                copy.running = false;
            }
            settled.insert(*key, copy);
        }
        assert(settled@.map_values(|p: Process| p@) =~= old(self)@.reconciled().list);
        self.list = settled;
    }
}

/// The empty registry is well formed.
pub proof fn lemma_empty_well_formed()
    ensures
        RunnerView::empty().well_formed(),
{
}

/// The counter of a merge is the higher of the two counters, whichever side brings
/// more records and whichever side wins them.
pub proof fn lemma_merge_counter_is_max(a: RunnerView, b: RunnerView)
    ensures
        a.merge(b).counter == highest(a.counter, b.counter),
        a.merge(b).counter >= a.counter,
        a.merge(b).counter >= b.counter,
        a.merge(b).counter == a.counter || a.merge(b).counter == b.counter,
{
}

/// A merge is the union of the records by identifier, and the registry laid on top
/// wins where both hold an identifier: a record of `over` appears as `over` has it,
/// a record only `base` holds appears as `base` has it, and nothing else appears.
pub proof fn lemma_merge_precedence(base: RunnerView, over: RunnerView, k: usize)
    ensures
        base.merge(over).list.contains_key(k) <==> base.list.contains_key(k)
            || over.list.contains_key(k),
        over.list.contains_key(k) ==> base.merge(over).list[k] == over.list[k],
        base.list.contains_key(k) && !over.list.contains_key(k) ==> base.merge(over).list[k]
            == base.list[k],
{
}

/// Merging a registry with itself changes nothing.
pub proof fn lemma_merge_idempotent(x: RunnerView)
    ensures
        x.merge(x) == x,
{
    assert(x.merge(x).list =~= x.list);
}

/// Laying the empty registry on top changes nothing, and a registry laid on top of
/// the empty one comes out with its own counter and records.
pub proof fn lemma_merge_empty(x: RunnerView)
    ensures
        x.merge(RunnerView::empty()) == x,
        RunnerView::empty().merge(x).counter == x.counter,
        RunnerView::empty().merge(x).list == x.list,
{
    assert(x.merge(RunnerView::empty()).list =~= x.list);
    assert(RunnerView::empty().merge(x).list =~= x.list);
}

/// Laying two registries on top one after the other is the same as laying their own
/// merge on top: three snapshots merge to one result however the steps are grouped.
pub proof fn lemma_merge_associative(a: RunnerView, b: RunnerView, c: RunnerView)
    ensures
        a.merge(b).merge(c) == a.merge(b.merge(c)),
{
    assert(a.merge(b).merge(c).list =~= a.merge(b.merge(c)).list);
}

/// No merge deletes a record or frees an identifier: the merge of two well-formed
/// registries is well formed, so the identifier it hands out next is in use in
/// neither of them.
pub proof fn lemma_merge_well_formed(a: RunnerView, b: RunnerView)
    requires
        a.well_formed(),
        b.well_formed(),
    ensures
        a.merge(b).well_formed(),
        forall|k: usize| #[trigger]
            a.list.contains_key(k) ==> k < a.merge(b).counter,
        forall|k: usize| #[trigger]
            b.list.contains_key(k) ==> k < a.merge(b).counter,
{
}

/// A well-formed registry never hands out an identifier that one of its records
/// holds, however many it hands out.
pub proof fn lemma_issued_is_fresh(x: RunnerView, k: nat, id: usize)
    requires
        x.well_formed(),
        id == issued(x.counter, k),
    ensures
        !x.list.contains_key(id),
{
    lemma_issued_is_offset(x.counter, k);
}

/// Reconciling keeps every record under its identifier with its name and crash
/// details; it only stops the crashed ones, so that afterwards no crashed record
/// counts as running. A second pass changes nothing more.
pub proof fn lemma_reconciled(x: RunnerView, k: usize)
    ensures
        x.reconciled().counter == x.counter,
        x.reconciled().remote == x.remote,
        x.reconciled().list.contains_key(k) <==> x.list.contains_key(k),
        x.list.contains_key(k) ==> ({
            let before = x.list[k];
            let after = x.reconciled().list[k];
            &&& after.id == before.id
            &&& after.name == before.name
            &&& after.crash == before.crash
            &&& after.running == (before.running && !before.crash.crashed)
        }),
        x.reconciled().none_crashed_running(),
        x.reconciled().reconciled() == x.reconciled(),
        x.well_formed() ==> x.reconciled().well_formed(),
{
    assert(x.reconciled().reconciled().list =~= x.reconciled().list);
}

} // verus!
