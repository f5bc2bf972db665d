//! What the effects of an operation mean on disk.
//!
//! The files themselves are out of reach of the core, so this module keeps a model
//! of them: what each of the two files holds, and the backups made so far. Running
//! the effects of an operation on the model shows what the operation leaves behind
//! once the caller has carried them out.

use crate::process::RunnerView;
use crate::process::dump::EffectView;
use crate::process::dump::FoundView;
use crate::process::dump::RawView;
use crate::process::dump::durable_read;
use crate::process::dump::memory_commit;
use crate::process::dump::memory_read;
use crate::process::dump::merged_read;
use crate::process::dump::raw_read;
use crate::process::dump::startup;
use crate::process::dump::transient_clear;
use crate::process::dump::transient_commit;
use crate::process::dump::transient_read;
use vstd::prelude::*;

verus! {

/// What is at the path of a file-backed tier.
pub enum Slot {
    /// No file.
    Absent,
    /// A file whose bytes do not decode to a registry.
    Garbled(Seq<u8>),
    /// A file that holds a registry.
    Holds(RunnerView),
}

/// The files of the two file-backed tiers, and the backups of unreadable durable
/// files made so far, oldest first.
#[verifier::ext_equal]
pub struct Disk {
    pub durable: Slot,
    pub transient: Slot,
    pub backups: Seq<Seq<u8>>,
}

impl Slot {
    /// What a caller that looks at this path finds.
    pub open spec fn probe(self) -> FoundView {
        match self {
            Slot::Absent => FoundView::Missing,
            Slot::Garbled(_) => FoundView::Unreadable,
            Slot::Holds(runner) => FoundView::Registry(runner),
        }
    }

    /// The registry that the tier stands for: the one in the file, and the empty one
    /// where there is no file or no readable one.
    pub open spec fn registry(self) -> RunnerView {
        match self {
            Slot::Holds(runner) => runner,
            _ => RunnerView::empty(),
        }
    }
}

impl Disk {
    /// The disk after one effect has been carried out.
    pub open spec fn apply(self, effect: EffectView) -> Disk {
        match effect {
            EffectView::Quarantine => match self.durable {
                Slot::Garbled(bytes) => Disk {
                    durable: Slot::Absent,
                    backups: self.backups.push(bytes),
                    ..self
                },
                _ => self,
            },
            EffectView::WriteDurable(runner) => Disk { durable: Slot::Holds(runner), ..self },
            EffectView::WriteTransient(runner) => Disk { transient: Slot::Holds(runner), ..self },
            EffectView::RemoveTransient => Disk { transient: Slot::Absent, ..self },
        }
    }

    /// The disk after the effects have been carried out, first effect first.
    pub open spec fn run(self, effects: Seq<EffectView>) -> Disk
        decreases effects.len(),
    {
        if effects.len() == 0 {
            self
        } else {
            self.run(effects.drop_last()).apply(effects.last())
        }
    }
}

/// Running a list of effects and then one more is running the longer list.
pub proof fn lemma_run_push(disk: Disk, effects: Seq<EffectView>, last: EffectView)
    ensures
        disk.run(effects.push(last)) == disk.run(effects).apply(last),
{
    assert(effects.push(last).drop_last() =~= effects);
}

/// A backup, once made, stays: no effect deletes or changes one, so whatever is
/// carried out, the backups made before are still there, in their order.
pub proof fn lemma_backups_are_kept(disk: Disk, effects: Seq<EffectView>)
    ensures
        disk.backups.is_prefix_of(disk.run(effects).backups),
    decreases effects.len(),
{
    if effects.len() > 0 {
        lemma_backups_are_kept(disk, effects.drop_last());
    }
}

/// A read of the durable tier always yields the registry that the tier stands for
/// and leaves a durable file that holds exactly that registry. A missing file is
/// created with the empty registry. An unreadable file yields the empty registry;
/// its bytes go to exactly one new backup and a fresh file with the empty registry
/// takes its place. No read touches the transient file or an earlier backup.
pub proof fn lemma_durable_read_heals(disk: Disk)
    ensures
        ({
            let out = durable_read(disk.durable.probe());
            let after = disk.run(out.effects);
            &&& out.registry == disk.durable.registry()
            &&& after.durable == Slot::Holds(disk.durable.registry())
            &&& after.transient == disk.transient
            &&& match disk.durable {
                Slot::Garbled(bytes) => out.registry == RunnerView::empty() && after.backups
                    == disk.backups.push(bytes),
                _ => after.backups == disk.backups,
            }
        }),
{
    let fresh = EffectView::WriteDurable(RunnerView::empty());
    let none = Seq::<EffectView>::empty();
    assert(disk.run(none) == disk);
    match disk.durable {
        Slot::Absent => {
            lemma_run_push(disk, none, fresh);
            assert(durable_read(disk.durable.probe()).effects =~= none.push(fresh));
        },
        Slot::Garbled(bytes) => {
            lemma_run_push(disk, none, EffectView::Quarantine);
            lemma_run_push(disk, none.push(EffectView::Quarantine), fresh);
            assert(durable_read(disk.durable.probe()).effects =~= none.push(
                EffectView::Quarantine,
            ).push(fresh));
        },
        Slot::Holds(runner) => {
            assert(durable_read(disk.durable.probe()).effects =~= none);
        },
    }
}

/// The transient file is optional. A read of the transient tier yields the registry
/// in the file, and the empty registry where the file is missing or unreadable; it
/// never asks for anything to be done on disk, so the disk stays as it is. A read of
/// the durable tier, by contrast, creates the file that is missing.
pub proof fn lemma_transient_read_is_optional(disk: Disk)
    ensures
        transient_read(FoundView::Missing).registry == RunnerView::empty(),
        transient_read(disk.transient.probe()).registry == disk.transient.registry(),
        transient_read(disk.transient.probe()).effects.len() == 0,
        disk.run(transient_read(disk.transient.probe()).effects) == disk,
        disk.durable is Absent ==> disk.run(durable_read(disk.durable.probe()).effects) != disk,
{
    lemma_durable_read_heals(disk);
}

/// After the memory cache has been committed, the durable file holds the registry
/// that the durable tier stood for with the cached registry laid on top. The
/// transient file is as it was.
pub proof fn lemma_commit_memory_reaches_disk(disk: Disk, cache: Option<RunnerView>)
    ensures
        ({
            let out = memory_commit(cache, disk.durable.probe());
            let after = disk.run(out.effects);
            let merged = disk.durable.registry().merge(memory_read(cache));
            &&& out.registry == merged
            &&& after.durable == Slot::Holds(merged)
            &&& after.transient == disk.transient
        }),
{
    let read = durable_read(disk.durable.probe());
    lemma_durable_read_heals(disk);
    lemma_run_push(disk, read.effects, EffectView::WriteDurable(read.registry.merge(memory_read(cache))));
}

/// After the transient file has been committed, the durable file holds the registry
/// that the durable tier stood for with the transient registry laid on top, and
/// there is no transient file any more.
pub proof fn lemma_commit_temp_reaches_disk(disk: Disk)
    ensures
        ({
            let out = transient_commit(disk.durable.probe(), disk.transient.probe());
            let after = disk.run(out.effects);
            let merged = disk.durable.registry().merge(disk.transient.registry());
            &&& out.registry == merged
            &&& after.durable == Slot::Holds(merged)
            &&& after.transient == Slot::Absent
        }),
{
    let read = durable_read(disk.durable.probe());
    let merged = disk.durable.registry().merge(disk.transient.registry());
    let written = read.effects.push(EffectView::WriteDurable(merged));
    lemma_durable_read_heals(disk);
    lemma_run_push(disk, read.effects, EffectView::WriteDurable(merged));
    lemma_run_push(disk, written, EffectView::RemoveTransient);
    if disk.transient is Absent {
        assert(written + transient_clear(disk.transient.probe()) =~= written);
    } else {
        assert(written + transient_clear(disk.transient.probe()) =~= written.push(
            EffectView::RemoveTransient,
        ));
    }
}

/// Clearing the transient tier leaves no transient file, whatever was there, and
/// asks for nothing where there was none. The durable file is not touched.
pub proof fn lemma_clear_temp_removes_the_file(disk: Disk)
    ensures
        disk.run(transient_clear(disk.transient.probe())).transient == Slot::Absent,
        disk.run(transient_clear(disk.transient.probe())).durable == disk.durable,
        disk.run(transient_clear(disk.transient.probe())).backups == disk.backups,
        disk.transient is Absent ==> transient_clear(disk.transient.probe()).len() == 0,
{
    lemma_run_push(disk, seq![], EffectView::RemoveTransient);
}

/// A request for the bytes of a durable file that is not there creates the file
/// with the empty registry, so that the caller finds a file when it looks again.
pub proof fn lemma_raw_bootstraps(disk: Disk)
    requires
        disk.durable is Absent,
    ensures
        raw_read(None) == RawView::Bootstrap(durable_read(disk.durable.probe()).effects),
        disk.run(durable_read(disk.durable.probe()).effects).durable == Slot::Holds(
            RunnerView::empty(),
        ),
{
    lemma_durable_read_heals(disk);
}

/// A merged read commits nothing: it yields the durable registry with the transient
/// and then the cached one on top, and afterwards every tier stands for the registry
/// it stood for before. The transient file is not touched at all.
pub proof fn lemma_read_merged_commits_nothing(disk: Disk, cache: Option<RunnerView>)
    ensures
        ({
            let out = merged_read(cache, disk.durable.probe(), disk.transient.probe());
            let after = disk.run(out.effects);
            &&& out.registry == disk.durable.registry().merge(disk.transient.registry()).merge(
                memory_read(cache),
            )
            &&& after.durable.registry() == disk.durable.registry()
            &&& after.transient == disk.transient
        }),
{
    lemma_durable_read_heals(disk);
}

/// Starting the daemon commits nothing either: the registry it starts from is the
/// durable one with the transient one on top, reconciled; the transient file stays
/// exactly as it was, and the durable tier stands for the registry it stood for.
pub proof fn lemma_startup_keeps_transient(disk: Disk)
    ensures
        ({
            let out = startup(disk.durable.probe(), disk.transient.probe());
            let after = disk.run(out.effects);
            &&& out.registry == disk.durable.registry().merge(
                disk.transient.registry(),
            ).reconciled()
            &&& out.registry.none_crashed_running()
            &&& after.durable.registry() == disk.durable.registry()
            &&& after.transient == disk.transient
        }),
{
    lemma_durable_read_heals(disk);
}

} // verus!
