//! Setting an unreadable durable file aside.
//!
//! The file is moved to a backup path made of its own path and the time of the
//! move. Where it cannot be moved, as across file systems, it is copied and then
//! deleted at its own path. The caller does the work on the files and reports how
//! each step went; what comes next is decided here.

use vstd::prelude::*;
use vstd::string::StringExecFns;

verus! {

/// The text of the moment `secs` seconds after the start of 1970 in UTC, as year,
/// month, day, an underscore, hour, minute and second, each but the year in two
/// digits; `None` where the calendar in use cannot express the moment.
pub uninterp spec fn utc_stamp(secs: i64) -> Option<Seq<char>>;

/// The backup path for the file at `path`, for a backup made at the moment that
/// reads `stamp`.
pub open spec fn backup_name(path: Seq<char>, stamp: Seq<char>) -> Seq<char> {
    path + ".corrupted."@ + stamp
}

/// Calls `chrono::DateTime::from_timestamp` and `chrono::DateTime::format` with the
/// pattern `%Y%m%d_%H%M%S`. The result is taken to depend on `secs` alone: the time
/// is read in UTC, and the pattern holds numbers only, so neither a time zone nor a
/// locale enters. `None` stands for the seconds that `from_timestamp` rejects.
#[verifier::external_body]
fn format_utc_stamp(secs: i64) -> (stamp: Option<String>)
    ensures
        match stamp {
            Some(text) => utc_stamp(secs) == Some(text@),
            None => utc_stamp(secs) is None,
        },
{
    match chrono::DateTime::from_timestamp(secs, 0) {
        Some(at) => Some(at.format("%Y%m%d_%H%M%S").to_string()),
        None => None,
    }
}

/// The backup path for the file at `path` and a backup made at the moment that
/// reads `stamp`.
pub fn backup_path_at(path: &str, stamp: &str) -> (backup: String)
    ensures
        backup@ == backup_name(path@, stamp@),
{
    let mut backup = String::from_str(path);
    backup.append(".corrupted.");
    backup.append(stamp);
    backup
}

/// The backup path for the file at `path` and a backup made `now` seconds after the
/// start of 1970; `None` where that moment has no text.
pub fn backup_path(path: &str, now: i64) -> (backup: Option<String>)
    ensures
        match utc_stamp(now) {
            Some(stamp) => backup matches Some(name) && name@ == backup_name(path@, stamp),
            None => backup is None,
        },
{
    match format_utc_stamp(now) {
        Some(stamp) => Some(backup_path_at(path, stamp.as_str())),
        None => None,
    }
}

/// Where the backup of an unreadable file stands.
#[derive(Debug, PartialEq, Eq, Clone, Copy)]
pub enum BackupStep {
    /// Move the file to the backup path.
    Rename,
    /// The move failed: copy the file to the backup path.
    Copy,
    /// The copy is made: delete the file at its own path.
    Remove,
    /// The file is at the backup path and no longer at its own.
    Saved,
    /// The backup could not be completed.
    Lost,
}

impl BackupStep {
    /// Whether nothing is left to do.
    pub open spec fn is_final(self) -> bool {
        self is Saved || self is Lost
    }

    /// The step that follows once the caller has tried this one, `done` telling
    /// whether it went through.
    pub open spec fn after(self, done: bool) -> BackupStep {
        match self {
            BackupStep::Rename => if done {
                BackupStep::Saved
            } else {
                BackupStep::Copy
            },
            BackupStep::Copy => if done {
                BackupStep::Remove
            } else {
                BackupStep::Lost
            },
            BackupStep::Remove => if done {
                BackupStep::Saved
            } else {
                BackupStep::Lost
            },
            BackupStep::Saved => BackupStep::Saved,
            BackupStep::Lost => BackupStep::Lost,
        }
    }

    /// The step a backup begins with.
    pub fn start() -> (step: BackupStep)
        ensures
            step == BackupStep::Rename,
    {
        BackupStep::Rename
    }

    /// Whether nothing is left to do.
    pub fn finished(&self) -> (done: bool)
        ensures
            done == self.is_final(),
    {
        match self {
            BackupStep::Saved => true,
            BackupStep::Lost => true,
            _ => false,
        }
    }

    /// The step that follows once the caller has tried this one, `done` telling
    /// whether it went through.
    pub fn next(self, done: bool) -> (step: BackupStep)
        ensures
            step == self.after(done),
    {
        match self {
            BackupStep::Rename => if done {
                BackupStep::Saved
            } else {
                BackupStep::Copy
            },
            BackupStep::Copy => if done {
                BackupStep::Remove
            } else {
                BackupStep::Lost
            },
            BackupStep::Remove => if done {
                BackupStep::Saved
            } else {
                BackupStep::Lost
            },
            BackupStep::Saved => BackupStep::Saved,
            BackupStep::Lost => BackupStep::Lost,
        }
    }
}

/// A backup is over after three steps at most, however they go, and it ends saved
/// exactly when the move went through, or the copy and then the deletion did.
pub proof fn lemma_backup_ends(moved: bool, copied: bool, removed: bool)
    ensures
        ({
            let end = BackupStep::Rename.after(moved).after(copied).after(removed);
            &&& end.is_final()
            &&& end is Saved <==> moved || (copied && removed)
            &&& moved ==> BackupStep::Rename.after(moved) is Saved
            &&& !moved && !copied ==> BackupStep::Rename.after(moved).after(copied) is Lost
        }),
{
}

/// Once a backup is over, nothing a caller reports changes how it ended.
pub proof fn lemma_backup_stays_ended(step: BackupStep, done: bool)
    requires
        step.is_final(),
    ensures
        step.after(done) == step,
{
}

} // verus!
