//! Version history for rollback: the deployed versions, oldest first, and
//! which one is current.
use vstd::prelude::*;
use crate::actor::message::Timestamp;

verus! {

/// The directory, under the repository, that holds the version history.
pub const AGENTOR_DIR: &'static str = ".agentor";

/// The directory, under `AGENTOR_DIR`, that holds one directory of
/// artifacts per version.
pub const VERSIONS_DIR: &'static str = "versions";

/// The file, under `AGENTOR_DIR`, that holds the history.
pub const STATE_FILE: &'static str = "state.json";

/// One deployed version: its commit, when it was backed up, and its
/// artifacts.
#[derive(Debug)]
pub struct Version {
    pub commit: String,
    pub timestamp: Timestamp,
    pub artifacts: Vec<String>,
}

/// The deployment history.
#[derive(Debug)]
pub struct State {
    pub versions: Vec<Version>,
    pub current_version: Option<String>,
}

/// Why a rollback cannot be done.
#[derive(Debug, Clone, Copy, PartialEq, Eq, Structural)]
pub enum RollbackError {
    /// There is no version before the last one.
    NoPreviousVersion,
}

impl RollbackError {
    /// The human-readable form of the error.
    pub fn describe(&self) -> (s: String)
        ensures
            s@ == "No previous version available for rollback"@,
    {
        String::from_str("No previous version available for rollback")
    }
}

/// The number of oldest versions dropped when `len` versions are kept to
/// `keep`.
pub open spec fn excess(len: nat, keep: nat) -> nat {
    if len > keep {
        (len - keep) as nat
    } else {
        0
    }
}

impl State {
    /// An empty history.
    pub fn new() -> (r: Self)
        ensures
            r.versions@.len() == 0,
            r.current_version is None,
    {
        State { versions: Vec::new(), current_version: None }
    }

    /// Adds a backed-up version, makes it current, and keeps only the
    /// newest `keep_versions` versions; returns the dropped ones, oldest
    /// first, whose backups are to be removed.
    pub fn record_backup(&mut self, version: Version, keep_versions: usize) -> (removed: Vec<Version>)
        ensures
            ({
                let all = old(self).versions@.push(version);
                let k = excess(all.len(), keep_versions as nat) as int;
                &&& final(self).versions@ == all.subrange(k, all.len() as int)
                &&& removed@ == all.subrange(0, k)
            }),
            final(self).current_version matches Some(c) && c@ == version.commit@,
    {
        let commit = version.commit.clone();
        self.versions.push(version);
        self.current_version = Some(commit);
        let len = self.versions.len();
        if len > keep_versions {
            let to_remove = len - keep_versions;
            let ghost all = self.versions@;
            let mut kept = self.versions.split_off(to_remove);
            std::mem::swap(&mut kept, &mut self.versions);
            assert(kept@ == all.subrange(0, to_remove as int));
            kept
        } else {
            let ghost all = self.versions@;
            assert(all.subrange(0, all.len() as int) =~= all);
            assert(all.subrange(0, 0) =~= Seq::<Version>::empty());
            Vec::new()
        }
    }

    /// The position of the version to roll back to: the one before the
    /// last; an error when there are fewer than two.
    pub fn rollback_target(&self) -> (r: Result<usize, RollbackError>)
        ensures
            match r {
                Ok(i) => self.versions@.len() >= 2 && i == self.versions@.len() - 2,
                Err(e) => self.versions@.len() < 2 && e == RollbackError::NoPreviousVersion,
            },
    {
        let len = self.versions.len();
        if len < 2 {
            Err(RollbackError::NoPreviousVersion)
        } else {
            Ok(len - 2)
        }
    }

    /// Makes the given commit current.
    pub fn set_current(&mut self, commit: &str)
        ensures
            final(self).current_version matches Some(c) && c@ == commit@,
            final(self).versions@ == old(self).versions@,
    {
        self.current_version = Some(String::from_str(commit));
    }
}

/// The history never holds more than `keep_versions` versions after a
/// backup.
pub proof fn lemma_backup_keeps_at_most(old_versions: Seq<Version>, v: Version, keep: nat)
    ensures
        ({
            let all = old_versions.push(v);
            all.subrange(excess(all.len(), keep) as int, all.len() as int).len() == if all.len() > keep {
                keep
            } else {
                all.len()
            }
        }),
        ({
            let all = old_versions.push(v);
            let kept = all.subrange(excess(all.len(), keep) as int, all.len() as int);
            keep > 0 ==> kept.len() > 0 && kept.last() == v
        }),
{
}

/// After backing up a new version over a history whose newest version is
/// `prev`, a rollback (keeping at least two versions) returns to `prev`.
pub proof fn lemma_rollback_after_backup(old_versions: Seq<Version>, v: Version, keep: nat)
    requires
        old_versions.len() >= 1,
        keep >= 2,
    ensures
        ({
            let all = old_versions.push(v);
            let kept = all.subrange(excess(all.len(), keep) as int, all.len() as int);
            &&& kept.len() >= 2
            &&& kept[kept.len() - 2] == old_versions.last()
        }),
{
}

/// The history after a rollback, as `rollback_target` and `set_current`
/// make it: the same versions, with the one before the last made current;
/// `None` (no change) when there are fewer than two versions.
pub open spec fn rollback_spec(versions: Seq<Version>, current: Option<Seq<char>>) -> Option<(Seq<Version>, Option<Seq<char>>)> {
    if versions.len() < 2 {
        None
    } else {
        Some((versions, Some(versions[versions.len() - 2].commit@)))
    }
}

/// A second rollback leaves the history as the first one left it: it does
/// not step further back.
pub proof fn lemma_rollback_twice(versions: Seq<Version>, current: Option<Seq<char>>)
    ensures
        rollback_spec(versions, current) matches Some((v2, c2)) ==> rollback_spec(v2, c2) == rollback_spec(
            versions,
            current,
        ),
{
}

} // verus!
