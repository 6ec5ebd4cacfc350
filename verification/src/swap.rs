//! Model of the atomic swap protocol: back the live executable up with a
//! same-volume rename, rename the candidate into place, and rename the
//! backup back on failure. The model records what each step does to the
//! three paths involved, and the proofs below show that a completed swap
//! installs exactly the candidate's content, that a failed install followed
//! by a successful rollback restores the original content, and how the
//! scratch area is disposed of.

use vstd::prelude::*;

verus! {

/// The phases of one swap attempt.
#[derive(Clone, Copy, PartialEq, Eq, Structural, Debug)]
pub enum SwapPhase {
    /// Nothing moved yet; the next step renames the target to the backup.
    Initial,
    /// The original is at the backup path; the next step renames the
    /// candidate onto the target path.
    BackedUp,
    /// Install rename failed; the next step renames the backup back onto
    /// the target path.
    RollingBack,
    /// The candidate is installed; terminal.
    Swapped,
    /// The backup rename failed; the target was never touched; terminal.
    BackupFailed,
    /// The install failed and the backup was restored; terminal.
    RolledBack,
    /// Both the install and the rollback rename failed; terminal and not
    /// automatically recoverable.
    DoubleFailure,
}

/// The contents of the three paths a swap touches, plus whether the scratch
/// directory (holding the backup and the staged candidate) still exists.
pub struct SwapFiles {
    /// Content at the live executable's path.
    pub target: Option<Seq<u8>>,
    /// Content at the backup path inside the scratch directory.
    pub backup: Option<Seq<u8>>,
    /// Content at the candidate's path inside the scratch directory.
    pub candidate: Option<Seq<u8>>,
    /// The scratch directory itself exists.
    pub scratch: bool,
}

/// Phase reached after the pending rename reports `ok`.
pub open spec fn swap_next(s: SwapPhase, ok: bool) -> SwapPhase {
    match s {
        SwapPhase::Initial => if ok {
            SwapPhase::BackedUp
        } else {
            SwapPhase::BackupFailed
        },
        SwapPhase::BackedUp => if ok {
            SwapPhase::Swapped
        } else {
            SwapPhase::RollingBack
        },
        SwapPhase::RollingBack => if ok {
            SwapPhase::RolledBack
        } else {
            SwapPhase::DoubleFailure
        },
        _ => s,
    }
}

/// What the pending rename of phase `s` does to the files: a successful
/// rename atomically moves the source content onto the destination path; a
/// failed rename changes nothing.
pub open spec fn swap_files_next(fs: SwapFiles, s: SwapPhase, ok: bool) -> SwapFiles {
    if !ok {
        fs
    } else {
        match s {
            SwapPhase::Initial => SwapFiles { target: None, backup: fs.target, ..fs },
            SwapPhase::BackedUp => SwapFiles { target: fs.candidate, candidate: None, ..fs },
            SwapPhase::RollingBack => SwapFiles { target: fs.backup, backup: None, ..fs },
            _ => fs,
        }
    }
}

/// Disposal of the scratch directory at the end of the attempt: it is
/// deleted — removing the backup and any leftover candidate — unless it
/// must be kept as recovery material.
pub open spec fn swap_cleanup(fs: SwapFiles, remove_scratch: bool) -> SwapFiles {
    if remove_scratch {
        SwapFiles { backup: None, candidate: None, scratch: false, ..fs }
    } else {
        fs
    }
}

/// After a fully successful swap the target path holds exactly the
/// candidate's former content, and once the scratch directory is removed
/// neither the backup nor the staging area exists any more.
pub proof fn lemma_swap_success_installs_candidate(fs0: SwapFiles)
    ensures
        ({
            let s1 = swap_next(SwapPhase::Initial, true);
            let fs1 = swap_files_next(fs0, SwapPhase::Initial, true);
            let s2 = swap_next(s1, true);
            let fs2 = swap_files_next(fs1, s1, true);
            let fs3 = swap_cleanup(fs2, true);
            &&& s2 == SwapPhase::Swapped
            &&& fs2.target == fs0.candidate
            &&& fs3.target == fs0.candidate
            &&& fs3.backup is None
            &&& fs3.candidate is None
            &&& !fs3.scratch
        }),
{
}

/// If the install rename fails after a successful backup and the rollback
/// rename succeeds, the attempt ends rolled back and the target path holds
/// exactly its pre-attempt content.
pub proof fn lemma_swap_rollback_restores_original(fs0: SwapFiles)
    ensures
        ({
            let s1 = swap_next(SwapPhase::Initial, true);
            let fs1 = swap_files_next(fs0, SwapPhase::Initial, true);
            let s2 = swap_next(s1, false);
            let fs2 = swap_files_next(fs1, s1, false);
            let s3 = swap_next(s2, true);
            let fs3 = swap_files_next(fs2, s2, true);
            &&& s3 == SwapPhase::RolledBack
            &&& fs3.target == fs0.target
        }),
{
}

/// A failed rename never changes any file, whatever phase it happens in.
pub proof fn lemma_failed_rename_changes_nothing(fs: SwapFiles, s: SwapPhase)
    ensures
        swap_files_next(fs, s, false) == fs,
{
}

} // verus!
