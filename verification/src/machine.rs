//! Update orchestrator: a state machine that drives one update attempt.
//!
//! The machine owns every decision of the pipeline — version resolution,
//! target iteration, candidate location, the health-check gate, the
//! confirmation gate, and the backup/swap/rollback sequence. It never
//! performs I/O itself: each [`Updater::step`] consumes one
//! [`UpdateEvent`] (what the outside world reported) and returns the next
//! [`UpdateAction`] (what the driver must do next). A dry-run request never
//! emits an action that would mutate the target path; that guarantee is part
//! of the contract of [`Updater::step`] and [`BinswapGithub::start_update`].

use vstd::prelude::*;

use crate::BinswapGithub;
use crate::confirm::ConfirmAnswer;
use crate::confirm::classify_confirm_line;
use crate::confirm::confirm_answer_spec;
use crate::locate::BinLocation;
use crate::locate::StagingView;
use crate::locate::expected_bin_name;
use crate::locate::expected_name_spec;
use crate::locate::locate_candidate;
use crate::locate::locate_spec;
use crate::swap::SwapPhase;
use crate::swap::swap_next;
use crate::text::strip_v_spec;
use crate::version::json_tag_name;
use crate::version::resolve_version_from_body;

verus! {

/// The final result of one update attempt.
#[derive(Debug)]
pub enum UpdateOutcome {
    /// The candidate was installed in place of the live executable.
    Updated,
    /// Every step succeeded, but the request was a dry run and nothing was
    /// written.
    DryRunComplete,
    /// The user declined the confirmation prompt; nothing was written.
    Declined,
    /// No enumerated target yielded a matching artifact; nothing changed.
    NotFound,
    /// The latest-release lookup or the fetcher failed outright; carries
    /// the reported error.
    FetchFailure(String),
    /// The latest-release response did not carry a usable `tag_name`;
    /// carries the raw response body for diagnosis.
    VersionResolveFailure(String),
    /// The candidate failed its health check; carries the check command or
    /// the spawn error.
    HealthCheckFailure(String),
    /// The live executable could not be backed up; it was never touched.
    BackupFailure(String),
    /// The install rename failed and the original was restored; carries the
    /// install error.
    RolledBack(String),
    /// The install rename failed and so did the rollback; carries both
    /// errors; the target path may be missing and needs manual recovery.
    DoubleFailure(String, String),
}

impl UpdateOutcome {
    /// Outcomes that end the attempt without anything going wrong.
    pub open spec fn is_success_spec(self) -> bool {
        self is Updated || self is DryRunComplete || self is Declined
    }

    /// Whether the attempt ended without anything going wrong; a declined
    /// prompt and a completed dry run both count as success.
    pub fn is_success(&self) -> (r: bool)
        ensures
            r == self.is_success_spec(),
    {
        match self {
            UpdateOutcome::Updated => true,
            UpdateOutcome::DryRunComplete => true,
            UpdateOutcome::Declined => true,
            _ => false,
        }
    }
}

/// What the machine is waiting for.
#[derive(Debug)]
pub enum UpdateStep {
    /// The latest-release response body.
    AwaitVersionBody,
    /// The auto-detected target list.
    AwaitTargets,
    /// Whether an artifact exists for the current target.
    AwaitFind,
    /// The staged artifact's directory layout for the current target.
    AwaitStaging,
    /// The health-check result for the located candidate.
    AwaitHealthCheck,
    /// One line of input for the confirmation prompt.
    AwaitConfirm,
    /// The result of renaming the target aside to the backup path.
    AwaitBackupRename,
    /// The result of renaming the candidate onto the target path.
    AwaitInstallRename,
    /// The result of renaming the backup back onto the target path.
    AwaitRollbackRename,
    /// The attempt is over.
    Finished(UpdateOutcome),
}

/// What the outside world reported back to the machine.
#[derive(Debug)]
pub enum UpdateEvent {
    /// The latest-release request finished: the response body, or the
    /// request error.
    VersionBody(Result<String, String>),
    /// Platform detection produced this ordered target list.
    TargetsDetected(Vec<String>),
    /// The fetcher reported whether an artifact exists for the current
    /// target, or failed outright.
    FindResult(Result<bool, String>),
    /// The artifact was fetched and extracted, and the staging directory
    /// looks like this; or fetching/extracting failed.
    StagingReady(Result<StagingView, String>),
    /// The health check ran: did the candidate exit cleanly? `Err` means it
    /// could not be spawned at all.
    HealthCheck(Result<bool, String>),
    /// One line read from the confirmation prompt; `None` means input was
    /// closed.
    ConfirmLine(Option<String>),
    /// The rename requested by the previous action succeeded or failed.
    RenameDone(Result<(), String>),
}

/// What the driver must do next.
#[derive(Debug)]
pub enum UpdateAction {
    /// Request the repository's latest-release document.
    FetchLatestVersion,
    /// Auto-detect the ordered list of platform targets.
    DetectTargets,
    /// Ask the fetcher whether an artifact named `asset` at `version`
    /// exists for `target`.
    ProbeTarget {
        /// Release asset name.
        asset: String,
        /// Resolved version.
        version: String,
        /// Platform target identifier.
        target: String,
    },
    /// Fetch and extract the artifact into the staging directory, then
    /// report its layout relative to `file_name`.
    FetchAndStage {
        /// Platform target identifier.
        target: String,
        /// The file name to look for.
        file_name: String,
    },
    /// Spawn the candidate with the single argument `arg` and report its
    /// exit.
    RunHealthCheck {
        /// Where the candidate sits in the staging directory.
        location: BinLocation,
        /// The candidate's file name.
        file_name: String,
        /// The single argument to pass.
        arg: String,
    },
    /// Prompt the user and read one line.
    AskConfirmation,
    /// Atomically rename the target path to the backup path.
    RenameTargetToBackup,
    /// Atomically rename the candidate onto the target path.
    RenameCandidateToTarget {
        /// Where the candidate sits in the staging directory.
        location: BinLocation,
        /// The candidate's file name.
        file_name: String,
    },
    /// Atomically rename the backup back onto the target path.
    RenameBackupToTarget,
    /// The attempt is over; delete the staging/backup scratch directory
    /// unless it must be kept as recovery material.
    Finish {
        /// Whether the scratch directory is to be deleted.
        remove_scratch: bool,
    },
    /// The event did not match what the machine was waiting for; nothing
    /// changed.
    Ignore,
}

/// One update attempt in progress.
#[derive(Debug)]
pub struct Updater {
    /// The request driving this attempt.
    pub req: BinswapGithub,
    /// What the machine is waiting for.
    pub step: UpdateStep,
    /// The resolved version, once known.
    pub version: String,
    /// The ordered target list, once known.
    pub targets: Vec<String>,
    /// Index of the target currently tried.
    pub idx: usize,
    /// Where the candidate was located, once known.
    pub location: BinLocation,
    /// The candidate's file name, once known.
    pub file_name: String,
    /// The install error held while the rollback rename is pending.
    pub install_err: String,
}

/// Actions that mutate the target path.
pub open spec fn action_mutates_target(a: UpdateAction) -> bool {
    a is RenameTargetToBackup || a is RenameCandidateToTarget || a is RenameBackupToTarget
}

/// The swap-protocol phase a machine step corresponds to, for the steps
/// that take part in the swap; the contract of [`Updater::step`] states
/// that rename reports drive this phase exactly as
/// [`crate::swap::swap_next`] says.
pub open spec fn swap_phase_of(s: UpdateStep) -> Option<SwapPhase> {
    match s {
        UpdateStep::AwaitBackupRename => Some(SwapPhase::Initial),
        UpdateStep::AwaitInstallRename => Some(SwapPhase::BackedUp),
        UpdateStep::AwaitRollbackRename => Some(SwapPhase::RollingBack),
        UpdateStep::Finished(o) => match o {
            UpdateOutcome::Updated => Some(SwapPhase::Swapped),
            UpdateOutcome::BackupFailure(_) => Some(SwapPhase::BackupFailed),
            UpdateOutcome::RolledBack(_) => Some(SwapPhase::RolledBack),
            UpdateOutcome::DoubleFailure(_, _) => Some(SwapPhase::DoubleFailure),
            _ => None,
        },
        _ => None,
    }
}

/// The asset name to look for: the explicit one, or the binary name.
pub open spec fn effective_asset(req: BinswapGithub) -> Seq<char> {
    match req.asset_name {
        Some(a) => a@,
        None => req.bin_name@,
    }
}

impl Updater {
    /// The target index is in bounds whenever the machine may still
    /// consult the target list, and a dry-run attempt is never awaiting a
    /// rename.
    pub open spec fn wf(self) -> bool {
        &&& (self.step is AwaitFind || self.step is AwaitStaging) ==> self.idx
            < self.targets@.len()
        &&& self.req.dry_run ==> !(self.step is AwaitBackupRename || self.step
            is AwaitInstallRename || self.step is AwaitRollbackRename)
    }
}

/// All fields of `m` equal those of `m0`, except possibly `step`.
pub open spec fn same_but_step(m0: Updater, m: Updater) -> bool {
    &&& m.req == m0.req
    &&& m.version == m0.version
    &&& m.targets == m0.targets
    &&& m.idx == m0.idx
    &&& m.location == m0.location
    &&& m.file_name == m0.file_name
    &&& m.install_err == m0.install_err
}

/// The machine ignored an event that does not match its step.
pub open spec fn ignored(m0: Updater, m: Updater, a: UpdateAction) -> bool {
    same_but_step(m0, m) && m.step == m0.step && a is Ignore
}

/// The attempt just finished: everything but the step is preserved, the
/// step records the outcome, and the final action disposes of the scratch
/// directory — which is kept only in the double-failure case.
pub open spec fn finished(m0: Updater, m: Updater, a: UpdateAction) -> bool {
    &&& same_but_step(m0, m)
    &&& m.step matches UpdateStep::Finished(o) && a == (UpdateAction::Finish {
        remove_scratch: !(o is DoubleFailure),
    })
}

/// The probe action for target `t` of the request.
pub open spec fn probe_action(req: BinswapGithub, ver: Seq<char>, t: Seq<char>, a: UpdateAction) -> bool {
    a matches UpdateAction::ProbeTarget { asset, version, target } && asset@ == effective_asset(req)
        && version@ == ver && target@ == t
}

/// With version and targets known, the machine either probes target `i` or,
/// when the list is exhausted, finishes with `NotFound`.
pub open spec fn seeking(
    req: BinswapGithub,
    ver: Seq<char>,
    ts: Seq<Seq<char>>,
    i: int,
    m: Updater,
    a: UpdateAction,
) -> bool {
    &&& m.req == req
    &&& m.version@ == ver
    &&& m.targets.deep_view() == ts
    &&& m.wf()
    &&& if i < ts.len() {
        &&& m.idx == i
        &&& m.step is AwaitFind
        &&& probe_action(req, ver, ts[i], a)
    } else {
        &&& m.step matches UpdateStep::Finished(o) && o is NotFound
        &&& a == (UpdateAction::Finish { remove_scratch: true })
    }
}

/// With the version resolved to `ver`, the machine either starts probing
/// the explicit target list or asks for target detection.
pub open spec fn after_version(req: BinswapGithub, ver: Seq<char>, m: Updater, a: UpdateAction) -> bool {
    match req.targets {
        Some(ts) => seeking(req, ver, ts.deep_view(), 0, m, a),
        None => {
            &&& m.req == req
            &&& m.version@ == ver
            &&& m.step is AwaitTargets
            &&& a is DetectTargets
        },
    }
}

/// A candidate passed every remaining gate before confirmation: ask the
/// user, unless confirmation is waived, in which case enter the swap.
pub open spec fn gate_confirm(m0: Updater, m: Updater, a: UpdateAction) -> bool {
    if !m0.req.no_confirm {
        same_but_step(m0, m) && m.step is AwaitConfirm && a is AskConfirmation
    } else {
        enter_swap(m0, m, a)
    }
}

/// The update is approved: a dry run finishes successfully without any
/// rename; otherwise the backup rename starts the swap.
pub open spec fn enter_swap(m0: Updater, m: Updater, a: UpdateAction) -> bool {
    if m0.req.dry_run {
        &&& same_but_step(m0, m)
        &&& m.step matches UpdateStep::Finished(o) && o is DryRunComplete
        &&& a == (UpdateAction::Finish { remove_scratch: true })
    } else {
        same_but_step(m0, m) && m.step is AwaitBackupRename && a is RenameTargetToBackup
    }
}

/// A candidate was located at `loc`: run the health check, unless it is
/// waived, in which case go on to confirmation.
pub open spec fn candidate_found(m0: Updater, loc: BinLocation, m: Updater, a: UpdateAction) -> bool {
    &&& m.location == loc
    &&& if !m0.req.no_check_with_cmd {
        &&& m.req == m0.req
        &&& m.version == m0.version
        &&& m.targets == m0.targets
        &&& m.idx == m0.idx
        &&& m.file_name == m0.file_name
        &&& m.install_err == m0.install_err
        &&& m.step is AwaitHealthCheck
        &&& a matches UpdateAction::RunHealthCheck { location, file_name, arg } && location == loc
            && file_name@ == m0.file_name@ && arg@ == m0.req.check_with_cmd@
    } else {
        gate_confirm(Updater { location: loc, ..m0 }, m, a)
    }
}

/// Clones a list of target strings.
fn clone_string_vec(v: &Vec<String>) -> (r: Vec<String>)
    ensures
        r@ == v@,
{
    let mut r: Vec<String> = Vec::new();
    let n = v.len();
    let mut i: usize = 0;
    while i < n
        invariant
            i <= n,
            n == v@.len(),
            r@ =~= v@.subrange(0, i as int),
        decreases n - i,
    {
        r.push(v[i].clone());
        proof {
            assert(v@.subrange(0, i + 1) =~= v@.subrange(0, i as int).push(v@[i as int]));
        }
        i = i + 1;
    }
    proof {
        assert(r@ =~= v@);
    }
    r
}

/// Probes target `i`, or finishes with `NotFound` when the list is
/// exhausted.
fn seek(m: Updater, i: usize) -> (r: (Updater, UpdateAction))
    requires
        i <= m.targets@.len(),
    ensures
        seeking(m.req, m.version@, m.targets.deep_view(), i as int, r.0, r.1),
        !action_mutates_target(r.1),
{
    if i < m.targets.len() {
        let target = m.targets[i].clone();
        let asset = match &m.req.asset_name {
            Some(a) => a.clone(),
            None => m.req.bin_name.clone(),
        };
        let version = m.version.clone();
        let m2 = Updater { step: UpdateStep::AwaitFind, idx: i, ..m };
        proof {
            assert(m2.targets.deep_view()[i as int] == m2.targets@[i as int]@);
        }
        (m2, UpdateAction::ProbeTarget { asset, version, target })
    } else {
        let m2 = Updater { step: UpdateStep::Finished(UpdateOutcome::NotFound), ..m };
        (m2, UpdateAction::Finish { remove_scratch: true })
    }
}

/// Starts probing the request's explicit targets, or asks for detection.
fn proceed_targets(m: Updater) -> (r: (Updater, UpdateAction))
    ensures
        after_version(m.req, m.version@, r.0, r.1),
        !action_mutates_target(r.1),
{
    let explicit = match &m.req.targets {
        Some(ts) => Some(clone_string_vec(ts)),
        None => None,
    };
    match explicit {
        Some(ts) => {
            let m2 = Updater { targets: ts, ..m };
            seek(m2, 0)
        },
        None => (Updater { step: UpdateStep::AwaitTargets, ..m }, UpdateAction::DetectTargets),
    }
}

impl BinswapGithub {
    /// Begins one update attempt: resolves an explicit version (stripping
    /// any leading `v`) and starts the pipeline, or asks for the latest
    /// release first. Returns the machine and the first action to perform.
    /// A dry-run request never receives a target-mutating action.
    pub fn start_update(self) -> (r: (Updater, UpdateAction))
        ensures
            r.0.wf(),
            r.0.req == self,
            !action_mutates_target(r.1),
            match self.version {
                Some(v) => after_version(self, strip_v_spec(v@), r.0, r.1),
                None => r.0.step is AwaitVersionBody && r.1 is FetchLatestVersion,
            },
    {
        let version: String = match &self.version {
            Some(v) => crate::text::strip_v_prefix(v.as_str()),
            None => String::new(),
        };
        let version_known = self.version.is_some();
        let m = Updater {
            req: self,
            step: UpdateStep::AwaitVersionBody,
            version,
            targets: Vec::new(),
            idx: 0,
            location: BinLocation::AtRoot,
            file_name: String::new(),
            install_err: String::new(),
        };
        if version_known {
            proceed_targets(m)
        } else {
            (m, UpdateAction::FetchLatestVersion)
        }
    }
}

impl Updater {
    /// Consumes one event and decides the next action. The contract walks
    /// the whole pipeline: version resolution, target iteration, candidate
    /// location, the health-check and confirmation gates, and the
    /// backup/install/rollback rename sequence. A dry-run request never
    /// receives a target-mutating action, whatever the event.
    pub fn step(self, ev: UpdateEvent) -> (r: (Updater, UpdateAction))
        requires
            self.wf(),
        ensures
            r.0.wf(),
            r.0.req == self.req,
            self.req.dry_run ==> !action_mutates_target(r.1),
            swap_phase_of(self.step) matches Some(p) ==> (ev matches UpdateEvent::RenameDone(res)
                ==> swap_phase_of(r.0.step) == Some(swap_next(p, res is Ok))),
            ({
                let m = r.0;
                let a = r.1;
                match self.step {
                    UpdateStep::AwaitVersionBody => match ev {
                        UpdateEvent::VersionBody(res) => match res {
                            Ok(body) => match json_tag_name(body@) {
                                Some(tag) => after_version(self.req, strip_v_spec(tag), m, a),
                                None => finished(self, m, a) && (m.step matches UpdateStep::Finished(
                                    UpdateOutcome::VersionResolveFailure(b),
                                ) && b@ == body@),
                            },
                            Err(e) => finished(self, m, a) && (m.step matches UpdateStep::Finished(
                                UpdateOutcome::FetchFailure(s),
                            ) && s@ == e@),
                        },
                        _ => ignored(self, m, a),
                    },
                    UpdateStep::AwaitTargets => match ev {
                        UpdateEvent::TargetsDetected(ts) => seeking(
                            self.req,
                            self.version@,
                            ts.deep_view(),
                            0,
                            m,
                            a,
                        ),
                        _ => ignored(self, m, a),
                    },
                    UpdateStep::AwaitFind => match ev {
                        UpdateEvent::FindResult(res) => match res {
                            Ok(true) => {
                                &&& m.req == self.req
                                &&& m.version == self.version
                                &&& m.targets == self.targets
                                &&& m.idx == self.idx
                                &&& m.location == self.location
                                &&& m.install_err == self.install_err
                                &&& m.step is AwaitStaging
                                &&& m.file_name@ == expected_name_spec(
                                    self.req.bin_name@,
                                    self.targets.deep_view()[self.idx as int],
                                )
                                &&& a matches UpdateAction::FetchAndStage { target, file_name }
                                    && target@ == self.targets.deep_view()[self.idx as int]
                                    && file_name@ == m.file_name@
                            },
                            Ok(false) => seeking(
                                self.req,
                                self.version@,
                                self.targets.deep_view(),
                                self.idx + 1,
                                m,
                                a,
                            ),
                            Err(e) => finished(self, m, a) && (m.step matches UpdateStep::Finished(
                                UpdateOutcome::FetchFailure(s),
                            ) && s@ == e@),
                        },
                        _ => ignored(self, m, a),
                    },
                    UpdateStep::AwaitStaging => match ev {
                        UpdateEvent::StagingReady(res) => match res {
                            Ok(sv) => match locate_spec(sv.root_has_file, sv.subdirs@) {
                                Some(loc) => candidate_found(self, loc, m, a),
                                None => seeking(
                                    self.req,
                                    self.version@,
                                    self.targets.deep_view(),
                                    self.idx + 1,
                                    m,
                                    a,
                                ),
                            },
                            Err(e) => finished(self, m, a) && (m.step matches UpdateStep::Finished(
                                UpdateOutcome::FetchFailure(s),
                            ) && s@ == e@),
                        },
                        _ => ignored(self, m, a),
                    },
                    UpdateStep::AwaitHealthCheck => match ev {
                        UpdateEvent::HealthCheck(res) => match res {
                            Ok(true) => gate_confirm(self, m, a),
                            Ok(false) => finished(self, m, a) && (m.step
                                matches UpdateStep::Finished(UpdateOutcome::HealthCheckFailure(s))
                                && s@ == self.req.check_with_cmd@),
                            Err(e) => finished(self, m, a) && (m.step matches UpdateStep::Finished(
                                UpdateOutcome::HealthCheckFailure(s),
                            ) && s@ == e@),
                        },
                        _ => ignored(self, m, a),
                    },
                    UpdateStep::AwaitConfirm => match ev {
                        UpdateEvent::ConfirmLine(opt) => match opt {
                            Some(line) => match confirm_answer_spec(line@) {
                                ConfirmAnswer::Approve => enter_swap(self, m, a),
                                ConfirmAnswer::Decline => finished(self, m, a) && (m.step
                                    matches UpdateStep::Finished(o) && o is Declined),
                                ConfirmAnswer::Repeat => same_but_step(self, m) && m.step
                                    is AwaitConfirm && a is AskConfirmation,
                            },
                            None => finished(self, m, a) && (m.step matches UpdateStep::Finished(o)
                                && o is Declined),
                        },
                        _ => ignored(self, m, a),
                    },
                    UpdateStep::AwaitBackupRename => match ev {
                        UpdateEvent::RenameDone(res) => match res {
                            Ok(_) => {
                                &&& same_but_step(self, m)
                                &&& m.step is AwaitInstallRename
                                &&& a matches UpdateAction::RenameCandidateToTarget {
                                    location,
                                    file_name,
                                } && location == self.location && file_name@ == self.file_name@
                            },
                            Err(e) => finished(self, m, a) && (m.step matches UpdateStep::Finished(
                                UpdateOutcome::BackupFailure(s),
                            ) && s@ == e@),
                        },
                        _ => ignored(self, m, a),
                    },
                    UpdateStep::AwaitInstallRename => match ev {
                        UpdateEvent::RenameDone(res) => match res {
                            Ok(_) => finished(self, m, a) && (m.step matches UpdateStep::Finished(o)
                                && o is Updated),
                            Err(e) => {
                                &&& m.req == self.req
                                &&& m.version == self.version
                                &&& m.targets == self.targets
                                &&& m.idx == self.idx
                                &&& m.location == self.location
                                &&& m.file_name == self.file_name
                                &&& m.install_err@ == e@
                                &&& m.step is AwaitRollbackRename
                                &&& a is RenameBackupToTarget
                            },
                        },
                        _ => ignored(self, m, a),
                    },
                    UpdateStep::AwaitRollbackRename => match ev {
                        UpdateEvent::RenameDone(res) => match res {
                            Ok(_) => finished(self, m, a) && (m.step matches UpdateStep::Finished(
                                UpdateOutcome::RolledBack(s),
                            ) && s@ == self.install_err@),
                            Err(e2) => finished(self, m, a) && (m.step
                                matches UpdateStep::Finished(UpdateOutcome::DoubleFailure(s1, s2))
                                && s1@ == self.install_err@ && s2@ == e2@),
                        },
                        _ => ignored(self, m, a),
                    },
                    UpdateStep::Finished(_) => ignored(self, m, a),
                }
            }),
    {
        let Updater { req, step, version, targets, idx, location, file_name, install_err } = self;
        match step {
            UpdateStep::AwaitVersionBody => match ev {
                UpdateEvent::VersionBody(res) => match res {
                    Ok(body) => {
                        let m = Updater {
                            req,
                            step: UpdateStep::AwaitVersionBody,
                            version,
                            targets,
                            idx,
                            location,
                            file_name,
                            install_err,
                        };
                        match resolve_version_from_body(body.as_str()) {
                            Some(v) => proceed_targets(Updater { version: v, ..m }),
                            None => (
                                Updater {
                                    step: UpdateStep::Finished(
                                        UpdateOutcome::VersionResolveFailure(body),
                                    ),
                                    ..m
                                },
                                UpdateAction::Finish { remove_scratch: true },
                            ),
                        }
                    },
                    Err(e) => (
                        Updater {
                            req,
                            step: UpdateStep::Finished(UpdateOutcome::FetchFailure(e)),
                            version,
                            targets,
                            idx,
                            location,
                            file_name,
                            install_err,
                        },
                        UpdateAction::Finish { remove_scratch: true },
                    ),
                },
                _ => (
                    Updater {
                        req,
                        step: UpdateStep::AwaitVersionBody,
                        version,
                        targets,
                        idx,
                        location,
                        file_name,
                        install_err,
                    },
                    UpdateAction::Ignore,
                ),
            },
            UpdateStep::AwaitTargets => match ev {
                UpdateEvent::TargetsDetected(ts) => {
                    let m = Updater {
                        req,
                        step: UpdateStep::AwaitTargets,
                        version,
                        targets: ts,
                        idx,
                        location,
                        file_name,
                        install_err,
                    };
                    seek(m, 0)
                },
                _ => (
                    Updater {
                        req,
                        step: UpdateStep::AwaitTargets,
                        version,
                        targets,
                        idx,
                        location,
                        file_name,
                        install_err,
                    },
                    UpdateAction::Ignore,
                ),
            },
            UpdateStep::AwaitFind => match ev {
                UpdateEvent::FindResult(res) => match res {
                    Ok(true) => {
                        let target = targets[idx].clone();
                        let new_name = expected_bin_name(&req.bin_name, target.as_str());
                        let action_name = new_name.clone();
                        proof {
                            assert(targets.deep_view()[idx as int] == targets@[idx as int]@);
                        }
                        (
                            Updater {
                                req,
                                step: UpdateStep::AwaitStaging,
                                version,
                                targets,
                                idx,
                                location,
                                file_name: new_name,
                                install_err,
                            },
                            UpdateAction::FetchAndStage { target, file_name: action_name },
                        )
                    },
                    Ok(false) => {
                        let m = Updater {
                            req,
                            step: UpdateStep::AwaitFind,
                            version,
                            targets,
                            idx,
                            location,
                            file_name,
                            install_err,
                        };
                        let n = m.targets.len();
                        assert(idx < n);
                        seek(m, idx + 1)
                    },
                    Err(e) => (
                        Updater {
                            req,
                            step: UpdateStep::Finished(UpdateOutcome::FetchFailure(e)),
                            version,
                            targets,
                            idx,
                            location,
                            file_name,
                            install_err,
                        },
                        UpdateAction::Finish { remove_scratch: true },
                    ),
                },
                _ => (
                    Updater {
                        req,
                        step: UpdateStep::AwaitFind,
                        version,
                        targets,
                        idx,
                        location,
                        file_name,
                        install_err,
                    },
                    UpdateAction::Ignore,
                ),
            },
            UpdateStep::AwaitStaging => match ev {
                UpdateEvent::StagingReady(res) => match res {
                    Ok(sv) => {
                        let m = Updater {
                            req,
                            step: UpdateStep::AwaitStaging,
                            version,
                            targets,
                            idx,
                            location,
                            file_name,
                            install_err,
                        };
                        match locate_candidate(&sv) {
                            Some(loc) => {
                                let m1 = Updater { location: loc, ..m };
                                if !m1.req.no_check_with_cmd {
                                    let arg = m1.req.check_with_cmd.clone();
                                    let fname = m1.file_name.clone();
                                    (
                                        Updater { step: UpdateStep::AwaitHealthCheck, ..m1 },
                                        UpdateAction::RunHealthCheck {
                                            location: loc,
                                            file_name: fname,
                                            arg,
                                        },
                                    )
                                } else {
                                    gate_confirm_exec(m1)
                                }
                            },
                            None => {
                                let n = m.targets.len();
                                assert(idx < n);
                                seek(m, idx + 1)
                            },
                        }
                    },
                    Err(e) => (
                        Updater {
                            req,
                            step: UpdateStep::Finished(UpdateOutcome::FetchFailure(e)),
                            version,
                            targets,
                            idx,
                            location,
                            file_name,
                            install_err,
                        },
                        UpdateAction::Finish { remove_scratch: true },
                    ),
                },
                _ => (
                    Updater {
                        req,
                        step: UpdateStep::AwaitStaging,
                        version,
                        targets,
                        idx,
                        location,
                        file_name,
                        install_err,
                    },
                    UpdateAction::Ignore,
                ),
            },
            UpdateStep::AwaitHealthCheck => match ev {
                UpdateEvent::HealthCheck(res) => {
                    let m = Updater {
                        req,
                        step: UpdateStep::AwaitHealthCheck,
                        version,
                        targets,
                        idx,
                        location,
                        file_name,
                        install_err,
                    };
                    match res {
                        Ok(true) => gate_confirm_exec(m),
                        Ok(false) => {
                            let cmd = m.req.check_with_cmd.clone();
                            (
                                Updater {
                                    step: UpdateStep::Finished(
                                        UpdateOutcome::HealthCheckFailure(cmd),
                                    ),
                                    ..m
                                },
                                UpdateAction::Finish { remove_scratch: true },
                            )
                        },
                        Err(e) => (
                            Updater {
                                step: UpdateStep::Finished(UpdateOutcome::HealthCheckFailure(e)),
                                ..m
                            },
                            UpdateAction::Finish { remove_scratch: true },
                        ),
                    }
                },
                _ => (
                    Updater {
                        req,
                        step: UpdateStep::AwaitHealthCheck,
                        version,
                        targets,
                        idx,
                        location,
                        file_name,
                        install_err,
                    },
                    UpdateAction::Ignore,
                ),
            },
            UpdateStep::AwaitConfirm => match ev {
                UpdateEvent::ConfirmLine(opt) => {
                    let m = Updater {
                        req,
                        step: UpdateStep::AwaitConfirm,
                        version,
                        targets,
                        idx,
                        location,
                        file_name,
                        install_err,
                    };
                    match opt {
                        Some(line) => match classify_confirm_line(line.as_str()) {
                            ConfirmAnswer::Approve => enter_swap_exec(m),
                            ConfirmAnswer::Decline => (
                                Updater {
                                    step: UpdateStep::Finished(UpdateOutcome::Declined),
                                    ..m
                                },
                                UpdateAction::Finish { remove_scratch: true },
                            ),
                            ConfirmAnswer::Repeat => (m, UpdateAction::AskConfirmation),
                        },
                        None => (
                            Updater { step: UpdateStep::Finished(UpdateOutcome::Declined), ..m },
                            UpdateAction::Finish { remove_scratch: true },
                        ),
                    }
                },
                _ => (
                    Updater {
                        req,
                        step: UpdateStep::AwaitConfirm,
                        version,
                        targets,
                        idx,
                        location,
                        file_name,
                        install_err,
                    },
                    UpdateAction::Ignore,
                ),
            },
            UpdateStep::AwaitBackupRename => match ev {
                UpdateEvent::RenameDone(res) => {
                    let m = Updater {
                        req,
                        step: UpdateStep::AwaitBackupRename,
                        version,
                        targets,
                        idx,
                        location,
                        file_name,
                        install_err,
                    };
                    match res {
                        Ok(_) => {
                            let loc = m.location;
                            let fname = m.file_name.clone();
                            (
                                Updater { step: UpdateStep::AwaitInstallRename, ..m },
                                UpdateAction::RenameCandidateToTarget {
                                    location: loc,
                                    file_name: fname,
                                },
                            )
                        },
                        Err(e) => (
                            Updater {
                                step: UpdateStep::Finished(UpdateOutcome::BackupFailure(e)),
                                ..m
                            },
                            UpdateAction::Finish { remove_scratch: true },
                        ),
                    }
                },
                _ => (
                    Updater {
                        req,
                        step: UpdateStep::AwaitBackupRename,
                        version,
                        targets,
                        idx,
                        location,
                        file_name,
                        install_err,
                    },
                    UpdateAction::Ignore,
                ),
            },
            UpdateStep::AwaitInstallRename => match ev {
                UpdateEvent::RenameDone(res) => {
                    let m = Updater {
                        req,
                        step: UpdateStep::AwaitInstallRename,
                        version,
                        targets,
                        idx,
                        location,
                        file_name,
                        install_err,
                    };
                    match res {
                        Ok(_) => (
                            Updater { step: UpdateStep::Finished(UpdateOutcome::Updated), ..m },
                            UpdateAction::Finish { remove_scratch: true },
                        ),
                        Err(e) => (
                            Updater {
                                step: UpdateStep::AwaitRollbackRename,
                                install_err: e,
                                ..m
                            },
                            UpdateAction::RenameBackupToTarget,
                        ),
                    }
                },
                _ => (
                    Updater {
                        req,
                        step: UpdateStep::AwaitInstallRename,
                        version,
                        targets,
                        idx,
                        location,
                        file_name,
                        install_err,
                    },
                    UpdateAction::Ignore,
                ),
            },
            UpdateStep::AwaitRollbackRename => match ev {
                UpdateEvent::RenameDone(res) => {
                    let m = Updater {
                        req,
                        step: UpdateStep::AwaitRollbackRename,
                        version,
                        targets,
                        idx,
                        location,
                        file_name,
                        install_err,
                    };
                    match res {
                        Ok(_) => {
                            let ierr = m.install_err.clone();
                            (
                                Updater {
                                    step: UpdateStep::Finished(UpdateOutcome::RolledBack(ierr)),
                                    ..m
                                },
                                UpdateAction::Finish { remove_scratch: true },
                            )
                        },
                        Err(e2) => {
                            let ierr = m.install_err.clone();
                            (
                                Updater {
                                    step: UpdateStep::Finished(
                                        UpdateOutcome::DoubleFailure(ierr, e2),
                                    ),
                                    ..m
                                },
                                UpdateAction::Finish { remove_scratch: false },
                            )
                        },
                    }
                },
                _ => (
                    Updater {
                        req,
                        step: UpdateStep::AwaitRollbackRename,
                        version,
                        targets,
                        idx,
                        location,
                        file_name,
                        install_err,
                    },
                    UpdateAction::Ignore,
                ),
            },
            UpdateStep::Finished(o) => (
                Updater {
                    req,
                    step: UpdateStep::Finished(o),
                    version,
                    targets,
                    idx,
                    location,
                    file_name,
                    install_err,
                },
                UpdateAction::Ignore,
            ),
        }
    }
}

/// Confirmation gate: ask the user, or enter the swap when confirmation is
/// waived.
fn gate_confirm_exec(m: Updater) -> (r: (Updater, UpdateAction))
    ensures
        gate_confirm(m, r.0, r.1),
        r.0.wf(),
        r.0.req == m.req,
        m.req.dry_run ==> !action_mutates_target(r.1),
{
    if !m.req.no_confirm {
        (Updater { step: UpdateStep::AwaitConfirm, ..m }, UpdateAction::AskConfirmation)
    } else {
        enter_swap_exec(m)
    }
}

/// Approval granted: finish a dry run untouched, or start the backup
/// rename.
fn enter_swap_exec(m: Updater) -> (r: (Updater, UpdateAction))
    ensures
        enter_swap(m, r.0, r.1),
        r.0.wf(),
        r.0.req == m.req,
        m.req.dry_run ==> !action_mutates_target(r.1),
{
    if m.req.dry_run {
        (
            Updater { step: UpdateStep::Finished(UpdateOutcome::DryRunComplete), ..m },
            UpdateAction::Finish { remove_scratch: true },
        )
    } else {
        (Updater { step: UpdateStep::AwaitBackupRename, ..m }, UpdateAction::RenameTargetToBackup)
    }
}

} // verus!
