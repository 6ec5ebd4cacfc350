use binswap_github::builder;
use binswap_github::locate::{BinLocation, StagingView, SubdirEntry};
use binswap_github::machine::{UpdateAction, UpdateEvent, UpdateOutcome, UpdateStep, Updater};

/// A tiny filesystem stand-in for one attempt: contents at the target path,
/// the backup path and the candidate path, plus the scratch directory.
struct SimFs {
    target: Option<&'static str>,
    backup: Option<&'static str>,
    candidate: Option<&'static str>,
    scratch: bool,
}

impl SimFs {
    fn new() -> Self {
        SimFs { target: Some("old-binary"), backup: None, candidate: Some("new-binary"), scratch: true }
    }

    /// Applies a successful rename or scratch disposal; panics when the
    /// driver is asked to rename without the machine having requested it.
    fn apply(&mut self, a: &UpdateAction) {
        match a {
            UpdateAction::RenameTargetToBackup => {
                self.backup = self.target.take();
            }
            UpdateAction::RenameCandidateToTarget { .. } => {
                self.target = self.candidate.take();
            }
            UpdateAction::RenameBackupToTarget => {
                self.target = self.backup.take();
            }
            UpdateAction::Finish { remove_scratch } => {
                if *remove_scratch {
                    self.backup = None;
                    self.candidate = None;
                    self.scratch = false;
                }
            }
            _ => {}
        }
    }
}

fn mutates_target(a: &UpdateAction) -> bool {
    matches!(
        a,
        UpdateAction::RenameTargetToBackup
            | UpdateAction::RenameCandidateToTarget { .. }
            | UpdateAction::RenameBackupToTarget
    )
}

fn passing_staging() -> StagingView {
    StagingView { root_has_file: true, subdirs: vec![SubdirEntry { is_dir: true, has_file: true }] }
}

fn linux_request(no_confirm: bool, dry_run: bool) -> binswap_github::BinswapGithub {
    builder()
        .repo_author("acme")
        .repo_name("tool")
        .bin_name("tool")
        .version("13.0.0")
        .add_target("linux-x64")
        .no_confirm(no_confirm)
        .dry_run(dry_run)
        .build()
        .unwrap()
}

#[test]
fn successful_swap_installs_candidate_and_removes_scratch() {
    // Stub fetcher finds and stages a passing executable; no confirmation.
    let mut fs = SimFs::new();
    let (m, a) = linux_request(true, false).start_update();
    match &a {
        UpdateAction::ProbeTarget { asset, version, target } => {
            assert_eq!(asset, "tool");
            assert_eq!(version, "13.0.0");
            assert_eq!(target, "linux-x64");
        }
        other => panic!("expected probe, got {:?}", other),
    }
    let (m, a) = m.step(UpdateEvent::FindResult(Ok(true)));
    match &a {
        UpdateAction::FetchAndStage { target, file_name } => {
            assert_eq!(target, "linux-x64");
            assert_eq!(file_name, "tool");
        }
        other => panic!("expected staging, got {:?}", other),
    }
    let (m, a) = m.step(UpdateEvent::StagingReady(Ok(passing_staging())));
    match &a {
        UpdateAction::RunHealthCheck { location, file_name, arg } => {
            assert_eq!(*location, BinLocation::AtRoot);
            assert_eq!(file_name, "tool");
            assert_eq!(arg, "--help");
        }
        other => panic!("expected health check, got {:?}", other),
    }
    let (m, a) = m.step(UpdateEvent::HealthCheck(Ok(true)));
    assert!(matches!(a, UpdateAction::RenameTargetToBackup));
    fs.apply(&a);
    let (m, a) = m.step(UpdateEvent::RenameDone(Ok(())));
    assert!(matches!(a, UpdateAction::RenameCandidateToTarget { .. }));
    fs.apply(&a);
    let (m, a) = m.step(UpdateEvent::RenameDone(Ok(())));
    assert!(matches!(a, UpdateAction::Finish { remove_scratch: true }));
    fs.apply(&a);
    assert!(matches!(&m.step, UpdateStep::Finished(UpdateOutcome::Updated)));
    // The target now holds exactly the candidate's content, and the
    // backup/staging scratch area no longer exists.
    assert_eq!(fs.target, Some("new-binary"));
    assert_eq!(fs.backup, None);
    assert_eq!(fs.candidate, None);
    assert!(!fs.scratch);
}

#[test]
fn absent_artifact_for_only_target_reports_not_found() {
    let (m, _) = linux_request(true, false).start_update();
    let (m, a) = m.step(UpdateEvent::FindResult(Ok(false)));
    assert!(matches!(a, UpdateAction::Finish { remove_scratch: true }));
    match &m.step {
        UpdateStep::Finished(o) => {
            assert!(matches!(o, UpdateOutcome::NotFound));
            assert!(!o.is_success());
        }
        other => panic!("expected finished, got {:?}", other),
    }
}

#[test]
fn failing_health_check_aborts_without_touching_target() {
    let (m, a) = linux_request(true, false).start_update();
    let mut saw_mutation = mutates_target(&a);
    let (m, a) = m.step(UpdateEvent::FindResult(Ok(true)));
    saw_mutation = saw_mutation || mutates_target(&a);
    let (m, a) = m.step(UpdateEvent::StagingReady(Ok(passing_staging())));
    saw_mutation = saw_mutation || mutates_target(&a);
    let (m, a) = m.step(UpdateEvent::HealthCheck(Ok(false)));
    saw_mutation = saw_mutation || mutates_target(&a);
    assert!(!saw_mutation);
    match &m.step {
        UpdateStep::Finished(UpdateOutcome::HealthCheckFailure(cmd)) => {
            assert_eq!(cmd, "--help");
        }
        other => panic!("expected health-check failure, got {:?}", other),
    }
}

#[test]
fn double_rename_failure_carries_both_errors_and_keeps_scratch() {
    let mut fs = SimFs::new();
    let (m, _) = linux_request(true, false).start_update();
    let (m, _) = m.step(UpdateEvent::FindResult(Ok(true)));
    let (m, _) = m.step(UpdateEvent::StagingReady(Ok(passing_staging())));
    let (m, a) = m.step(UpdateEvent::HealthCheck(Ok(true)));
    fs.apply(&a);
    let (m, _) = m.step(UpdateEvent::RenameDone(Ok(())));
    // Install rename fails, and so does the rollback rename.
    let (m, a) = m.step(UpdateEvent::RenameDone(Err(String::from("install boom"))));
    assert!(matches!(a, UpdateAction::RenameBackupToTarget));
    let (m, a) = m.step(UpdateEvent::RenameDone(Err(String::from("rollback boom"))));
    assert!(matches!(a, UpdateAction::Finish { remove_scratch: false }));
    fs.apply(&a);
    match &m.step {
        UpdateStep::Finished(UpdateOutcome::DoubleFailure(e1, e2)) => {
            assert_eq!(e1, "install boom");
            assert_eq!(e2, "rollback boom");
        }
        other => panic!("expected double failure, got {:?}", other),
    }
    // The scratch directory, the only remaining recovery material, stays.
    assert!(fs.scratch);
    assert_eq!(fs.backup, Some("old-binary"));
}

#[test]
fn failed_install_rolls_back_to_original_content() {
    let mut fs = SimFs::new();
    let (m, _) = linux_request(true, false).start_update();
    let (m, _) = m.step(UpdateEvent::FindResult(Ok(true)));
    let (m, _) = m.step(UpdateEvent::StagingReady(Ok(passing_staging())));
    let (m, a) = m.step(UpdateEvent::HealthCheck(Ok(true)));
    fs.apply(&a);
    let (m, a) = m.step(UpdateEvent::RenameDone(Ok(())));
    assert!(matches!(a, UpdateAction::RenameCandidateToTarget { .. }));
    // The install rename fails; the rollback rename succeeds.
    let (m, a) = m.step(UpdateEvent::RenameDone(Err(String::from("no space"))));
    assert!(matches!(a, UpdateAction::RenameBackupToTarget));
    fs.apply(&a);
    let (m, a) = m.step(UpdateEvent::RenameDone(Ok(())));
    assert!(matches!(a, UpdateAction::Finish { remove_scratch: true }));
    fs.apply(&a);
    match &m.step {
        UpdateStep::Finished(UpdateOutcome::RolledBack(e)) => assert_eq!(e, "no space"),
        other => panic!("expected rolled back, got {:?}", other),
    }
    assert_eq!(fs.target, Some("old-binary"));
}

#[test]
fn failed_backup_leaves_target_untouched() {
    let mut fs = SimFs::new();
    let (m, _) = linux_request(true, false).start_update();
    let (m, _) = m.step(UpdateEvent::FindResult(Ok(true)));
    let (m, _) = m.step(UpdateEvent::StagingReady(Ok(passing_staging())));
    let (m, _) = m.step(UpdateEvent::HealthCheck(Ok(true)));
    // The backup rename fails; nothing was moved.
    let (m, a) = m.step(UpdateEvent::RenameDone(Err(String::from("perm denied"))));
    assert!(matches!(a, UpdateAction::Finish { remove_scratch: true }));
    fs.apply(&a);
    match &m.step {
        UpdateStep::Finished(UpdateOutcome::BackupFailure(e)) => assert_eq!(e, "perm denied"),
        other => panic!("expected backup failure, got {:?}", other),
    }
    assert_eq!(fs.target, Some("old-binary"));
}

#[test]
fn dry_run_never_requests_a_mutation() {
    // Every step of the pipeline runs, but no rename is ever requested.
    let (m, a) = linux_request(true, true).start_update();
    let mut saw_mutation = mutates_target(&a);
    let (m, a) = m.step(UpdateEvent::FindResult(Ok(true)));
    saw_mutation = saw_mutation || mutates_target(&a);
    let (m, a) = m.step(UpdateEvent::StagingReady(Ok(passing_staging())));
    saw_mutation = saw_mutation || mutates_target(&a);
    let (m, a) = m.step(UpdateEvent::HealthCheck(Ok(true)));
    saw_mutation = saw_mutation || mutates_target(&a);
    assert!(!saw_mutation);
    assert!(matches!(a, UpdateAction::Finish { remove_scratch: true }));
    match &m.step {
        UpdateStep::Finished(o) => {
            assert!(matches!(o, UpdateOutcome::DryRunComplete));
            assert!(o.is_success());
        }
        other => panic!("expected dry-run completion, got {:?}", other),
    }
}

#[test]
fn declining_the_prompt_succeeds_without_mutation() {
    // no_confirm is off and dry_run is off: the answer decides.
    let (m, _) = linux_request(false, false).start_update();
    let (m, _) = m.step(UpdateEvent::FindResult(Ok(true)));
    let (m, _) = m.step(UpdateEvent::StagingReady(Ok(passing_staging())));
    let (m, a) = m.step(UpdateEvent::HealthCheck(Ok(true)));
    assert!(matches!(a, UpdateAction::AskConfirmation));
    let (m, a) = m.step(UpdateEvent::ConfirmLine(Some(String::from("no"))));
    assert!(!mutates_target(&a));
    assert!(matches!(a, UpdateAction::Finish { remove_scratch: true }));
    match &m.step {
        UpdateStep::Finished(o) => {
            assert!(matches!(o, UpdateOutcome::Declined));
            assert!(o.is_success());
        }
        other => panic!("expected declined, got {:?}", other),
    }
}

#[test]
fn approving_the_prompt_proceeds_to_the_swap() {
    let (m, _) = linux_request(false, false).start_update();
    let (m, _) = m.step(UpdateEvent::FindResult(Ok(true)));
    let (m, _) = m.step(UpdateEvent::StagingReady(Ok(passing_staging())));
    let (m, a) = m.step(UpdateEvent::HealthCheck(Ok(true)));
    assert!(matches!(a, UpdateAction::AskConfirmation));
    let (_, a) = m.step(UpdateEvent::ConfirmLine(Some(String::from("y"))));
    assert!(matches!(a, UpdateAction::RenameTargetToBackup));
}

#[test]
fn unrecognized_answer_reprompts_then_decides() {
    let (m, _) = linux_request(false, false).start_update();
    let (m, _) = m.step(UpdateEvent::FindResult(Ok(true)));
    let (m, _) = m.step(UpdateEvent::StagingReady(Ok(passing_staging())));
    let (m, _) = m.step(UpdateEvent::HealthCheck(Ok(true)));
    let (m, a) = m.step(UpdateEvent::ConfirmLine(Some(String::from("maybe"))));
    assert!(matches!(a, UpdateAction::AskConfirmation));
    let (_, a) = m.step(UpdateEvent::ConfirmLine(Some(String::from("yes"))));
    assert!(matches!(a, UpdateAction::RenameTargetToBackup));
}

#[test]
fn closed_input_counts_as_decline() {
    let (m, _) = linux_request(false, false).start_update();
    let (m, _) = m.step(UpdateEvent::FindResult(Ok(true)));
    let (m, _) = m.step(UpdateEvent::StagingReady(Ok(passing_staging())));
    let (m, _) = m.step(UpdateEvent::HealthCheck(Ok(true)));
    let (m, _) = m.step(UpdateEvent::ConfirmLine(None));
    assert!(matches!(&m.step, UpdateStep::Finished(UpdateOutcome::Declined)));
}

#[test]
fn fetcher_error_is_fatal_even_with_targets_remaining() {
    // Deliberate asymmetry: "absent" skips to the next target, but a
    // fetcher error aborts the whole operation.
    let req = builder()
        .repo_author("acme")
        .repo_name("tool")
        .bin_name("tool")
        .version("1.0.0")
        .add_target("linux-x64")
        .add_target("darwin-arm64")
        .no_confirm(true)
        .build()
        .unwrap();
    let (m, _) = req.start_update();
    let (m, _) = m.step(UpdateEvent::FindResult(Err(String::from("network down"))));
    match &m.step {
        UpdateStep::Finished(UpdateOutcome::FetchFailure(e)) => assert_eq!(e, "network down"),
        other => panic!("expected fetch failure, got {:?}", other),
    }
}

#[test]
fn absent_artifact_advances_to_next_target() {
    let req = builder()
        .repo_author("acme")
        .repo_name("tool")
        .bin_name("tool")
        .version("1.0.0")
        .add_target("linux-x64")
        .add_target("darwin-arm64")
        .no_confirm(true)
        .build()
        .unwrap();
    let (m, _) = req.start_update();
    let (m, a) = m.step(UpdateEvent::FindResult(Ok(false)));
    match &a {
        UpdateAction::ProbeTarget { target, .. } => assert_eq!(target, "darwin-arm64"),
        other => panic!("expected probe of second target, got {:?}", other),
    }
    let (m, _) = m.step(UpdateEvent::FindResult(Ok(false)));
    assert!(matches!(&m.step, UpdateStep::Finished(UpdateOutcome::NotFound)));
}

#[test]
fn missing_candidate_in_staging_advances_to_next_target() {
    let req = builder()
        .repo_author("acme")
        .repo_name("tool")
        .bin_name("tool")
        .version("1.0.0")
        .add_target("linux-x64")
        .add_target("darwin-arm64")
        .no_confirm(true)
        .build()
        .unwrap();
    let (m, _) = req.start_update();
    let (m, _) = m.step(UpdateEvent::FindResult(Ok(true)));
    let empty = StagingView { root_has_file: false, subdirs: vec![] };
    let (_, a) = m.step(UpdateEvent::StagingReady(Ok(empty)));
    match &a {
        UpdateAction::ProbeTarget { target, .. } => assert_eq!(target, "darwin-arm64"),
        other => panic!("expected probe of second target, got {:?}", other),
    }
}

#[test]
fn version_is_fetched_when_not_given() {
    let req = builder()
        .repo_author("acme")
        .repo_name("tool")
        .bin_name("tool")
        .add_target("linux-x64")
        .no_confirm(true)
        .build()
        .unwrap();
    let (m, a) = req.start_update();
    assert!(matches!(a, UpdateAction::FetchLatestVersion));
    let (_, a) = m.step(UpdateEvent::VersionBody(Ok(String::from("{\"tag_name\":\"v13.0.0\"}"))));
    match &a {
        UpdateAction::ProbeTarget { version, .. } => assert_eq!(version, "13.0.0"),
        other => panic!("expected probe, got {:?}", other),
    }
}

#[test]
fn unusable_latest_release_body_is_fatal_and_carries_the_body() {
    let req = builder()
        .repo_author("acme")
        .repo_name("tool")
        .bin_name("tool")
        .add_target("linux-x64")
        .build()
        .unwrap();
    let (m, _) = req.start_update();
    let (m, _) = m.step(UpdateEvent::VersionBody(Ok(String::from("oops, rate limited"))));
    match &m.step {
        UpdateStep::Finished(UpdateOutcome::VersionResolveFailure(body)) => {
            assert_eq!(body, "oops, rate limited");
        }
        other => panic!("expected version failure, got {:?}", other),
    }
}

#[test]
fn latest_release_request_error_is_fatal() {
    let req = builder()
        .repo_author("acme")
        .repo_name("tool")
        .bin_name("tool")
        .add_target("linux-x64")
        .build()
        .unwrap();
    let (m, _) = req.start_update();
    let (m, _) = m.step(UpdateEvent::VersionBody(Err(String::from("timeout"))));
    match &m.step {
        UpdateStep::Finished(UpdateOutcome::FetchFailure(e)) => assert_eq!(e, "timeout"),
        other => panic!("expected fetch failure, got {:?}", other),
    }
}

#[test]
fn detected_targets_are_used_in_order_when_none_are_given() {
    let req = builder()
        .repo_author("acme")
        .repo_name("tool")
        .bin_name("tool")
        .version("1.0.0")
        .no_confirm(true)
        .build()
        .unwrap();
    let (m, a) = req.start_update();
    assert!(matches!(a, UpdateAction::DetectTargets));
    let detected = vec![String::from("darwin-arm64"), String::from("linux-x64")];
    let (_, a) = m.step(UpdateEvent::TargetsDetected(detected));
    match &a {
        UpdateAction::ProbeTarget { target, .. } => assert_eq!(target, "darwin-arm64"),
        other => panic!("expected probe of first detected target, got {:?}", other),
    }
}

#[test]
fn windows_target_stages_exe_file_name() {
    let req = builder()
        .repo_author("acme")
        .repo_name("tool")
        .bin_name("tool")
        .version("1.0.0")
        .add_target("x86_64-pc-windows-msvc")
        .no_confirm(true)
        .build()
        .unwrap();
    let (m, _) = req.start_update();
    let (_, a) = m.step(UpdateEvent::FindResult(Ok(true)));
    match &a {
        UpdateAction::FetchAndStage { file_name, .. } => assert_eq!(file_name, "tool.exe"),
        other => panic!("expected staging, got {:?}", other),
    }
}

#[test]
fn mismatched_events_are_ignored() {
    let (m, _) = linux_request(true, false).start_update();
    // The machine awaits a find result; a rename report is ignored.
    let (m, a) = m.step(UpdateEvent::RenameDone(Ok(())));
    assert!(matches!(a, UpdateAction::Ignore));
    let (_, a) = m.step(UpdateEvent::FindResult(Ok(true)));
    assert!(matches!(a, UpdateAction::FetchAndStage { .. }));
}

#[test]
fn explicit_version_keeps_leading_v_stripped() {
    let req = builder()
        .repo_author("acme")
        .repo_name("tool")
        .bin_name("tool")
        .version("v2.1.0")
        .add_target("linux-x64")
        .no_confirm(true)
        .build()
        .unwrap();
    let (_, a) = req.start_update();
    match &a {
        UpdateAction::ProbeTarget { version, .. } => assert_eq!(version, "2.1.0"),
        other => panic!("expected probe, got {:?}", other),
    }
}
