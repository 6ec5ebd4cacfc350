use binswap_github::builder;
use binswap_github::confirm::{classify_confirm_line, ConfirmAnswer};
use binswap_github::locate::{expected_bin_name, locate_candidate, BinLocation, StagingView, SubdirEntry};
use binswap_github::text::{contains_str, strip_v_prefix, trim_bounds};
use binswap_github::version::resolve_version_from_body;

#[test]
fn locator_prefers_root_level_file() {
    // Both `./bin_name` and `./subdir/bin_name` exist: the root wins.
    let sv = StagingView {
        root_has_file: true,
        subdirs: vec![SubdirEntry { is_dir: true, has_file: true }],
    };
    assert_eq!(locate_candidate(&sv), Some(BinLocation::AtRoot));
}

#[test]
fn locator_picks_first_matching_subdir_in_listing_order() {
    let sv = StagingView {
        root_has_file: false,
        subdirs: vec![
            SubdirEntry { is_dir: false, has_file: true },
            SubdirEntry { is_dir: true, has_file: false },
            SubdirEntry { is_dir: true, has_file: true },
            SubdirEntry { is_dir: true, has_file: true },
        ],
    };
    assert_eq!(locate_candidate(&sv), Some(BinLocation::InSubdir(2)));
}

#[test]
fn locator_reports_nothing_found() {
    let sv = StagingView {
        root_has_file: false,
        subdirs: vec![SubdirEntry { is_dir: true, has_file: false }],
    };
    assert_eq!(locate_candidate(&sv), None);
    let empty = StagingView { root_has_file: false, subdirs: vec![] };
    assert_eq!(locate_candidate(&empty), None);
}

#[test]
fn expected_name_appends_exe_for_windows_targets() {
    let bin = String::from("rg");
    assert_eq!(expected_bin_name(&bin, "x86_64-pc-windows-msvc"), "rg.exe");
    assert_eq!(expected_bin_name(&bin, "x86_64-unknown-linux-gnu"), "rg");
}

#[test]
fn contains_str_finds_substrings() {
    assert!(contains_str("aarch64-pc-windows-msvc", "windows"));
    assert!(!contains_str("x86_64-apple-darwin", "windows"));
    assert!(contains_str("windows", "windows"));
    assert!(!contains_str("window", "windows"));
    assert!(contains_str("anything", ""));
}

#[test]
fn trim_bounds_strips_surrounding_whitespace() {
    assert_eq!(trim_bounds(" \t yes \r\n"), (3, 6));
    assert_eq!(trim_bounds(""), (0, 0));
    assert_eq!(trim_bounds("   "), (3, 3));
    assert_eq!(trim_bounds("no"), (0, 2));
}

#[test]
fn version_resolved_from_latest_release_body() {
    // The documented latest-release response resolves to the bare version.
    let r = resolve_version_from_body("{\"tag_name\":\"v13.0.0\"}");
    assert_eq!(r, Some(String::from("13.0.0")));
}

#[test]
fn version_resolution_failures_return_none() {
    assert_eq!(resolve_version_from_body("not json at all"), None);
    assert_eq!(resolve_version_from_body("{\"name\":\"v1.0\"}"), None);
    assert_eq!(resolve_version_from_body("{\"tag_name\":7}"), None);
}

#[test]
fn strip_v_prefix_removes_leading_vs() {
    assert_eq!(strip_v_prefix("v13.0.0"), "13.0.0");
    assert_eq!(strip_v_prefix("13.0.0"), "13.0.0");
    assert_eq!(strip_v_prefix("vv2"), "2");
    assert_eq!(strip_v_prefix(""), "");
    assert_eq!(strip_v_prefix("v"), "");
}

#[test]
fn confirm_lines_classify_as_documented() {
    assert_eq!(classify_confirm_line("yes"), ConfirmAnswer::Approve);
    assert_eq!(classify_confirm_line("y"), ConfirmAnswer::Approve);
    assert_eq!(classify_confirm_line("YES"), ConfirmAnswer::Approve);
    assert_eq!(classify_confirm_line("Y"), ConfirmAnswer::Approve);
    assert_eq!(classify_confirm_line(" Yes \n"), ConfirmAnswer::Approve);
    assert_eq!(classify_confirm_line("no"), ConfirmAnswer::Decline);
    assert_eq!(classify_confirm_line("n"), ConfirmAnswer::Decline);
    assert_eq!(classify_confirm_line("NO"), ConfirmAnswer::Decline);
    assert_eq!(classify_confirm_line("N"), ConfirmAnswer::Decline);
    assert_eq!(classify_confirm_line(""), ConfirmAnswer::Decline);
    assert_eq!(classify_confirm_line("  \n"), ConfirmAnswer::Decline);
    assert_eq!(classify_confirm_line("maybe"), ConfirmAnswer::Repeat);
    assert_eq!(classify_confirm_line("yess"), ConfirmAnswer::Repeat);
    assert_eq!(classify_confirm_line("no!"), ConfirmAnswer::Repeat);
}

#[test]
fn builder_defaults_and_setters() {
    let b = builder();
    assert!(b.repo_author.is_none());
    assert!(b.targets.is_none());
    assert!(!b.dry_run);
    let req = builder()
        .repo_author("BurntSushi")
        .repo_name("ripgrep")
        .asset_name("ripgrep")
        .bin_name("rg")
        .version("v13.0.0")
        .no_confirm(true)
        .dry_run(true)
        .build()
        .unwrap();
    assert_eq!(req.repo_author, "BurntSushi");
    assert_eq!(req.repo_name, "ripgrep");
    assert_eq!(req.asset_name.as_deref(), Some("ripgrep"));
    assert_eq!(req.bin_name, "rg");
    assert_eq!(req.version.as_deref(), Some("v13.0.0"));
    assert!(req.no_confirm);
    assert!(req.dry_run);
    assert!(!req.no_check_with_cmd);
    assert_eq!(req.check_with_cmd, "--help");
}

#[test]
fn builder_requires_the_required_fields() {
    assert_eq!(builder().build().unwrap_err(), "repo_author is not set");
    assert_eq!(
        builder().repo_author("a").repo_name("b").build().unwrap_err(),
        "bin_name is not set"
    );
    assert_eq!(
        builder().repo_author("a").bin_name("c").build().unwrap_err(),
        "repo_name is not set"
    );
    assert!(builder().repo_author("a").repo_name("b").bin_name("c").build().is_ok());
}

#[test]
fn add_target_accumulates_in_order() {
    let b = builder().add_target("linux-x64").add_target("darwin-arm64");
    let ts = b.targets.clone().unwrap();
    assert_eq!(ts, vec![String::from("linux-x64"), String::from("darwin-arm64")]);
}
