use rdg::git::{Candidate, ChangeKind};
use rdg::rsync::{
    decode_itemized_change, files_from_list, has_deleted_files, itemized_output_is_ok,
    plan_rsync, relabel_unified_diff, rsync_args, rsync_capabilities_from, target_as_source_root,
    RsyncCapabilities, RsyncPlan, RsyncRunReport,
};

#[test]
fn report_splits_current_file_and_total_rsync_diff() {
    let candidate_a = Candidate {
        path: String::from("a.txt"),
        kind: ChangeKind::Changed,
        status: String::from(" M"),
    };
    let candidate_b = Candidate {
        path: String::from("b.txt"),
        kind: ChangeKind::Changed,
        status: String::from(" M"),
    };
    let report = RsyncRunReport {
        mode: String::from("DRY RUN"),
        repo_root: String::from("/repo"),
        target: String::from("/dest/"),
        selected: vec![candidate_a, candidate_b],
        args: vec![
            String::from("-a"),
            String::from("-i"),
            String::from("--checksum"),
        ],
        version: String::from("rsync version test"),
        delete_missing_args: true,
        stdout: String::from(">fcsT...... a.txt\n>fcsT...... b.txt\n"),
        stderr: String::new(),
        content_diffs: vec![(
            String::from("b.txt"),
            String::from("--- destination/b.txt\n+++ source/b.txt\n@@ -1 +1 @@\n-old\n+new\n"),
        )],
    };

    let rendered = report.render_status(Some("b.txt"));
    let content_diff = report.render_content_diff(Some("b.txt"));

    assert!(rendered.contains(
        "CURRENT FILE RSYNC DIFF\n-----------------------\nb.txt\n\nItemized rsync change:\n>fcsT...... b.txt\n"
    ));
    assert!(content_diff.contains("--- destination/b.txt\n+++ source/b.txt\n"));
    assert!(rendered.contains(
        "TOTAL RSYNC DIFF\n----------------\n>fcsT...... a.txt\n>fcsT...... b.txt\n"
    ));
}

#[test]
fn decodes_itemized_change() {
    let descriptions = decode_itemized_change(">fcst...... README.md");

    assert!(descriptions.contains(&String::from(
        "file data would be transferred from source to destination"
    )));
    assert!(descriptions.contains(&String::from("regular file")));
    assert!(descriptions.contains(&String::from("checksum/content differs")));
    assert!(descriptions.contains(&String::from("size differs")));
    assert!(descriptions.contains(&String::from("modification time differs")));
}

fn candidate(path: &str, kind: ChangeKind) -> Candidate {
    Candidate { path: path.to_string(), kind, status: String::new() }
}

#[test]
fn target_gets_a_trailing_slash() {
    assert_eq!(target_as_source_root("host:/srv/app"), "host:/srv/app/");
    assert_eq!(target_as_source_root("/srv/app/"), "/srv/app/");
}

#[test]
fn unified_diff_labels_are_replaced() {
    let diff = "--- /tmp/x/a.txt\n+++ a.txt\n@@ -1 +1 @@\n-a\n+b\n";
    assert_eq!(
        relabel_unified_diff(diff, "destination/a.txt", "source/a.txt"),
        "--- destination/a.txt\n+++ source/a.txt\n@@ -1 +1 @@\n-a\n+b\n"
    );
    assert_eq!(relabel_unified_diff("Binary files differ\n", "x", "y"), "Binary files differ\n");
}

#[test]
fn deleted_files_need_delete_support() {
    let selected = vec![candidate("gone.txt", ChangeKind::Deleted)];
    assert!(has_deleted_files(&selected));
    let caps = RsyncCapabilities { version: String::from("rsync  version 2.6.9"), delete_missing_args: false };
    match plan_rsync("/repo", "/dest/", &selected, true, &caps) {
        RsyncPlan::Refuse(report) => {
            assert!(report.starts_with("DRY RUN\n"));
            assert!(report.contains("UNSUPPORTED RSYNC DELETION"));
        }
        RsyncPlan::Run { .. } => panic!("a run without delete support was planned"),
    }
    let caps = RsyncCapabilities { version: String::from("rsync 3"), delete_missing_args: true };
    match plan_rsync("/repo", "/dest/", &selected, false, &caps) {
        RsyncPlan::Run { mode, args } => {
            assert_eq!(mode, "RUN");
            assert!(args.contains(&String::from("--delete-missing-args")));
        }
        RsyncPlan::Refuse(_) => panic!("refused with delete support"),
    }
}

#[test]
fn dry_runs_pass_dry_run_and_checksum() {
    let args = rsync_args(false, true);
    assert!(args.contains(&String::from("--dry-run")));
    assert!(args.contains(&String::from("--checksum")));
    assert!(!rsync_args(false, false).contains(&String::from("--dry-run")));
}

#[test]
fn capabilities_come_from_version_and_help() {
    let caps = rsync_capabilities_from(
        "rsync  version 3.2.7  protocol version 31\nCopyright\n",
        "  --delete-missing-args  delete missing source args from destination\n",
        "",
    );
    assert_eq!(caps.version, "rsync  version 3.2.7  protocol version 31");
    assert!(caps.delete_missing_args);
    let caps = rsync_capabilities_from("", "", "");
    assert_eq!(caps.version, "rsync version unknown");
    assert!(!caps.delete_missing_args);
}

#[test]
fn files_from_list_is_nul_separated() {
    let list = files_from_list(&vec![String::from("a.txt"), String::from("b/c.txt")]);
    assert_eq!(list, b"a.txt\0b/c.txt\0".to_vec());
}

#[test]
fn itemized_output_is_checked_for_its_column() {
    assert!(itemized_output_is_ok(">fcsT...... a.txt\n"));
    assert!(itemized_output_is_ok("short\n"));
    assert!(!itemized_output_is_ok(">fcsT....éé a.txt\n"));
}

fn report_with_stdout(stdout: &str) -> RsyncRunReport {
    RsyncRunReport {
        mode: String::from("DRY RUN"),
        repo_root: String::from("/repo"),
        target: String::from("/dest/"),
        selected: vec![candidate("a.txt", ChangeKind::Changed)],
        args: vec![String::from("-a")],
        version: String::from("rsync version test"),
        delete_missing_args: true,
        stdout: String::from(stdout),
        stderr: String::new(),
        content_diffs: Vec::new(),
    }
}

#[test]
fn a_broken_itemize_column_only_blocks_a_selected_focus() {
    let report = report_with_stdout(">fcsT....éé a.txt\n");
    assert!(!report.renders_for(Some("a.txt")));
    assert!(report.renders_for(Some("c.txt")));
    assert!(report.renders_for(None));
    let rendered = report.render_status(Some("c.txt"));
    assert!(rendered.contains("TOTAL RSYNC DIFF\n----------------\n>fcsT....éé a.txt\n"));
    let good = report_with_stdout(">fcsT...... a.txt\n");
    assert!(good.renders_for(Some("a.txt")));
}
