use rdg::git::{
    candidates_from_entries, git_candidates_from_status, new_file_preview, git_diff_preview, preview_candidate,
    split_nul_fields, untracked_directory_preview, untracked_file_preview, Candidate, ChangeKind,
};

#[test]
fn status_output_becomes_sorted_candidates() {
    let stdout = b" M src/b.rs\0?? new.txt\0R  renamed.rs\0old.rs\0 D gone.rs\0";
    let candidates = git_candidates_from_status(stdout);
    let listed: Vec<(&str, ChangeKind, &str)> = candidates
        .iter()
        .map(|c| (c.path.as_str(), c.kind, c.status.as_str()))
        .collect();
    assert_eq!(
        listed,
        vec![
            ("gone.rs", ChangeKind::Deleted, " D"),
            ("new.txt", ChangeKind::Untracked, "??"),
            ("old.rs", ChangeKind::Deleted, "R-old"),
            ("renamed.rs", ChangeKind::Changed, "R "),
            ("src/b.rs", ChangeKind::Changed, " M"),
        ]
    );
}

#[test]
fn invalid_utf8_in_a_path_is_replaced() {
    let candidates = git_candidates_from_status(b" M caf\xff.txt\0");
    assert_eq!(candidates[0].path, "caf\u{FFFD}.txt");
}

#[test]
fn nul_fields_split_the_output() {
    let fields = split_nul_fields(b"a\0bc\0");
    assert_eq!(fields, vec![b"a".to_vec(), b"bc".to_vec()]);
}

#[test]
fn preview_has_a_header() {
    let c = Candidate {
        path: String::from("a.txt"),
        kind: ChangeKind::Untracked,
        status: String::from("??"),
    };
    let text = preview_candidate(&c, "body");
    assert!(text.starts_with("path:   a.txt\nkind:   new\nstatus: ??\n"));
    assert!(text.ends_with("\n\nbody"));
}

#[test]
fn empty_diff_is_explained() {
    assert_eq!(git_diff_preview(false, "  \n", "fatal"), "git diff failed:\nfatal");
    assert!(git_diff_preview(true, "", "").starts_with("No textual git diff output."));
    assert_eq!(git_diff_preview(true, "diff --git", ""), "diff --git");
}

#[test]
fn untracked_previews() {
    assert_eq!(
        untracked_file_preview("n.txt", b"one\ntwo\n"),
        "NEW FILE PREVIEW\n\n+ one\n+ two\n"
    );
    assert_eq!(
        untracked_file_preview("b.bin", b"\x00\x01"),
        "NEW BINARY FILE\n\nb.bin\n\n2 bytes"
    );
    assert!(untracked_directory_preview("dir").starts_with("NEW DIRECTORY\n\ndir\n\n"));
}

#[test]
fn decoded_entries_keep_their_order() {
    let entries = vec![
        String::from(" M z.rs"),
        String::from("RM new.rs"),
        String::from("old.rs"),
        String::from("C  copy.rs"),
        String::from("src.rs"),
        String::from("ab"),
        String::from("D  gone.rs"),
    ];
    let candidates = candidates_from_entries(&entries);
    let listed: Vec<(&str, ChangeKind, &str)> = candidates
        .iter()
        .map(|c| (c.path.as_str(), c.kind, c.status.as_str()))
        .collect();
    assert_eq!(
        listed,
        vec![
            ("z.rs", ChangeKind::Changed, " M"),
            ("new.rs", ChangeKind::Changed, "RM"),
            ("old.rs", ChangeKind::Deleted, "R-old"),
            ("copy.rs", ChangeKind::Changed, "C "),
            ("gone.rs", ChangeKind::Deleted, "D "),
        ]
    );
}

#[test]
fn new_file_preview_marks_a_cut() {
    assert_eq!(new_file_preview("a\r\nb", true), "NEW FILE PREVIEW\n\n+ a\n+ b\n\n... file preview truncated ...\n");
    let long: String = (0..600).map(|i| format!("{i}\n")).collect();
    let preview = new_file_preview(&long, false);
    assert_eq!(preview.lines().count(), 2 + 500);
    assert!(preview.ends_with("+ 499\n"));
}
