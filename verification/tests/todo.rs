use git_author_rewrite::sequence_editor::{
    classify, rewrite, run, transform, transform_line, LineKind, WriteFailure,
};

#[test]
fn todo_scenario_is_rewritten() {
    let input = "pick abc123 msg\n# pick shouldnotchange\n  pick def456 msg2\nexec true\n";
    let expected = "edit abc123 msg\n# pick shouldnotchange\n  edit def456 msg2\nexec true\n";
    assert_eq!(transform(input), expected);
}

#[test]
fn no_picks_is_noop() {
    let body = "# comment\nexec echo ok\n";
    let s = transform(body);
    assert!(s.contains("exec echo ok"));
    assert!(s.contains("# comment"));
    assert_eq!(s, body);
}

#[test]
fn comment_lines_come_back_unchanged() {
    assert_eq!(transform_line("# pick abc"), "# pick abc");
    assert_eq!(transform_line("   # pick abc"), "   # pick abc");
    assert_eq!(transform_line("\t## nested # pick x"), "\t## nested # pick x");
    assert_eq!(transform_line("#"), "#");
}

#[test]
fn pick_becomes_edit() {
    assert_eq!(transform_line("pick abc123 msg"), "edit abc123 msg");
    assert_eq!(transform_line("pick "), "edit ");
    assert_eq!(transform_line("pick pick pick "), "edit pick pick ");
}

#[test]
fn pick_line_keeps_its_leading_whitespace() {
    assert_eq!(transform_line("  pick def456 msg2"), "  edit def456 msg2");
    assert_eq!(transform_line("\tpick abc"), "\tedit abc");
    assert_eq!(transform_line("\t pick abc"), "\t edit abc");
    assert_eq!(transform_line(" \t \tpick abc  "), " \t \tedit abc  ");
    assert_eq!(transform_line("\u{a0}pick abc"), "\u{a0}edit abc");
}

#[test]
fn other_lines_come_back_unchanged() {
    assert_eq!(transform_line("exec true"), "exec true");
    assert_eq!(transform_line("pick"), "pick");
    assert_eq!(transform_line("picked abc"), "picked abc");
    assert_eq!(transform_line("pick\tabc"), "pick\tabc");
    assert_eq!(transform_line("edit abc"), "edit abc");
    assert_eq!(transform_line("squash pick abc"), "squash pick abc");
    assert_eq!(transform_line(""), "");
    assert_eq!(transform_line("   "), "   ");
    assert_eq!(transform_line("Pick abc"), "Pick abc");
}

#[test]
fn classify_tells_the_three_kinds() {
    assert_eq!(classify("# pick x"), LineKind::Comment);
    assert_eq!(classify("  #"), LineKind::Comment);
    assert_eq!(classify("pick x"), LineKind::Pick);
    assert_eq!(classify("\t pick x"), LineKind::Pick);
    assert_eq!(classify("exec x"), LineKind::Other);
    assert_eq!(classify("pick"), LineKind::Other);
    assert_eq!(classify(""), LineKind::Other);
}

#[test]
fn empty_todo_becomes_one_line_feed() {
    assert_eq!(transform(""), "\n");
}

#[test]
fn transform_always_ends_in_one_more_line_feed() {
    assert_eq!(transform("pick a b"), "edit a b\n");
    assert_eq!(transform("pick a b\n"), "edit a b\n");
    assert_eq!(transform("pick a b\n\n"), "edit a b\n\n");
    assert_eq!(transform("\n"), "\n");
}

#[test]
fn transform_ends_lines_with_line_feeds_only() {
    assert_eq!(transform("pick a\r\nexec b\r\n"), "edit a\nexec b\n");
    assert_eq!(transform("exec a\r"), "exec a\r\n");
}

#[test]
fn comments_and_exec_lines_are_left_alone() {
    let body = "# one\nexec make test\n\n   # pick two\nexec true\n";
    assert_eq!(transform(body), body);
    let unterminated = "# one\nexec make test";
    assert_eq!(transform(unterminated), "# one\nexec make test\n");
}

#[test]
fn run_wants_a_path() {
    assert_eq!(run(None), Err("missing todo file path".to_string()));
    assert_eq!(run(Some("/tmp/git-rebase-todo")), Ok("/tmp/git-rebase-todo".to_string()));
}

#[test]
fn rewrite_transforms_what_was_read() {
    assert_eq!(rewrite(Ok("pick a b\n".to_string())), Ok("edit a b\n".to_string()));
    assert_eq!(rewrite(Ok(String::new())), Ok("\n".to_string()));
}

#[test]
fn rewrite_reports_a_failed_read() {
    assert_eq!(
        rewrite(Err("No such file or directory (os error 2)".to_string())),
        Err("read failed: No such file or directory (os error 2)".to_string())
    );
}

#[test]
fn write_failures_are_told_apart() {
    assert_eq!(
        WriteFailure::Create("Permission denied".to_string()).message(),
        "create failed: Permission denied"
    );
    assert_eq!(
        WriteFailure::Write("No space left on device".to_string()).message(),
        "write failed: No space left on device"
    );
}
