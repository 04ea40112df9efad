use git_author_rewrite::cli::{parse_args, should_exit_no_change, Invocation};

fn args(words: &[&str]) -> Vec<String> {
    words.iter().map(|word| word.to_string()).collect()
}

#[test]
fn unchanged_both_returns_true() {
    let r = should_exit_no_change("A ", "b@example.com ", "A", "b@example.com");
    assert_eq!(r, true);
}

#[test]
fn changed_name_only_returns_false() {
    let r = should_exit_no_change("New", "b@example.com", "Old", "b@example.com");
    assert_eq!(r, false);
}

#[test]
fn changed_email_only_returns_false() {
    let r = should_exit_no_change("A", "new@example.com", "A", "old@example.com");
    assert_eq!(r, false);
}

#[test]
fn both_changed_returns_false() {
    let r = should_exit_no_change("X", "y@z", "A", "b@c");
    assert_eq!(r, false);
}

#[test]
fn no_change_scenario() {
    assert_eq!(should_exit_no_change("Alice ", "alice@x.com ", "Alice", "alice@x.com"), true);
    assert_eq!(should_exit_no_change("Alice", "alice@x.com", "Bob", "alice@x.com"), false);
}

#[test]
fn no_change_trims_the_defaults_too() {
    assert!(should_exit_no_change("Alice", "a@x", "  Alice\n", "\ta@x "));
    assert!(should_exit_no_change("", "", "  ", ""));
    assert!(!should_exit_no_change("Al ice", "a@x", "Alice", "a@x"));
}

#[test]
fn no_arguments_rewrite_automatically() {
    assert_eq!(parse_args(&args(&["git-author-rewrite"])), Invocation::Rewrite { manual: false });
    assert_eq!(parse_args(&args(&[])), Invocation::Rewrite { manual: false });
}

#[test]
fn manual_flag_switches_to_manual_mode() {
    assert_eq!(
        parse_args(&args(&["git-author-rewrite", "--manual"])),
        Invocation::Rewrite { manual: true }
    );
    assert_eq!(
        parse_args(&args(&["git-author-rewrite", "x", "--manual"])),
        Invocation::Rewrite { manual: true }
    );
}

#[test]
fn sequence_editor_flag_takes_the_path() {
    assert_eq!(
        parse_args(&args(&["prog", "--sequence-editor", "/tmp/todo"])),
        Invocation::SequenceEditor(Some("/tmp/todo".to_string()))
    );
    assert_eq!(
        parse_args(&args(&["prog", "--sequence-editor"])),
        Invocation::SequenceEditor(None)
    );
    assert_eq!(
        parse_args(&args(&["prog", "--sequence-editor", "--help"])),
        Invocation::SequenceEditor(Some("--help".to_string()))
    );
}

#[test]
fn sequence_editor_flag_counts_only_in_first_place() {
    assert_eq!(
        parse_args(&args(&["prog", "--manual", "--sequence-editor", "/tmp/todo"])),
        Invocation::Rewrite { manual: true }
    );
}

#[test]
fn help_and_version_are_recognised() {
    assert_eq!(parse_args(&args(&["prog", "--help"])), Invocation::Help);
    assert_eq!(parse_args(&args(&["prog", "-h"])), Invocation::Help);
    assert_eq!(parse_args(&args(&["prog", "--version"])), Invocation::Version);
    assert_eq!(parse_args(&args(&["prog", "-V"])), Invocation::Version);
    assert_eq!(parse_args(&args(&["prog", "--manual", "-h"])), Invocation::Help);
    assert_eq!(parse_args(&args(&["prog", "-V", "--help"])), Invocation::Help);
    assert_eq!(parse_args(&args(&["prog", "-v"])), Invocation::Rewrite { manual: false });
}
