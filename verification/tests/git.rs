use git_author_rewrite::git::{
    amend_author, build_sequence_editor_env, config_get, config_set, marker_names,
    rebase_continue, rebase_in_progress, rebase_interactive, rev_parse, run_output, run_status,
    AuthorIdentity, CommandOutcome, GitCommand, RebaseMarkers, RepositoryPaths, Shape, Stream,
};

fn exited(success: bool, stdout: &str, stderr: &str) -> CommandOutcome {
    CommandOutcome::Exited { success, stdout: stdout.to_string(), stderr: stderr.to_string() }
}

fn words(command: &GitCommand) -> Vec<&str> {
    command.args.iter().map(|word| word.as_str()).collect()
}

#[test]
fn sequence_editor_quotes_when_needed() {
    let s = build_sequence_editor_env("/Users/me/My App/bin");
    assert!(s.starts_with("\"/Users/me/My App/bin\" --sequence-editor"));
}

#[test]
fn sequence_editor_no_quotes_when_no_space() {
    let s = build_sequence_editor_env("/usr/local/bin/myapp");
    assert!(s.starts_with("/usr/local/bin/myapp --sequence-editor"));
}

#[test]
fn sequence_editor_value_is_exact() {
    assert_eq!(
        build_sequence_editor_env("/Users/me/My App/bin"),
        "\"/Users/me/My App/bin\" --sequence-editor"
    );
    assert_eq!(
        build_sequence_editor_env("/usr/local/bin/myapp"),
        "/usr/local/bin/myapp --sequence-editor"
    );
    assert_eq!(build_sequence_editor_env(""), " --sequence-editor");
    assert_eq!(build_sequence_editor_env(" "), "\" \" --sequence-editor");
    assert_eq!(build_sequence_editor_env("a\tb"), "a\tb --sequence-editor");
}

#[test]
fn rebase_progress_detection_smoke() {
    let nothing = RebaseMarkers { rebase_merge: false, rebase_apply: false };
    assert_eq!(rebase_in_progress(nothing), false);
    let merge = RebaseMarkers { rebase_merge: true, rebase_apply: false };
    assert_eq!(rebase_in_progress(merge), true);
}

#[test]
fn rebase_is_under_way_with_either_mark() {
    assert!(rebase_in_progress(RebaseMarkers { rebase_merge: false, rebase_apply: true }));
    assert!(rebase_in_progress(RebaseMarkers { rebase_merge: true, rebase_apply: true }));
}

#[test]
fn marker_names_are_those_of_git() {
    assert_eq!(marker_names(), ("rebase-merge".to_string(), "rebase-apply".to_string()));
}

#[test]
fn rev_parse_command_collects_output() {
    let command = GitCommand::rev_parse("--show-toplevel");
    assert_eq!(words(&command), vec!["rev-parse", "--show-toplevel"]);
    assert_eq!(command.env, None);
    assert_eq!(command.stdin, Stream::Unset);
    assert_eq!(command.stdout, Stream::Piped);
    assert_eq!(command.stderr, Stream::Piped);
    assert_eq!(command.shape, Shape::Output);
}

#[test]
fn config_get_command_collects_output() {
    let command = GitCommand::config_get("user.name");
    assert_eq!(words(&command), vec!["config", "--get", "user.name"]);
    assert_eq!(command.env, None);
    assert_eq!(command.stdout, Stream::Piped);
    assert_eq!(command.stderr, Stream::Piped);
    assert_eq!(command.shape, Shape::Output);
}

#[test]
fn config_set_command_is_local() {
    let command = GitCommand::config_set("user.email", "jane@example.com");
    assert_eq!(words(&command), vec!["config", "user.email", "jane@example.com"]);
    assert_eq!(command.env, None);
    assert_eq!(command.stdin, Stream::Unset);
    assert_eq!(command.stdout, Stream::Null);
    assert_eq!(command.stderr, Stream::Piped);
    assert_eq!(command.shape, Shape::Status);
}

#[test]
fn rebase_command_in_manual_mode_sets_no_editor() {
    let command = GitCommand::rebase_interactive(None);
    assert_eq!(words(&command), vec!["rebase", "-i", "--root"]);
    assert_eq!(command.env, None);
    assert_eq!(command.stdin, Stream::Inherit);
    assert_eq!(command.stdout, Stream::Inherit);
    assert_eq!(command.stderr, Stream::Inherit);
    assert_eq!(command.shape, Shape::Status);
}

#[test]
fn rebase_command_in_auto_mode_points_git_at_this_program() {
    let command = GitCommand::rebase_interactive(Some("/opt/my tools/gar"));
    assert_eq!(words(&command), vec!["rebase", "-i", "--root"]);
    assert_eq!(
        command.env,
        Some((
            "GIT_SEQUENCE_EDITOR".to_string(),
            "\"/opt/my tools/gar\" --sequence-editor".to_string()
        ))
    );
    let plain = GitCommand::rebase_interactive(Some("/usr/bin/gar"));
    assert_eq!(
        plain.env,
        Some(("GIT_SEQUENCE_EDITOR".to_string(), "/usr/bin/gar --sequence-editor".to_string()))
    );
}

#[test]
fn amend_command_names_the_author() {
    let command = GitCommand::amend_author("Jane Doe <jane@example.com>");
    assert_eq!(
        words(&command),
        vec!["commit", "--amend", "--author=Jane Doe <jane@example.com>", "--no-edit"]
    );
    assert_eq!(command.stdin, Stream::Inherit);
    assert_eq!(command.shape, Shape::Status);
}

#[test]
fn continue_command_is_on_the_terminal() {
    let command = GitCommand::rebase_continue();
    assert_eq!(words(&command), vec!["rebase", "--continue"]);
    assert_eq!(command.stdin, Stream::Inherit);
    assert_eq!(command.stdout, Stream::Inherit);
    assert_eq!(command.stderr, Stream::Inherit);
    assert_eq!(command.shape, Shape::Status);
}

#[test]
fn run_status_reads_success_alone() {
    assert_eq!(run_status(&exited(true, "out", "err")), Ok(()));
    assert_eq!(run_status(&exited(false, "out", "err")), Err("non-zero exit".to_string()));
    assert_eq!(
        run_status(&CommandOutcome::NotStarted("No such file".to_string())),
        Err("No such file".to_string())
    );
}

#[test]
fn run_output_trims_what_was_written() {
    assert_eq!(run_output(&exited(true, "  /repo\n", "warn\n")), Ok("/repo".to_string()));
    assert_eq!(
        run_output(&exited(false, "x", "\nfatal: not a git repository\n")),
        Err("fatal: not a git repository".to_string())
    );
    assert_eq!(
        run_output(&CommandOutcome::NotStarted(" spawn failed ".to_string())),
        Err(" spawn failed ".to_string())
    );
}

#[test]
fn rev_parse_reads_the_output() {
    assert_eq!(rev_parse(&exited(true, ".git\n", "")), Ok(".git".to_string()));
    assert_eq!(rev_parse(&exited(false, "", "fatal\n")), Err("fatal".to_string()));
}

#[test]
fn config_get_never_fails() {
    assert_eq!(config_get(&exited(true, "Jane Doe\n", "")), Ok("Jane Doe".to_string()));
    assert_eq!(config_get(&exited(false, "", "oops")), Ok(String::new()));
    assert_eq!(config_get(&CommandOutcome::NotStarted("gone".to_string())), Ok(String::new()));
}

#[test]
fn config_set_fails_loudly() {
    assert_eq!(config_set(&exited(true, "", "")), Ok(()));
    assert_eq!(config_set(&exited(false, "", "e")), Err("non-zero exit".to_string()));
    assert_eq!(
        config_set(&CommandOutcome::NotStarted("gone".to_string())),
        Err("gone".to_string())
    );
}

#[test]
fn rebase_failures_have_their_own_messages() {
    assert_eq!(rebase_interactive(&exited(true, "", "")), Ok(()));
    assert_eq!(
        rebase_interactive(&exited(false, "", "")),
        Err("`git rebase -i --root` exited with non-zero status".to_string())
    );
    assert_eq!(
        rebase_interactive(&CommandOutcome::NotStarted("gone".to_string())),
        Err("`git rebase -i --root` exited with non-zero status".to_string())
    );
    assert_eq!(amend_author(&exited(true, "", "")), Ok(()));
    assert_eq!(
        amend_author(&exited(false, "", "")),
        Err("`git commit --amend` returned non-zero".to_string())
    );
    assert_eq!(rebase_continue(&exited(true, "", "")), Ok(()));
    assert_eq!(
        rebase_continue(&exited(false, "", "")),
        Err("`git rebase --continue` returned non-zero".to_string())
    );
}

#[test]
fn paths_take_the_reported_dir_where_it_is_absolute() {
    let paths = RepositoryPaths::assemble(
        "/work/repo".to_string(),
        "/elsewhere/.git".to_string(),
        true,
        "/work/repo/should-not-be-used".to_string(),
        Some("repo".to_string()),
    );
    assert_eq!(paths.root, "/work/repo");
    assert_eq!(paths.git_dir, "/elsewhere/.git");
    assert_eq!(paths.name, "repo");
}

#[test]
fn paths_take_the_joined_dir_where_the_reported_is_relative() {
    let paths = RepositoryPaths::assemble(
        "/work/repo".to_string(),
        ".git".to_string(),
        false,
        "/work/repo/.git".to_string(),
        None,
    );
    assert_eq!(paths.root, "/work/repo");
    assert_eq!(paths.git_dir, "/work/repo/.git");
    assert_eq!(paths.name, "current repository");
}

#[test]
fn resolve_joins_a_relative_git_dir_onto_the_root() {
    let root = std::path::Path::new("work").join("repo");
    let root = root.to_string_lossy().into_owned();
    let paths = RepositoryPaths::resolve(&root, ".git");
    let expected = std::path::Path::new(&root).join(".git").to_string_lossy().into_owned();
    assert_eq!(paths.root, root);
    assert_eq!(paths.git_dir, expected);
    assert_ne!(paths.git_dir, ".git");
    assert_eq!(paths.name, "repo");
}

#[test]
fn resolve_keeps_an_absolute_git_dir() {
    let absolute = if std::path::Path::new("/elsewhere/x.git").is_absolute() {
        "/elsewhere/x.git"
    } else {
        "C:\\elsewhere\\x.git"
    };
    assert!(std::path::Path::new(absolute).is_absolute());
    let paths = RepositoryPaths::resolve("work", absolute);
    assert_eq!(paths.git_dir, absolute);
    assert_eq!(paths.name, "work");
}

#[test]
fn resolve_goes_by_the_path_rules_of_the_platform() {
    let roots = ["/work/repo", "work/repo/", "repo", "/", "", "a/.."];
    let reported = [".git", "/abs/.git", "../other/.git", "", "sub/dir"];
    for root in roots {
        for dir in reported {
            let paths = RepositoryPaths::resolve(root, dir);
            let expected_dir = if std::path::Path::new(dir).is_absolute() {
                dir.to_string()
            } else {
                std::path::Path::new(root).join(dir).to_string_lossy().into_owned()
            };
            let expected_name = match std::path::Path::new(root).file_name() {
                Some(name) => name.to_string_lossy().into_owned(),
                None => "current repository".to_string(),
            };
            assert_eq!(paths.root, root);
            assert_eq!(paths.git_dir, expected_dir);
            assert_eq!(paths.name, expected_name);
        }
    }
}

#[test]
fn resolve_names_a_repository_without_a_last_part() {
    let paths = RepositoryPaths::resolve("..", ".git");
    assert_eq!(paths.name, "current repository");
}

#[test]
fn identity_is_trimmed_and_formatted() {
    let identity = AuthorIdentity::new("  Jane Doe ", "jane@example.com\n");
    assert_eq!(identity.name, "Jane Doe");
    assert_eq!(identity.email, "jane@example.com");
    assert_eq!(identity.author_string(), "Jane Doe <jane@example.com>");
}
