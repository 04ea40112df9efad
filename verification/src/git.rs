//! The `git` commands of a run and the reading of their outcomes.
//!
//! A command is described here and run by the caller, who hands back how it
//! ended. Nothing of what `git` prints is read but for the whitespace around
//! it, which is taken off.

use crate::text::{
    append_char, contains_char, lemma_trimmed_is_trimmed, trim, trimmed, views_of,
};
use vstd::prelude::*;
use vstd::string::StringExecFns;

verus! {

/// How one of the three standard streams of a command is connected.
#[derive(Clone, Copy, Debug, PartialEq, Eq, Structural)]
pub enum Stream {
    /// Nothing is said of the stream: the way of running decides.
    Unset,
    /// The stream of the caller's own process, so that the user sees the
    /// command and can answer it.
    Inherit,
    /// A pipe from which the caller collects what the command writes.
    Piped,
    /// Nothing is read and what is written is lost.
    Null,
}

/// Which of the two ways of running a command is taken.
#[derive(Clone, Copy, Debug, PartialEq, Eq, Structural)]
pub enum Shape {
    /// Only whether the command succeeded matters.
    Status,
    /// What the command wrote is collected.
    Output,
}

/// A `git` command, ready to be run.
#[derive(Debug, PartialEq, Eq)]
pub struct GitCommand {
    /// The arguments that follow `git`.
    pub args: Vec<String>,
    /// A variable, by name and value, that is set in the environment of the
    /// command and nowhere else.
    pub env: Option<(String, String)>,
    pub stdin: Stream,
    pub stdout: Stream,
    pub stderr: Stream,
    pub shape: Shape,
}

/// A `git` command as a plain value.
pub struct GitCommandView {
    pub args: Seq<Seq<char>>,
    pub env: Option<(Seq<char>, Seq<char>)>,
    pub stdin: Stream,
    pub stdout: Stream,
    pub stderr: Stream,
    pub shape: Shape,
}

impl View for GitCommand {
    type V = GitCommandView;

    open spec fn view(&self) -> GitCommandView {
        GitCommandView {
            args: views_of(self.args@),
            env: match self.env {
                Some((name, value)) => Some((name@, value@)),
                None => None,
            },
            stdin: self.stdin,
            stdout: self.stdout,
            stderr: self.stderr,
            shape: self.shape,
        }
    }
}

/// How a command ended.
#[derive(Debug, PartialEq, Eq)]
pub enum CommandOutcome {
    /// The command could not be started; the system's message.
    NotStarted(String),
    /// The command ran to its end. `stdout` and `stderr` hold what was
    /// collected of its output, and are empty where nothing was.
    Exited { success: bool, stdout: String, stderr: String },
}

/// The outcome of a command as a plain value.
pub enum CommandOutcomeView {
    NotStarted(Seq<char>),
    Exited { success: bool, stdout: Seq<char>, stderr: Seq<char> },
}

impl View for CommandOutcome {
    type V = CommandOutcomeView;

    open spec fn view(&self) -> CommandOutcomeView {
        match self {
            CommandOutcome::NotStarted(message) => CommandOutcomeView::NotStarted(message@),
            CommandOutcome::Exited { success, stdout, stderr } => CommandOutcomeView::Exited {
                success: *success,
                stdout: stdout@,
                stderr: stderr@,
            },
        }
    }
}

/// A result that carries text, as a plain value.
pub open spec fn text_result(r: Result<String, String>) -> Result<Seq<char>, Seq<char>> {
    match r {
        Ok(text) => Ok(text@),
        Err(message) => Err(message@),
    }
}

/// A result that carries only the message of a failure, as a plain value.
pub open spec fn unit_result(r: Result<(), String>) -> Result<(), Seq<char>> {
    match r {
        Ok(_) => Ok(()),
        Err(message) => Err(message@),
    }
}

/// The name of the variable that tells `git` which sequence editor to call.
pub open spec fn sequence_editor_variable() -> Seq<char> {
    "GIT_SEQUENCE_EDITOR"@
}

/// The flag with which `git` calls this program as its sequence editor.
pub open spec fn sequence_editor_flag() -> Seq<char> {
    "--sequence-editor"@
}

/// The value of `GIT_SEQUENCE_EDITOR` that makes `git` call the executable at
/// `exe_path` as its sequence editor: the path, in double quotes where it
/// holds a space, then one space and the flag.
pub open spec fn sequence_editor_env(exe_path: Seq<char>) -> Seq<char> {
    if exe_path.contains(' ') {
        seq!['"'] + exe_path + seq!['"'] + seq![' '] + sequence_editor_flag()
    } else {
        exe_path + seq![' '] + sequence_editor_flag()
    }
}

/// `git rev-parse` with one flag; what it prints is collected.
pub open spec fn rev_parse_command(flag: Seq<char>) -> GitCommandView {
    GitCommandView {
        args: seq!["rev-parse"@, flag],
        env: None,
        stdin: Stream::Unset,
        stdout: Stream::Piped,
        stderr: Stream::Piped,
        shape: Shape::Output,
    }
}

/// `git config --get` with one key; what it prints is collected.
pub open spec fn config_get_command(key: Seq<char>) -> GitCommandView {
    GitCommandView {
        args: seq!["config"@, "--get"@, key],
        env: None,
        stdin: Stream::Unset,
        stdout: Stream::Piped,
        stderr: Stream::Piped,
        shape: Shape::Output,
    }
}

/// `git config` with a key and a value, which sets the key for the
/// repository alone.
pub open spec fn config_set_command(key: Seq<char>, value: Seq<char>) -> GitCommandView {
    GitCommandView {
        args: seq!["config"@, key, value],
        env: None,
        stdin: Stream::Unset,
        stdout: Stream::Null,
        stderr: Stream::Piped,
        shape: Shape::Status,
    }
}

/// `git rebase -i --root`, on the user's terminal. With the path of an
/// executable, `git` is told to call it as the sequence editor.
pub open spec fn rebase_interactive_command(editor: Option<Seq<char>>) -> GitCommandView {
    GitCommandView {
        args: seq!["rebase"@, "-i"@, "--root"@],
        env: match editor {
            Some(exe_path) => Some((sequence_editor_variable(), sequence_editor_env(exe_path))),
            None => None,
        },
        stdin: Stream::Inherit,
        stdout: Stream::Inherit,
        stderr: Stream::Inherit,
        shape: Shape::Status,
    }
}

/// `git commit --amend --no-edit` with `author` as the new author, on the
/// user's terminal.
pub open spec fn amend_author_command(author: Seq<char>) -> GitCommandView {
    GitCommandView {
        args: seq!["commit"@, "--amend"@, "--author="@ + author, "--no-edit"@],
        env: None,
        stdin: Stream::Inherit,
        stdout: Stream::Inherit,
        stderr: Stream::Inherit,
        shape: Shape::Status,
    }
}

/// `git rebase --continue`, on the user's terminal.
pub open spec fn rebase_continue_command() -> GitCommandView {
    GitCommandView {
        args: seq!["rebase"@, "--continue"@],
        env: None,
        stdin: Stream::Inherit,
        stdout: Stream::Inherit,
        stderr: Stream::Inherit,
        shape: Shape::Status,
    }
}

/// What an outcome comes to where only success matters: a command that ran
/// and succeeded is fine, one that ran and failed is `non-zero exit`, and of
/// one that did not start the system's message is kept.
pub open spec fn status_of(outcome: CommandOutcomeView) -> Result<(), Seq<char>> {
    match outcome {
        CommandOutcomeView::NotStarted(message) => Err(message),
        CommandOutcomeView::Exited { success, stdout, stderr } => if success {
            Ok(())
        } else {
            Err("non-zero exit"@)
        },
    }
}

/// What an outcome comes to where the output matters: of a command that
/// succeeded, what it wrote to its standard output; of one that failed, what
/// it wrote to its standard error; each without the whitespace around it. Of
/// one that did not start the system's message is kept as it is.
pub open spec fn output_of(outcome: CommandOutcomeView) -> Result<Seq<char>, Seq<char>> {
    match outcome {
        CommandOutcomeView::NotStarted(message) => Err(message),
        CommandOutcomeView::Exited { success, stdout, stderr } => if success {
            Ok(trimmed(stdout))
        } else {
            Err(trimmed(stderr))
        },
    }
}

/// The failure of `status_of`, if it is one, under the message `message`.
pub open spec fn status_with_message(
    outcome: CommandOutcomeView,
    message: Seq<char>,
) -> Result<(), Seq<char>> {
    match status_of(outcome) {
        Ok(_) => Ok(()),
        Err(_) => Err(message),
    }
}

/// The value of a configuration key: what the command printed, or nothing
/// where the key is not set or the command failed in any way.
pub open spec fn config_value_of(outcome: CommandOutcomeView) -> Seq<char> {
    match output_of(outcome) {
        Ok(value) => value,
        Err(_) => Seq::empty(),
    }
}

/// The message for an interactive rebase that did not succeed.
pub open spec fn rebase_failed_message() -> Seq<char> {
    "`git rebase -i --root` exited with non-zero status"@
}

/// The message for an amend that did not succeed.
pub open spec fn amend_failed_message() -> Seq<char> {
    "`git commit --amend` returned non-zero"@
}

/// The message for a continuation that did not succeed.
pub open spec fn continue_failed_message() -> Seq<char> {
    "`git rebase --continue` returned non-zero"@
}

/// Builds the value of `GIT_SEQUENCE_EDITOR` for the executable at
/// `exe_path`: the path is put in double quotes if and only if it holds a
/// space, and the flag follows after one space.
pub fn build_sequence_editor_env(exe_path: &str) -> (value: String)
    ensures
        value@ == sequence_editor_env(exe_path@),
        exe_path@.contains(' ') ==> value@ == seq!['"'] + exe_path@ + seq!['"'] + seq![' ']
            + sequence_editor_flag(),
        !exe_path@.contains(' ') ==> value@ == exe_path@ + seq![' '] + sequence_editor_flag(),
{
    let mut value = String::new();
    if contains_char(exe_path, ' ') {
        append_char(&mut value, '"');
        value.append(exe_path);
        append_char(&mut value, '"');
        proof {
            assert(value@ =~= seq!['"'] + exe_path@ + seq!['"']);
        }
    } else {
        value.append(exe_path);
        proof {
            assert(value@ =~= exe_path@);
        }
    }
    append_char(&mut value, ' ');
    value.append("--sequence-editor");
    proof {
        assert(value@ =~= sequence_editor_env(exe_path@));
    }
    value
}

impl GitCommand {
    /// The command that asks `git rev-parse` for what `flag` names.
    pub fn rev_parse(flag: &str) -> (cmd: GitCommand)
        ensures
            cmd@ == rev_parse_command(flag@),
    {
        let mut args: Vec<String> = Vec::new();
        args.push(String::from_str("rev-parse"));
        args.push(String::from_str(flag));
        proof {
            assert(views_of(args@) =~= seq!["rev-parse"@, flag@]);
        }
        GitCommand {
            args,
            env: None,
            stdin: Stream::Unset,
            stdout: Stream::Piped,
            stderr: Stream::Piped,
            shape: Shape::Output,
        }
    }

    /// The command that reads the configuration key `key`.
    pub fn config_get(key: &str) -> (cmd: GitCommand)
        ensures
            cmd@ == config_get_command(key@),
    {
        let mut args: Vec<String> = Vec::new();
        args.push(String::from_str("config"));
        args.push(String::from_str("--get"));
        args.push(String::from_str(key));
        proof {
            assert(views_of(args@) =~= seq!["config"@, "--get"@, key@]);
        }
        GitCommand {
            args,
            env: None,
            stdin: Stream::Unset,
            stdout: Stream::Piped,
            stderr: Stream::Piped,
            shape: Shape::Output,
        }
    }

    /// The command that sets the configuration key `key` to `value` for the
    /// repository alone.
    pub fn config_set(key: &str, value: &str) -> (cmd: GitCommand)
        ensures
            cmd@ == config_set_command(key@, value@),
    {
        let mut args: Vec<String> = Vec::new();
        args.push(String::from_str("config"));
        args.push(String::from_str(key));
        args.push(String::from_str(value));
        proof {
            assert(views_of(args@) =~= seq!["config"@, key@, value@]);
        }
        GitCommand {
            args,
            env: None,
            stdin: Stream::Unset,
            stdout: Stream::Null,
            stderr: Stream::Piped,
            shape: Shape::Status,
        }
    }

    /// The command that starts the interactive rebase from the root commit.
    ///
    /// With `editor` the path of this program's executable, `git` calls it
    /// as the sequence editor, so that every commit is stopped at. Without
    /// it the user's own editor gets the todo list.
    pub fn rebase_interactive(editor: Option<&str>) -> (cmd: GitCommand)
        ensures
            cmd@ == rebase_interactive_command(
                match editor {
                    Some(exe_path) => Some(exe_path@),
                    None => None,
                },
            ),
    {
        let mut args: Vec<String> = Vec::new();
        args.push(String::from_str("rebase"));
        args.push(String::from_str("-i"));
        args.push(String::from_str("--root"));
        proof {
            assert(views_of(args@) =~= seq!["rebase"@, "-i"@, "--root"@]);
        }
        let env = match editor {
            Some(exe_path) => Some(
                (String::from_str("GIT_SEQUENCE_EDITOR"), build_sequence_editor_env(exe_path)),
            ),
            None => None,
        };
        GitCommand {
            args,
            env,
            stdin: Stream::Inherit,
            stdout: Stream::Inherit,
            stderr: Stream::Inherit,
            shape: Shape::Status,
        }
    }

    /// The command that makes `author` the author of the current commit and
    /// leaves its message alone.
    pub fn amend_author(author: &str) -> (cmd: GitCommand)
        ensures
            cmd@ == amend_author_command(author@),
    {
        let mut option = String::from_str("--author=");
        option.append(author);
        let mut args: Vec<String> = Vec::new();
        args.push(String::from_str("commit"));
        args.push(String::from_str("--amend"));
        args.push(option);
        args.push(String::from_str("--no-edit"));
        proof {
            assert(views_of(args@) =~= seq![
                "commit"@,
                "--amend"@,
                "--author="@ + author@,
                "--no-edit"@,
            ]);
        }
        GitCommand {
            args,
            env: None,
            stdin: Stream::Inherit,
            stdout: Stream::Inherit,
            stderr: Stream::Inherit,
            shape: Shape::Status,
        }
    }

    /// The command that lets the rebase go on to its next stop.
    pub fn rebase_continue() -> (cmd: GitCommand)
        ensures
            cmd@ == rebase_continue_command(),
    {
        let mut args: Vec<String> = Vec::new();
        args.push(String::from_str("rebase"));
        args.push(String::from_str("--continue"));
        proof {
            assert(views_of(args@) =~= seq!["rebase"@, "--continue"@]);
        }
        GitCommand {
            args,
            env: None,
            stdin: Stream::Inherit,
            stdout: Stream::Inherit,
            stderr: Stream::Inherit,
            shape: Shape::Status,
        }
    }
}

/// Reads an outcome for success alone.
pub fn run_status(outcome: &CommandOutcome) -> (r: Result<(), String>)
    ensures
        unit_result(r) == status_of(outcome@),
{
    match outcome {
        CommandOutcome::NotStarted(message) => Err(message.clone()),
        CommandOutcome::Exited { success, stdout, stderr } => {
            if *success {
                Ok(())
            } else {
                Err(String::from_str("non-zero exit"))
            }
        },
    }
}

/// Reads an outcome for the output of the command.
pub fn run_output(outcome: &CommandOutcome) -> (r: Result<String, String>)
    ensures
        text_result(r) == output_of(outcome@),
{
    match outcome {
        CommandOutcome::NotStarted(message) => Err(message.clone()),
        CommandOutcome::Exited { success, stdout, stderr } => {
            if *success {
                Ok(trim(stdout.as_str()))
            } else {
                Err(trim(stderr.as_str()))
            }
        },
    }
}

/// Reads the outcome of `git rev-parse`: what it printed, or why it failed.
pub fn rev_parse(outcome: &CommandOutcome) -> (r: Result<String, String>)
    ensures
        text_result(r) == output_of(outcome@),
{
    run_output(outcome)
}

/// Reads the outcome of `git config --get`. This never fails: a key that is
/// not set, and a command that failed, give the empty string.
pub fn config_get(outcome: &CommandOutcome) -> (r: Result<String, String>)
    ensures
        r is Ok,
        r->Ok_0@ == config_value_of(outcome@),
{
    match run_output(outcome) {
        Ok(value) => Ok(value),
        Err(_) => Ok(String::new()),
    }
}

/// Reads the outcome of setting a configuration key.
pub fn config_set(outcome: &CommandOutcome) -> (r: Result<(), String>)
    ensures
        unit_result(r) == status_of(outcome@),
{
    run_status(outcome)
}

/// Reads the outcome of starting the interactive rebase. Whatever went
/// wrong is reported as `rebase_failed_message()`.
pub fn rebase_interactive(outcome: &CommandOutcome) -> (r: Result<(), String>)
    ensures
        unit_result(r) == status_with_message(outcome@, rebase_failed_message()),
{
    match run_status(outcome) {
        Ok(_) => Ok(()),
        Err(_) => Err(String::from_str("`git rebase -i --root` exited with non-zero status")),
    }
}

/// Reads the outcome of amending the author. Whatever went wrong is reported
/// as `amend_failed_message()`.
pub fn amend_author(outcome: &CommandOutcome) -> (r: Result<(), String>)
    ensures
        unit_result(r) == status_with_message(outcome@, amend_failed_message()),
{
    match run_status(outcome) {
        Ok(_) => Ok(()),
        Err(_) => Err(String::from_str("`git commit --amend` returned non-zero")),
    }
}

/// Reads the outcome of continuing the rebase. Whatever went wrong is
/// reported as `continue_failed_message()`.
pub fn rebase_continue(outcome: &CommandOutcome) -> (r: Result<(), String>)
    ensures
        unit_result(r) == status_with_message(outcome@, continue_failed_message()),
{
    match run_status(outcome) {
        Ok(_) => Ok(()),
        Err(_) => Err(String::from_str("`git rebase --continue` returned non-zero")),
    }
}

/// Which of the two directories that `git` keeps while a rebase is under way
/// were found in the git directory.
#[derive(Clone, Copy, Debug, PartialEq, Eq, Structural)]
pub struct RebaseMarkers {
    /// `rebase-merge` is there.
    pub rebase_merge: bool,
    /// `rebase-apply` is there.
    pub rebase_apply: bool,
}

/// The names of the two directories, `rebase-merge` first.
pub fn marker_names() -> (names: (String, String))
    ensures
        names.0@ == "rebase-merge"@,
        names.1@ == "rebase-apply"@,
{
    (String::from_str("rebase-merge"), String::from_str("rebase-apply"))
}

/// Whether a rebase is under way: it is if and only if at least one of the
/// two directories is there.
pub fn rebase_in_progress(markers: RebaseMarkers) -> (r: bool)
    ensures
        r == (markers.rebase_merge || markers.rebase_apply),
{
    if markers.rebase_merge {
        true
    } else {
        markers.rebase_apply
    }
}

/// Where the repository is.
#[derive(Debug, PartialEq, Eq)]
pub struct RepositoryPaths {
    /// The top of the working tree.
    pub root: String,
    /// The git directory of the repository.
    pub git_dir: String,
    /// The name under which the repository is shown to the user.
    pub name: String,
}

/// The name that is shown for a repository whose path has no last part.
pub open spec fn unnamed_repository() -> Seq<char> {
    "current repository"@
}

/// The git directory: what `git` reported where that is an absolute path,
/// and else what joining it onto the root gave.
pub open spec fn git_dir_from(reported: Seq<char>, absolute: bool, joined: Seq<char>) -> Seq<
    char,
> {
    if absolute {
        reported
    } else {
        joined
    }
}

/// The name of the repository: the last part of the path of its root, and
/// `unnamed_repository()` where the path has none.
pub open spec fn repo_name_from(file_name: Option<Seq<char>>) -> Seq<char> {
    match file_name {
        Some(name) => name,
        None => unnamed_repository(),
    }
}

/// Whether `std::path::Path::is_absolute` takes `path` for absolute. The
/// answer goes by the path rules of the platform that the library is built
/// for, and by the text of the path alone: no disk is looked at.
pub uninterp spec fn path_absolute(path: Seq<char>) -> bool;

/// What `std::path::Path::join` makes of `base` and `path`: `path` adjoined
/// to `base`, by the path rules of the platform that the library is built
/// for and the two texts alone.
pub uninterp spec fn path_joined(base: Seq<char>, path: Seq<char>) -> Seq<char>;

/// What `std::path::Path::file_name` takes for the last part of `path`, if
/// it finds one, by the path rules of the platform that the library is built
/// for and the text of the path alone.
pub uninterp spec fn path_last_part(path: Seq<char>) -> Option<Seq<char>>;

/// An optional text, as a plain value.
pub open spec fn text_option(text: Option<String>) -> Option<Seq<char>> {
    match text {
        Some(text) => Some(text@),
        None => None,
    }
}

/// `std::path::Path::is_absolute`: the answer is the one that
/// `path_absolute` names. What it is for a given path is not claimed.
#[verifier::external_body]
fn path_is_absolute(path: &str) -> (absolute: bool)
    ensures
        absolute == path_absolute(path@),
{
    std::path::Path::new(path).is_absolute()
}

/// `std::path::Path::join`: the result is the one that `path_joined` names.
/// What it is for given paths is not claimed.
#[verifier::external_body]
fn path_join(base: &str, path: &str) -> (joined: String)
    ensures
        joined@ == path_joined(base@, path@),
{
    std::path::Path::new(base).join(path).to_string_lossy().into_owned()
}

/// `std::path::Path::file_name`: the result is the one that `path_last_part`
/// names. What it is for a given path is not claimed.
#[verifier::external_body]
fn path_file_name(path: &str) -> (file_name: Option<String>)
    ensures
        text_option(file_name) == path_last_part(path@),
{
    match std::path::Path::new(path).file_name() {
        Some(name) => Some(name.to_string_lossy().into_owned()),
        None => None,
    }
}

impl RepositoryPaths {
    /// Puts the paths together from what `git` reported and what the
    /// platform says of it: whether the reported git directory is absolute,
    /// what joining it onto the root gives, and the last part of the root.
    pub fn assemble(
        root: String,
        reported: String,
        absolute: bool,
        joined: String,
        file_name: Option<String>,
    ) -> (paths: RepositoryPaths)
        ensures
            paths.root@ == root@,
            paths.git_dir@ == git_dir_from(reported@, absolute, joined@),
            paths.name@ == repo_name_from(text_option(file_name)),
    {
        let git_dir = if absolute {
            reported
        } else {
            joined
        };
        let name = match file_name {
            Some(name) => name,
            None => String::from_str("current repository"),
        };
        RepositoryPaths { root, git_dir, name }
    }

    /// Resolves the paths of the repository from the two answers of
    /// `git rev-parse`: `root` to `--show-toplevel` and `reported` to
    /// `--git-dir`.
    ///
    /// The root is kept as it is. The git directory is the reported one
    /// where that is absolute, and else the reported one joined onto the
    /// root. The name is the last part of the root, or
    /// `unnamed_repository()` where it has none.
    pub fn resolve(root: &str, reported: &str) -> (paths: RepositoryPaths)
        ensures
            paths.root@ == root@,
            paths.git_dir@ == git_dir_from(
                reported@,
                path_absolute(reported@),
                path_joined(root@, reported@),
            ),
            path_absolute(reported@) ==> paths.git_dir@ == reported@,
            !path_absolute(reported@) ==> paths.git_dir@ == path_joined(root@, reported@),
            paths.name@ == repo_name_from(path_last_part(root@)),
    {
        let absolute = path_is_absolute(reported);
        let joined = path_join(root, reported);
        let file_name = path_file_name(root);
        RepositoryPaths::assemble(
            String::from_str(root),
            String::from_str(reported),
            absolute,
            joined,
            file_name,
        )
    }
}

/// The author that every commit is given: a name and an email address, each
/// without whitespace around it.
#[derive(Debug, PartialEq, Eq)]
pub struct AuthorIdentity {
    pub name: String,
    pub email: String,
}

/// The author as `git` takes it: the name, a space, and the email address in
/// angle brackets.
pub open spec fn author_line(name: Seq<char>, email: Seq<char>) -> Seq<char> {
    name + " <"@ + email + ">"@
}

impl AuthorIdentity {
    /// Neither the name nor the email address has whitespace around it.
    pub open spec fn wf(&self) -> bool {
        &&& trimmed(self.name@) == self.name@
        &&& trimmed(self.email@) == self.email@
    }

    /// The identity with the given name and email address, each taken
    /// without the whitespace around it.
    pub fn new(name: &str, email: &str) -> (identity: AuthorIdentity)
        ensures
            identity.wf(),
            identity.name@ == trimmed(name@),
            identity.email@ == trimmed(email@),
    {
        proof {
            lemma_trimmed_is_trimmed(name@);
            lemma_trimmed_is_trimmed(email@);
        }
        AuthorIdentity { name: trim(name), email: trim(email) }
    }

    /// The author as `git commit --author` takes it.
    pub fn author_string(&self) -> (line: String)
        ensures
            line@ == author_line(self.name@, self.email@),
    {
        let mut line = self.name.clone();
        line.append(" <");
        line.append(self.email.as_str());
        line.append(">");
        line
    }
}

} // verus!
