//! A run of the program as a state machine.
//!
//! The program alternates between work in the world (running `git`, asking
//! the user, looking at the git directory) and decisions about what comes
//! next. The decisions are here: a session hands out one request at a time,
//! and takes the answer as an event. The caller performs the request and
//! comes back with the event, until the request is to exit.

use crate::cli::{
    invocation_of, parse_args, should_exit_no_change, unchanged, Invocation, InvocationView,
};
use crate::git::{
    amend_author, amend_author_command, amend_failed_message, author_line, config_get,
    config_get_command, config_set, config_set_command, config_value_of, continue_failed_message,
    marker_names, output_of, rebase_continue, rebase_continue_command, rebase_failed_message,
    rebase_in_progress, rebase_interactive, rebase_interactive_command, rev_parse,
    rev_parse_command, status_of, status_with_message, AuthorIdentity, CommandOutcome, GitCommand,
    GitCommandView, RebaseMarkers, RepositoryPaths,
};
use crate::sequence_editor::{
    missing_path_message, read_failed_message, rewrite, run, transformed, write_failed_message,
    WriteFailure,
};
use crate::text::{concat2, concat3, lemma_trimmed_is_trimmed, trimmed, views_of};
use vstd::prelude::*;
use vstd::string::StringExecFns;

verus! {

/// The kinds of failure that end a run.
#[derive(Clone, Copy, Debug, PartialEq, Eq, Structural)]
pub enum Failure {
    /// `git` is missing, or the run is not inside a repository.
    Environment,
    /// A question to the user could not be put or answered.
    Prompt,
    /// The configuration of the repository could not be changed.
    Config,
    /// The interactive rebase could not be started.
    RebaseStart,
    /// The author of a commit could not be changed.
    Amend,
    /// The rebase could not go on to its next stop.
    Continue,
    /// The todo list could not be read, rewritten or stored.
    TodoTransform,
    /// An event came that does not answer the request that was made.
    Protocol,
}

/// How a run ended.
#[derive(Clone, Copy, Debug, PartialEq, Eq, Structural)]
pub enum Outcome {
    /// The todo list was rewritten.
    TodoRewritten,
    /// The usage was shown.
    HelpShown,
    /// The version was shown.
    VersionShown,
    /// The name and the email address are the ones already set: nothing
    /// was done.
    Unchanged,
    /// The user declined to start.
    Canceled,
    /// The rebase came to its end and every stop was amended.
    Completed,
    /// The run failed.
    Failed(Failure),
}

/// Where a run stands: which answer it waits for, or how it ended.
#[derive(Clone, Copy, Debug, PartialEq, Eq, Structural)]
pub enum Phase {
    /// The content of the todo list was asked for.
    ReadingTodo,
    /// The new content of the todo list was handed out for storing.
    WritingTodo,
    /// `git` is being looked for.
    LocatingGit,
    /// `git rev-parse --show-toplevel` runs.
    FindingRoot,
    /// `git rev-parse --git-dir` runs.
    FindingGitDir,
    /// The paths of the repository are being resolved.
    ResolvingPaths,
    /// `git config --get user.name` runs.
    ReadingName,
    /// `git config --get user.email` runs.
    ReadingEmail,
    /// The user is asked for the name.
    AskingName,
    /// The user is asked for the email address.
    AskingEmail,
    /// `git config user.name` runs.
    SettingName,
    /// `git config user.email` runs.
    SettingEmail,
    /// The user is asked whether to start.
    Confirming,
    /// The path of this program's executable is being looked up.
    LocatingSelf,
    /// `git rebase -i --root` runs.
    Starting,
    /// The git directory is looked at for the marks of a rebase under way.
    Probing,
    /// `git commit --amend` runs.
    Amending,
    /// `git rebase --continue` runs.
    Continuing,
    /// The run is over.
    Done(Outcome),
}

/// The state of the rebase in a run.
#[derive(Clone, Copy, Debug, PartialEq, Eq, Structural)]
pub enum RebaseState {
    /// The rebase has not been started, or could not be.
    NotStarted,
    /// The rebase was started and has not come to its end.
    InProgress,
    /// The rebase came to its end.
    Completed,
    /// An amend or a continuation failed; the rebase is left where it
    /// stopped.
    Failed,
}

/// How a line is shown.
#[derive(Clone, Copy, Debug, PartialEq, Eq, Structural)]
pub enum Tone {
    /// As it is.
    Plain,
    /// As a failure: red and bold.
    Failure,
    /// As a caution: yellow and bold.
    Caution,
    /// As a success: green and bold.
    Success,
    /// As progress: green.
    Progress,
}

/// Something to show to the user.
#[derive(Debug, PartialEq, Eq)]
pub enum Notice {
    /// One line, on standard error if `to_stderr` and else on standard
    /// output.
    Line { text: String, tone: Tone, to_stderr: bool },
    /// The banner that announces the rewrite.
    Banner { name: String, email: String, manual_mode: bool },
    /// The version of the program.
    Version,
}

/// Something to show to the user, as a plain value.
pub enum NoticeView {
    Line { text: Seq<char>, tone: Tone, to_stderr: bool },
    Banner { name: Seq<char>, email: Seq<char>, manual_mode: bool },
    Version,
}

impl View for Notice {
    type V = NoticeView;

    open spec fn view(&self) -> NoticeView {
        match self {
            Notice::Line { text, tone, to_stderr } => NoticeView::Line {
                text: text@,
                tone: *tone,
                to_stderr: *to_stderr,
            },
            Notice::Banner { name, email, manual_mode } => NoticeView::Banner {
                name: name@,
                email: email@,
                manual_mode: *manual_mode,
            },
            Notice::Version => NoticeView::Version,
        }
    }
}

/// What the caller is to do next.
#[derive(Debug, PartialEq, Eq)]
pub enum Request {
    /// Read the file at `path`; answer with `Event::TodoRead`.
    ReadTodo { path: String },
    /// Store `content` in the file at `path`, in place of what it holds;
    /// answer with `Event::TodoWritten`.
    WriteTodo { path: String, content: String },
    /// Look for `git` on the search path; answer with `Event::GitLocated`.
    LocateGit,
    /// Run the command; answer with `Event::Ran`.
    Run(GitCommand),
    /// Resolve the paths of the repository from the two answers of `git`,
    /// with `RepositoryPaths::resolve`; answer with `Event::Paths`.
    ResolvePaths { root: String, reported: String },
    /// Ask the user for a value, with `prompt::ask`; answer with
    /// `Event::Answered`.
    Ask { label: String, repo_name: String, default_value: String },
    /// Ask the user whether to start, with `prompt::confirm_start`; answer
    /// with `Event::Confirmed`.
    Confirm,
    /// Look up the path of this program's executable; answer with
    /// `Event::SelfLocated`.
    LocateSelf,
    /// Look in `git_dir` for the two directories named; answer with
    /// `Event::Probed`.
    Probe { git_dir: String, rebase_merge: String, rebase_apply: String },
    /// End the process with the exit code `code`.
    Exit { code: i32 },
}

/// What the caller is to do next, as a plain value.
pub enum RequestView {
    ReadTodo { path: Seq<char> },
    WriteTodo { path: Seq<char>, content: Seq<char> },
    LocateGit,
    Run(GitCommandView),
    ResolvePaths { root: Seq<char>, reported: Seq<char> },
    Ask { label: Seq<char>, repo_name: Seq<char>, default_value: Seq<char> },
    Confirm,
    LocateSelf,
    Probe { git_dir: Seq<char>, rebase_merge: Seq<char>, rebase_apply: Seq<char> },
    Exit { code: i32 },
}

impl View for Request {
    type V = RequestView;

    open spec fn view(&self) -> RequestView {
        match self {
            Request::ReadTodo { path } => RequestView::ReadTodo { path: path@ },
            Request::WriteTodo { path, content } => RequestView::WriteTodo {
                path: path@,
                content: content@,
            },
            Request::LocateGit => RequestView::LocateGit,
            Request::Run(command) => RequestView::Run(command@),
            Request::ResolvePaths { root, reported } => RequestView::ResolvePaths {
                root: root@,
                reported: reported@,
            },
            Request::Ask { label, repo_name, default_value } => RequestView::Ask {
                label: label@,
                repo_name: repo_name@,
                default_value: default_value@,
            },
            Request::Confirm => RequestView::Confirm,
            Request::LocateSelf => RequestView::LocateSelf,
            Request::Probe { git_dir, rebase_merge, rebase_apply } => RequestView::Probe {
                git_dir: git_dir@,
                rebase_merge: rebase_merge@,
                rebase_apply: rebase_apply@,
            },
            Request::Exit { code } => RequestView::Exit { code: *code },
        }
    }
}

/// One step of a run as the caller sees it: what to show, if anything, and
/// then what to do.
#[derive(Debug, PartialEq, Eq)]
pub struct Action {
    pub notice: Option<Notice>,
    pub request: Request,
}

/// One step of a run, as a plain value.
pub struct ActionView {
    pub notice: Option<NoticeView>,
    pub request: RequestView,
}

impl View for Action {
    type V = ActionView;

    open spec fn view(&self) -> ActionView {
        ActionView {
            notice: match self.notice {
                Some(notice) => Some(notice@),
                None => None,
            },
            request: self.request@,
        }
    }
}

/// The answer to a request.
#[derive(Debug, PartialEq, Eq)]
pub enum Event {
    /// The content of the todo list, or why it could not be read.
    TodoRead(Result<String, String>),
    /// The todo list was stored, or why it could not be.
    TodoWritten(Result<(), WriteFailure>),
    /// Whether `git` was found.
    GitLocated(bool),
    /// How the command ended.
    Ran(CommandOutcome),
    /// The paths of the repository.
    Paths(RepositoryPaths),
    /// What the user entered, or why nothing could be read.
    Answered(Result<String, String>),
    /// What the user chose, or why nothing could be read.
    Confirmed(Result<bool, String>),
    /// The path of this program's executable, or why it is not known.
    SelfLocated(Result<String, String>),
    /// Which of the two directories were found.
    Probed(RebaseMarkers),
}

/// A run of the program: where it stands and what it has learned so far.
#[derive(Debug, PartialEq, Eq)]
pub struct Session {
    pub phase: Phase,
    /// Whether the user's own editor gets the todo list.
    pub manual: bool,
    /// The path of the todo list, in a run as sequence editor.
    pub todo_path: String,
    /// The top of the working tree.
    pub root: String,
    /// The git directory.
    pub git_dir: String,
    /// The name under which the repository is shown.
    pub repo_name: String,
    /// The name that the repository is configured with.
    pub default_name: String,
    /// The email address that the repository is configured with.
    pub default_email: String,
    /// The name as the user entered it, until the email address is known.
    pub entered_name: String,
    /// The author that the commits are given, once it is known.
    pub identity: AuthorIdentity,
}

/// A run of the program, as a plain value.
pub struct SessionView {
    pub phase: Phase,
    pub manual: bool,
    pub todo_path: Seq<char>,
    pub root: Seq<char>,
    pub git_dir: Seq<char>,
    pub repo_name: Seq<char>,
    pub default_name: Seq<char>,
    pub default_email: Seq<char>,
    pub entered_name: Seq<char>,
    pub name: Seq<char>,
    pub email: Seq<char>,
}

impl View for Session {
    type V = SessionView;

    open spec fn view(&self) -> SessionView {
        SessionView {
            phase: self.phase,
            manual: self.manual,
            todo_path: self.todo_path@,
            root: self.root@,
            git_dir: self.git_dir@,
            repo_name: self.repo_name@,
            default_name: self.default_name@,
            default_email: self.default_email@,
            entered_name: self.entered_name@,
            name: self.identity.name@,
            email: self.identity.email@,
        }
    }
}

/// How the program is used.
pub open spec fn usage() -> Seq<char> {
    "Usage: git-author-rewrite [--manual]\n\nRewrites the author of every commit of the current repository.\n\nOptions:\n      --manual   Choose in your own editor which commits to stop at\n  -h, --help     Show this help\n  -V, --version  Show the version"@
}

/// The report of a failure of the sequence editor.
pub open spec fn sequence_editor_error(cause: Seq<char>) -> Seq<char> {
    "Sequence editor error: "@ + cause
}

/// The report of a missing `git`.
pub open spec fn git_missing_message() -> Seq<char> {
    "Error: `git` not found in PATH."@
}

/// The report of a run outside a repository.
pub open spec fn not_a_repository_message(cause: Seq<char>) -> Seq<char> {
    "Error: not inside a git repo ("@ + cause + ")"@
}

/// The report of a git directory that cannot be found.
pub open spec fn no_git_dir_message(cause: Seq<char>) -> Seq<char> {
    "Error: unable to locate .git dir ("@ + cause + ")"@
}

/// The report of a question that failed.
pub open spec fn prompt_error(cause: Seq<char>) -> Seq<char> {
    "Prompt error: "@ + cause
}

/// What is said where there is nothing to do.
pub open spec fn no_change_message() -> Seq<char> {
    "No changes detected for name or email; exiting without modifying history."@
}

/// The report of a name that could not be set.
pub open spec fn set_name_failed(cause: Seq<char>) -> Seq<char> {
    "Failed to set user.name: "@ + cause
}

/// The report of an email address that could not be set.
pub open spec fn set_email_failed(cause: Seq<char>) -> Seq<char> {
    "Failed to set user.email: "@ + cause
}

/// The report of a rebase that could not be started.
pub open spec fn start_failed(cause: Seq<char>) -> Seq<char> {
    "❌ Rebase failed to start: "@ + cause
}

/// Why a rebase cannot be started where the path of this program is not
/// known.
pub open spec fn no_executable(cause: Seq<char>) -> Seq<char> {
    "cannot locate current executable: "@ + cause
}

/// What is said when the rebase has come to its end.
pub open spec fn success_message() -> Seq<char> {
    "✅ Successfully rewrote commit authors."@
}

/// What is said after each amend.
pub open spec fn amended_message() -> Seq<char> {
    "Amended current commit author."@
}

/// The report of an amend that failed.
pub open spec fn amend_failed(cause: Seq<char>) -> Seq<char> {
    "❌ Failed to amend commit: "@ + cause
}

/// The report of a continuation that failed.
pub open spec fn continue_failed(cause: Seq<char>) -> Seq<char> {
    "❌ `git rebase --continue` failed: "@ + cause
}

/// What is said where the user declined to start.
pub open spec fn canceled_message() -> Seq<char> {
    "Canceled by user. No changes made."@
}

/// The report of an event that answers no request.
pub open spec fn unexpected_event_message() -> Seq<char> {
    "Internal error: unexpected event."@
}

/// The exit code of a run that ended with `outcome`: 1 for a failure, 0 for
/// everything else.
pub open spec fn exit_code(outcome: Outcome) -> i32 {
    match outcome {
        Outcome::Failed(_) => 1,
        _ => 0,
    }
}

/// The state of the rebase in a run that stands at `phase`.
pub open spec fn rebase_state(phase: Phase) -> RebaseState {
    match phase {
        Phase::Probing | Phase::Amending | Phase::Continuing => RebaseState::InProgress,
        Phase::Done(Outcome::Completed) => RebaseState::Completed,
        Phase::Done(Outcome::Failed(Failure::Amend)) | Phase::Done(
            Outcome::Failed(Failure::Continue),
        ) => RebaseState::Failed,
        _ => RebaseState::NotStarted,
    }
}

/// A line on standard output or standard error.
pub open spec fn line(text: Seq<char>, tone: Tone, to_stderr: bool) -> Option<NoticeView> {
    Some(NoticeView::Line { text, tone, to_stderr })
}

/// The run goes on in `phase` with `request`, and nothing is shown.
pub open spec fn moved(s: SessionView, phase: Phase, request: RequestView) -> (
    SessionView,
    ActionView,
) {
    (SessionView { phase, ..s }, ActionView { notice: None, request })
}

/// The run ends with `outcome` after showing `notice`.
pub open spec fn finished(s: SessionView, outcome: Outcome, notice: Option<NoticeView>) -> (
    SessionView,
    ActionView,
) {
    (
        SessionView { phase: Phase::Done(outcome), ..s },
        ActionView { notice, request: RequestView::Exit { code: exit_code(outcome) } },
    )
}

/// The run ends with a failure of the given kind, reported as `text` on
/// standard error.
pub open spec fn failed(s: SessionView, kind: Failure, text: Seq<char>) -> (
    SessionView,
    ActionView,
) {
    finished(s, Outcome::Failed(kind), line(text, Tone::Failure, true))
}

/// The request to look at the git directory.
pub open spec fn probe(s: SessionView) -> RequestView {
    RequestView::Probe {
        git_dir: s.git_dir,
        rebase_merge: "rebase-merge"@,
        rebase_apply: "rebase-apply"@,
    }
}

/// A session that has learned nothing yet.
pub open spec fn blank() -> SessionView {
    SessionView {
        phase: Phase::LocatingGit,
        manual: false,
        todo_path: Seq::empty(),
        root: Seq::empty(),
        git_dir: Seq::empty(),
        repo_name: Seq::empty(),
        default_name: Seq::empty(),
        default_email: Seq::empty(),
        entered_name: Seq::empty(),
        name: Seq::empty(),
        email: Seq::empty(),
    }
}

/// How a run begins on the command line `args`.
///
/// As the sequence editor it asks for the todo list at the path given, or
/// fails at once where none is given. Asked for help or for the version it
/// shows that and ends. Else it begins the rewrite by looking for `git`.
pub open spec fn start(args: Seq<Seq<char>>) -> (SessionView, ActionView) {
    match invocation_of(args) {
        InvocationView::SequenceEditor(Some(path)) => moved(
            SessionView { todo_path: path, ..blank() },
            Phase::ReadingTodo,
            RequestView::ReadTodo { path },
        ),
        InvocationView::SequenceEditor(None) => failed(
            blank(),
            Failure::TodoTransform,
            sequence_editor_error(missing_path_message()),
        ),
        InvocationView::Help => finished(
            blank(),
            Outcome::HelpShown,
            line(usage(), Tone::Plain, false),
        ),
        InvocationView::Version => finished(
            blank(),
            Outcome::VersionShown,
            Some(NoticeView::Version),
        ),
        InvocationView::Rewrite { manual } => moved(
            SessionView { manual, ..blank() },
            Phase::LocatingGit,
            RequestView::LocateGit,
        ),
    }
}

/// What follows the reading of the todo list: its new content is handed out
/// for storing, or the failure is reported.
pub open spec fn after_todo_read(s: SessionView, read: Result<String, String>) -> (
    SessionView,
    ActionView,
) {
    match read {
        Ok(body) => moved(
            s,
            Phase::WritingTodo,
            RequestView::WriteTodo { path: s.todo_path, content: transformed(body@) },
        ),
        Err(cause) => failed(
            s,
            Failure::TodoTransform,
            sequence_editor_error(read_failed_message(cause@)),
        ),
    }
}

/// What follows the storing of the todo list: the run ends.
pub open spec fn after_todo_written(s: SessionView, written: Result<(), WriteFailure>) -> (
    SessionView,
    ActionView,
) {
    match written {
        Ok(_) => finished(s, Outcome::TodoRewritten, None),
        Err(failure) => failed(
            s,
            Failure::TodoTransform,
            sequence_editor_error(write_failed_message(failure)),
        ),
    }
}

/// What follows the search for `git`: the root of the repository is asked
/// for.
pub open spec fn after_git_located(s: SessionView, found: bool) -> (SessionView, ActionView) {
    if found {
        moved(s, Phase::FindingRoot, RequestView::Run(rev_parse_command("--show-toplevel"@)))
    } else {
        failed(s, Failure::Environment, git_missing_message())
    }
}

/// What follows the answer on the root: the git directory is asked for.
pub open spec fn after_root(s: SessionView, outcome: CommandOutcome) -> (
    SessionView,
    ActionView,
) {
    match output_of(outcome@) {
        Ok(root) => moved(
            SessionView { root, ..s },
            Phase::FindingGitDir,
            RequestView::Run(rev_parse_command("--git-dir"@)),
        ),
        Err(cause) => failed(s, Failure::Environment, not_a_repository_message(cause)),
    }
}

/// What follows the answer on the git directory: the paths are resolved.
pub open spec fn after_git_dir(s: SessionView, outcome: CommandOutcome) -> (
    SessionView,
    ActionView,
) {
    match output_of(outcome@) {
        Ok(reported) => moved(
            s,
            Phase::ResolvingPaths,
            RequestView::ResolvePaths { root: s.root, reported },
        ),
        Err(cause) => failed(s, Failure::Environment, no_git_dir_message(cause)),
    }
}

/// What follows the resolving of the paths: the configured name is read.
pub open spec fn after_paths(s: SessionView, paths: RepositoryPaths) -> (
    SessionView,
    ActionView,
) {
    moved(
        SessionView { git_dir: paths.git_dir@, repo_name: paths.name@, ..s },
        Phase::ReadingName,
        RequestView::Run(config_get_command("user.name"@)),
    )
}

/// What follows the reading of the configured name: the configured email
/// address is read.
pub open spec fn after_default_name(s: SessionView, outcome: CommandOutcome) -> (
    SessionView,
    ActionView,
) {
    moved(
        SessionView { default_name: config_value_of(outcome@), ..s },
        Phase::ReadingEmail,
        RequestView::Run(config_get_command("user.email"@)),
    )
}

/// What follows the reading of the configured email address: the user is
/// asked for the name, with the configured name on offer.
pub open spec fn after_default_email(s: SessionView, outcome: CommandOutcome) -> (
    SessionView,
    ActionView,
) {
    moved(
        SessionView { default_email: config_value_of(outcome@), ..s },
        Phase::AskingName,
        RequestView::Ask {
            label: "Author name"@,
            repo_name: s.repo_name,
            default_value: s.default_name,
        },
    )
}

/// What follows the answer on the name: the user is asked for the email
/// address, with the configured one on offer.
pub open spec fn after_name(s: SessionView, answer: Result<String, String>) -> (
    SessionView,
    ActionView,
) {
    match answer {
        Ok(name) => moved(
            SessionView { entered_name: name@, ..s },
            Phase::AskingEmail,
            RequestView::Ask {
                label: "Author email"@,
                repo_name: s.repo_name,
                default_value: s.default_email,
            },
        ),
        Err(cause) => failed(s, Failure::Prompt, prompt_error(cause@)),
    }
}

/// What follows the answer on the email address. Where neither the name nor
/// the email address differs from what is configured, the run ends and
/// nothing is changed. Else both are taken without the whitespace around
/// them, and the name is set first.
pub open spec fn after_email(s: SessionView, answer: Result<String, String>) -> (
    SessionView,
    ActionView,
) {
    match answer {
        Ok(email) => if unchanged(s.entered_name, email@, s.default_name, s.default_email) {
            finished(s, Outcome::Unchanged, line(no_change_message(), Tone::Caution, true))
        } else {
            moved(
                SessionView { name: trimmed(s.entered_name), email: trimmed(email@), ..s },
                Phase::SettingName,
                RequestView::Run(config_set_command("user.name"@, trimmed(s.entered_name))),
            )
        },
        Err(cause) => failed(s, Failure::Prompt, prompt_error(cause@)),
    }
}

/// What follows the setting of the name: the email address is set.
pub open spec fn after_name_set(s: SessionView, outcome: CommandOutcome) -> (
    SessionView,
    ActionView,
) {
    match status_of(outcome@) {
        Ok(_) => moved(
            s,
            Phase::SettingEmail,
            RequestView::Run(config_set_command("user.email"@, s.email)),
        ),
        Err(cause) => failed(s, Failure::Config, set_name_failed(cause)),
    }
}

/// What follows the setting of the email address: the banner is shown and
/// the user is asked whether to start.
pub open spec fn after_email_set(s: SessionView, outcome: CommandOutcome) -> (
    SessionView,
    ActionView,
) {
    match status_of(outcome@) {
        Ok(_) => (
            SessionView { phase: Phase::Confirming, ..s },
            ActionView {
                notice: Some(
                    NoticeView::Banner { name: s.name, email: s.email, manual_mode: s.manual },
                ),
                request: RequestView::Confirm,
            },
        ),
        Err(cause) => failed(s, Failure::Config, set_email_failed(cause)),
    }
}

/// What follows the user's choice. After a yes the rebase is started: at
/// once in manual mode, and else after this program's executable has been
/// looked up. After a no the run ends and nothing is changed.
pub open spec fn after_confirmation(s: SessionView, answer: Result<bool, String>) -> (
    SessionView,
    ActionView,
) {
    match answer {
        Ok(start) => if !start {
            finished(s, Outcome::Canceled, line(canceled_message(), Tone::Caution, false))
        } else if s.manual {
            moved(s, Phase::Starting, RequestView::Run(rebase_interactive_command(None)))
        } else {
            moved(s, Phase::LocatingSelf, RequestView::LocateSelf)
        },
        Err(cause) => failed(s, Failure::Prompt, prompt_error(cause@)),
    }
}

/// What follows the lookup of this program's executable: the rebase is
/// started with it as the sequence editor. Without it there is no start.
pub open spec fn after_self_located(s: SessionView, located: Result<String, String>) -> (
    SessionView,
    ActionView,
) {
    match located {
        Ok(exe_path) => moved(
            s,
            Phase::Starting,
            RequestView::Run(rebase_interactive_command(Some(exe_path@))),
        ),
        Err(cause) => failed(s, Failure::RebaseStart, start_failed(no_executable(cause@))),
    }
}

/// What follows the start of the rebase: the git directory is looked at.
pub open spec fn after_start(s: SessionView, outcome: CommandOutcome) -> (
    SessionView,
    ActionView,
) {
    match status_with_message(outcome@, rebase_failed_message()) {
        Ok(_) => moved(s, Phase::Probing, probe(s)),
        Err(cause) => failed(s, Failure::RebaseStart, start_failed(cause)),
    }
}

/// What follows a look at the git directory. While a rebase is under way the
/// commit it stopped at is amended; once it is not, the run has succeeded.
pub open spec fn after_probe(s: SessionView, markers: RebaseMarkers) -> (
    SessionView,
    ActionView,
) {
    if markers.rebase_merge || markers.rebase_apply {
        moved(
            s,
            Phase::Amending,
            RequestView::Run(amend_author_command(author_line(s.name, s.email))),
        )
    } else {
        finished(s, Outcome::Completed, line(success_message(), Tone::Success, false))
    }
}

/// What follows an amend: the rebase is let go on. A failure ends the run.
pub open spec fn after_amend(s: SessionView, outcome: CommandOutcome) -> (
    SessionView,
    ActionView,
) {
    match status_with_message(outcome@, amend_failed_message()) {
        Ok(_) => (
            SessionView { phase: Phase::Continuing, ..s },
            ActionView {
                notice: line(amended_message(), Tone::Progress, false),
                request: RequestView::Run(rebase_continue_command()),
            },
        ),
        Err(cause) => failed(s, Failure::Amend, amend_failed(cause)),
    }
}

/// What follows a continuation: the git directory is looked at again. A
/// failure ends the run.
pub open spec fn after_continue(s: SessionView, outcome: CommandOutcome) -> (
    SessionView,
    ActionView,
) {
    match status_with_message(outcome@, continue_failed_message()) {
        Ok(_) => moved(s, Phase::Probing, probe(s)),
        Err(cause) => failed(s, Failure::Continue, continue_failed(cause)),
    }
}

/// What a run that stands at `s` does on the event `e`: where it stands
/// afterwards, and what the caller is to show and to do.
///
/// A run that is over stays as it is and asks again to exit. An event that
/// does not answer the request of the phase ends the run as a failure.
pub open spec fn next(s: SessionView, e: Event) -> (SessionView, ActionView) {
    match (s.phase, e) {
        (Phase::Done(outcome), _) => (
            s,
            ActionView { notice: None, request: RequestView::Exit { code: exit_code(outcome) } },
        ),
        (Phase::ReadingTodo, Event::TodoRead(read)) => after_todo_read(s, read),
        (Phase::WritingTodo, Event::TodoWritten(written)) => after_todo_written(s, written),
        (Phase::LocatingGit, Event::GitLocated(found)) => after_git_located(s, found),
        (Phase::FindingRoot, Event::Ran(outcome)) => after_root(s, outcome),
        (Phase::FindingGitDir, Event::Ran(outcome)) => after_git_dir(s, outcome),
        (Phase::ResolvingPaths, Event::Paths(paths)) => after_paths(s, paths),
        (Phase::ReadingName, Event::Ran(outcome)) => after_default_name(s, outcome),
        (Phase::ReadingEmail, Event::Ran(outcome)) => after_default_email(s, outcome),
        (Phase::AskingName, Event::Answered(answer)) => after_name(s, answer),
        (Phase::AskingEmail, Event::Answered(answer)) => after_email(s, answer),
        (Phase::SettingName, Event::Ran(outcome)) => after_name_set(s, outcome),
        (Phase::SettingEmail, Event::Ran(outcome)) => after_email_set(s, outcome),
        (Phase::Confirming, Event::Confirmed(answer)) => after_confirmation(s, answer),
        (Phase::LocatingSelf, Event::SelfLocated(located)) => after_self_located(s, located),
        (Phase::Starting, Event::Ran(outcome)) => after_start(s, outcome),
        (Phase::Probing, Event::Probed(markers)) => after_probe(s, markers),
        (Phase::Amending, Event::Ran(outcome)) => after_amend(s, outcome),
        (Phase::Continuing, Event::Ran(outcome)) => after_continue(s, outcome),
        _ => failed(s, Failure::Protocol, unexpected_event_message()),
    }
}

/// The name and the email address of the author have no whitespace around
/// them.
pub open spec fn identity_is_trimmed(s: SessionView) -> bool {
    trimmed(s.name) == s.name && trimmed(s.email) == s.email
}

/// The exit code of a run that ended with `outcome`.
pub fn exit_code_of(outcome: Outcome) -> (code: i32)
    ensures
        code == exit_code(outcome),
{
    match outcome {
        Outcome::Failed(_) => 1,
        _ => 0,
    }
}

impl Session {
    /// The author held by the session has no whitespace around the name or
    /// the email address.
    pub open spec fn wf(&self) -> bool {
        identity_is_trimmed(self@)
    }

    /// The state of the rebase in this run.
    pub fn rebase_state(&self) -> (state: RebaseState)
        ensures
            state == rebase_state(self.phase),
    {
        match self.phase {
            Phase::Probing | Phase::Amending | Phase::Continuing => RebaseState::InProgress,
            Phase::Done(Outcome::Completed) => RebaseState::Completed,
            Phase::Done(Outcome::Failed(Failure::Amend)) => RebaseState::Failed,
            Phase::Done(Outcome::Failed(Failure::Continue)) => RebaseState::Failed,
            _ => RebaseState::NotStarted,
        }
    }

    fn blank_session() -> (s: Session)
        ensures
            s@ == blank(),
            s.wf(),
    {
        let s = Session {
            phase: Phase::LocatingGit,
            manual: false,
            todo_path: String::new(),
            root: String::new(),
            git_dir: String::new(),
            repo_name: String::new(),
            default_name: String::new(),
            default_email: String::new(),
            entered_name: String::new(),
            identity: AuthorIdentity { name: String::new(), email: String::new() },
        };
        proof {
            let none = Seq::<char>::empty();
            assert(none.skip(0) =~= none);
            assert(trimmed(none) =~= none);
        }
        s
    }

    fn go(self, phase: Phase, request: Request) -> (r: (Session, Action))
        ensures
            (r.0@, r.1@) == moved(self@, phase, request@),
    {
        let mut s = self;
        s.phase = phase;
        (s, Action { notice: None, request })
    }

    fn finish(self, outcome: Outcome, notice: Option<Notice>) -> (r: (Session, Action))
        ensures
            (r.0@, r.1@) == finished(
                self@,
                outcome,
                match notice {
                    Some(notice) => Some(notice@),
                    None => None,
                },
            ),
    {
        let mut s = self;
        s.phase = Phase::Done(outcome);
        (s, Action { notice, request: Request::Exit { code: exit_code_of(outcome) } })
    }

    fn fail(self, kind: Failure, text: String) -> (r: (Session, Action))
        ensures
            (r.0@, r.1@) == failed(self@, kind, text@),
    {
        self.finish(
            Outcome::Failed(kind),
            Some(Notice::Line { text, tone: Tone::Failure, to_stderr: true }),
        )
    }

    fn unexpected(self) -> (r: (Session, Action))
        ensures
            (r.0@, r.1@) == failed(self@, Failure::Protocol, unexpected_event_message()),
    {
        self.fail(Failure::Protocol, String::from_str("Internal error: unexpected event."))
    }

    fn probe_request(&self) -> (request: Request)
        ensures
            request@ == probe(self@),
    {
        let (rebase_merge, rebase_apply) = marker_names();
        Request::Probe { git_dir: self.git_dir.clone(), rebase_merge, rebase_apply }
    }

    fn on_todo_read(self, read: Result<String, String>) -> (r: (Session, Action))
        ensures
            (r.0@, r.1@) == after_todo_read(self@, read),
    {
        match rewrite(read) {
            Ok(content) => {
                let path = self.todo_path.clone();
                self.go(Phase::WritingTodo, Request::WriteTodo { path, content })
            },
            Err(message) => self.fail(
                Failure::TodoTransform,
                concat2("Sequence editor error: ", message.as_str()),
            ),
        }
    }

    fn on_todo_written(self, written: Result<(), WriteFailure>) -> (r: (Session, Action))
        ensures
            (r.0@, r.1@) == after_todo_written(self@, written),
    {
        match written {
            Ok(_) => self.finish(Outcome::TodoRewritten, None),
            Err(failure) => {
                let message = failure.message();
                self.fail(
                    Failure::TodoTransform,
                    concat2("Sequence editor error: ", message.as_str()),
                )
            },
        }
    }

    fn on_git_located(self, found: bool) -> (r: (Session, Action))
        ensures
            (r.0@, r.1@) == after_git_located(self@, found),
    {
        if found {
            self.go(Phase::FindingRoot, Request::Run(GitCommand::rev_parse("--show-toplevel")))
        } else {
            self.fail(Failure::Environment, String::from_str("Error: `git` not found in PATH."))
        }
    }

    fn on_root(self, outcome: CommandOutcome) -> (r: (Session, Action))
        ensures
            (r.0@, r.1@) == after_root(self@, outcome),
    {
        match rev_parse(&outcome) {
            Ok(root) => {
                let mut s = self;
                s.root = root;
                s.go(Phase::FindingGitDir, Request::Run(GitCommand::rev_parse("--git-dir")))
            },
            Err(cause) => self.fail(
                Failure::Environment,
                concat3("Error: not inside a git repo (", cause.as_str(), ")"),
            ),
        }
    }

    fn on_git_dir(self, outcome: CommandOutcome) -> (r: (Session, Action))
        ensures
            (r.0@, r.1@) == after_git_dir(self@, outcome),
    {
        match rev_parse(&outcome) {
            Ok(reported) => {
                let root = self.root.clone();
                self.go(Phase::ResolvingPaths, Request::ResolvePaths { root, reported })
            },
            Err(cause) => self.fail(
                Failure::Environment,
                concat3("Error: unable to locate .git dir (", cause.as_str(), ")"),
            ),
        }
    }

    fn on_paths(self, paths: RepositoryPaths) -> (r: (Session, Action))
        ensures
            (r.0@, r.1@) == after_paths(self@, paths),
    {
        let mut s = self;
        s.git_dir = paths.git_dir;
        s.repo_name = paths.name;
        s.go(Phase::ReadingName, Request::Run(GitCommand::config_get("user.name")))
    }

    fn on_default_name(self, outcome: CommandOutcome) -> (r: (Session, Action))
        ensures
            (r.0@, r.1@) == after_default_name(self@, outcome),
    {
        let mut s = self;
        s.default_name = match config_get(&outcome) {
            Ok(value) => value,
            Err(_) => String::new(),
        };
        s.go(Phase::ReadingEmail, Request::Run(GitCommand::config_get("user.email")))
    }

    fn on_default_email(self, outcome: CommandOutcome) -> (r: (Session, Action))
        ensures
            (r.0@, r.1@) == after_default_email(self@, outcome),
    {
        let mut s = self;
        s.default_email = match config_get(&outcome) {
            Ok(value) => value,
            Err(_) => String::new(),
        };
        let request = Request::Ask {
            label: String::from_str("Author name"),
            repo_name: s.repo_name.clone(),
            default_value: s.default_name.clone(),
        };
        s.go(Phase::AskingName, request)
    }

    fn on_name(self, answer: Result<String, String>) -> (r: (Session, Action))
        ensures
            (r.0@, r.1@) == after_name(self@, answer),
    {
        match answer {
            Ok(name) => {
                let mut s = self;
                s.entered_name = name;
                let request = Request::Ask {
                    label: String::from_str("Author email"),
                    repo_name: s.repo_name.clone(),
                    default_value: s.default_email.clone(),
                };
                s.go(Phase::AskingEmail, request)
            },
            Err(cause) => self.fail(Failure::Prompt, concat2("Prompt error: ", cause.as_str())),
        }
    }

    fn on_email(self, answer: Result<String, String>) -> (r: (Session, Action))
        ensures
            (r.0@, r.1@) == after_email(self@, answer),
    {
        match answer {
            Ok(email) => {
                if should_exit_no_change(
                    self.entered_name.as_str(),
                    email.as_str(),
                    self.default_name.as_str(),
                    self.default_email.as_str(),
                ) {
                    self.finish(
                        Outcome::Unchanged,
                        Some(
                            Notice::Line {
                                text: String::from_str(
                                    "No changes detected for name or email; exiting without modifying history.",
                                ),
                                tone: Tone::Caution,
                                to_stderr: true,
                            },
                        ),
                    )
                } else {
                    let identity = AuthorIdentity::new(self.entered_name.as_str(), email.as_str());
                    let command = GitCommand::config_set("user.name", identity.name.as_str());
                    let mut s = self;
                    s.identity = identity;
                    s.go(Phase::SettingName, Request::Run(command))
                }
            },
            Err(cause) => self.fail(Failure::Prompt, concat2("Prompt error: ", cause.as_str())),
        }
    }

    fn on_name_set(self, outcome: CommandOutcome) -> (r: (Session, Action))
        ensures
            (r.0@, r.1@) == after_name_set(self@, outcome),
    {
        match config_set(&outcome) {
            Ok(_) => {
                let command = GitCommand::config_set("user.email", self.identity.email.as_str());
                self.go(Phase::SettingEmail, Request::Run(command))
            },
            Err(cause) => self.fail(
                Failure::Config,
                concat2("Failed to set user.name: ", cause.as_str()),
            ),
        }
    }

    fn on_email_set(self, outcome: CommandOutcome) -> (r: (Session, Action))
        ensures
            (r.0@, r.1@) == after_email_set(self@, outcome),
    {
        match config_set(&outcome) {
            Ok(_) => {
                let notice = Notice::Banner {
                    name: self.identity.name.clone(),
                    email: self.identity.email.clone(),
                    manual_mode: self.manual,
                };
                let mut s = self;
                s.phase = Phase::Confirming;
                (s, Action { notice: Some(notice), request: Request::Confirm })
            },
            Err(cause) => self.fail(
                Failure::Config,
                concat2("Failed to set user.email: ", cause.as_str()),
            ),
        }
    }

    fn on_confirmation(self, answer: Result<bool, String>) -> (r: (Session, Action))
        ensures
            (r.0@, r.1@) == after_confirmation(self@, answer),
    {
        match answer {
            Ok(start) => {
                if !start {
                    self.finish(
                        Outcome::Canceled,
                        Some(
                            Notice::Line {
                                text: String::from_str("Canceled by user. No changes made."),
                                tone: Tone::Caution,
                                to_stderr: false,
                            },
                        ),
                    )
                } else if self.manual {
                    self.go(Phase::Starting, Request::Run(GitCommand::rebase_interactive(None)))
                } else {
                    self.go(Phase::LocatingSelf, Request::LocateSelf)
                }
            },
            Err(cause) => self.fail(Failure::Prompt, concat2("Prompt error: ", cause.as_str())),
        }
    }

    fn on_self_located(self, located: Result<String, String>) -> (r: (Session, Action))
        ensures
            (r.0@, r.1@) == after_self_located(self@, located),
    {
        match located {
            Ok(exe_path) => {
                let command = GitCommand::rebase_interactive(Some(exe_path.as_str()));
                self.go(Phase::Starting, Request::Run(command))
            },
            Err(cause) => {
                let reason = concat2("cannot locate current executable: ", cause.as_str());
                self.fail(
                    Failure::RebaseStart,
                    concat2("❌ Rebase failed to start: ", reason.as_str()),
                )
            },
        }
    }

    fn on_start(self, outcome: CommandOutcome) -> (r: (Session, Action))
        ensures
            (r.0@, r.1@) == after_start(self@, outcome),
    {
        match rebase_interactive(&outcome) {
            Ok(_) => {
                let request = self.probe_request();
                self.go(Phase::Probing, request)
            },
            Err(cause) => self.fail(
                Failure::RebaseStart,
                concat2("❌ Rebase failed to start: ", cause.as_str()),
            ),
        }
    }

    fn on_probe(self, markers: RebaseMarkers) -> (r: (Session, Action))
        ensures
            (r.0@, r.1@) == after_probe(self@, markers),
    {
        if rebase_in_progress(markers) {
            let author = self.identity.author_string();
            let command = GitCommand::amend_author(author.as_str());
            self.go(Phase::Amending, Request::Run(command))
        } else {
            self.finish(
                Outcome::Completed,
                Some(
                    Notice::Line {
                        text: String::from_str("✅ Successfully rewrote commit authors."),
                        tone: Tone::Success,
                        to_stderr: false,
                    },
                ),
            )
        }
    }

    fn on_amend(self, outcome: CommandOutcome) -> (r: (Session, Action))
        ensures
            (r.0@, r.1@) == after_amend(self@, outcome),
    {
        match amend_author(&outcome) {
            Ok(_) => {
                let notice = Notice::Line {
                    text: String::from_str("Amended current commit author."),
                    tone: Tone::Progress,
                    to_stderr: false,
                };
                let mut s = self;
                s.phase = Phase::Continuing;
                (
                    s,
                    Action {
                        notice: Some(notice),
                        request: Request::Run(GitCommand::rebase_continue()),
                    },
                )
            },
            Err(cause) => self.fail(
                Failure::Amend,
                concat2("❌ Failed to amend commit: ", cause.as_str()),
            ),
        }
    }

    fn on_continue(self, outcome: CommandOutcome) -> (r: (Session, Action))
        ensures
            (r.0@, r.1@) == after_continue(self@, outcome),
    {
        match rebase_continue(&outcome) {
            Ok(_) => {
                let request = self.probe_request();
                self.go(Phase::Probing, request)
            },
            Err(cause) => self.fail(
                Failure::Continue,
                concat2("❌ `git rebase --continue` failed: ", cause.as_str()),
            ),
        }
    }

    /// Begins a run on the command line `args`, whose first entry is the
    /// name under which the program was called.
    pub fn begin(args: &Vec<String>) -> (r: (Session, Action))
        ensures
            (r.0@, r.1@) == start(views_of(args@)),
            r.0.wf(),
    {
        let s = Session::blank_session();
        match parse_args(args) {
            Invocation::SequenceEditor(Some(given)) => {
                match run(Some(given.as_str())) {
                    Ok(path) => {
                        let mut s = s;
                        s.todo_path = path.clone();
                        s.go(Phase::ReadingTodo, Request::ReadTodo { path })
                    },
                    Err(message) => s.fail(
                        Failure::TodoTransform,
                        concat2("Sequence editor error: ", message.as_str()),
                    ),
                }
            },
            Invocation::SequenceEditor(None) => {
                match run(None) {
                    Ok(path) => {
                        let mut s = s;
                        s.todo_path = path.clone();
                        s.go(Phase::ReadingTodo, Request::ReadTodo { path })
                    },
                    Err(message) => s.fail(
                        Failure::TodoTransform,
                        concat2("Sequence editor error: ", message.as_str()),
                    ),
                }
            },
            Invocation::Help => s.finish(
                Outcome::HelpShown,
                Some(
                    Notice::Line {
                        text: String::from_str(
                            "Usage: git-author-rewrite [--manual]\n\nRewrites the author of every commit of the current repository.\n\nOptions:\n      --manual   Choose in your own editor which commits to stop at\n  -h, --help     Show this help\n  -V, --version  Show the version",
                        ),
                        tone: Tone::Plain,
                        to_stderr: false,
                    },
                ),
            ),
            Invocation::Version => s.finish(Outcome::VersionShown, Some(Notice::Version)),
            Invocation::Rewrite { manual } => {
                let mut s = s;
                s.manual = manual;
                s.go(Phase::LocatingGit, Request::LocateGit)
            },
        }
    }

    /// Takes the answer to the request that was made last, and says what to
    /// show and what to do next.
    pub fn step(self, event: Event) -> (r: (Session, Action))
        ensures
            (r.0@, r.1@) == next(self@, event),
            self.wf() ==> r.0.wf(),
    {
        proof {
            if self.wf() {
                lemma_identity_stays_trimmed(self@, event);
            }
        }
        match self.phase {
            Phase::Done(outcome) => {
                let code = exit_code_of(outcome);
                (self, Action { notice: None, request: Request::Exit { code } })
            },
            Phase::ReadingTodo => match event {
                Event::TodoRead(read) => self.on_todo_read(read),
                _ => self.unexpected(),
            },
            Phase::WritingTodo => match event {
                Event::TodoWritten(written) => self.on_todo_written(written),
                _ => self.unexpected(),
            },
            Phase::LocatingGit => match event {
                Event::GitLocated(found) => self.on_git_located(found),
                _ => self.unexpected(),
            },
            Phase::FindingRoot => match event {
                Event::Ran(outcome) => self.on_root(outcome),
                _ => self.unexpected(),
            },
            Phase::FindingGitDir => match event {
                Event::Ran(outcome) => self.on_git_dir(outcome),
                _ => self.unexpected(),
            },
            Phase::ResolvingPaths => match event {
                Event::Paths(paths) => self.on_paths(paths),
                _ => self.unexpected(),
            },
            Phase::ReadingName => match event {
                Event::Ran(outcome) => self.on_default_name(outcome),
                _ => self.unexpected(),
            },
            Phase::ReadingEmail => match event {
                Event::Ran(outcome) => self.on_default_email(outcome),
                _ => self.unexpected(),
            },
            Phase::AskingName => match event {
                Event::Answered(answer) => self.on_name(answer),
                _ => self.unexpected(),
            },
            Phase::AskingEmail => match event {
                Event::Answered(answer) => self.on_email(answer),
                _ => self.unexpected(),
            },
            Phase::SettingName => match event {
                Event::Ran(outcome) => self.on_name_set(outcome),
                _ => self.unexpected(),
            },
            Phase::SettingEmail => match event {
                Event::Ran(outcome) => self.on_email_set(outcome),
                _ => self.unexpected(),
            },
            Phase::Confirming => match event {
                Event::Confirmed(answer) => self.on_confirmation(answer),
                _ => self.unexpected(),
            },
            Phase::LocatingSelf => match event {
                Event::SelfLocated(located) => self.on_self_located(located),
                _ => self.unexpected(),
            },
            Phase::Starting => match event {
                Event::Ran(outcome) => self.on_start(outcome),
                _ => self.unexpected(),
            },
            Phase::Probing => match event {
                Event::Probed(markers) => self.on_probe(markers),
                _ => self.unexpected(),
            },
            Phase::Amending => match event {
                Event::Ran(outcome) => self.on_amend(outcome),
                _ => self.unexpected(),
            },
            Phase::Continuing => match event {
                Event::Ran(outcome) => self.on_continue(outcome),
                _ => self.unexpected(),
            },
        }
    }
}

/// Whether the event `e` answers the request of a run that stands at
/// `phase`. No event answers a run that is over.
pub open spec fn answers(phase: Phase, e: Event) -> bool {
    match (phase, e) {
        (Phase::ReadingTodo, Event::TodoRead(_)) => true,
        (Phase::WritingTodo, Event::TodoWritten(_)) => true,
        (Phase::LocatingGit, Event::GitLocated(_)) => true,
        (Phase::FindingRoot, Event::Ran(_)) => true,
        (Phase::FindingGitDir, Event::Ran(_)) => true,
        (Phase::ResolvingPaths, Event::Paths(_)) => true,
        (Phase::ReadingName, Event::Ran(_)) => true,
        (Phase::ReadingEmail, Event::Ran(_)) => true,
        (Phase::AskingName, Event::Answered(_)) => true,
        (Phase::AskingEmail, Event::Answered(_)) => true,
        (Phase::SettingName, Event::Ran(_)) => true,
        (Phase::SettingEmail, Event::Ran(_)) => true,
        (Phase::Confirming, Event::Confirmed(_)) => true,
        (Phase::LocatingSelf, Event::SelfLocated(_)) => true,
        (Phase::Starting, Event::Ran(_)) => true,
        (Phase::Probing, Event::Probed(_)) => true,
        (Phase::Amending, Event::Ran(_)) => true,
        (Phase::Continuing, Event::Ran(_)) => true,
        _ => false,
    }
}

/// The event says that a command ran and succeeded.
pub open spec fn command_succeeded(e: Event) -> bool {
    match e {
        Event::Ran(outcome) => status_of(outcome@) is Ok,
        _ => false,
    }
}

/// The event says that a command failed or could not be started.
pub open spec fn command_failed(e: Event) -> bool {
    match e {
        Event::Ran(outcome) => status_of(outcome@) is Err,
        _ => false,
    }
}

/// The event says that neither mark of a rebase under way was found.
pub open spec fn no_mark_found(e: Event) -> bool {
    match e {
        Event::Probed(markers) => !markers.rebase_merge && !markers.rebase_apply,
        _ => false,
    }
}

/// A run that is over stays over: whatever comes, it stands where it stood,
/// shows nothing, and asks to exit with the code of its outcome.
pub proof fn lemma_done_is_final(s: SessionView, e: Event)
    requires
        s.phase is Done,
    ensures
        next(s, e).0 == s,
        next(s, e).1.notice is None,
        next(s, e).1.request == (RequestView::Exit { code: exit_code(s.phase->Done_0) }),
{
}

/// A run asks to exit exactly when it is over after the step, and the exit
/// code is 0 unless it ended in a failure, and then it is 1.
pub proof fn lemma_exit_goes_with_outcome(s: SessionView, e: Event)
    ensures
        next(s, e).1.request is Exit <==> next(s, e).0.phase is Done,
        next(s, e).0.phase matches Phase::Done(outcome) ==> {
            &&& next(s, e).1.request == (RequestView::Exit { code: exit_code(outcome) })
            &&& (exit_code(outcome) == 0 <==> !(outcome is Failed))
            &&& (exit_code(outcome) == 1 <==> outcome is Failed)
        },
{
}

/// A run that ends in a failure says so: the step that ends it shows one
/// line, as a failure, on standard error.
pub proof fn lemma_failure_is_reported(s: SessionView, e: Event)
    requires
        !(s.phase is Done),
        next(s, e).0.phase matches Phase::Done(outcome) && outcome is Failed,
    ensures
        next(s, e).1.notice matches Some(NoticeView::Line { text, tone, to_stderr }) && tone
            == Tone::Failure && to_stderr,
{
}

/// Once the name and the email address of the author are set, they stay:
/// the one step that sets them is the answer on the email address. So every
/// step of the rebase, and all that comes after it, has the same author.
pub proof fn lemma_identity_is_fixed(s: SessionView, e: Event)
    requires
        s.phase != Phase::AskingEmail,
    ensures
        next(s, e).0.name == s.name,
        next(s, e).0.email == s.email,
{
}

/// Where a run that stands at `s` stands after the events `events`, taken
/// one after the other.
pub open spec fn after(s: SessionView, events: Seq<Event>) -> SessionView
    decreases events.len(),
{
    if events.len() == 0 {
        s
    } else {
        next(after(s, events.drop_last()), events.last()).0
    }
}

/// The user has been asked for the name and the email address, and the run
/// has gone on past the answers.
pub open spec fn author_is_known(phase: Phase) -> bool {
    match phase {
        Phase::SettingName
        | Phase::SettingEmail
        | Phase::Confirming
        | Phase::LocatingSelf
        | Phase::Starting
        | Phase::Probing
        | Phase::Amending
        | Phase::Continuing => true,
        _ => false,
    }
}

/// From the moment the author is known, nothing that happens changes it:
/// through the whole rebase, however many stops it has and however it ends,
/// the name and the email address stay what they were.
pub proof fn lemma_author_never_changes(s: SessionView, events: Seq<Event>)
    requires
        author_is_known(s.phase),
    ensures
        after(s, events).name == s.name,
        after(s, events).email == s.email,
        author_is_known(after(s, events).phase) || after(s, events).phase is Done,
    decreases events.len(),
{
    if events.len() > 0 {
        lemma_author_never_changes(s, events.drop_last());
        lemma_identity_is_fixed(after(s, events.drop_last()), events.last());
    }
}

/// Every amend names the author of the session: a step that leaves the run
/// waiting for an amend has asked for `git commit --amend` with the name and
/// the email address it holds, and for nothing else.
pub proof fn lemma_amend_names_the_author(s: SessionView, e: Event)
    requires
        next(s, e).0.phase == Phase::Amending,
    ensures
        s.phase == Phase::Probing,
        next(s, e).1.request == RequestView::Run(
            amend_author_command(author_line(s.name, s.email)),
        ),
        next(s, e).0.name == s.name,
        next(s, e).0.email == s.email,
{
}

/// The rebase goes through its states in one direction.
///
/// On an event that answers the request: a rebase that is not started stays
/// so or comes under way, and it comes under way exactly when the start
/// succeeded. One under way stays so, completes or fails: it completes
/// exactly when a look at the git directory finds neither mark, and fails
/// exactly when an amend or a continuation did not succeed. A completed or
/// failed rebase stays as it is, whatever comes.
pub proof fn lemma_rebase_moves_forward(s: SessionView, e: Event)
    ensures
        rebase_state(s.phase) == RebaseState::Completed ==> rebase_state(next(s, e).0.phase)
            == RebaseState::Completed,
        rebase_state(s.phase) == RebaseState::Failed ==> rebase_state(next(s, e).0.phase)
            == RebaseState::Failed,
        answers(s.phase, e) && rebase_state(s.phase) == RebaseState::NotStarted ==> {
            &&& rebase_state(next(s, e).0.phase) == RebaseState::NotStarted || rebase_state(
                next(s, e).0.phase,
            ) == RebaseState::InProgress
            &&& rebase_state(next(s, e).0.phase) == RebaseState::InProgress <==> s.phase
                == Phase::Starting && command_succeeded(e)
        },
        answers(s.phase, e) && rebase_state(s.phase) == RebaseState::InProgress ==> {
            &&& rebase_state(next(s, e).0.phase) != RebaseState::NotStarted
            &&& rebase_state(next(s, e).0.phase) == RebaseState::Completed <==> s.phase
                == Phase::Probing && no_mark_found(e)
            &&& rebase_state(next(s, e).0.phase) == RebaseState::Failed <==> (s.phase
                == Phase::Amending || s.phase == Phase::Continuing) && command_failed(e)
        },
{
}

/// The loop of the rebase: while a mark of a rebase under way is found, the
/// commit is amended and, if that succeeds, the rebase is let go on and, if
/// that succeeds, the git directory is looked at again. Nothing else happens
/// between two looks.
pub proof fn lemma_rebase_loop(s: SessionView, e: Event)
    requires
        answers(s.phase, e),
    ensures
        s.phase == Phase::Probing && next(s, e).0.phase != Phase::Amending ==> next(s, e).0.phase
            == Phase::Done(Outcome::Completed),
        s.phase == Phase::Amending ==> next(s, e).0.phase == Phase::Continuing || next(
            s,
            e,
        ).0.phase == Phase::Done(Outcome::Failed(Failure::Amend)),
        s.phase == Phase::Amending && next(s, e).0.phase == Phase::Continuing ==> next(
            s,
            e,
        ).1.request == RequestView::Run(rebase_continue_command()),
        s.phase == Phase::Continuing ==> next(s, e).0.phase == Phase::Probing || next(
            s,
            e,
        ).0.phase == Phase::Done(Outcome::Failed(Failure::Continue)),
        s.phase == Phase::Continuing && next(s, e).0.phase == Phase::Probing ==> next(
            s,
            e,
        ).1.request == probe(s),
{
}

/// No step of a run puts whitespace around the name or the email address of
/// the author.
pub proof fn lemma_identity_stays_trimmed(s: SessionView, e: Event)
    requires
        identity_is_trimmed(s),
    ensures
        identity_is_trimmed(next(s, e).0),
{
    if s.phase == Phase::AskingEmail {
        if let Event::Answered(Ok(email)) = e {
            lemma_trimmed_is_trimmed(s.entered_name);
            lemma_trimmed_is_trimmed(email@);
        }
    }
}

} // verus!
