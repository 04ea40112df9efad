//! Questions to the user. How a question is shown and how the answer is read
//! is up to the two prompter traits; this module says what is asked.

use vstd::prelude::*;
use vstd::string::StringExecFns;

verus! {

/// Something that can ask the user for a line of text.
pub trait StringPrompter {
    /// Whether this prompter, asked `prompt` with the value `default` on
    /// offer, may give `answer` and be left as `after`.
    open spec fn may_answer(
        &self,
        prompt: Seq<char>,
        default: Seq<char>,
        after: &Self,
        answer: Result<String, String>,
    ) -> bool {
        true
    }

    /// Shows `prompt` and reads a line; `default` is what an empty line
    /// stands for. An error carries the reason why nothing could be read.
    fn prompt(&mut self, prompt: &str, default: &str) -> (answer: Result<String, String>)
        ensures
            old(self).may_answer(prompt@, default@, final(self), answer),
    ;
}

/// Something that can ask the user for a yes or a no.
pub trait ConfirmPrompter {
    /// Whether this prompter, asked `prompt` with the answer `default` on
    /// offer, may give `answer` and be left as `after`.
    open spec fn may_confirm(
        &self,
        prompt: Seq<char>,
        default: bool,
        after: &Self,
        answer: Result<bool, String>,
    ) -> bool {
        true
    }

    /// Shows `prompt` and reads a yes or a no; `default` is what an empty
    /// line stands for. An error carries the reason why nothing could be read.
    fn confirm(&mut self, prompt: &str, default: bool) -> (answer: Result<bool, String>)
        ensures
            old(self).may_confirm(prompt@, default, final(self), answer),
    ;
}

/// The question that `ask` puts: the label, the word `for`, and the name of
/// the repository.
pub open spec fn question(label: Seq<char>, repo_name: Seq<char>) -> Seq<char> {
    label + " for "@ + repo_name
}

/// The question that `confirm_start` puts.
pub open spec fn start_question() -> Seq<char> {
    "Start now? (will auto-mark all picks as edit and amend each stop)"@
}

/// Asks for a value, naming the repository it is for.
///
/// The prompter is asked once, with the question `question(label, repo_name)`
/// and `default_value` on offer, and what it answers is handed back as it is.
pub fn ask<P: StringPrompter>(
    prompter: &mut P,
    label: &str,
    repo_name: &str,
    default_value: &str,
) -> (answer: Result<String, String>)
    ensures
        old(prompter).may_answer(
            question(label@, repo_name@),
            default_value@,
            final(prompter),
            answer,
        ),
{
    let mut text = String::from_str(label);
    text.append(" for ");
    text.append(repo_name);
    prompter.prompt(text.as_str(), default_value)
}

/// Asks whether the rewrite is to begin.
///
/// The prompter is asked once, with `start_question()` and a yes on offer,
/// and what it answers is handed back as it is.
pub fn confirm_start<P: ConfirmPrompter>(prompter: &mut P) -> (answer: Result<bool, String>)
    ensures
        old(prompter).may_confirm(start_question(), true, final(prompter), answer),
{
    prompter.confirm("Start now? (will auto-mark all picks as edit and amend each stop)", true)
}

} // verus!
