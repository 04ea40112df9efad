//! What the program is asked to do, and whether there is anything to do.

use crate::text::{same_text, same_trimmed, trimmed, views_of};
use vstd::prelude::*;

verus! {

/// What a command line asks for.
#[derive(Debug, PartialEq, Eq)]
pub enum Invocation {
    /// Act as the sequence editor of `git` on the todo list at the given
    /// path, if one is given.
    SequenceEditor(Option<String>),
    /// Show how the program is used.
    Help,
    /// Show the version of the program.
    Version,
    /// Rewrite the authors. In manual mode the user's own editor gets the
    /// todo list.
    Rewrite { manual: bool },
}

/// What a command line asks for, as a plain value.
pub enum InvocationView {
    SequenceEditor(Option<Seq<char>>),
    Help,
    Version,
    Rewrite { manual: bool },
}

impl View for Invocation {
    type V = InvocationView;

    open spec fn view(&self) -> InvocationView {
        match self {
            Invocation::SequenceEditor(path) => InvocationView::SequenceEditor(
                match path {
                    Some(path) => Some(path@),
                    None => None,
                },
            ),
            Invocation::Help => InvocationView::Help,
            Invocation::Version => InvocationView::Version,
            Invocation::Rewrite { manual } => InvocationView::Rewrite { manual: *manual },
        }
    }
}

/// What the command line `args` asks for; `args[0]` is the name under which
/// the program was called.
///
/// `--sequence-editor` counts only as the first argument, and then decides:
/// the argument after it, if there is one, is the path of the todo list.
/// Otherwise `--help` or `-h` anywhere asks for help, else `--version` or
/// `-V` anywhere asks for the version, and else the authors are rewritten,
/// in manual mode if `--manual` stands anywhere.
pub open spec fn invocation_of(args: Seq<Seq<char>>) -> InvocationView {
    if args.len() >= 2 && args[1] == "--sequence-editor"@ {
        InvocationView::SequenceEditor(
            if args.len() >= 3 {
                Some(args[2])
            } else {
                None
            },
        )
    } else if args.contains("--help"@) || args.contains("-h"@) {
        InvocationView::Help
    } else if args.contains("--version"@) || args.contains("-V"@) {
        InvocationView::Version
    } else {
        InvocationView::Rewrite { manual: args.contains("--manual"@) }
    }
}

/// Whether one of `args` is `word`.
fn has_argument(args: &Vec<String>, word: &str) -> (r: bool)
    ensures
        r == views_of(args@).contains(word@),
{
    let mut i: usize = 0;
    while i < args.len()
        invariant
            i <= args.len(),
            forall|j: int| 0 <= j < i ==> views_of(args@)[j] != word@,
        decreases args.len() - i,
    {
        if same_text(args[i].as_str(), word) {
            proof {
                assert(views_of(args@)[i as int] == word@);
            }
            return true;
        }
        i += 1;
    }
    false
}

/// Reads the command line.
pub fn parse_args(args: &Vec<String>) -> (invocation: Invocation)
    ensures
        invocation@ == invocation_of(views_of(args@)),
{
    proof {
        assert(forall|i: int| 0 <= i < args@.len() ==> views_of(args@)[i] == args@[i]@);
    }
    if args.len() >= 2 && same_text(args[1].as_str(), "--sequence-editor") {
        if args.len() >= 3 {
            Invocation::SequenceEditor(Some(args[2].clone()))
        } else {
            Invocation::SequenceEditor(None)
        }
    } else if has_argument(args, "--help") || has_argument(args, "-h") {
        Invocation::Help
    } else if has_argument(args, "--version") || has_argument(args, "-V") {
        Invocation::Version
    } else {
        Invocation::Rewrite { manual: has_argument(args, "--manual") }
    }
}

/// Whether the name and the email address are the ones already set: both
/// equal their defaults once the whitespace around each is set aside.
pub open spec fn unchanged(
    name: Seq<char>,
    email: Seq<char>,
    default_name: Seq<char>,
    default_email: Seq<char>,
) -> bool {
    trimmed(name) == trimmed(default_name) && trimmed(email) == trimmed(default_email)
}

/// Whether there is nothing to do because neither the name nor the email
/// address differs from its default.
///
/// True if and only if the name equals the default name and the email
/// address equals the default email address, each compared without the
/// whitespace around it. One of the two differing is enough for false.
pub fn should_exit_no_change(
    name: &str,
    email: &str,
    default_name: &str,
    default_email: &str,
) -> (r: bool)
    ensures
        r == unchanged(name@, email@, default_name@, default_email@),
        r <==> trimmed(name@) == trimmed(default_name@) && trimmed(email@) == trimmed(
            default_email@,
        ),
{
    if same_trimmed(name, default_name) {
        same_trimmed(email, default_email)
    } else {
        false
    }
}

} // verus!
