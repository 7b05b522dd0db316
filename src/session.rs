//! One step of a session: a line of input applied to the list, and what the
//! user should be told about it.

use vstd::prelude::*;
use crate::command::{Command, CommandView};
use crate::parser::{parse_spec, try_parse, ParseError, ParseErrorView};
use crate::task::GroupView;
use crate::todolist::{eval_spec, list_text, EvalError, TodoList};

verus! {

/// What came of a line or a command.
#[derive(Debug, PartialEq, Eq)]
pub enum Outcome {
    /// The command was applied (or had nothing to do).
    Applied,
    /// The list, as text, to be shown.
    Shown(String),
    /// The line held no command.
    NotParsed(ParseError),
    /// The command named a group or task that is not there.
    NotApplied(EvalError),
}

/// What an outcome is, as a mathematical value.
pub enum OutcomeView {
    Applied,
    Shown(Seq<char>),
    NotParsed(ParseErrorView),
    NotApplied(EvalError),
}

impl View for Outcome {
    type V = OutcomeView;

    open spec fn view(&self) -> OutcomeView {
        match self {
            Outcome::Applied => OutcomeView::Applied,
            Outcome::Shown(s) => OutcomeView::Shown(s@),
            Outcome::NotParsed(e) => OutcomeView::NotParsed(e@),
            Outcome::NotApplied(e) => OutcomeView::NotApplied(*e),
        }
    }
}

/// The groups after `command`, and what comes of it.
pub open spec fn command_step(gs: Seq<GroupView>, command: CommandView) -> (Seq<GroupView>, OutcomeView) {
    match command {
        CommandView::ShowList => (gs, OutcomeView::Shown(list_text(gs))),
        _ => match eval_spec(gs, command) {
            Ok(after) => (after, OutcomeView::Applied),
            Err(e) => (gs, OutcomeView::NotApplied(e)),
        },
    }
}

/// The groups after the line `line`, and what comes of it.
pub open spec fn line_step(gs: Seq<GroupView>, line: Seq<char>) -> (Seq<GroupView>, OutcomeView) {
    match parse_spec(line) {
        Ok(command) => command_step(gs, command),
        Err(e) => (gs, OutcomeView::NotParsed(e)),
    }
}

/// Applies `command` to the list; for `ShowList`, gives the list as text.
pub fn apply_command(list: &mut TodoList, command: Command) -> (r: Outcome)
    ensures
        (final(list)@, r@) == command_step(old(list)@, command@),
        final(list).config_path == old(list).config_path,
{
    match command {
        Command::ShowList => Outcome::Shown(list.to_string()),
        command => match list.evaluate(command) {
            Ok(()) => Outcome::Applied,
            Err(e) => Outcome::NotApplied(e),
        },
    }
}

/// Reads `line` and applies the command it holds to the list.
pub fn run_line(list: &mut TodoList, line: &str) -> (r: Outcome)
    ensures
        (final(list)@, r@) == line_step(old(list)@, line@),
        final(list).config_path == old(list).config_path,
{
    match try_parse(line) {
        Ok(command) => apply_command(list, command),
        Err(e) => Outcome::NotParsed(e),
    }
}

} // verus!
