//! The command language: from a line of text to a `Command`.
//!
//! A line is cut into words at spaces. The first word picks the command by
//! its beginning (`adding` counts as `add`), trying `help`, `add`, `remove`,
//! `group` and `done` in that order. A task is written `T.G`: task number,
//! a dot, group number.

use vstd::prelude::*;
use crate::command::{Command, CommandView};
use crate::text::{
    has_prefix, join_from, join_words, parse_u16, pieces, same_text, split_on, starts_with,
    strings_view, u16_of,
};

verus! {

/// Why a line gave no command, so that the user can be told.
#[derive(Debug, PartialEq, Eq)]
pub enum ParseError {
    /// The user asked for help.
    HelpRequested,
    /// The first word names no command.
    UnknownCommand(String),
    /// `add` needs a group number and a description.
    AddUsage,
    /// A word that should be a group number is not one.
    BadNumber(String),
    /// `group` needs a name.
    GroupUsage,
    /// `done` takes exactly one `T.G` argument.
    DoneUsage,
    /// A word that should be of the form `T.G` is not.
    BadTaskRef(String),
    /// `remove` takes `task T.G` or `group G`.
    RemoveUsage,
    /// `remove` was followed by neither `task` nor `group`.
    UnknownTarget(String),
}

/// What a parse error is, as a mathematical value.
pub enum ParseErrorView {
    HelpRequested,
    UnknownCommand(Seq<char>),
    AddUsage,
    BadNumber(Seq<char>),
    GroupUsage,
    DoneUsage,
    BadTaskRef(Seq<char>),
    RemoveUsage,
    UnknownTarget(Seq<char>),
}

impl View for ParseError {
    type V = ParseErrorView;

    open spec fn view(&self) -> ParseErrorView {
        match self {
            ParseError::HelpRequested => ParseErrorView::HelpRequested,
            ParseError::UnknownCommand(w) => ParseErrorView::UnknownCommand(w@),
            ParseError::AddUsage => ParseErrorView::AddUsage,
            ParseError::BadNumber(w) => ParseErrorView::BadNumber(w@),
            ParseError::GroupUsage => ParseErrorView::GroupUsage,
            ParseError::DoneUsage => ParseErrorView::DoneUsage,
            ParseError::BadTaskRef(w) => ParseErrorView::BadTaskRef(w@),
            ParseError::RemoveUsage => ParseErrorView::RemoveUsage,
            ParseError::UnknownTarget(w) => ParseErrorView::UnknownTarget(w@),
        }
    }
}

/// The pair that `s` writes as `T.G`: exactly two non-empty pieces between
/// dots, each a 16-bit number.
pub open spec fn task_ref(s: Seq<char>) -> Option<(u16, u16)> {
    let ps = pieces(s, '.');
    if ps.len() == 2 && u16_of(ps[0]) is Some && u16_of(ps[1]) is Some {
        Some((u16_of(ps[0])->0, u16_of(ps[1])->0))
    } else {
        None
    }
}

/// Reads a word of the form `T.G` into the pair (T, G).
pub fn get_tuple(word: &str) -> (r: Option<(u16, u16)>)
    ensures
        r == task_ref(word@),
{
    let parts = split_on(word, '.');
    proof {
        assert(strings_view(parts@).len() == parts@.len());
    }
    if parts.len() != 2 {
        return None;
    }
    assert(strings_view(parts@)[0] == parts@[0]@);
    assert(strings_view(parts@)[1] == parts@[1]@);
    match (parse_u16(parts[0].as_str()), parse_u16(parts[1].as_str())) {
        (Some(t), Some(g)) => Some((t, g)),
        _ => None,
    }
}

/// `done T.G`.
pub open spec fn task_flip_spec(ws: Seq<Seq<char>>) -> Result<CommandView, ParseErrorView> {
    if ws.len() != 2 {
        Err(ParseErrorView::DoneUsage)
    } else {
        match task_ref(ws[1]) {
            Some((t, g)) => Ok(CommandView::FlipTask(t, g)),
            None => Err(ParseErrorView::BadTaskRef(ws[1])),
        }
    }
}

/// `add G description...`.
pub open spec fn task_addition_spec(ws: Seq<Seq<char>>) -> Result<CommandView, ParseErrorView> {
    if ws.len() < 3 {
        Err(ParseErrorView::AddUsage)
    } else {
        match u16_of(ws[1]) {
            Some(g) => Ok(CommandView::AddTask(join_words(ws.subrange(2, ws.len() as int)), g)),
            None => Err(ParseErrorView::BadNumber(ws[1])),
        }
    }
}

/// `group name...`.
pub open spec fn group_addition_spec(ws: Seq<Seq<char>>) -> Result<CommandView, ParseErrorView> {
    if ws.len() < 2 {
        Err(ParseErrorView::GroupUsage)
    } else {
        Ok(CommandView::AddGroup(join_words(ws.subrange(1, ws.len() as int))))
    }
}

/// `remove task T.G` or `remove group G`.
pub open spec fn removal_spec(ws: Seq<Seq<char>>) -> Result<CommandView, ParseErrorView> {
    if ws.len() != 3 {
        Err(ParseErrorView::RemoveUsage)
    } else if ws[1] == "group"@ {
        match u16_of(ws[2]) {
            Some(g) => Ok(CommandView::RemoveGroup(g)),
            None => Err(ParseErrorView::BadNumber(ws[2])),
        }
    } else if ws[1] == "task"@ {
        match task_ref(ws[2]) {
            Some((t, g)) => Ok(CommandView::RemoveTask(t, g)),
            None => Err(ParseErrorView::BadTaskRef(ws[2])),
        }
    } else {
        Err(ParseErrorView::UnknownTarget(ws[1]))
    }
}

/// What a line means: a command, or why it is none. A line with no words
/// means `NoOp`.
pub open spec fn parse_spec(line: Seq<char>) -> Result<CommandView, ParseErrorView> {
    let ws = pieces(line, ' ');
    if ws.len() == 0 {
        Ok(CommandView::NoOp)
    } else if has_prefix(ws[0], "help"@) {
        Err(ParseErrorView::HelpRequested)
    } else if has_prefix(ws[0], "add"@) {
        task_addition_spec(ws)
    } else if has_prefix(ws[0], "remove"@) {
        removal_spec(ws)
    } else if has_prefix(ws[0], "group"@) {
        group_addition_spec(ws)
    } else if has_prefix(ws[0], "done"@) {
        task_flip_spec(ws)
    } else {
        Err(ParseErrorView::UnknownCommand(ws[0]))
    }
}

/// The command of a line, where a line that gives none means `NoOp`.
pub open spec fn command_of(line: Seq<char>) -> CommandView {
    match parse_spec(line) {
        Ok(c) => c,
        Err(_) => CommandView::NoOp,
    }
}

/// The view of a parse result.
pub open spec fn result_view(r: Result<Command, ParseError>) -> Result<CommandView, ParseErrorView> {
    match r {
        Ok(c) => Ok(c@),
        Err(e) => Err(e@),
    }
}

fn word_copy(w: &String) -> (r: String)
    ensures
        r@ == w@,
{
    String::from_str(w.as_str())
}

fn parse_task_flip(words: &Vec<String>) -> (r: Result<Command, ParseError>)
    ensures
        result_view(r) == task_flip_spec(strings_view(words@)),
{
    if words.len() != 2 {
        return Err(ParseError::DoneUsage);
    }
    assert(strings_view(words@)[1] == words@[1]@);
    match get_tuple(words[1].as_str()) {
        Some((task_no, group_no)) => Ok(Command::FlipTask(task_no, group_no)),
        None => Err(ParseError::BadTaskRef(word_copy(&words[1]))),
    }
}

fn parse_task_addition(words: &Vec<String>) -> (r: Result<Command, ParseError>)
    ensures
        result_view(r) == task_addition_spec(strings_view(words@)),
{
    if words.len() < 3 {
        return Err(ParseError::AddUsage);
    }
    assert(strings_view(words@)[1] == words@[1]@);
    let group_no = match parse_u16(words[1].as_str()) {
        Some(no) => no,
        None => {
            return Err(ParseError::BadNumber(word_copy(&words[1])));
        },
    };
    let task_description = join_from(words, 2);
    Ok(Command::AddTask(task_description, group_no))
}

fn parse_group_addition(words: &Vec<String>) -> (r: Result<Command, ParseError>)
    ensures
        result_view(r) == group_addition_spec(strings_view(words@)),
{
    if words.len() < 2 {
        return Err(ParseError::GroupUsage);
    }
    let group_name = join_from(words, 1);
    Ok(Command::AddGroup(group_name))
}

fn parse_removal(words: &Vec<String>) -> (r: Result<Command, ParseError>)
    ensures
        result_view(r) == removal_spec(strings_view(words@)),
{
    if words.len() != 3 {
        return Err(ParseError::RemoveUsage);
    }
    assert(strings_view(words@)[1] == words@[1]@);
    assert(strings_view(words@)[2] == words@[2]@);
    if same_text(words[1].as_str(), "group") {
        match parse_u16(words[2].as_str()) {
            Some(group_no) => Ok(Command::RemoveGroup(group_no)),
            None => Err(ParseError::BadNumber(word_copy(&words[2]))),
        }
    } else if same_text(words[1].as_str(), "task") {
        match get_tuple(words[2].as_str()) {
            Some((task_no, group_no)) => Ok(Command::RemoveTask(task_no, group_no)),
            None => Err(ParseError::BadTaskRef(word_copy(&words[2]))),
        }
    } else {
        Err(ParseError::UnknownTarget(word_copy(&words[1])))
    }
}

/// Reads a line into a command, or says why it holds none.
pub fn try_parse(line: &str) -> (r: Result<Command, ParseError>)
    ensures
        result_view(r) == parse_spec(line@),
{
    let words = split_on(line, ' ');
    if words.len() == 0 {
        return Ok(Command::NoOp);
    }
    assert(strings_view(words@)[0] == words@[0]@);
    let first_word = words[0].as_str();
    if starts_with(first_word, "help") {
        Err(ParseError::HelpRequested)
    } else if starts_with(first_word, "add") {
        parse_task_addition(&words)
    } else if starts_with(first_word, "remove") {
        parse_removal(&words)
    } else if starts_with(first_word, "group") {
        parse_group_addition(&words)
    } else if starts_with(first_word, "done") {
        parse_task_flip(&words)
    } else {
        Err(ParseError::UnknownCommand(word_copy(&words[0])))
    }
}

/// Reads a line into a command; a line that gives none gives `NoOp`.
pub fn parse(line: &str) -> (r: Command)
    ensures
        r@ == command_of(line@),
{
    match try_parse(line) {
        Ok(command) => command,
        Err(_) => Command::NoOp,
    }
}

} // verus!
