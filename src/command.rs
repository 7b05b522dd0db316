//! The closed set of intents that a line of text can express.
//!
//! Tasks are addressed as (task number, group number), both counted from 1:
//! the text `done 2.3` names the second task of the third group, and so do
//! `Command::FlipTask(2, 3)` and `Command::RemoveTask(2, 3)`.

use vstd::prelude::*;

verus! {

/// What a command is, as a mathematical value.
pub enum CommandView {
    FlipTask(u16, u16),
    AddTask(Seq<char>, u16),
    AddGroup(Seq<char>),
    RemoveTask(u16, u16),
    RemoveGroup(u16),
    ShowList,
    NoOp,
}

#[derive(Debug, PartialEq, Eq)]
pub enum Command {
    /// Flips a task from not done to done or vice-versa.
    /// Arguments are (number of the task, number of the group)
    FlipTask(u16, u16),
    /// Adds a new task to a group.
    /// Arguments are (task description, group number)
    AddTask(String, u16),
    /// Adds a new group to the group list.
    /// Argument is the new group's name
    AddGroup(String),
    /// Removes a task from a group.
    /// Arguments are (number of the task, number of the group)
    RemoveTask(u16, u16),
    /// Removes a group.
    /// Argument is the number of the group to be removed
    RemoveGroup(u16),
    /// Shows the whole list; changes nothing.
    ShowList,
    /// Does nothing.
    NoOp,
}

impl View for Command {
    type V = CommandView;

    open spec fn view(&self) -> CommandView {
        match self {
            Command::FlipTask(t, g) => CommandView::FlipTask(*t, *g),
            Command::AddTask(d, g) => CommandView::AddTask(d@, *g),
            Command::AddGroup(n) => CommandView::AddGroup(n@),
            Command::RemoveTask(t, g) => CommandView::RemoveTask(*t, *g),
            Command::RemoveGroup(g) => CommandView::RemoveGroup(*g),
            Command::ShowList => CommandView::ShowList,
            Command::NoOp => CommandView::NoOp,
        }
    }
}

} // verus!
