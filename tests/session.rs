use std::path::PathBuf;

use dodo::command::Command;
use dodo::parser::ParseError;
use dodo::session::{apply_command, run_line, Outcome};
use dodo::task::{Task, TaskGroup};
use dodo::todolist::{EvalError, TodoList};

fn one_group() -> TodoList {
    TodoList::new(
        vec![TaskGroup {
            name: "Home".into(),
            tasks: vec![Task { description: "Dishes".into(), is_done: false }],
        }],
        PathBuf::from("cfg"),
    )
}

#[test]
fn line_that_applies() {
    let mut list = one_group();
    assert_eq!(run_line(&mut list, "done 1.1"), Outcome::Applied);
    assert!(list.task_groups[0].tasks[0].is_done);
}

#[test]
fn line_that_does_not_parse() {
    let mut list = one_group();
    assert_eq!(
        run_line(&mut list, "bogus"),
        Outcome::NotParsed(ParseError::UnknownCommand("bogus".into()))
    );
    assert_eq!(list, one_group());
}

#[test]
fn line_that_names_missing_group() {
    let mut list = one_group();
    assert_eq!(run_line(&mut list, "add 2 Sweep"), Outcome::NotApplied(EvalError::BadGroup(2)));
    assert_eq!(list, one_group());
}

#[test]
fn show_list_gives_text() {
    let mut list = one_group();
    assert_eq!(
        apply_command(&mut list, Command::ShowList),
        Outcome::Shown("1. Home\n\t1. [ ] - Dishes\n".into())
    );
    assert_eq!(list, one_group());
}
