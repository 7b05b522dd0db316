use std::path::PathBuf;

use dodo::task::{Task, TaskGroup};
use dodo::text::decimal_text;
use dodo::todolist::TodoList;

fn sample_group_1() -> TaskGroup {
    TaskGroup {
        name: "Chores".into(),
        tasks: vec![
            Task {
                description: "Clean the house".into(),
                is_done: true,
            },
            Task {
                description: "Unlearn JavaScript".into(),
                is_done: true,
            },
            Task {
                description: "Make Python statically typed".into(),
                is_done: false,
            },
        ],
    }
}

fn sample_group_2() -> TaskGroup {
    TaskGroup {
        name: "Uni".into(),
        tasks: vec![
            Task {
                description: "Study for the Physics test".into(),
                is_done: true,
            },
            Task {
                description: "Study Monads".into(),
                is_done: true,
            },
            Task {
                description: "Finish the Compilers project".into(),
                is_done: false,
            },
        ],
    }
}

#[test]
fn task_group_to_string() {
    let groups: Vec<TaskGroup> = vec![sample_group_1(), sample_group_2()];
    let groups = groups
        .iter()
        .rfold("".to_string(), |res, task| format!("{}{}", res, task.to_string()));

    assert_eq!(
        groups,
        "Uni\n\t1. [x] - Study for the Physics test\n\t2. [x] - Study Monads\n\t3. [ ] - Finish the Compilers project\nChores\n\t1. [x] - Clean the house\n\t2. [x] - Unlearn JavaScript\n\t3. [ ] - Make Python statically typed\n"
    )
}

#[test]
fn empty_group_to_string() {
    let group = TaskGroup::new("Empty".into());
    assert_eq!(group.to_string(), "Empty\n");
}

#[test]
fn list_to_string_numbers_groups() {
    let list = TodoList::new(vec![sample_group_1(), sample_group_2()], PathBuf::from("x"));
    assert_eq!(
        list.to_string(),
        "1. Chores\n\t1. [x] - Clean the house\n\t2. [x] - Unlearn JavaScript\n\t3. [ ] - Make Python statically typed\n2. Uni\n\t1. [x] - Study for the Physics test\n\t2. [x] - Study Monads\n\t3. [ ] - Finish the Compilers project\n"
    );
    let empty = TodoList::new(vec![], PathBuf::from("x"));
    assert_eq!(empty.to_string(), "");
}

#[test]
fn list_to_string_two_digit_numbers() {
    let mut group = TaskGroup::new("Many".into());
    for i in 0..12 {
        group.tasks.push(Task::new(format!("t{}", i)));
    }
    let text = group.to_string();
    assert!(text.ends_with("\t11. [ ] - t10\n\t12. [ ] - t11\n"));
}

#[test]
fn decimal_numbers() {
    assert_eq!(decimal_text(0), "0");
    assert_eq!(decimal_text(7), "7");
    assert_eq!(decimal_text(10), "10");
    assert_eq!(decimal_text(1234), "1234");
    assert_eq!(decimal_text(usize::MAX), usize::MAX.to_string());
}

#[test]
fn new_task_is_not_done() {
    assert_eq!(Task::new("a".into()), Task { description: "a".into(), is_done: false });
}
