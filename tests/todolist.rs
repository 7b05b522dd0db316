use std::path::PathBuf;

use dodo::command::Command;
use dodo::parser::parse;
use dodo::task::{Task, TaskGroup};
use dodo::todolist::{EvalError, TodoList};

fn sample_task_groups() -> Vec<TaskGroup> {
    vec![
        TaskGroup {
            name: "Group 1".into(),
            tasks: vec![Task {
                description: "Study for the Physics test".into(),
                is_done: true,
            }],
        },
        TaskGroup {
            name: "College".into(),
            tasks: vec![Task {
                description: "Study for the Maths test".into(),
                is_done: true,
            }],
        },
    ]
}

fn sample_config_path() -> PathBuf {
    PathBuf::from("dodo-config")
}

fn task(description: &str, is_done: bool) -> Task {
    Task { description: description.into(), is_done }
}

fn group(name: &str, tasks: Vec<Task>) -> TaskGroup {
    TaskGroup { name: name.into(), tasks }
}

fn three_groups() -> TodoList {
    TodoList::new(
        vec![
            group("Home", vec![task("Dishes", false)]),
            group("Work", vec![task("Report", false), task("Email", true)]),
            group("Uni", vec![task("Read", false), task("Write", false), task("Rest", true)]),
        ],
        sample_config_path(),
    )
}

#[test]
fn flip_task_1() {
    let mut todo_list = TodoList::new(sample_task_groups(), sample_config_path());

    let flip_task = Command::FlipTask(1, 1);
    let config_path = sample_config_path();

    assert_eq!(todo_list.evaluate(flip_task), Ok(()));

    assert_eq!(
        TodoList {
            task_groups: vec![
                TaskGroup {
                    name: "Group 1".into(),
                    tasks: vec![Task {
                        description: "Study for the Physics test".into(),
                        is_done: false, // flipped from true to false
                    }],
                },
                TaskGroup {
                    name: "College".into(),
                    tasks: vec![Task {
                        description: "Study for the Maths test".into(),
                        is_done: true,
                    }],
                },
            ],
            config_path,
        },
        todo_list
    );
}

#[test]
fn flip_task_2() {
    let mut todo_list = TodoList::new(sample_task_groups(), sample_config_path());

    let add_task = Command::AddTask("New task".into(), 1);
    // the second task of the first group
    let flip_task = Command::FlipTask(2, 1);
    let config_path = sample_config_path();

    assert_eq!(todo_list.evaluate(add_task), Ok(()));
    assert_eq!(todo_list.evaluate(flip_task), Ok(()));

    assert_eq!(
        TodoList {
            task_groups: vec![
                TaskGroup {
                    name: "Group 1".into(),
                    tasks: vec![
                        Task {
                            description: "Study for the Physics test".into(),
                            is_done: true,
                        },
                        Task {
                            description: "New task".into(),
                            is_done: true,
                        }
                    ],
                },
                TaskGroup {
                    name: "College".into(),
                    tasks: vec![Task {
                        description: "Study for the Maths test".into(),
                        is_done: true,
                    }],
                },
            ],
            config_path,
        },
        todo_list
    );
}

#[test]
fn add_group() {
    let mut todo_list = TodoList::new(sample_task_groups(), sample_config_path());
    let add_group_cmd = Command::AddGroup("New group".into());
    assert_eq!(todo_list.evaluate(add_group_cmd), Ok(()));

    let config_path = sample_config_path();

    assert_eq!(
        TodoList {
            task_groups: vec![
                TaskGroup {
                    name: "Group 1".into(),
                    tasks: vec![Task {
                        description: "Study for the Physics test".into(),
                        is_done: true,
                    }],
                },
                TaskGroup {
                    name: "College".into(),
                    tasks: vec![Task {
                        description: "Study for the Maths test".into(),
                        is_done: true,
                    }],
                },
                TaskGroup {
                    name: "New group".into(),
                    tasks: vec![],
                }
            ],
            config_path
        },
        todo_list
    );
}

#[test]
fn add_task() {
    let mut todo_list = TodoList::new(sample_task_groups(), sample_config_path());

    let add_new_task = Command::AddTask("Sample new task".into(), 1);
    let config_path = sample_config_path();

    assert_eq!(todo_list.evaluate(add_new_task), Ok(()));

    assert_eq!(
        TodoList {
            task_groups: vec![
                TaskGroup {
                    name: "Group 1".into(),
                    tasks: vec![
                        Task {
                            description: "Study for the Physics test".into(),
                            is_done: true,
                        },
                        Task {
                            description: "Sample new task".into(),
                            is_done: false,
                        }
                    ],
                },
                TaskGroup {
                    name: "College".into(),
                    tasks: vec![Task {
                        description: "Study for the Maths test".into(),
                        is_done: true,
                    }],
                },
            ],
            config_path
        },
        todo_list
    );
}

#[test]
fn add_line_appends_one_task() {
    let mut list = three_groups();
    assert_eq!(list.evaluate(parse("add 2 Mop the floors")), Ok(()));
    assert_eq!(list.task_groups[1].tasks.len(), 3);
    assert_eq!(list.task_groups[1].tasks[2], task("Mop the floors", false));
    assert_eq!(list.task_groups[0], group("Home", vec![task("Dishes", false)]));
}

#[test]
fn group_line_appends_empty_group() {
    let mut list = three_groups();
    assert_eq!(list.evaluate(parse("group University")), Ok(()));
    assert_eq!(list.task_groups.len(), 4);
    assert_eq!(list.task_groups[3], group("University", vec![]));
}

#[test]
fn done_line_flips_task_of_group() {
    let mut list = three_groups();
    assert_eq!(list.evaluate(parse("done 2.3")), Ok(()));
    assert!(list.task_groups[2].tasks[1].is_done);
    let mut expected = three_groups();
    expected.task_groups[2].tasks[1].is_done = true;
    assert_eq!(list, expected);
}

#[test]
fn done_line_twice_restores() {
    let mut list = three_groups();
    assert_eq!(list.evaluate(parse("done 3.3")), Ok(()));
    assert!(!list.task_groups[2].tasks[2].is_done);
    assert_eq!(list.evaluate(parse("done 3.3")), Ok(()));
    assert_eq!(list, three_groups());
}

#[test]
fn remove_group_line_shifts_groups() {
    let mut list = three_groups();
    assert_eq!(list.evaluate(parse("remove group 2")), Ok(()));
    assert_eq!(list.task_groups.len(), 2);
    assert_eq!(list.task_groups[0].name, "Home");
    assert_eq!(list.task_groups[1].name, "Uni");
}

#[test]
fn remove_task_line_shifts_tasks() {
    let mut list = three_groups();
    assert_eq!(list.evaluate(parse("remove task 2.3")), Ok(()));
    assert_eq!(
        list.task_groups[2],
        group("Uni", vec![task("Read", false), task("Rest", true)])
    );
}

#[test]
fn bogus_line_changes_nothing() {
    let mut list = three_groups();
    assert_eq!(parse("bogus"), Command::NoOp);
    assert_eq!(list.evaluate(parse("bogus")), Ok(()));
    assert_eq!(list, three_groups());
}

#[test]
fn bad_group_number_changes_nothing() {
    let commands = vec![
        (Command::AddTask("x".into(), 0), 0),
        (Command::AddTask("x".into(), 4), 4),
        (Command::FlipTask(1, 0), 0),
        (Command::FlipTask(1, 9), 9),
        (Command::RemoveTask(1, 4), 4),
        (Command::RemoveGroup(0), 0),
        (Command::RemoveGroup(4), 4),
    ];
    for (command, g) in commands {
        let mut list = three_groups();
        assert_eq!(list.evaluate(command), Err(EvalError::BadGroup(g)));
        assert_eq!(list, three_groups());
    }
}

#[test]
fn bad_task_number_changes_nothing() {
    let mut list = three_groups();
    assert_eq!(list.evaluate(Command::FlipTask(2, 1)), Err(EvalError::BadTask(2)));
    assert_eq!(list.evaluate(Command::FlipTask(0, 1)), Err(EvalError::BadTask(0)));
    assert_eq!(list.evaluate(Command::RemoveTask(4, 3)), Err(EvalError::BadTask(4)));
    assert_eq!(list, three_groups());
}

#[test]
fn show_list_and_no_op_change_nothing() {
    let mut list = three_groups();
    assert_eq!(list.evaluate(Command::ShowList), Ok(()));
    assert_eq!(list.evaluate(Command::NoOp), Ok(()));
    assert_eq!(list, three_groups());
}

#[test]
fn methods_match_commands() {
    let mut list = three_groups();
    assert_eq!(list.add_task("Sleep".into(), 1), Ok(()));
    assert_eq!(list.flip_task(1, 2), Ok(()));
    assert_eq!(list.remove_task(1, 1), Ok(()));
    assert_eq!(list.task_groups[0], group("Home", vec![task("Sleep", true)]));
    assert_eq!(list.remove_task(1, 5), Err(EvalError::BadTask(5)));
    assert_eq!(list.add_group("Garden".into()), Ok(()));
    assert_eq!(list.remove_group(1), Ok(()));
    assert_eq!(list.task_groups.len(), 3);
    assert_eq!(list.task_groups[2].name, "Garden");
}
