use dodo::cli::CommandLineArguments;
use dodo::command::Command;
use dodo::parser::ParseError;

#[test]
fn flags_give_commands_in_order() {
    let tasks = vec!["add 1 Buy milk".to_string(), "group Home".to_string()];
    let (args, errors) = CommandLineArguments::from_flags(true, &tasks, Some("3.2"));
    assert!(args.should_start_repl);
    assert_eq!(
        args.commands,
        vec![
            Command::AddTask("Buy milk".into(), 1),
            Command::AddGroup("Home".into()),
            Command::FlipTask(3, 2),
        ]
    );
    assert!(errors.is_empty());
}

#[test]
fn bad_flags_give_no_op_and_errors() {
    let tasks = vec!["frobnicate".to_string()];
    let (args, errors) = CommandLineArguments::from_flags(false, &tasks, Some("x"));
    assert!(!args.should_start_repl);
    assert_eq!(args.commands, vec![Command::NoOp, Command::NoOp]);
    assert_eq!(
        errors,
        vec![
            ParseError::UnknownCommand("frobnicate".into()),
            ParseError::BadTaskRef("x".into()),
        ]
    );
}

#[test]
fn no_flags_give_no_commands() {
    let (args, errors) = CommandLineArguments::from_flags(false, &vec![], None);
    assert!(args.commands.is_empty());
    assert!(errors.is_empty());
}
