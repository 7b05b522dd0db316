//! The commands that the command-line flags ask for.

use vstd::prelude::*;
use crate::command::{Command, CommandView};
use crate::parser::{command_of, parse_spec, result_view, try_parse, ParseError, ParseErrorView};
use crate::text::strings_view;

verus! {

/// The settings read from the command line: whether to start the
/// interactive loop, and the commands to apply first.
pub struct CommandLineArguments {
    pub should_start_repl: bool,
    pub commands: Vec<Command>,
}

/// The lines that the flags stand for: each `--task` value as it is, then
/// `done T.G` for a `--done T.G`.
pub open spec fn flag_lines(tasks: Seq<Seq<char>>, done: Option<Seq<char>>) -> Seq<Seq<char>> {
    match done {
        Some(d) => tasks.push("done "@ + d),
        None => tasks,
    }
}

/// The view of an optional text.
pub open spec fn text_view(o: Option<&str>) -> Option<Seq<char>> {
    match o {
        Some(d) => Some(d@),
        None => None,
    }
}

/// The errors that the lines give, in order.
pub open spec fn parse_errors(lines: Seq<Seq<char>>) -> Seq<ParseErrorView>
    decreases lines.len(),
{
    if lines.len() == 0 {
        Seq::empty()
    } else {
        let rest = parse_errors(lines.drop_last());
        match parse_spec(lines.last()) {
            Ok(_) => rest,
            Err(e) => rest.push(e),
        }
    }
}

/// The views of a sequence of commands.
pub open spec fn commands_view(cs: Seq<Command>) -> Seq<CommandView> {
    cs.map_values(|c: Command| c@)
}

/// The views of a sequence of parse errors.
pub open spec fn errors_view(es: Seq<ParseError>) -> Seq<ParseErrorView> {
    es.map_values(|e: ParseError| e@)
}

impl CommandLineArguments {
    /// Reads the flags: `edit` for `--edit`, the values of `--task`, and the
    /// value of `--done`. Each line that holds no command gives `NoOp` in
    /// its place, and its error in the second result.
    pub fn from_flags(edit: bool, tasks: &Vec<String>, done: Option<&str>) -> (r: (
        CommandLineArguments,
        Vec<ParseError>,
    ))
        ensures
            r.0.should_start_repl == edit,
            commands_view(r.0.commands@) == flag_lines(strings_view(tasks@), text_view(done)).map_values(
                |l: Seq<char>| command_of(l),
            ),
            errors_view(r.1@) == parse_errors(flag_lines(strings_view(tasks@), text_view(done))),
    {
        let mut lines: Vec<String> = Vec::new();
        let mut i: usize = 0;
        while i < tasks.len()
            invariant
                0 <= i <= tasks@.len(),
                strings_view(lines@) =~= strings_view(tasks@).subrange(0, i as int),
            decreases tasks@.len() - i,
        {
            let ghost old_lines = lines@;
            lines.push(String::from_str(tasks[i].as_str()));
            assert(strings_view(lines@) =~= strings_view(old_lines).push(tasks@[i as int]@));
            assert(strings_view(tasks@).subrange(0, i + 1) =~= strings_view(tasks@).subrange(
                0,
                i as int,
            ).push(tasks@[i as int]@));
            i = i + 1;
        }
        assert(strings_view(tasks@).subrange(0, i as int) =~= strings_view(tasks@));
        let ghost task_lines = lines@;
        match done {
            Some(d) => {
                let line = String::from_str("done ").concat(d);
                lines.push(line);
                assert(strings_view(lines@) =~= strings_view(task_lines).push("done "@ + d@));
            },
            None => {},
        }
        let ghost all = flag_lines(strings_view(tasks@), text_view(done));
        assert(strings_view(lines@) =~= all);
        let mut commands: Vec<Command> = Vec::new();
        let mut errors: Vec<ParseError> = Vec::new();
        let mut j: usize = 0;
        assert(all.subrange(0, 0) =~= Seq::<Seq<char>>::empty());
        while j < lines.len()
            invariant
                0 <= j <= lines@.len(),
                strings_view(lines@) == all,
                commands_view(commands@) =~= all.subrange(0, j as int).map_values(
                    |l: Seq<char>| command_of(l),
                ),
                errors_view(errors@) == parse_errors(all.subrange(0, j as int)),
            decreases lines@.len() - j,
        {
            let ghost upto = all.subrange(0, j + 1);
            assert(upto.drop_last() =~= all.subrange(0, j as int));
            assert(upto.last() == lines@[j as int]@);
            let ghost old_errors = errors@;
            let ghost old_commands = commands@;
            let ghost line = lines@[j as int]@;
            assert(all.subrange(0, j + 1).map_values(|l: Seq<char>| command_of(l)) =~= all.subrange(
                0,
                j as int,
            ).map_values(|l: Seq<char>| command_of(l)).push(command_of(line)));
            match try_parse(lines[j].as_str()) {
                Ok(command) => {
                    commands.push(command);
                    assert(commands_view(commands@) =~= commands_view(old_commands).push(command@));
                },
                Err(e) => {
                    commands.push(Command::NoOp);
                    assert(commands_view(commands@) =~= commands_view(old_commands).push(
                        CommandView::NoOp,
                    ));
                    errors.push(e);
                    assert(errors_view(errors@) =~= errors_view(old_errors).push(e@));
                },
            }
            j = j + 1;
        }
        assert(all.subrange(0, j as int) =~= all);
        (CommandLineArguments { should_start_repl: edit, commands }, errors)
    }
}

} // verus!
