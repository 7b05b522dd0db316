//! What holds of the parser and the evaluator together, for all inputs.

use vstd::prelude::*;
use crate::command::CommandView;
use crate::parser::{command_of, task_ref};
use crate::task::TaskView;
use crate::task::GroupView;
use crate::text::{join_words, pieces, u16_of};
use crate::todolist::{eval_spec, valid_number, EvalError};

verus! {

/// A line `add N words...` where group N exists, once read and applied, adds
/// exactly one task to group N: not done, described by the words after N
/// joined with single spaces. The other groups stay as they were.
pub proof fn lemma_add_line_appends_task(gs: Seq<GroupView>, line: Seq<char>)
    requires
        pieces(line, ' ').len() >= 3,
        pieces(line, ' ')[0] == "add"@,
        u16_of(pieces(line, ' ')[1]) is Some,
        valid_number(u16_of(pieces(line, ' ')[1])->0, gs.len()),
    ensures
        ({
            let ws = pieces(line, ' ');
            let n = u16_of(ws[1])->0;
            let description = join_words(ws.subrange(2, ws.len() as int));
            eval_spec(gs, command_of(line)) matches Ok(after) && {
                &&& after.len() == gs.len()
                &&& after[n - 1].name == gs[n - 1].name
                &&& after[n - 1].tasks.len() == gs[n - 1].tasks.len() + 1
                &&& after[n - 1].tasks == gs[n - 1].tasks.push(TaskView { description, is_done: false })
                &&& forall|i: int| 0 <= i < gs.len() && i != n - 1 ==> #[trigger] after[i] == gs[i]
            }
        }),
{
    reveal_strlit("add");
    reveal_strlit("help");
    let ws = pieces(line, ' ');
    assert(ws[0].subrange(0, 3) =~= "add"@);
}

/// A line `done T.G` that names a task that exists, read and applied twice
/// in a row, gives back the list it started from: the task's flag is
/// flipped, then flipped back.
pub proof fn lemma_done_line_twice_restores(gs: Seq<GroupView>, line: Seq<char>)
    requires
        pieces(line, ' ').len() == 2,
        pieces(line, ' ')[0] == "done"@,
        task_ref(pieces(line, ' ')[1]) matches Some((t, g)) && valid_number(g, gs.len())
            && valid_number(t, gs[g - 1].tasks.len()),
    ensures
        eval_spec(gs, command_of(line)) matches Ok(once) && {
            &&& eval_spec(once, command_of(line)) == Ok::<Seq<GroupView>, EvalError>(gs)
            &&& once.len() == gs.len()
        },
{
    reveal_strlit("done");
    reveal_strlit("help");
    reveal_strlit("add");
    reveal_strlit("remove");
    reveal_strlit("group");
    let ws = pieces(line, ' ');
    assert(ws[0].subrange(0, 4) =~= "done"@);
    assert(ws[0].subrange(0, 3)[0] == 'd');
    assert(ws[0].subrange(0, 4)[0] == 'd');
    let (t, g) = task_ref(ws[1])->0;
    assert(command_of(line) == CommandView::FlipTask(t, g));
    lemma_flip_twice_restores(gs, t, g);
}

/// Flipping the same task twice gives back the list it started from.
pub proof fn lemma_flip_twice_restores(gs: Seq<GroupView>, t: u16, g: u16)
    requires
        valid_number(g, gs.len()),
        valid_number(t, gs[g - 1].tasks.len()),
    ensures
        eval_spec(gs, CommandView::FlipTask(t, g)) matches Ok(once) && eval_spec(
            once,
            CommandView::FlipTask(t, g),
        ) == Ok::<Seq<GroupView>, EvalError>(gs),
{
    let once = eval_spec(gs, CommandView::FlipTask(t, g))->Ok_0;
    let twice = eval_spec(once, CommandView::FlipTask(t, g))->Ok_0;
    assert(twice[g - 1].tasks =~= gs[g - 1].tasks);
    assert(twice =~= gs);
}

/// The group number that a command names, if it names one.
pub open spec fn named_group(c: CommandView) -> Option<u16> {
    match c {
        CommandView::AddTask(_, g) => Some(g),
        CommandView::FlipTask(_, g) => Some(g),
        CommandView::RemoveTask(_, g) => Some(g),
        CommandView::RemoveGroup(g) => Some(g),
        _ => None,
    }
}

/// A command that names a group number below 1 or above the number of
/// groups changes nothing, and says that the group number is wrong.
pub proof fn lemma_bad_group_changes_nothing(gs: Seq<GroupView>, c: CommandView)
    requires
        named_group(c) matches Some(g) && !valid_number(g, gs.len()),
    ensures
        eval_spec(gs, c) == Err::<Seq<GroupView>, EvalError>(EvalError::BadGroup(named_group(c)->0)),
{
}

} // verus!
