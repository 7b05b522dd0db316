//! The list of groups and the rules that apply a command to it.

use vstd::prelude::*;
use std::path::PathBuf;
use crate::command::{Command, CommandView};
use crate::task::{group_text, tasks_view, GroupView, Task, TaskGroup, TaskView};
use crate::text::{decimal, decimal_text};

verus! {

/// The location of the list's files, from std. The library only carries it:
/// nothing here reads what it holds.
#[verifier::external_type_specification]
#[verifier::external_body]
pub struct ExPathBuf(PathBuf);

/// Why a command left the list as it was.
#[derive(Debug, Clone, Copy, PartialEq, Eq, Structural)]
pub enum EvalError {
    /// No group has this number.
    BadGroup(u16),
    /// The group has no task with this number.
    BadTask(u16),
}

/// The whole to-do list: its groups, and where it is kept.
#[derive(Debug, PartialEq, Eq)]
pub struct TodoList {
    pub task_groups: Vec<TaskGroup>,
    pub config_path: PathBuf,
}

/// The views of a sequence of groups.
pub open spec fn groups_view(gs: Seq<TaskGroup>) -> Seq<GroupView> {
    gs.map_values(|g: TaskGroup| g@)
}

impl View for TodoList {
    type V = Seq<GroupView>;

    open spec fn view(&self) -> Seq<GroupView> {
        groups_view(self.task_groups@)
    }
}

/// `n` counts a position, from 1, of a sequence of length `len`.
pub open spec fn valid_number(n: u16, len: nat) -> bool {
    1 <= n && n <= len
}

/// The groups after `command`, or why they stay as they are. Groups are
/// checked before tasks.
pub open spec fn eval_spec(gs: Seq<GroupView>, command: CommandView) -> Result<Seq<GroupView>, EvalError> {
    match command {
        CommandView::NoOp => Ok(gs),
        CommandView::ShowList => Ok(gs),
        CommandView::AddGroup(name) => Ok(gs.push(GroupView { name, tasks: Seq::empty() })),
        CommandView::AddTask(description, g) => {
            if !valid_number(g, gs.len()) {
                Err(EvalError::BadGroup(g))
            } else {
                let group = gs[g - 1];
                let task = TaskView { description, is_done: false };
                Ok(gs.update(g - 1, GroupView { name: group.name, tasks: group.tasks.push(task) }))
            }
        },
        CommandView::FlipTask(t, g) => {
            if !valid_number(g, gs.len()) {
                Err(EvalError::BadGroup(g))
            } else if !valid_number(t, gs[g - 1].tasks.len()) {
                Err(EvalError::BadTask(t))
            } else {
                let group = gs[g - 1];
                let task = group.tasks[t - 1];
                let flipped = TaskView { description: task.description, is_done: !task.is_done };
                Ok(gs.update(g - 1, GroupView { name: group.name, tasks: group.tasks.update(t - 1, flipped) }))
            }
        },
        CommandView::RemoveTask(t, g) => {
            if !valid_number(g, gs.len()) {
                Err(EvalError::BadGroup(g))
            } else if !valid_number(t, gs[g - 1].tasks.len()) {
                Err(EvalError::BadTask(t))
            } else {
                let group = gs[g - 1];
                Ok(gs.update(g - 1, GroupView { name: group.name, tasks: group.tasks.remove(t - 1) }))
            }
        },
        CommandView::RemoveGroup(g) => {
            if !valid_number(g, gs.len()) {
                Err(EvalError::BadGroup(g))
            } else {
                Ok(gs.remove(g - 1))
            }
        },
    }
}

/// `after` and the outcome `r` are what `eval_spec` gives from `before`:
/// the new groups on success, the old ones unchanged on failure.
pub open spec fn evaluated(before: Seq<GroupView>, command: CommandView, after: Seq<GroupView>, r: Result<(), EvalError>) -> bool {
    match eval_spec(before, command) {
        Ok(gs) => after == gs && r is Ok,
        Err(e) => after == before && r == Err::<(), EvalError>(e),
    }
}

/// The groups as text: each numbered from 1, as `1. ` before its text.
pub open spec fn list_text(gs: Seq<GroupView>) -> Seq<char>
    decreases gs.len(),
{
    if gs.len() == 0 {
        Seq::empty()
    } else {
        list_text(gs.drop_last()) + decimal(gs.len()) + ". "@ + group_text(gs.last())
    }
}

impl TodoList {
    /// The whole list as text, one numbered group after the other.
    pub fn to_string(&self) -> (r: String)
        ensures
            r@ == list_text(self@),
    {
        let mut r = String::new();
        let mut i: usize = 0;
        assert(self@.subrange(0, 0) =~= Seq::<GroupView>::empty());
        while i < self.task_groups.len()
            invariant
                0 <= i <= self.task_groups@.len(),
                r@ == list_text(self@.subrange(0, i as int)),
            decreases self.task_groups@.len() - i,
        {
            let ghost before = r@;
            let ghost gs = self@.subrange(0, i + 1);
            assert(gs.drop_last() =~= self@.subrange(0, i as int));
            assert(gs.last() == self.task_groups@[i as int]@);
            let number = decimal_text(i + 1);
            r.append(number.as_str());
            r.append(". ");
            let text = self.task_groups[i].to_string();
            r.append(text.as_str());
            assert(r@ =~= before + decimal((i + 1) as nat) + ". "@ + group_text(gs.last()));
            i = i + 1;
        }
        assert(self@.subrange(0, i as int) =~= self@);
        r
    }

    /// A list of the given groups, kept at `config_path`.
    pub fn new(task_groups: Vec<TaskGroup>, config_path: PathBuf) -> (r: TodoList)
        ensures
            r.task_groups@ == task_groups@,
            r.config_path == config_path,
    {
        TodoList { task_groups, config_path }
    }

    /// Appends a new task, not done, to the group numbered `group_no`.
    pub fn add_task(&mut self, description: String, group_no: u16) -> (r: Result<(), EvalError>)
        ensures
            evaluated(old(self)@, CommandView::AddTask(description@, group_no), final(self)@, r),
            final(self).config_path == old(self).config_path,
    {
        if group_no < 1 || group_no as usize > self.task_groups.len() {
            return Err(EvalError::BadGroup(group_no));
        }
        let gi = (group_no - 1) as usize;
        let ghost before = self@;
        let task = Task::new(description);
        let ghost old_groups = self.task_groups@;
        self.task_groups[gi].tasks.push(task);
        assert(self.task_groups@[gi as int].tasks@ == old_groups[gi as int].tasks@.push(task));
        assert(tasks_view(self.task_groups@[gi as int].tasks@) =~= tasks_view(
            old_groups[gi as int].tasks@,
        ).push(task@));
        assert(self@ =~= before.update(gi as int, GroupView {
            name: before[gi as int].name,
            tasks: before[gi as int].tasks.push(task@),
        }));
        Ok(())
    }

    /// Flips whether the task numbered `task_no` in the group numbered
    /// `group_no` is done.
    pub fn flip_task(&mut self, group_no: u16, task_no: u16) -> (r: Result<(), EvalError>)
        ensures
            evaluated(old(self)@, CommandView::FlipTask(task_no, group_no), final(self)@, r),
            final(self).config_path == old(self).config_path,
    {
        if group_no < 1 || group_no as usize > self.task_groups.len() {
            return Err(EvalError::BadGroup(group_no));
        }
        let gi = (group_no - 1) as usize;
        if task_no < 1 || task_no as usize > self.task_groups[gi].tasks.len() {
            return Err(EvalError::BadTask(task_no));
        }
        let ti = (task_no - 1) as usize;
        let ghost before = self@;
        let done = self.task_groups[gi].tasks[ti].is_done;
        let ghost old_tasks = self.task_groups@[gi as int].tasks@;
        self.task_groups[gi].tasks[ti].is_done = !done;
        assert(tasks_view(self.task_groups@[gi as int].tasks@) =~= tasks_view(old_tasks).update(
            ti as int,
            TaskView { description: old_tasks[ti as int].description@, is_done: !done },
        ));
        assert(self@ =~= before.update(gi as int, GroupView {
            name: before[gi as int].name,
            tasks: before[gi as int].tasks.update(ti as int, TaskView {
                description: before[gi as int].tasks[ti as int].description,
                is_done: !done,
            }),
        }));
        Ok(())
    }

    /// Removes the task numbered `task_no` from the group numbered
    /// `group_no`; the tasks after it move up by one.
    pub fn remove_task(&mut self, group_no: u16, task_no: u16) -> (r: Result<(), EvalError>)
        ensures
            evaluated(old(self)@, CommandView::RemoveTask(task_no, group_no), final(self)@, r),
            final(self).config_path == old(self).config_path,
    {
        if group_no < 1 || group_no as usize > self.task_groups.len() {
            return Err(EvalError::BadGroup(group_no));
        }
        let gi = (group_no - 1) as usize;
        if task_no < 1 || task_no as usize > self.task_groups[gi].tasks.len() {
            return Err(EvalError::BadTask(task_no));
        }
        let ti = (task_no - 1) as usize;
        let ghost before = self@;
        let ghost old_tasks = self.task_groups@[gi as int].tasks@;
        self.task_groups[gi].tasks.remove(ti);
        assert(tasks_view(self.task_groups@[gi as int].tasks@) =~= tasks_view(old_tasks).remove(
            ti as int,
        ));
        assert(self@ =~= before.update(gi as int, GroupView {
            name: before[gi as int].name,
            tasks: before[gi as int].tasks.remove(ti as int),
        }));
        Ok(())
    }

    /// Removes the group numbered `group_no` with all its tasks; the groups
    /// after it move up by one.
    pub fn remove_group(&mut self, group_no: u16) -> (r: Result<(), EvalError>)
        ensures
            evaluated(old(self)@, CommandView::RemoveGroup(group_no), final(self)@, r),
            final(self).config_path == old(self).config_path,
    {
        if group_no < 1 || group_no as usize > self.task_groups.len() {
            return Err(EvalError::BadGroup(group_no));
        }
        let gi = (group_no - 1) as usize;
        let ghost before = self@;
        self.task_groups.remove(gi);
        assert(self@ =~= before.remove(gi as int));
        Ok(())
    }

    /// Appends a new group with no tasks.
    pub fn add_group(&mut self, name: String) -> (r: Result<(), EvalError>)
        ensures
            evaluated(old(self)@, CommandView::AddGroup(name@), final(self)@, r),
            final(self).config_path == old(self).config_path,
    {
        let ghost before = self@;
        let group = TaskGroup::new(name);
        self.task_groups.push(group);
        assert(self@ =~= before.push(group@));
        Ok(())
    }

    /// Applies `command` to the list. Where it names a group or a task that
    /// is not there, the list stays as it was and the error says which.
    pub fn evaluate(&mut self, command: Command) -> (r: Result<(), EvalError>)
        ensures
            evaluated(old(self)@, command@, final(self)@, r),
            final(self).config_path == old(self).config_path,
    {
        match command {
            Command::NoOp => Ok(()),
            Command::ShowList => Ok(()),
            Command::AddTask(description, group_no) => self.add_task(description, group_no),
            Command::AddGroup(name) => self.add_group(name),
            Command::FlipTask(task_no, group_no) => self.flip_task(group_no, task_no),
            Command::RemoveTask(task_no, group_no) => self.remove_task(group_no, task_no),
            Command::RemoveGroup(group_no) => self.remove_group(group_no),
        }
    }
}

} // verus!
