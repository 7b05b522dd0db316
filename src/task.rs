//! Tasks and the groups that hold them.

use vstd::prelude::*;
use crate::text::{decimal, decimal_text};

verus! {

/// What a task is, as a mathematical value.
pub struct TaskView {
    pub description: Seq<char>,
    pub is_done: bool,
}

/// What a group of tasks is, as a mathematical value.
pub struct GroupView {
    pub name: Seq<char>,
    pub tasks: Seq<TaskView>,
}

/// A task and whether or not it has been concluded.
#[derive(Debug, PartialEq, Eq)]
pub struct Task {
    pub description: String,
    pub is_done: bool,
}

/// A named group of tasks, kept in order.
#[derive(Debug, PartialEq, Eq)]
pub struct TaskGroup {
    /// The group's name
    pub name: String,
    /// The tasks belonging to this group
    pub tasks: Vec<Task>,
}

impl View for Task {
    type V = TaskView;

    open spec fn view(&self) -> TaskView {
        TaskView { description: self.description@, is_done: self.is_done }
    }
}

/// The views of a sequence of tasks.
pub open spec fn tasks_view(tasks: Seq<Task>) -> Seq<TaskView> {
    tasks.map_values(|t: Task| t@)
}

impl View for TaskGroup {
    type V = GroupView;

    open spec fn view(&self) -> GroupView {
        GroupView { name: self.name@, tasks: tasks_view(self.tasks@) }
    }
}

impl Task {
    /// A task that is not done yet.
    pub fn new(description: String) -> (r: Task)
        ensures
            r@ == (TaskView { description: description@, is_done: false }),
    {
        Task { description, is_done: false }
    }
}

impl TaskGroup {
    /// A group with no tasks.
    pub fn new(name: String) -> (r: TaskGroup)
        ensures
            r@ == (GroupView { name: name@, tasks: Seq::empty() }),
    {
        let r = TaskGroup { name, tasks: Vec::new() };
        assert(r@.tasks =~= Seq::<TaskView>::empty());
        r
    }
}

/// The line that shows task number `number` of a group.
pub open spec fn task_line(number: nat, t: TaskView) -> Seq<char> {
    "\t"@ + decimal(number) + ". ["@ + (if t.is_done {
        "x"@
    } else {
        " "@
    }) + "] - "@ + t.description + "\n"@
}

/// The lines of the tasks, numbered from 1.
pub open spec fn tasks_text(ts: Seq<TaskView>) -> Seq<char>
    decreases ts.len(),
{
    if ts.len() == 0 {
        Seq::empty()
    } else {
        tasks_text(ts.drop_last()) + task_line(ts.len(), ts.last())
    }
}

/// A group as text: its name on a line, then a line for each task.
pub open spec fn group_text(g: GroupView) -> Seq<char> {
    g.name + "\n"@ + tasks_text(g.tasks)
}

impl TaskGroup {
    /// The group as text: its name on a line, then one line per task.
    pub fn to_string(&self) -> (r: String)
        ensures
            r@ == group_text(self@),
    {
        let mut r = String::from_str(self.name.as_str());
        r.append("\n");
        let mut i: usize = 0;
        assert(tasks_view(self.tasks@).subrange(0, 0) =~= Seq::<TaskView>::empty());
        assert(r@ =~= self.name@ + "\n"@ + tasks_text(Seq::<TaskView>::empty()));
        while i < self.tasks.len()
            invariant
                0 <= i <= self.tasks@.len(),
                r@ == self.name@ + "\n"@ + tasks_text(tasks_view(self.tasks@).subrange(0, i as int)),
            decreases self.tasks@.len() - i,
        {
            let ghost before = r@;
            let ghost ts = tasks_view(self.tasks@).subrange(0, i + 1);
            assert(ts.drop_last() =~= tasks_view(self.tasks@).subrange(0, i as int));
            assert(ts.last() == self.tasks@[i as int]@);
            let task = &self.tasks[i];
            r.append("\t");
            let number = decimal_text(i + 1);
            r.append(number.as_str());
            r.append(". [");
            if task.is_done {
                r.append("x");
            } else {
                r.append(" ");
            }
            r.append("] - ");
            r.append(task.description.as_str());
            r.append("\n");
            assert(r@ =~= before + task_line((i + 1) as nat, task@));
            i = i + 1;
        }
        assert(tasks_view(self.tasks@).subrange(0, i as int) =~= tasks_view(self.tasks@));
        r
    }
}

} // verus!
