use vstd::prelude::*;
use vstd::string::StringExecFns;

use crate::numbers::i64_to_string;
use crate::numbers::int_string;
use crate::project::Project;
use crate::task::Task;
use crate::task::TaskFilter;

verus! {

/// The filter the task listing uses: the caller's expression verbatim
/// when one was given, else the default that selects today's and overdue
/// tasks.
pub fn default_list_filter(filter: Option<String>) -> (r: TaskFilter)
    ensures
        match filter {
            Some(f) => r.day_filter == f,
            None => r.day_filter@ == "today|overdue"@,
        },
{
    match filter {
        Some(f) => TaskFilter { day_filter: f },
        None => TaskFilter { day_filter: String::from_str("today|overdue") },
    }
}

/// One output row of the task listing: identifier, project name, content,
/// and the priority rendered in decimal.
pub fn task_row(task: &Task, project_name: String) -> (r: Vec<String>)
    ensures
        r@.len() == 4,
        r@[0] == task.id,
        r@[1] == project_name,
        r@[2] == task.content,
        r@[3]@ == int_string(task.priority as int),
{
    let mut row: Vec<String> = Vec::new();
    row.push(task.id.clone());
    row.push(project_name);
    row.push(task.content.clone());
    row.push(i64_to_string(task.priority));
    row
}

/// The contents of the listed tasks, in listing order, as presented for
/// the single-choice selection when no task identifier was given.
pub fn task_contents(tasks: &Vec<Task>) -> (r: Vec<String>)
    ensures
        r@.len() == tasks@.len(),
        forall|i: int| 0 <= i < tasks@.len() ==> r@[i] == tasks@[i].content,
{
    let mut contents: Vec<String> = Vec::new();
    let mut i: usize = 0;
    while i < tasks.len()
        invariant
            0 <= i <= tasks@.len(),
            contents@.len() == i,
            forall|j: int| 0 <= j < i ==> contents@[j] == tasks@[j].content,
        decreases tasks@.len() - i,
    {
        contents.push(tasks[i].content.clone());
        i = i + 1;
    }
    contents
}

/// The line printed for one project: identifier, separator, display name.
pub fn project_line(p: &Project) -> (r: String)
    ensures
        r@ == p.id@ + " | "@ + p.name@,
{
    let r = p.id.clone().concat(" | ").concat(p.name.as_str());
    proof {
        assert(r@ =~= p.id@ + " | "@ + p.name@);
    }
    r
}

} // verus!
