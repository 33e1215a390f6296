use vstd::prelude::*;

verus! {

/// A task known only at run time: its name and its help text.
pub struct TaskEntry {
    pub name: String,
    pub help: String,
}

pub open spec fn is_first_task(tasks: Seq<TaskEntry>, name: Seq<char>, i: int) -> bool {
    &&& 0 <= i < tasks.len()
    &&& tasks[i].name@ == name
    &&& forall|j: int| 0 <= j < i ==> (#[trigger] tasks[j]).name@ != name
}

pub open spec fn has_task(tasks: Seq<TaskEntry>, name: Seq<char>) -> bool {
    exists|i: int| 0 <= i < tasks.len() && (#[trigger] tasks[i]).name@ == name
}

/// Looks a task name up in the run-time mapping; `None` is the "not found" signal.
pub fn find_task(tasks: &Vec<TaskEntry>, name: &String) -> (r: Option<usize>)
    ensures
        r matches Some(i) ==> is_first_task(tasks@, name@, i as int),
        r is None <==> !has_task(tasks@, name@),
{
    let mut i: usize = 0;
    while i < tasks.len()
        invariant
            0 <= i <= tasks@.len(),
            forall|j: int| 0 <= j < i ==> (#[trigger] tasks@[j]).name@ != name@,
        decreases tasks@.len() - i,
    {
        if tasks[i].name == *name {
            return Some(i);
        }
        i = i + 1;
    }
    None
}

/// A task to run: its index in the mapping and the segments that follow its name.
pub enum TaskRun {
    Run(usize, Vec<String>),
    NotFound,
}

/// Resolves the task named by segment `k` of an invocation path; the later segments are its
/// arguments.
pub fn execute_task(tasks: &Vec<TaskEntry>, path: &Vec<String>, k: usize) -> (r: TaskRun)
    requires
        k < path@.len(),
    ensures
        r matches TaskRun::Run(i, rest) ==> is_first_task(tasks@, path@[k as int]@, i as int)
            && rest@ == path@.subrange(k + 1, path@.len() as int),
        r is NotFound <==> !has_task(tasks@, path@[k as int]@),
{
    match find_task(tasks, &path[k]) {
        None => TaskRun::NotFound,
        Some(i) => {
            let mut rest: Vec<String> = Vec::new();
            let n = path.len();
            let mut j: usize = k + 1;
            while j < path.len()
                invariant
                    k < j <= path@.len(),
                    rest@ == path@.subrange(k + 1, j as int),
                decreases path@.len() - j,
            {
                rest.push(path[j].clone());
                j = j + 1;
                assert(rest@ =~= path@.subrange(k + 1, j as int));
            }
            TaskRun::Run(i, rest)
        },
    }
}

/// The help text of the named task, or `None` when no task has that name.
pub fn show_help_for_task(tasks: &Vec<TaskEntry>, name: &String) -> (r: Option<String>)
    ensures
        r matches Some(h) ==> exists|i: int| is_first_task(tasks@, name@, i) && h == tasks@[i].help,
        r is None <==> !has_task(tasks@, name@),
{
    match find_task(tasks, name) {
        None => None,
        Some(i) => Some(tasks[i].help.clone()),
    }
}

} // verus!
