use crate::models::{Task, TaskView};
use vstd::prelude::*;

verus! {

/// The tasks of a sequence, as the contracts see them.
pub open spec fn task_views(s: Seq<Task>) -> Seq<TaskView> {
    s.map_values(|t: Task| t@)
}

/// `t` with its completion flag set.
pub open spec fn completed_view(t: TaskView) -> TaskView {
    TaskView { completed: true, ..t }
}

/// Completing a task is idempotent: completing the task at `id` a second
/// time leaves the collection as the first time left it.
pub proof fn lemma_complete_idempotent(tasks: Seq<TaskView>, id: int)
    requires
        0 <= id < tasks.len(),
    ensures
        ({
            let once = tasks.update(id, completed_view(tasks[id]));
            once.update(id, completed_view(once[id])) == once
        }),
{
    let once = tasks.update(id, completed_view(tasks[id]));
    assert(once.update(id, completed_view(once[id])) =~= once);
}

/// The task collection and the path of the file it is kept in.
///
/// Tasks stay in insertion order, and a task's position in that order is how
/// it is addressed. Every operation that returns `true` (and every `add_task`)
/// has changed the collection, and the whole collection is then to be written
/// back to the file; an operation that returns `false` has changed nothing.
pub struct Storage {
    file_path: String,
    tasks: Vec<Task>,
}

impl View for Storage {
    type V = Seq<TaskView>;

    closed spec fn view(&self) -> Seq<TaskView> {
        task_views(self.tasks@)
    }
}

impl Storage {
    /// The path of the file that holds the collection.
    pub closed spec fn path(&self) -> Seq<char> {
        self.file_path@
    }

    /// The storage for the file at `file_path`, holding what was read from it,
    /// or nothing when the file does not exist yet (`None`).
    pub fn new(file_path: &str, loaded: Option<Vec<Task>>) -> (r: Storage)
        ensures
            r.path() == file_path@,
            loaded matches Some(v) ==> r@ == task_views(v@),
            loaded is None ==> r@ == Seq::<TaskView>::empty(),
    {
        let tasks = match loaded {
            Some(v) => v,
            None => Vec::new(),
        };
        proof {
            assert(task_views(Seq::<Task>::empty()) =~= Seq::<TaskView>::empty());
        }
        Storage { file_path: file_path.to_string(), tasks }
    }

    /// The path of the file that holds the collection.
    pub fn file_path(&self) -> (r: &str)
        ensures
            r@ == self.path(),
    {
        self.file_path.as_str()
    }

    /// All tasks, in insertion order, as a new vector.
    pub fn get_tasks(&self) -> (r: Vec<Task>)
        ensures
            task_views(r@) == self@,
    {
        let mut out: Vec<Task> = Vec::new();
        let mut i: usize = 0;
        while i < self.tasks.len()
            invariant
                i <= self.tasks@.len(),
                out@.len() == i,
                forall|j: int| 0 <= j < i ==> #[trigger] out@[j]@ == self.tasks@[j]@,
            decreases self.tasks@.len() - i,
        {
            out.push(self.tasks[i].duplicate());
            i = i + 1;
        }
        proof {
            assert(task_views(out@) =~= task_views(self.tasks@));
        }
        out
    }

    /// Appends `task` after all others.
    pub fn add_task(&mut self, task: Task)
        ensures
            final(self)@ == old(self)@.push(task@),
            final(self)@.len() == old(self)@.len() + 1,
            final(self)@.last() == task@,
            forall|j: int| 0 <= j < old(self)@.len() ==> #[trigger] final(self)@[j] == old(self)@[j],
            final(self).path() == old(self).path(),
    {
        self.tasks.push(task);
        proof {
            assert(task_views(self.tasks@) =~= task_views(old(self).tasks@).push(task@));
        }
    }

    /// Marks the task at position `id` as completed. Returns `false`, and
    /// changes nothing, when there is no task at that position.
    pub fn complete_task(&mut self, id: usize) -> (r: bool)
        ensures
            r == (id < old(self)@.len()),
            r ==> final(self)@ == old(self)@.update(id as int, completed_view(old(self)@[id as int])),
            r ==> final(self)@.len() == old(self)@.len() && final(self)@[id as int].completed
                && final(self)@[id as int].title == old(self)@[id as int].title
                && final(self)@[id as int].created_at == old(self)@[id as int].created_at,
            r ==> forall|j: int|
                0 <= j < old(self)@.len() && j != id ==> #[trigger] final(self)@[j] == old(self)@[j],
            !r ==> final(self)@ == old(self)@,
            final(self).path() == old(self).path(),
    {
        if id < self.tasks.len() {
            self.tasks[id].completed = true;
            proof {
                assert(task_views(self.tasks@) =~= task_views(old(self).tasks@).update(
                    id as int,
                    completed_view(task_views(old(self).tasks@)[id as int]),
                ));
            }
            true
        } else {
            false
        }
    }

    /// Removes the task at position `id`; the tasks after it move down by one
    /// position. Returns `false`, and changes nothing, when there is no task at
    /// that position.
    pub fn delete_task(&mut self, id: usize) -> (r: bool)
        ensures
            r == (id < old(self)@.len()),
            r ==> final(self)@ == old(self)@.remove(id as int),
            r ==> final(self)@.len() == old(self)@.len() - 1,
            r ==> forall|j: int| 0 <= j < id ==> #[trigger] final(self)@[j] == old(self)@[j],
            r ==> forall|j: int|
                id <= j < final(self)@.len() ==> #[trigger] final(self)@[j] == old(self)@[j + 1],
            !r ==> final(self)@ == old(self)@,
            final(self).path() == old(self).path(),
    {
        if id < self.tasks.len() {
            self.tasks.remove(id);
            proof {
                assert(task_views(self.tasks@) =~= task_views(old(self).tasks@).remove(id as int));
            }
            true
        } else {
            false
        }
    }
}

/// The zero-based position of the task that users number `id`, counting from
/// one; `None` for `0`, which numbers no task.
pub fn position_of_id(id: usize) -> (r: Option<usize>)
    ensures
        id == 0 <==> r is None,
        r matches Some(p) ==> p + 1 == id,
{
    if id == 0 {
        None
    } else {
        Some(id - 1)
    }
}

} // verus!
