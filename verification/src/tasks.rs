//! The task store: an ordered list of tasks with unique identifiers.

use vstd::prelude::*;

verus! {

/// Identifier of a task, unique within its project.
pub type TaskID = usize;

/// Mathematical model of a task.
pub struct TaskSpec {
    pub id: nat,
    pub done: bool,
    pub description: Seq<char>,
}

/// A single to-do entry.
#[derive(Debug)]
pub struct Task {
    pub id: TaskID,
    pub done: bool,
    pub description: String,
}

impl View for Task {
    type V = TaskSpec;

    open spec fn view(&self) -> TaskSpec {
        TaskSpec { id: self.id as nat, done: self.done, description: self.description@ }
    }
}

impl Clone for Task {
    fn clone(&self) -> (copy: Self)
        ensures
            copy@ == self@,
    {
        Task { id: self.id, done: self.done, description: self.description.clone() }
    }
}

impl Task {
    /// The identifier assigned when the task was inserted.
    pub fn id(&self) -> (id: TaskID)
        ensures
            id == self.id,
    {
        self.id
    }
}

/// Identifiers are pairwise distinct and each is below the number of tasks,
/// so the number of tasks is always an unused identifier.
pub open spec fn ids_unique(tasks: Seq<TaskSpec>) -> bool {
    &&& forall|i: int| 0 <= i < tasks.len() ==> (#[trigger] tasks[i]).id < tasks.len()
    &&& forall|i: int, j: int|
        0 <= i < j < tasks.len() ==> (#[trigger] tasks[i]).id != (#[trigger] tasks[j]).id
}

/// The task that `insert_task` creates in a project of `len` tasks.
pub open spec fn fresh_task(len: nat, description: Seq<char>) -> TaskSpec {
    TaskSpec { id: len, done: false, description }
}

/// The tasks after the one identified by `id`, if any, is marked done.
pub open spec fn marked_done(tasks: Seq<TaskSpec>, id: nat) -> Seq<TaskSpec> {
    Seq::new(
        tasks.len(),
        |i: int| if tasks[i].id == id {
            TaskSpec { done: true, ..tasks[i] }
        } else {
            tasks[i]
        },
    )
}

/// The task at `position` with its completion flag set.
pub open spec fn done_at(tasks: Seq<TaskSpec>, position: int) -> Seq<TaskSpec>
    recommends
        0 <= position < tasks.len(),
{
    tasks.update(position, TaskSpec { done: true, ..tasks[position] })
}

/// The two tasks that a demonstration project starts with.
pub open spec fn dummy_tasks() -> Seq<TaskSpec> {
    seq![
        fresh_task(0, "This is a test task"@),
        fresh_task(1, "This is another test task"@),
    ]
}

/// Among unique identifiers, marking by identifier changes exactly the one
/// task that carries it.
pub proof fn lemma_marked_done_at(tasks: Seq<TaskSpec>, position: int)
    requires
        ids_unique(tasks),
        0 <= position < tasks.len(),
    ensures
        marked_done(tasks, tasks[position].id) == done_at(tasks, position),
{
    let id = tasks[position].id;
    assert forall|j: int| 0 <= j < tasks.len() && j != position implies (#[trigger] tasks[j]).id
        != id by {
        if j < position {
            assert(tasks[j].id != tasks[position].id);
        } else {
            assert(tasks[position].id != tasks[j].id);
        }
    }
    assert(marked_done(tasks, id) =~= done_at(tasks, position));
}

/// Marking a task done keeps every identifier, every description and the
/// order; it changes no flag but that of the task marked, and marking twice
/// is the same as marking once.
pub proof fn lemma_marked_done_idempotent(tasks: Seq<TaskSpec>, id: nat)
    ensures
        marked_done(tasks, id).len() == tasks.len(),
        forall|i: int|
            0 <= i < tasks.len() ==> (#[trigger] marked_done(tasks, id)[i]).id == tasks[i].id
                && marked_done(tasks, id)[i].description == tasks[i].description,
        forall|i: int|
            0 <= i < tasks.len() && tasks[i].id != id ==> #[trigger] marked_done(tasks, id)[i]
                == tasks[i],
        forall|i: int|
            0 <= i < tasks.len() && tasks[i].id == id ==> (#[trigger] marked_done(
                tasks,
                id,
            )[i]).done,
        marked_done(marked_done(tasks, id), id) == marked_done(tasks, id),
        ids_unique(tasks) ==> ids_unique(marked_done(tasks, id)),
{
    let once = marked_done(tasks, id);
    assert(marked_done(once, id) =~= once);
    if ids_unique(tasks) {
        assert forall|i: int| 0 <= i < once.len() implies (#[trigger] once[i]).id
            < once.len() by {
            assert(tasks[i].id < tasks.len());
        }
        assert forall|i: int, j: int| 0 <= i < j < once.len() implies (#[trigger] once[i]).id != (
        #[trigger] once[j]).id by {
            assert(tasks[i].id != tasks[j].id);
        }
    }
}

/// The owning collection of all tasks, in display order.
pub struct ProjectData {
    tasks: Vec<Task>,
}

impl View for ProjectData {
    type V = Seq<TaskSpec>;

    closed spec fn view(&self) -> Seq<TaskSpec> {
        Seq::new(self.tasks@.len(), |i: int| self.tasks@[i]@)
    }
}

impl ProjectData {
    /// Well-formedness: the identifiers in the project are unique.
    pub open spec fn wf(&self) -> bool {
        ids_unique(self@)
    }

    /// An empty project.
    pub fn new() -> (data: Self)
        ensures
            data.wf(),
            data@ == Seq::<TaskSpec>::empty(),
    {
        let data = ProjectData { tasks: Vec::new() };
        assert(data@ =~= Seq::<TaskSpec>::empty());
        data
    }

    /// Number of tasks in the project.
    pub fn len(&self) -> (n: usize)
        ensures
            n == self@.len(),
    {
        self.tasks.len()
    }

    /// Whether the project holds no task.
    pub fn is_empty(&self) -> (empty: bool)
        ensures
            empty == (self@.len() == 0),
    {
        self.tasks.len() == 0
    }

    /// The task at `position` of the display order, if there is one.
    pub fn get(&self, position: usize) -> (found: Option<&Task>)
        ensures
            match found {
                Some(task) => position < self@.len() && task@ == self@[position as int],
                None => position >= self@.len(),
            },
    {
        if position < self.tasks.len() {
            Some(&self.tasks[position])
        } else {
            None
        }
    }

    /// The tasks in display order.
    pub fn get_ordered_view(&self) -> (tasks: &Vec<Task>)
        ensures
            tasks@.len() == self@.len(),
            forall|i: int| 0 <= i < tasks@.len() ==> (#[trigger] tasks@[i])@ == self@[i],
    {
        &self.tasks
    }

    /// A project with two open tasks, for demonstration.
    pub fn dummy_data() -> (data: Self)
        ensures
            data.wf(),
            data@ == dummy_tasks(),
    {
        let mut data = ProjectData::new();
        data.insert_task("This is a test task".to_owned());
        data.insert_task("This is another test task".to_owned());
        assert(data@ =~= dummy_tasks());
        data
    }

    /// Inserts a new, open task before the task at `position`, or at the end
    /// where `position` is the number of tasks, and returns its identifier.
    pub(crate) fn insert_task_at(&mut self, position: usize, description: String) -> (id: TaskID)
        requires
            old(self).wf(),
            position <= old(self)@.len(),
        ensures
            final(self).wf(),
            final(self)@ == old(self)@.insert(
                position as int,
                fresh_task(old(self)@.len(), description@),
            ),
            id == old(self)@.len(),
    {
        let id = self.tasks.len();
        let task = Task { id, done: false, description };
        self.tasks.insert(position, task);
        proof {
            let before = old(self)@;
            let after = before.insert(position as int, fresh_task(before.len(), description@));
            assert(self@ =~= after);
            assert forall|i: int| 0 <= i < after.len() implies (#[trigger] after[i]).id
                < after.len() by {
                if i < position {
                    assert(after[i] == before[i]);
                } else if i > position {
                    assert(after[i] == before[i - 1]);
                }
            }
            assert forall|i: int, j: int| 0 <= i < j < after.len() implies (#[trigger] after[i]).id
                != (#[trigger] after[j]).id by {
                let a = if i < position { i } else { i - 1 };
                let b = if j < position { j } else { j - 1 };
                if i != position && j != position {
                    assert(after[i] == before[a]);
                    assert(after[j] == before[b]);
                    assert(before[a].id != before[b].id);
                } else if i == position {
                    assert(after[j] == before[b]);
                    assert(before[b].id < before.len());
                } else {
                    assert(after[i] == before[a]);
                    assert(before[a].id < before.len());
                }
            }
        }
        id
    }

    /// Appends a new, open task and returns its identifier.
    pub fn insert_task(&mut self, description: String) -> (id: TaskID)
        requires
            old(self).wf(),
        ensures
            final(self).wf(),
            final(self)@ == old(self)@.push(fresh_task(old(self)@.len(), description@)),
            id == old(self)@.len(),
    {
        let id = self.tasks.len();
        let task = Task { id, done: false, description };
        self.tasks.push(task);
        assert(self@ =~= old(self)@.push(fresh_task(old(self)@.len(), description@)));
        id
    }

    /// Marks the task identified by `id` as done; does nothing when no task
    /// has that identifier.
    pub fn mark_done(&mut self, id: TaskID)
        requires
            old(self).wf(),
        ensures
            final(self).wf(),
            final(self)@ == marked_done(old(self)@, id as nat),
    {
        let mut i: usize = 0;
        while i < self.tasks.len()
            invariant
                i <= self.tasks.len(),
                self.tasks == old(self).tasks,
                ids_unique(old(self)@),
                forall|j: int| 0 <= j < i ==> (#[trigger] old(self)@[j]).id != id,
            decreases self.tasks.len() - i,
        {
            if self.tasks[i].id == id {
                self.tasks[i].done = true;
                assert(self.tasks@.len() == old(self).tasks@.len());
                assert(self.tasks@[i as int].id == id);
                assert(forall|j: int|
                    0 <= j < self.tasks@.len() && j != i ==> self.tasks@[j] == old(self).tasks@[j]);
                assert forall|j: int| 0 <= j < old(self)@.len() && j != i implies (
                #[trigger] old(self)@[j]).id != id by {
                    let before = old(self)@;
                    assert(before[i as int].id == id);
                    if j < i {
                        assert(before[j].id != before[i as int].id);
                    } else {
                        assert(before[i as int].id != before[j].id);
                    }
                }
                assert(self@ =~= marked_done(old(self)@, id as nat));
                return ;
            }
            i += 1;
        }
        assert(self@ =~= marked_done(old(self)@, id as nat));
    }
}

impl Default for ProjectData {
    fn default() -> (data: Self)
        ensures
            data.wf(),
            data@ == Seq::<TaskSpec>::empty(),
    {
        ProjectData::new()
    }
}

} // verus!
