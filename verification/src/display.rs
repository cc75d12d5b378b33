//! The selection cursor over the task list, and what each key does to it.
//!
//! [`ProjectDataEditView`] wraps a [`ProjectData`] and holds everything that
//! is needed to show the project as a list and to interact with it.

use vstd::prelude::*;
use crate::actions::{with_action, ActionPreviewSet, ActionSpec};
use crate::keys::Key;
use crate::tasks::{
    done_at, fresh_task, ids_unique, lemma_marked_done_at, ProjectData, Task, TaskID, TaskSpec,
};

verus! {

/// Mathematical model of the edit view: the tasks in display order and the
/// position of the selected task, if one is selected.
pub struct EditViewSpec {
    pub tasks: Seq<TaskSpec>,
    pub cursor: Option<int>,
}

/// Whether a selected task handles the key itself.
pub open spec fn task_handles(key: Key) -> bool {
    key == Key::Enter
}

/// The cursor after a step down a list of `len` tasks: the first task where
/// nothing was selected, else the next one, stopping at the last.
pub open spec fn cursor_below(cursor: Option<int>, len: int) -> Option<int> {
    match cursor {
        Some(i) => Some(if i + 1 < len - 1 { i + 1 } else { len - 1 }),
        None => if len > 0 { Some(0) } else { None },
    }
}

/// The cursor after a step up a list of `len` tasks: the last task where
/// nothing was selected, else the previous one, stopping at the first.
pub open spec fn cursor_above(cursor: Option<int>, len: int) -> Option<int> {
    match cursor {
        Some(i) => Some(if i - 1 > 0 { i - 1 } else { 0 }),
        None => if len > 0 { Some(len - 1) } else { None },
    }
}

impl EditViewSpec {
    /// The identifiers are unique and the cursor, if set, is in range.
    pub open spec fn valid(self) -> bool {
        &&& ids_unique(self.tasks)
        &&& match self.cursor {
            Some(i) => 0 <= i < self.tasks.len(),
            None => true,
        }
    }

    /// Whether the selected task takes the key for itself.
    pub open spec fn task_consumes(self, key: Key) -> bool {
        self.cursor is Some && task_handles(key)
    }

    /// Whether the view consumes the key: the selected task handles it, or
    /// it moves the cursor, or it clears a selection.
    pub open spec fn consumes(self, key: Key) -> bool {
        ||| self.task_consumes(key)
        ||| key == Key::Down
        ||| key == Key::Up
        ||| (key == Key::Esc && self.cursor is Some)
    }

    /// The state after a key press. The selected task is offered the key
    /// first; what it leaves is interpreted as navigation.
    pub open spec fn after_key(self, key: Key) -> EditViewSpec {
        if self.task_consumes(key) {
            EditViewSpec { tasks: done_at(self.tasks, self.cursor->Some_0), ..self }
        } else {
            match key {
                Key::Down => EditViewSpec {
                    cursor: cursor_below(self.cursor, self.tasks.len() as int),
                    ..self
                },
                Key::Up => EditViewSpec {
                    cursor: cursor_above(self.cursor, self.tasks.len() as int),
                    ..self
                },
                Key::Esc => EditViewSpec { cursor: None, ..self },
                _ => self,
            }
        }
    }

    /// The state after `count` presses of the same key.
    pub open spec fn after_presses(self, key: Key, count: nat) -> EditViewSpec
        decreases count,
    {
        if count == 0 {
            self
        } else {
            self.after_presses(key, (count - 1) as nat).after_key(key)
        }
    }

    /// The menu after the view has advertised what is valid in its state:
    /// with a task selected, first the task's own action, then unselecting.
    pub open spec fn advertised(self, menu: Seq<ActionSpec>) -> Seq<ActionSpec> {
        if self.cursor is Some {
            with_action(task_actions(menu), Key::Esc, "Unselect task"@)
        } else {
            menu
        }
    }

    /// The tasks after a task with `description` is inserted: at the cursor
    /// where a task is selected, at the end otherwise.
    pub open spec fn after_insert(self, description: Seq<char>) -> EditViewSpec {
        let task = fresh_task(self.tasks.len(), description);
        match self.cursor {
            Some(i) => EditViewSpec { tasks: self.tasks.insert(i, task), ..self },
            None => EditViewSpec { tasks: self.tasks.push(task), ..self },
        }
    }
}

/// The cursor as a number when stepping down: nothing selected counts as
/// the position before the first task.
pub open spec fn rank_from_top(cursor: Option<int>) -> int {
    match cursor {
        Some(i) => i,
        None => -1,
    }
}

/// The cursor as a number when stepping up: nothing selected counts as the
/// position behind the last of `len` tasks.
pub open spec fn rank_from_bottom(cursor: Option<int>, len: int) -> int {
    match cursor {
        Some(i) => i,
        None => len,
    }
}

/// Pressing `Down` `count` times on a non-empty list leaves the tasks alone
/// and moves the cursor `count` tasks down, but not past the last task: once
/// there it stays. A single press selects a task.
pub proof fn lemma_down_presses(view: EditViewSpec, count: nat)
    requires
        view.valid(),
        view.tasks.len() > 0,
    ensures
        view.after_presses(Key::Down, count).valid(),
        view.after_presses(Key::Down, count).tasks == view.tasks,
        count > 0 ==> view.after_presses(Key::Down, count).cursor is Some,
        rank_from_top(view.after_presses(Key::Down, count).cursor) == if rank_from_top(view.cursor)
            + count < view.tasks.len() - 1 {
            rank_from_top(view.cursor) + count
        } else {
            view.tasks.len() - 1
        },
    decreases count,
{
    if count > 0 {
        lemma_down_presses(view, (count - 1) as nat);
    }
}

/// Under repeated `Down` presses on a non-empty list the selected position
/// never decreases and never exceeds the last position.
pub proof fn lemma_down_monotone(view: EditViewSpec, fewer: nat, more: nat)
    requires
        view.valid(),
        view.tasks.len() > 0,
        fewer <= more,
    ensures
        rank_from_top(view.after_presses(Key::Down, fewer).cursor) <= rank_from_top(
            view.after_presses(Key::Down, more).cursor,
        ) <= view.tasks.len() - 1,
{
    lemma_down_presses(view, fewer);
    lemma_down_presses(view, more);
}

/// Pressing `Up` `count` times on a non-empty list leaves the tasks alone
/// and moves the cursor `count` tasks up, but not past the first task: once
/// there it stays. A single press selects a task.
pub proof fn lemma_up_presses(view: EditViewSpec, count: nat)
    requires
        view.valid(),
        view.tasks.len() > 0,
    ensures
        view.after_presses(Key::Up, count).valid(),
        view.after_presses(Key::Up, count).tasks == view.tasks,
        count > 0 ==> view.after_presses(Key::Up, count).cursor is Some,
        rank_from_bottom(
            view.after_presses(Key::Up, count).cursor,
            view.tasks.len() as int,
        ) == if rank_from_bottom(view.cursor, view.tasks.len() as int) - count > 0 {
            rank_from_bottom(view.cursor, view.tasks.len() as int) - count
        } else {
            0
        },
    decreases count,
{
    if count > 0 {
        lemma_up_presses(view, (count - 1) as nat);
    }
}

/// Under repeated `Up` presses on a non-empty list the selected position
/// never increases and never falls below the first position.
pub proof fn lemma_up_monotone(view: EditViewSpec, fewer: nat, more: nat)
    requires
        view.valid(),
        view.tasks.len() > 0,
        fewer <= more,
    ensures
        0 <= rank_from_bottom(
            view.after_presses(Key::Up, more).cursor,
            view.tasks.len() as int,
        ) <= rank_from_bottom(view.after_presses(Key::Up, fewer).cursor, view.tasks.len() as int),
{
    lemma_up_presses(view, fewer);
    lemma_up_presses(view, more);
}

/// `Esc` with a task selected clears the selection, touches no task and is
/// consumed; with nothing selected it changes nothing and is not consumed.
pub proof fn lemma_escape(view: EditViewSpec)
    ensures
        view.cursor is Some ==> view.consumes(Key::Esc) && view.after_key(Key::Esc)
            == (EditViewSpec { tasks: view.tasks, cursor: None }),
        view.cursor is None ==> !view.consumes(Key::Esc) && view.after_key(Key::Esc) == view,
{
}

/// `Enter` with a task selected is consumed, sets the completion flag of
/// that task and changes nothing else: not the cursor, not another task,
/// not the task's identifier or description. A second `Enter` changes
/// nothing, nor does the first where the task was done already.
pub proof fn lemma_enter_marks_selected(view: EditViewSpec)
    requires
        view.valid(),
        view.cursor is Some,
    ensures
        view.consumes(Key::Enter),
        view.after_key(Key::Enter).valid(),
        view.after_key(Key::Enter).cursor == view.cursor,
        view.after_key(Key::Enter).tasks.len() == view.tasks.len(),
        forall|j: int|
            0 <= j < view.tasks.len() && j != view.cursor->Some_0 ==> #[trigger] view.after_key(
                Key::Enter,
            ).tasks[j] == view.tasks[j],
        view.after_key(Key::Enter).tasks[view.cursor->Some_0] == (TaskSpec {
            done: true,
            ..view.tasks[view.cursor->Some_0]
        }),
        view.after_key(Key::Enter).after_key(Key::Enter) == view.after_key(Key::Enter),
        view.tasks[view.cursor->Some_0].done ==> view.after_key(Key::Enter) == view,
{
    let position = view.cursor->Some_0;
    let once = view.after_key(Key::Enter);
    assert(once.tasks =~= done_at(view.tasks, position));
    assert(done_at(once.tasks, position) =~= once.tasks);
    if view.tasks[position].done {
        assert(once.tasks =~= view.tasks);
    }
    assert forall|i: int| 0 <= i < once.tasks.len() implies (#[trigger] once.tasks[i]).id
        < once.tasks.len() by {
        assert(view.tasks[i].id < view.tasks.len());
    }
    assert forall|i: int, j: int| 0 <= i < j < once.tasks.len() implies (
    #[trigger] once.tasks[i]).id != (#[trigger] once.tasks[j]).id by {
        assert(view.tasks[i].id != view.tasks[j].id);
    }
}

/// One row of the task list as it is shown.
pub struct TaskRow {
    /// Whether the task is done.
    pub done: bool,
    /// The completion glyph.
    pub glyph: &'static str,
    /// The task's description.
    pub description: String,
    /// Whether the row is the selected one.
    pub highlighted: bool,
}

/// Mathematical model of a row.
pub struct TaskRowSpec {
    pub done: bool,
    pub glyph: Seq<char>,
    pub description: Seq<char>,
    pub highlighted: bool,
}

impl View for TaskRow {
    type V = TaskRowSpec;

    open spec fn view(&self) -> TaskRowSpec {
        TaskRowSpec {
            done: self.done,
            glyph: self.glyph@,
            description: self.description@,
            highlighted: self.highlighted,
        }
    }
}

/// The completion glyph of a task.
pub open spec fn glyph_of(done: bool) -> Seq<char> {
    if done {
        "[X]"@
    } else {
        "[ ]"@
    }
}

/// The row that shows `task`.
pub open spec fn row_of(task: TaskSpec, highlighted: bool) -> TaskRowSpec {
    TaskRowSpec {
        done: task.done,
        glyph: glyph_of(task.done),
        description: task.description,
        highlighted,
    }
}

/// The rows that show the view: one per task, in display order, the one
/// under the cursor highlighted.
pub open spec fn rows_of(view: EditViewSpec) -> Seq<TaskRowSpec> {
    Seq::new(view.tasks.len(), |i: int| row_of(view.tasks[i], view.cursor == Some(i)))
}

/// Builds the row that shows `task`.
pub fn create_row(task: &Task, highlighted: bool) -> (row: TaskRow)
    ensures
        row@ == row_of(task@, highlighted),
{
    TaskRow {
        done: task.done,
        glyph: if task.done { "[X]" } else { "[ ]" },
        description: task.description.clone(),
        highlighted,
    }
}

/// The project together with the selection cursor.
pub struct ProjectDataEditView {
    data: ProjectData,
    selected: Option<usize>,
}

impl View for ProjectDataEditView {
    type V = EditViewSpec;

    closed spec fn view(&self) -> EditViewSpec {
        EditViewSpec {
            tasks: self.data@,
            cursor: match self.selected {
                Some(i) => Some(i as int),
                None => None,
            },
        }
    }
}

impl ProjectDataEditView {
    /// Well-formedness: the state is valid.
    pub open spec fn wf(&self) -> bool {
        self@.valid()
    }

    /// Wraps a project; nothing is selected.
    pub fn new(data: ProjectData) -> (view: Self)
        requires
            data.wf(),
        ensures
            view.wf(),
            view@ == (EditViewSpec { tasks: data@, cursor: None }),
    {
        ProjectDataEditView { data, selected: None }
    }

    /// The position of the selected task.
    pub fn selected(&self) -> (cursor: Option<usize>)
        ensures
            match cursor {
                Some(i) => self@.cursor == Some(i as int),
                None => self@.cursor is None,
            },
    {
        self.selected
    }

    /// The project behind the view.
    pub fn data(&self) -> (data: &ProjectData)
        ensures
            data@ == self@.tasks,
            self.wf() ==> data.wf(),
    {
        &self.data
    }

    /// Advertises the actions of the selected task, then how to unselect
    /// it. Advertises nothing where no task is selected.
    pub fn populate_actions(&self, actions: &mut ActionPreviewSet)
        requires
            old(actions).wf(),
        ensures
            final(actions).wf(),
            final(actions)@ == self@.advertised(old(actions)@),
    {
        if let Some(_i) = self.selected {
            populate_task_actions(actions);
            actions.insert(Key::Esc, "Unselect task");
        }
    }

    /// Offers the key to the task at `position`.
    fn handle_task_input(&mut self, position: usize, key: Key) -> (consumed: bool)
        requires
            old(self).wf(),
            position < old(self)@.tasks.len(),
        ensures
            final(self).wf(),
            consumed == task_handles(key),
            final(self)@.cursor == old(self)@.cursor,
            final(self)@.tasks == if consumed {
                done_at(old(self)@.tasks, position as int)
            } else {
                old(self)@.tasks
            },
    {
        match key {
            Key::Enter => {
                let id = match self.data.get(position) {
                    Some(task) => task.id(),
                    None => 0,
                };
                proof {
                    lemma_marked_done_at(self.data@, position as int);
                }
                self.data.mark_done(id);
                true
            },
            _ => false,
        }
    }

    /// Handles a key press and tells whether the view consumed it.
    ///
    /// A selected task is offered the key first. What it leaves moves the
    /// cursor (`Down`, `Up`) or clears it (`Esc`); `Esc` with nothing
    /// selected and every other key are left to the caller. On an empty list
    /// `Down` and `Up` are consumed and select nothing.
    pub fn handle_input(&mut self, keycode: Key) -> (consumed: bool)
        requires
            old(self).wf(),
        ensures
            final(self).wf(),
            final(self)@ == old(self)@.after_key(keycode),
            consumed == old(self)@.consumes(keycode),
            keycode == Key::Esc && old(self)@.cursor is Some ==> consumed && final(self)@.cursor
                is None && final(self)@.tasks == old(self)@.tasks,
            keycode == Key::Esc && old(self)@.cursor is None ==> !consumed && final(self)@ == old(
                self,
            )@,
            keycode == Key::Enter && old(self)@.cursor is Some ==> consumed && final(self)@.cursor
                == old(self)@.cursor && final(self)@.tasks == done_at(
                old(self)@.tasks,
                old(self)@.cursor->Some_0,
            ),
    {
        if let Some(i) = self.selected {
            if self.handle_task_input(i, keycode) {
                return true;
            }
        }
        let mut handled = true;
        match keycode {
            Key::Esc => {
                handled = self.unselect();
            },
            Key::Down => {
                self.next();
            },
            Key::Up => {
                self.previous();
            },
            _ => {
                handled = false;
            },
        }
        handled
    }

    /// The rows to show: one per task, in display order.
    pub fn render(&self) -> (rows: Vec<TaskRow>)
        ensures
            rows@.len() == self@.tasks.len(),
            forall|i: int| 0 <= i < rows@.len() ==> (#[trigger] rows@[i])@ == rows_of(self@)[i],
    {
        let tasks = self.data.get_ordered_view();
        let mut rows: Vec<TaskRow> = Vec::new();
        let mut i: usize = 0;
        while i < tasks.len()
            invariant
                i <= tasks.len(),
                tasks@.len() == self@.tasks.len(),
                forall|j: int| 0 <= j < tasks@.len() ==> (#[trigger] tasks@[j])@ == self@.tasks[j],
                rows@.len() == i,
                forall|j: int| 0 <= j < i ==> (#[trigger] rows@[j])@ == rows_of(self@)[j],
            decreases tasks.len() - i,
        {
            let highlighted = match self.selected {
                Some(s) => s == i,
                None => false,
            };
            rows.push(create_row(&tasks[i], highlighted));
            i += 1;
        }
        rows
    }

    /// Inserts a new, open task and returns its identifier: at the cursor
    /// where a task is selected, at the end otherwise. The cursor stays.
    pub fn insert_task(&mut self, description: String) -> (id: TaskID)
        requires
            old(self).wf(),
        ensures
            final(self).wf(),
            final(self)@ == old(self)@.after_insert(description@),
            id == old(self)@.tasks.len(),
    {
        match self.selected {
            Some(i) => self.data.insert_task_at(i, description),
            None => self.data.insert_task(description),
        }
    }

    /// Moves the cursor one task down.
    fn next(&mut self)
        requires
            old(self).wf(),
        ensures
            final(self).wf(),
            final(self)@.tasks == old(self)@.tasks,
            final(self)@.cursor == cursor_below(old(self)@.cursor, old(self)@.tasks.len() as int),
    {
        let len = self.data.len();
        self.selected = match self.selected {
            Some(i) => Some(if i + 1 < len { i + 1 } else { i }),
            None => if len > 0 { Some(0) } else { None },
        };
    }

    /// Moves the cursor one task up.
    fn previous(&mut self)
        requires
            old(self).wf(),
        ensures
            final(self).wf(),
            final(self)@.tasks == old(self)@.tasks,
            final(self)@.cursor == cursor_above(old(self)@.cursor, old(self)@.tasks.len() as int),
    {
        let len = self.data.len();
        self.selected = match self.selected {
            Some(i) => Some(if i > 0 { i - 1 } else { 0 }),
            None => if len > 0 { Some(len - 1) } else { None },
        };
    }

    /// Clears the cursor and tells whether there was one to clear.
    fn unselect(&mut self) -> (cleared: bool)
        ensures
            cleared == (old(self)@.cursor is Some),
            final(self)@.tasks == old(self)@.tasks,
            final(self)@.cursor is None,
    {
        match self.selected {
            Some(_) => {
                self.selected = None;
                true
            },
            None => false,
        }
    }
}

/// What a selected task advertises for itself.
pub open spec fn task_actions(menu: Seq<ActionSpec>) -> Seq<ActionSpec> {
    with_action(menu, Key::Enter, "Mark as done"@)
}

/// Advertises the actions of a selected task.
pub fn populate_task_actions(actions: &mut ActionPreviewSet)
    requires
        old(actions).wf(),
    ensures
        final(actions).wf(),
        final(actions)@ == task_actions(old(actions)@),
{
    actions.insert(Key::Enter, "Mark as done");
}

} // verus!
