//! The application state: the edit view together with the action menu.

use vstd::prelude::*;
use crate::actions::{menu_line, with_action, ActionPreviewSet, ActionSpec};
use crate::display::{rows_of, EditViewSpec, ProjectDataEditView, TaskRow};
use crate::keys::Key;
use crate::tasks::{dummy_tasks, ProjectData};

verus! {

/// What the caller has to do after a key press.
#[derive(Clone, Copy, Debug, PartialEq, Eq, Structural)]
pub enum AppEvent {
    /// Nothing is asked of the caller.
    Nothing,
    /// Leave the program.
    Exit,
    /// The selection state may have changed: rebuild the action menu.
    RequiresActionPopulation,
}

/// Mathematical model of the application state.
pub struct AppSpec {
    pub view: EditViewSpec,
    pub actions: Seq<ActionSpec>,
}

/// The menu after the actions that are valid in every state are advertised.
pub open spec fn with_global_actions(menu: Seq<ActionSpec>) -> Seq<ActionSpec> {
    with_action(with_action(menu, Key::Char('q'), "Exit"@), Key::Esc, "Exit"@)
}

/// The menu that belongs to a state of the view: what the view advertises,
/// then the global actions.
pub open spec fn menu_for(view: EditViewSpec) -> Seq<ActionSpec> {
    with_global_actions(view.advertised(Seq::empty()))
}

/// What a key press asks of the caller: to rebuild the menu where the view
/// consumed the key, to leave on `q` and on `Esc`, nothing otherwise.
pub open spec fn event_for(view: EditViewSpec, key: Key) -> AppEvent {
    if view.consumes(key) {
        AppEvent::RequiresActionPopulation
    } else if key == Key::Char('q') || key == Key::Esc {
        AppEvent::Exit
    } else {
        AppEvent::Nothing
    }
}

/// With a task selected the menu offers to mark it done, to unselect it and
/// to leave with `q`: `Esc` is taken by unselecting. With nothing selected
/// it offers to leave with `q` or `Esc`.
pub proof fn lemma_menu_for(view: EditViewSpec)
    ensures
        view.cursor is Some ==> menu_for(view) == seq![
            ActionSpec { trigger: Key::Enter, description: "Mark as done"@ },
            ActionSpec { trigger: Key::Esc, description: "Unselect task"@ },
            ActionSpec { trigger: Key::Char('q'), description: "Exit"@ },
        ],
        view.cursor is None ==> menu_for(view) == seq![
            ActionSpec { trigger: Key::Char('q'), description: "Exit"@ },
            ActionSpec { trigger: Key::Esc, description: "Exit"@ },
        ],
{
    let empty = Seq::<ActionSpec>::empty();
    if view.cursor is Some {
        let one = with_action(empty, Key::Enter, "Mark as done"@);
        assert(one =~= seq![ActionSpec { trigger: Key::Enter, description: "Mark as done"@ }]);
        let two = with_action(one, Key::Esc, "Unselect task"@);
        assert(two =~= seq![
            ActionSpec { trigger: Key::Enter, description: "Mark as done"@ },
            ActionSpec { trigger: Key::Esc, description: "Unselect task"@ },
        ]);
        let three = with_action(two, Key::Char('q'), "Exit"@);
        assert(three =~= seq![
            ActionSpec { trigger: Key::Enter, description: "Mark as done"@ },
            ActionSpec { trigger: Key::Esc, description: "Unselect task"@ },
            ActionSpec { trigger: Key::Char('q'), description: "Exit"@ },
        ]);
        assert(three[1].trigger == Key::Esc);
        assert(with_action(three, Key::Esc, "Exit"@) == three);
    } else {
        let one = with_action(empty, Key::Char('q'), "Exit"@);
        assert(one =~= seq![ActionSpec { trigger: Key::Char('q'), description: "Exit"@ }]);
        let two = with_action(one, Key::Esc, "Exit"@);
        assert(two =~= seq![
            ActionSpec { trigger: Key::Char('q'), description: "Exit"@ },
            ActionSpec { trigger: Key::Esc, description: "Exit"@ },
        ]);
    }
}

/// Everything that is drawn: the task list and the menu line.
pub struct Screen {
    /// The rows of the task list, in display order.
    pub rows: Vec<TaskRow>,
    /// The line of key bindings under the list.
    pub action_menu: String,
}

/// The task manager: the project under its cursor, and the action menu.
pub struct App {
    view: ProjectDataEditView,
    actions: ActionPreviewSet,
}

impl View for App {
    type V = AppSpec;

    closed spec fn view(&self) -> AppSpec {
        AppSpec { view: self.view@, actions: self.actions@ }
    }
}

impl App {
    /// Well-formedness: that of the view and of the menu.
    pub closed spec fn wf(&self) -> bool {
        self.view.wf() && self.actions.wf()
    }

    /// The task manager on the demonstration project, nothing selected, the
    /// menu built.
    pub fn new() -> (app: Self)
        ensures
            app.wf(),
            app@.view == (EditViewSpec { tasks: dummy_tasks(), cursor: None }),
            app@.actions == menu_for(app@.view),
    {
        let data = ProjectData::dummy_data();
        let mut app = App { view: ProjectDataEditView::new(data), actions: ActionPreviewSet::new() };
        app.populate_actions();
        app
    }

    /// The edit view.
    pub fn edit_view(&self) -> (view: &ProjectDataEditView)
        ensures
            view@ == self@.view,
            self.wf() ==> view.wf(),
    {
        &self.view
    }

    /// The action menu.
    pub fn action_menu(&self) -> (actions: &ActionPreviewSet)
        ensures
            actions@ == self@.actions,
            self.wf() ==> actions.wf(),
    {
        &self.actions
    }

    /// Rebuilds the action menu from scratch for the current state.
    pub fn populate_actions(&mut self)
        requires
            old(self).wf(),
        ensures
            final(self).wf(),
            final(self)@.view == old(self)@.view,
            final(self)@.actions == menu_for(old(self)@.view),
    {
        self.actions.reset();
        self.view.populate_actions(&mut self.actions);
        self.actions.insert(Key::Char('q'), "Exit");
        self.actions.insert(Key::Esc, "Exit");
    }

    /// Handles a key press. The view is offered the key first; a key that it
    /// does not consume asks to leave where it is `q` or `Esc`. The menu is
    /// left as it is.
    pub fn on_key_pressed(&mut self, keycode: Key) -> (event: AppEvent)
        requires
            old(self).wf(),
        ensures
            final(self).wf(),
            final(self)@.view == old(self)@.view.after_key(keycode),
            final(self)@.actions == old(self)@.actions,
            event == event_for(old(self)@.view, keycode),
            keycode == Key::Esc ==> event == if old(self)@.view.cursor is Some {
                AppEvent::RequiresActionPopulation
            } else {
                AppEvent::Exit
            },
    {
        if self.view.handle_input(keycode) {
            return AppEvent::RequiresActionPopulation;
        }
        match keycode {
            Key::Char('q') => AppEvent::Exit,
            Key::Esc => AppEvent::Exit,
            _ => AppEvent::Nothing,
        }
    }

    /// What is to be drawn: the task list and the menu line.
    pub fn render(&self) -> (screen: Screen)
        ensures
            screen.rows@.len() == self@.view.tasks.len(),
            forall|i: int|
                0 <= i < screen.rows@.len() ==> (#[trigger] screen.rows@[i])@ == rows_of(
                    self@.view,
                )[i],
            screen.action_menu@ == menu_line(self@.actions),
    {
        Screen { rows: self.view.render(), action_menu: self.actions.to_text() }
    }
}

} // verus!
