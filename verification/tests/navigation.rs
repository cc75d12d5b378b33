use sirus::{App, AppEvent, Key, ProjectData, ProjectDataEditView};

fn project(n: usize) -> ProjectData {
    let mut data = ProjectData::new();
    for i in 0..n {
        data.insert_task(format!("task {}", i));
    }
    data
}

fn flags(view: &ProjectDataEditView) -> Vec<bool> {
    view.data().get_ordered_view().iter().map(|t| t.done).collect()
}

#[test]
fn nothing_is_selected_at_first() {
    let view = ProjectDataEditView::new(ProjectData::dummy_data());
    assert_eq!(view.selected(), None);
    assert_eq!(view.data().len(), 2);
}

#[test]
fn down_walks_to_the_last_task_and_stays() {
    let mut view = ProjectDataEditView::new(project(4));
    let mut seen = Vec::new();
    for _ in 0..7 {
        assert!(view.handle_input(Key::Down));
        seen.push(view.selected());
    }
    assert_eq!(
        seen,
        vec![Some(0), Some(1), Some(2), Some(3), Some(3), Some(3), Some(3)]
    );
}

#[test]
fn up_walks_to_the_first_task_and_stays() {
    let mut view = ProjectDataEditView::new(project(4));
    let mut seen = Vec::new();
    for _ in 0..7 {
        assert!(view.handle_input(Key::Up));
        seen.push(view.selected());
    }
    assert_eq!(
        seen,
        vec![Some(3), Some(2), Some(1), Some(0), Some(0), Some(0), Some(0)]
    );
}

#[test]
fn up_and_down_on_a_single_task() {
    let mut view = ProjectDataEditView::new(project(1));
    view.handle_input(Key::Up);
    assert_eq!(view.selected(), Some(0));
    view.handle_input(Key::Down);
    assert_eq!(view.selected(), Some(0));
    view.handle_input(Key::Up);
    assert_eq!(view.selected(), Some(0));
}

#[test]
fn empty_list_never_gets_a_cursor() {
    let mut view = ProjectDataEditView::new(ProjectData::new());
    assert!(view.handle_input(Key::Down));
    assert_eq!(view.selected(), None);
    assert!(view.handle_input(Key::Up));
    assert_eq!(view.selected(), None);
    assert!(!view.handle_input(Key::Enter));
    assert!(!view.handle_input(Key::Esc));
    assert_eq!(view.selected(), None);
    assert!(view.render().is_empty());
}

#[test]
fn escape_clears_a_selection_and_is_consumed() {
    let mut view = ProjectDataEditView::new(project(3));
    view.handle_input(Key::Down);
    view.handle_input(Key::Down);
    assert_eq!(view.selected(), Some(1));
    assert!(view.handle_input(Key::Esc));
    assert_eq!(view.selected(), None);
    assert_eq!(flags(&view), vec![false, false, false]);
}

#[test]
fn escape_without_selection_is_not_consumed() {
    let mut view = ProjectDataEditView::new(project(3));
    assert!(!view.handle_input(Key::Esc));
    assert_eq!(view.selected(), None);
    let mut app = App::new();
    assert_eq!(app.on_key_pressed(Key::Esc), AppEvent::Exit);
}

#[test]
fn escape_with_selection_does_not_exit() {
    let mut app = App::new();
    app.on_key_pressed(Key::Up);
    assert_eq!(app.edit_view().selected(), Some(1));
    assert_eq!(app.on_key_pressed(Key::Esc), AppEvent::RequiresActionPopulation);
    assert_eq!(app.edit_view().selected(), None);
    assert_eq!(app.on_key_pressed(Key::Esc), AppEvent::Exit);
}

#[test]
fn enter_marks_the_selected_task_only() {
    let mut view = ProjectDataEditView::new(project(3));
    view.handle_input(Key::Down);
    view.handle_input(Key::Down);
    assert!(view.handle_input(Key::Enter));
    assert_eq!(view.selected(), Some(1));
    assert_eq!(flags(&view), vec![false, true, false]);
    let tasks = view.data().get_ordered_view();
    assert_eq!(tasks[1].id(), 1);
    assert_eq!(tasks[1].description, "task 1");
}

#[test]
fn enter_twice_is_enter_once() {
    let mut view = ProjectDataEditView::new(project(3));
    view.handle_input(Key::Up);
    assert!(view.handle_input(Key::Enter));
    assert!(view.handle_input(Key::Enter));
    assert_eq!(view.selected(), Some(2));
    assert_eq!(flags(&view), vec![false, false, true]);
}

#[test]
fn enter_without_selection_is_not_consumed() {
    let mut view = ProjectDataEditView::new(project(2));
    assert!(!view.handle_input(Key::Enter));
    assert_eq!(flags(&view), vec![false, false]);
    let mut app = App::new();
    assert_eq!(app.on_key_pressed(Key::Enter), AppEvent::Nothing);
}

#[test]
fn other_keys_are_left_to_the_caller() {
    let mut view = ProjectDataEditView::new(project(2));
    assert!(!view.handle_input(Key::Char('q')));
    assert!(!view.handle_input(Key::Char('x')));
    view.handle_input(Key::Down);
    assert!(!view.handle_input(Key::Char('q')));
    assert_eq!(view.selected(), Some(0));
    assert_eq!(flags(&view), vec![false, false]);
}

#[test]
fn keys_map_to_events() {
    let mut app = App::new();
    assert_eq!(app.on_key_pressed(Key::Char('x')), AppEvent::Nothing);
    assert_eq!(app.on_key_pressed(Key::Down), AppEvent::RequiresActionPopulation);
    assert_eq!(app.on_key_pressed(Key::Char('x')), AppEvent::Nothing);
    assert_eq!(app.on_key_pressed(Key::Enter), AppEvent::RequiresActionPopulation);
    assert_eq!(app.on_key_pressed(Key::Char('q')), AppEvent::Exit);
}

#[test]
fn walk_through_the_demonstration_project() {
    let mut app = App::new();
    {
        let tasks = app.edit_view().data().get_ordered_view();
        assert_eq!(tasks.len(), 2);
        assert_eq!(tasks[0].description, "This is a test task");
        assert_eq!(tasks[1].description, "This is another test task");
        assert!(!tasks[0].done && !tasks[1].done);
    }
    assert_eq!(app.edit_view().selected(), None);

    assert_eq!(app.on_key_pressed(Key::Down), AppEvent::RequiresActionPopulation);
    app.populate_actions();
    assert_eq!(app.edit_view().selected(), Some(0));

    assert_eq!(app.on_key_pressed(Key::Enter), AppEvent::RequiresActionPopulation);
    app.populate_actions();
    assert!(app.edit_view().data().get_ordered_view()[0].done);
    assert!(!app.edit_view().data().get_ordered_view()[1].done);

    assert_eq!(app.on_key_pressed(Key::Down), AppEvent::RequiresActionPopulation);
    app.populate_actions();
    assert_eq!(app.edit_view().selected(), Some(1));

    assert_eq!(app.on_key_pressed(Key::Esc), AppEvent::RequiresActionPopulation);
    app.populate_actions();
    assert_eq!(app.edit_view().selected(), None);

    assert_eq!(app.on_key_pressed(Key::Char('q')), AppEvent::Exit);
}

#[test]
fn insert_goes_to_the_end_without_selection() {
    let mut view = ProjectDataEditView::new(project(2));
    assert_eq!(view.insert_task(String::from("new")), 2);
    let texts: Vec<String> =
        view.data().get_ordered_view().iter().map(|t| t.description.clone()).collect();
    assert_eq!(texts, vec!["task 0", "task 1", "new"]);
    assert_eq!(view.selected(), None);
}

#[test]
fn insert_goes_to_the_cursor_with_selection() {
    let mut view = ProjectDataEditView::new(project(3));
    view.handle_input(Key::Down);
    view.handle_input(Key::Down);
    assert_eq!(view.insert_task(String::from("new")), 3);
    let texts: Vec<String> =
        view.data().get_ordered_view().iter().map(|t| t.description.clone()).collect();
    assert_eq!(texts, vec!["task 0", "new", "task 1", "task 2"]);
    let ids: Vec<usize> = view.data().get_ordered_view().iter().map(|t| t.id()).collect();
    assert_eq!(ids, vec![0, 3, 1, 2]);
    assert_eq!(view.selected(), Some(1));
    assert!(view.handle_input(Key::Enter));
    assert_eq!(flags(&view), vec![false, true, false, false]);
    assert_eq!(view.insert_task(String::from("newer")), 4);
    assert_eq!(view.data().get(1).unwrap().id(), 4);
}

#[test]
fn rows_show_glyph_description_and_highlight() {
    let mut view = ProjectDataEditView::new(ProjectData::dummy_data());
    view.handle_input(Key::Down);
    view.handle_input(Key::Enter);
    view.handle_input(Key::Down);
    let rows = view.render();
    assert_eq!(rows.len(), 2);
    assert_eq!(rows[0].glyph, "[X]");
    assert!(rows[0].done);
    assert_eq!(rows[0].description, "This is a test task");
    assert!(!rows[0].highlighted);
    assert_eq!(rows[1].glyph, "[ ]");
    assert!(!rows[1].done);
    assert_eq!(rows[1].description, "This is another test task");
    assert!(rows[1].highlighted);
}

#[test]
fn rows_without_selection_are_not_highlighted() {
    let view = ProjectDataEditView::new(project(3));
    assert!(view.render().iter().all(|row| !row.highlighted));
}

#[test]
fn screen_holds_rows_and_menu_line() {
    let mut app = App::new();
    app.on_key_pressed(Key::Down);
    app.populate_actions();
    let screen = app.render();
    assert_eq!(screen.rows.len(), 2);
    assert!(screen.rows[0].highlighted);
    assert!(!screen.rows[1].highlighted);
    assert_eq!(
        screen.action_menu,
        "[Enter] Mark as done\t[Esc] Unselect task\t[Char('q')] Exit\t"
    );
}
