use sirus::{ProjectData, Task};

fn descriptions(data: &ProjectData) -> Vec<String> {
    data.get_ordered_view().iter().map(|t| t.description.clone()).collect()
}

#[test]
fn new_project_is_empty() {
    let data = ProjectData::new();
    assert!(data.is_empty());
    assert_eq!(data.len(), 0);
    assert!(data.get(0).is_none());
    assert!(data.get_ordered_view().is_empty());
}

#[test]
fn default_project_is_empty() {
    let data = ProjectData::default();
    assert_eq!(data.len(), 0);
}

#[test]
fn dummy_data_holds_two_open_tasks() {
    let data = ProjectData::dummy_data();
    assert_eq!(data.len(), 2);
    assert!(!data.is_empty());
    let tasks = data.get_ordered_view();
    assert_eq!(tasks[0].id(), 0);
    assert_eq!(tasks[0].description, "This is a test task");
    assert!(!tasks[0].done);
    assert_eq!(tasks[1].id(), 1);
    assert_eq!(tasks[1].description, "This is another test task");
    assert!(!tasks[1].done);
}

#[test]
fn insert_task_appends_with_fresh_id() {
    let mut data = ProjectData::new();
    assert_eq!(data.insert_task(String::from("a")), 0);
    assert_eq!(data.insert_task(String::from("b")), 1);
    assert_eq!(data.insert_task(String::from("c")), 2);
    assert_eq!(data.len(), 3);
    assert_eq!(descriptions(&data), vec!["a", "b", "c"]);
    let ids: Vec<usize> = data.get_ordered_view().iter().map(|t| t.id()).collect();
    assert_eq!(ids, vec![0, 1, 2]);
    assert!(data.get_ordered_view().iter().all(|t| !t.done));
}

#[test]
fn get_looks_up_by_position() {
    let data = ProjectData::dummy_data();
    let second: &Task = data.get(1).unwrap();
    assert_eq!(second.id(), 1);
    assert_eq!(second.description, "This is another test task");
    assert!(data.get(2).is_none());
}

#[test]
fn mark_done_sets_only_that_task() {
    let mut data = ProjectData::dummy_data();
    data.insert_task(String::from("third"));
    data.mark_done(1);
    let flags: Vec<bool> = data.get_ordered_view().iter().map(|t| t.done).collect();
    assert_eq!(flags, vec![false, true, false]);
    assert_eq!(
        descriptions(&data),
        vec!["This is a test task", "This is another test task", "third"]
    );
}

#[test]
fn mark_done_twice_is_mark_done_once() {
    let mut data = ProjectData::dummy_data();
    data.mark_done(0);
    data.mark_done(0);
    let flags: Vec<bool> = data.get_ordered_view().iter().map(|t| t.done).collect();
    assert_eq!(flags, vec![true, false]);
    assert_eq!(data.len(), 2);
}

#[test]
fn mark_done_of_unknown_id_changes_nothing() {
    let mut data = ProjectData::dummy_data();
    data.mark_done(7);
    assert_eq!(data.len(), 2);
    assert!(data.get_ordered_view().iter().all(|t| !t.done));
}

#[test]
fn task_clone_keeps_every_field() {
    let mut data = ProjectData::dummy_data();
    data.mark_done(1);
    let copy = data.get(1).unwrap().clone();
    assert_eq!(copy.id(), 1);
    assert!(copy.done);
    assert_eq!(copy.description, "This is another test task");
}
