use coodo_be::{TodoList, TodoListInfo, TodoTask, User, UserHandle};

fn user(id: u128, handle: &str) -> User {
    User::from_parts(id, UserHandle::from_text(handle.to_string()))
}

#[test]
fn new_list_is_empty_and_stamped_once() {
    let list = TodoList::new(vec![]);
    assert_eq!(list.name(), "");
    assert!(list.tasks().is_empty());
    assert!(list.connected_users().is_empty());
    assert_eq!(list.created_at(), list.last_updated_at());
}

#[test]
fn default_lists_get_different_ids() {
    let a = TodoList::default();
    let b = TodoList::default();
    assert_ne!(a.id(), b.id());
}

#[test]
fn with_identity_keeps_given_fields() {
    let t = TodoTask::with_id(7, user(1, "a"));
    let list = TodoList::with_identity(42, 1000, vec![t]);
    assert_eq!(list.id(), 42);
    assert_eq!(list.created_at(), 1000);
    assert_eq!(list.last_updated_at(), 1000);
    assert_eq!(list.tasks().len(), 1);
    assert_eq!(list.tasks()[0].id(), 7);
}

#[test]
fn tasks_keep_insertion_order_and_lookup_by_id() {
    let mut list = TodoList::with_identity(1, 0, vec![]);
    list.add_task(TodoTask::with_id(10, user(1, "a")));
    list.add_task(TodoTask::with_id(20, user(2, "b")));
    assert_eq!(list.tasks()[0].id(), 10);
    assert_eq!(list.tasks()[1].id(), 20);
    assert_eq!(list.task_position(20), Some(1));
    assert_eq!(list.task_position(30), None);
    assert_eq!(list.task(10).map(|t| t.assignee().id()), Some(1));
    assert!(list.task(99).is_none());
}

#[test]
fn task_updates_touch_only_their_task() {
    let mut list = TodoList::with_identity(1, 0, vec![]);
    list.add_task(TodoTask::with_id(10, user(1, "a")));
    list.add_task(TodoTask::with_id(20, user(1, "a")));
    list.rename_task(1, "second".to_string());
    list.set_task_done(1, true);
    list.assign_task(1, user(2, "b"));
    assert_eq!(list.tasks()[0].name(), "");
    assert!(!list.tasks()[0].is_done());
    assert_eq!(list.tasks()[1].name(), "second");
    assert!(list.tasks()[1].is_done());
    assert_eq!(list.tasks()[1].assignee().id(), 2);
}

#[test]
fn new_task_is_empty_and_not_done() {
    let t = TodoTask::new(user(5, "e"));
    assert_eq!(t.name(), "");
    assert!(!t.is_done());
    assert_eq!(t.assignee().id(), 5);
    assert_ne!(TodoTask::new(user(5, "e")).id(), t.id());
}

#[test]
fn update_time_never_moves_backwards() {
    let mut list = TodoList::with_identity(1, 100, vec![]);
    list.update_time(250);
    assert_eq!(list.last_updated_at(), 250);
    list.update_time(200);
    assert_eq!(list.last_updated_at(), 250);
    assert_eq!(list.created_at(), 100);
}

#[test]
fn add_user_keeps_one_entry_per_id() {
    let mut list = TodoList::with_identity(1, 0, vec![]);
    list.add_user(user(1, "a"));
    list.add_user(user(2, "b"));
    list.add_user(user(1, "a-again"));
    let users = list.connected_users();
    assert_eq!(users.len(), 2);
    assert_eq!(users[0].handle().as_str(), "a");
    assert!(list.is_connected(2));
    assert!(!list.is_connected(3));
}

#[test]
fn remove_user_keeps_the_others_in_order() {
    let mut list = TodoList::with_identity(1, 0, vec![]);
    list.add_user(user(1, "a"));
    list.add_user(user(2, "b"));
    list.add_user(user(3, "c"));
    list.remove_user(2);
    let ids: Vec<u128> = list.connected_users().iter().map(|u| u.id()).collect();
    assert_eq!(ids, vec![1, 3]);
    list.remove_user(9);
    assert_eq!(list.connected_users().len(), 2);
}

#[test]
fn rename_and_info() {
    let mut list = TodoList::with_identity(77, 0, vec![]);
    list.rename("groceries".to_string());
    let info = list.as_info();
    assert_eq!(info.id(), 77);
    assert_eq!(info.name(), "groceries");
}

#[test]
fn info_set_name() {
    let mut info = TodoListInfo::new_owned(3, "old".to_string());
    info.set_name("new".to_string());
    assert_eq!(info.name(), "new");
    assert_eq!(info.id(), 3);
}

#[test]
fn from_parts_round_trips_a_list() {
    let mut list = TodoList::with_identity(9, 100, vec![]);
    list.rename("trip".to_string());
    list.add_task(TodoTask::with_id(1, user(1, "a")));
    list.add_task(TodoTask::with_id(2, user(2, "b")));
    list.set_task_done(1, true);
    list.add_user(user(1, "a"));
    list.update_time(500);
    let back = TodoList::from_parts(
        list.id(),
        list.name().to_string(),
        list.tasks().to_vec(),
        list.created_at(),
        list.last_updated_at(),
        list.connected_users().to_vec(),
    )
    .expect("a stored list loads back");
    assert_eq!(back.id(), 9);
    assert_eq!(back.name(), "trip");
    assert_eq!(back.tasks().len(), 2);
    assert_eq!(back.tasks()[0].id(), 1);
    assert_eq!(back.tasks()[1].id(), 2);
    assert!(back.tasks()[1].is_done());
    assert_eq!(back.created_at(), 100);
    assert_eq!(back.last_updated_at(), 500);
    assert_eq!(back.connected_users()[0].id(), 1);
}

#[test]
fn from_parts_rejects_broken_lists() {
    let dup = vec![TodoTask::with_id(1, user(1, "a")), TodoTask::with_id(1, user(2, "b"))];
    assert!(TodoList::from_parts(1, String::new(), dup, 0, 0, vec![]).is_none());
    let users = vec![user(1, "a"), user(1, "a")];
    assert!(TodoList::from_parts(1, String::new(), vec![], 0, 0, users).is_none());
    assert!(TodoList::from_parts(1, String::new(), vec![], 10, 5, vec![]).is_none());
    assert!(TodoList::from_parts(1, String::new(), vec![], 5, 5, vec![]).is_some());
}

#[test]
fn clone_keeps_everything() {
    let mut list = TodoList::with_identity(4, 1, vec![]);
    list.add_task(TodoTask::with_id(1, user(1, "a")));
    list.add_user(user(1, "a"));
    let copy = list.clone();
    assert_eq!(copy.id(), 4);
    assert_eq!(copy.tasks().len(), 1);
    assert_eq!(copy.connected_users().len(), 1);
}

#[test]
fn info_id_mut_changes_the_id() {
    let mut info = TodoListInfo::new_owned(3, "n".to_string());
    *info.id_mut() = 8;
    assert_eq!(info.id(), 8);
    assert_eq!(info.name(), "n");
}
