use ms_todo_app::app::nav::{icon_name, label_text, NavModel};
use ms_todo_app::storage::models::{
    ChecklistSyncStatus, List, Priority, Status, Task, VirtualListType,
};

fn list(id: &str, name: &str) -> List {
    let mut l = List::new(name);
    l.id = id.to_string();
    l
}

fn task(id: &str, list_id: &str) -> Task {
    Task {
        id: id.to_string(),
        title: String::new(),
        list_id: Some(list_id.to_string()),
        status: Status::NotStarted,
        priority: Priority::High,
        due_date: None,
        notes: String::new(),
        checklist_items: Vec::new(),
        checklist_sync_status: ChecklistSyncStatus::NotSynced,
    }
}

fn texts(nav: &NavModel) -> Vec<&str> {
    nav.items().iter().map(|item| item.text.as_str()).collect()
}

#[test]
fn the_text_of_an_item() {
    assert_eq!(label_text(0, "Home"), "Home");
    assert_eq!(label_text(1, "Home"), "(1) Home");
    assert_eq!(label_text(120, "Home"), "(120) Home");
    let mut l = list("l", "Home");
    assert_eq!(icon_name(&l), "view-list-symbolic");
    l.icon = Some("go-home-symbolic".to_string());
    assert_eq!(icon_name(&l), "go-home-symbolic");
}

#[test]
fn lists_are_shown_once() {
    let mut nav = NavModel::new();
    let names = ["a", "b", "c", "d", "e", "f", "g"];
    let lists: Vec<List> = names.iter().map(|n| list(n, n)).collect();
    nav.show_all(&lists);
    let dividers: Vec<bool> = nav.items().iter().map(|item| item.divider_above).collect();
    assert_eq!(dividers, vec![false, false, false, true, false, true, false]);
    assert_eq!(texts(&nav), names);

    let mut renamed = list("c", "cc");
    renamed.number_of_tasks = 4;
    renamed.icon = Some("star".to_string());
    nav.show_all(&vec![renamed, list("h", "h")]);
    assert_eq!(texts(&nav), vec!["a", "b", "(4) cc", "d", "e", "f", "g", "h"]);
    assert_eq!(nav.items()[2].icon, "star");
    // The list of an item that is there is not replaced.
    assert_eq!(nav.items()[2].list.name, "c");
    assert!(!nav.items()[7].divider_above);
}

#[test]
fn the_last_of_several_items_is_brought_up_to_date() {
    let mut nav = NavModel::new();
    nav.insert(&list("a", "first"), false);
    nav.insert(&list("a", "second"), false);
    nav.show_all(&vec![list("a", "third")]);
    assert_eq!(texts(&nav), vec!["first", "third"]);
}

#[test]
fn an_item_is_chosen_and_removed() {
    let mut nav = NavModel::new();
    let a = nav.insert(&list("a", "A"), false);
    let b = nav.insert(&list("b", "B"), true);
    assert_ne!(a, b);
    assert!(nav.active_data().is_none());
    nav.activate(77);
    assert_eq!(nav.active(), None);
    nav.activate(b);
    assert_eq!(nav.active_data().unwrap().id, "b");
    assert_eq!(nav.data_or_active(None).unwrap().id, "b");
    assert_eq!(nav.data_or_active(Some(a)).unwrap().id, "a");
    nav.remove(a);
    assert_eq!(nav.active(), Some(b));
    nav.remove(a);
    nav.remove(b);
    assert_eq!(nav.active(), None);
    assert!(nav.items().is_empty());
    let c = nav.insert(&list("c", "C"), false);
    assert!(c != a && c != b);
}

#[test]
fn text_and_list_of_an_item() {
    let mut nav = NavModel::new();
    let a = nav.insert(&list("a", "A"), false);
    nav.text_set(a, "text".to_string());
    nav.data_set(a, list("z", "Z"));
    nav.text_set(99, "nothing".to_string());
    nav.data_set(99, list("n", "N"));
    assert_eq!(texts(&nav), vec!["text"]);
    assert_eq!(nav.data(a).unwrap().id, "z");
    assert!(nav.data(99).is_none());
    assert!(nav.has_room_for(5));
    assert!(nav.has_room_for_lists(&vec![list("y", "Y"), list("z", "Z"), list("y", "Y")]));
}

#[test]
fn tasks_are_counted_beside_their_lists() {
    let mut nav = NavModel::new();
    nav.insert(&List::new_virtual(VirtualListType::All, "All"), false);
    nav.insert(&list("a", "A"), false);
    nav.insert(&list("b", "B"), false);
    let tasks = vec![task("1", "a"), task("2", "a")];
    nav.count(&tasks, 739052);
    assert_eq!(texts(&nav), vec!["(2) All", "(2) A", "B"]);
    nav.count(&tasks[..1], 739052);
    assert_eq!(texts(&nav), vec!["(1) All", "(1) A", "B"]);
    nav.count(&tasks[..1], 739052);
    assert_eq!(texts(&nav), vec!["(1) All", "(1) A", "B"]);
}

#[test]
fn a_task_finds_its_list() {
    let mut nav = NavModel::new();
    let all = nav.insert(&List::new_virtual(VirtualListType::All, "All"), false);
    let home = nav.insert(&list("home", "Home"), false);
    assert_eq!(nav.route(task("1", "x")).list_id, Some("x".to_string()));
    nav.activate(all);
    assert_eq!(nav.route(task("1", "x")).list_id, Some("x".to_string()));
    let mut default = list("d", "Tasks");
    default.well_known_list_name = Some("defaultList".to_string());
    nav.insert(&default, false);
    default.id = "second".to_string();
    nav.insert(&default, false);
    assert_eq!(nav.route(task("1", "x")).list_id, Some("d".to_string()));
    nav.activate(home);
    assert_eq!(nav.route(task("1", "x")).list_id, Some("x".to_string()));
}

#[test]
fn lists_that_occur_twice_are_added_once() {
    let mut nav = NavModel::new();
    nav.insert(&list("a", "A"), false);
    let mut later = list("x", "Later");
    later.number_of_tasks = 2;
    later.icon = Some("star".to_string());
    let lists = vec![list("y", "Y"), list("x", "First"), list("a", "AA"), later, list("z", "Z")];
    nav.show_all(&lists);
    let ids: Vec<&str> = nav.items().iter().map(|item| item.list.id.as_str()).collect();
    assert_eq!(ids, vec!["a", "y", "x", "z"]);
    assert_eq!(texts(&nav), vec!["AA", "Y", "(2) Later", "Z"]);
    assert_eq!(nav.items()[2].icon, "star");
    assert_eq!(nav.items()[2].list.name, "First");
    let once = format!("{:?}", nav);
    nav.show_all(&lists);
    assert_eq!(format!("{:?}", nav), once);
}
