use ms_todo_app::app::channels::CacheUpdateSignal;
use ms_todo_app::app::error::{Error, LocalStorageError, TasksError};
use ms_todo_app::integration::ms_todo::http_client::HttpMethod;
use ms_todo_app::storage::cache::TaskCache;
use ms_todo_app::storage::checklist::ItemChange;
use ms_todo_app::storage::fetching::FetchRun;
use ms_todo_app::storage::filters;
use ms_todo_app::storage::models::{
    ChecklistItem, ChecklistSyncStatus, List, Priority, Status, Task, VirtualListType,
};
use ms_todo_app::storage::ordering;
use ms_todo_app::storage::requests::RequestBody;
use ms_todo_app::storage::{LocalStorage, TasksStep};

/// June 15, 2024.
const TODAY: i32 = 739052;

/// June 15, 2024, 12:00.
const NOON: i64 = 1718452800;

fn task(id: &str, list_id: Option<&str>) -> Task {
    Task {
        id: id.to_string(),
        title: format!("task {}", id),
        list_id: list_id.map(str::to_string),
        status: Status::NotStarted,
        priority: Priority::Normal,
        due_date: None,
        notes: String::new(),
        checklist_items: Vec::new(),
        checklist_sync_status: ChecklistSyncStatus::NotSynced,
    }
}

fn completed(id: &str, list_id: &str) -> Task {
    let mut t = task(id, Some(list_id));
    t.status = Status::Completed;
    t
}

fn due(id: &str, list_id: &str, seconds: i64) -> Task {
    let mut t = task(id, Some(list_id));
    t.due_date = Some(seconds);
    t
}

fn list(id: &str, name: &str) -> List {
    let mut l = List::new(name);
    l.id = id.to_string();
    l
}

fn storage() -> LocalStorage {
    LocalStorage::new("com.example", Ok(())).unwrap()
}

fn token() -> Result<String, String> {
    Ok("t".to_string())
}

fn no_token() -> Result<String, String> {
    Err("expired".to_string())
}

fn ids(tasks: &[Task]) -> Vec<&str> {
    tasks.iter().map(|t| t.id.as_str()).collect()
}

fn cached(s: &LocalStorage) -> Vec<String> {
    s.task_cache.get_all_tasks().iter().map(|t| t.id.clone()).collect()
}

fn full(path: &str) -> String {
    format!("https://graph.microsoft.com/v1.0{}", path)
}

#[test]
fn a_storage_needs_authentication() {
    assert!(cached(&storage()).is_empty());
    match LocalStorage::new("com.example", Err("no keyring".to_string())) {
        Err(LocalStorageError::LocalStorageDirectoryCreationFailed(reason)) => {
            assert_eq!(reason, "no keyring")
        }
        _ => panic!("no error"),
    }
    match storage().get_valid_token(no_token()) {
        Err(LocalStorageError::LocalStorageDirectoryCreationFailed(reason)) => {
            assert_eq!(reason, "expired")
        }
        _ => panic!("no error"),
    }
    assert_eq!(storage().get_valid_token(token()).unwrap(), "t");
}

#[test]
fn virtual_lists_pick_their_tasks() {
    let mut done = due("done", "l", NOON);
    done.status = Status::Completed;
    let tasks = vec![
        due("noon", "l", NOON),
        task("someday", Some("l")),
        done,
        due("tomorrow", "m", NOON + 86400),
        due("midnight", "m", NOON - 43200),
        due("beyond", "m", i64::MAX),
    ];
    let s = storage();
    assert_eq!(ids(&filters::due_on(&tasks, TODAY)), vec!["noon", "midnight"]);
    assert_eq!(
        ids(&s.filter_planned_tasks(&tasks)),
        vec!["noon", "tomorrow", "midnight", "beyond"]
    );
    assert_eq!(
        ids(&s.filter_all_tasks(&tasks)),
        vec!["noon", "someday", "tomorrow", "midnight", "beyond"]
    );
    // What is due a thousand years ago is not due today.
    let long_ago = vec![due("old", "l", NOON - 86400 * 365250)];
    assert!(s.filter_my_day_tasks(&long_ago).is_empty());
}

#[test]
fn virtual_lists_are_nested() {
    let s = storage();
    let tasks = vec![
        due("a", "l", NOON),
        task("b", Some("l")),
        completed("c", "l"),
        due("d", "l", NOON + 86400),
    ];
    let all = s.filter_all_tasks(&tasks);
    let planned = s.filter_planned_tasks(&all);
    assert_eq!(ids(&planned), ids(&s.filter_planned_tasks(&tasks)));
    assert_eq!(
        ids(&filters::due_on(&planned, TODAY)),
        ids(&filters::due_on(&tasks, TODAY))
    );
}

#[test]
fn a_virtual_list_reads_the_cache() {
    let mut s = storage();
    s.update_cache_for_list("l", vec![due("a", "l", NOON), task("b", Some("l"))]);
    let my_day = List::new_virtual(VirtualListType::MyDay, "My Day");
    assert_eq!(
        ids(&s.get_tasks_for_virtual_list_on(&my_day, TODAY).unwrap()),
        vec!["a"]
    );
    assert!(s
        .get_tasks_for_virtual_list_on(&my_day, TODAY + 1)
        .unwrap()
        .is_empty());
    let all = List::new_virtual(VirtualListType::All, "All");
    assert_eq!(ids(&s.get_tasks_for_virtual_list(&all).unwrap()), vec!["a", "b"]);
    let mut nameless = list("v", "nameless");
    nameless.is_virtual = true;
    match s.get_tasks_for_virtual_list(&nameless) {
        Err(error) => assert_eq!(error, Error::Tasks(TasksError::TaskNotFound)),
        Ok(_) => panic!("no error"),
    }
    match s.refresh_tasks(&nameless) {
        TasksStep::Ready(Err(error)) => assert_eq!(error, Error::Tasks(TasksError::TaskNotFound)),
        _ => panic!("no error"),
    }
}

#[test]
fn a_regular_list_reads_the_cache_first() {
    let mut s = storage();
    let mut l = list("l", "Home");
    assert!(matches!(s.tasks(&l), TasksStep::Fetch));
    s.update_cache_for_list("l", vec![task("a", Some("l")), completed("b", "l")]);
    s.update_cache_for_list("m", vec![task("c", Some("m"))]);
    match s.tasks(&l) {
        TasksStep::Ready(Ok(tasks)) => assert_eq!(ids(&tasks), vec!["a", "b"]),
        _ => panic!("no tasks"),
    }
    l.hide_completed = true;
    match s.tasks_on(&l, TODAY) {
        TasksStep::Ready(Ok(tasks)) => assert_eq!(ids(&tasks), vec!["a"]),
        _ => panic!("no tasks"),
    }
    assert!(matches!(s.refresh_tasks(&l), TasksStep::Fetch));
    let mut hidden = list("n", "Done");
    hidden.hide_completed = true;
    s.update_cache_for_list("n", vec![completed("d", "n")]);
    assert!(matches!(s.tasks(&hidden), TasksStep::Fetch));
}

#[test]
fn a_refresh_is_read_back() {
    let mut s = storage();
    let mut l = list("l", "Home");
    s.update_cache_for_list("l", vec![task("old", Some("l"))]);

    let pages = s.refresh_request(&l, token()).unwrap();
    let request = pages.next_request().unwrap();
    assert_eq!(request.method, HttpMethod::Get);
    assert_eq!(
        request.url,
        full("/me/todo/lists/l/tasks?$orderby=createdDateTime desc")
    );
    assert_eq!(
        request.headers,
        vec![("Authorization".to_string(), "Bearer t".to_string())]
    );
    let (shown, signal) = s
        .refresh_tasks_answered(&l, Ok(vec![task("new", Some("l"))]))
        .unwrap();
    assert_eq!(ids(&shown), vec!["new"]);
    assert!(matches!(signal, CacheUpdateSignal::ListTasksUpdated(id) if id == "l"));
    match s.tasks(&l) {
        TasksStep::Ready(Ok(tasks)) => assert_eq!(ids(&tasks), vec!["new"]),
        _ => panic!("no tasks"),
    }

    l.hide_completed = true;
    assert_eq!(
        s.refresh_request(&l, token()).unwrap().next_request().unwrap().url,
        full("/me/todo/lists/l/tasks?$filter=status ne 'completed'&$orderby=createdDateTime desc")
    );
    assert_eq!(
        s.refresh_request(&l, no_token()).unwrap_err(),
        Error::Tasks(TasksError::TaskNotFound)
    );
    assert_eq!(
        s.refresh_tasks_answered(&l, Err("503".to_string())).unwrap_err(),
        Error::Tasks(TasksError::ApiError)
    );
    assert_eq!(cached(&s), vec!["new"]);
}

#[test]
fn tasks_are_fetched_by_list() {
    let s = storage();
    let l = list("l", "Home");
    assert_eq!(
        s.get_active_tasks(&l, token()).unwrap().next_request().unwrap().url,
        full("/me/todo/lists/l/tasks?$filter=status ne 'completed'")
    );
    assert_eq!(
        s.get_all_tasks_for_list(&l, token()).unwrap().next_request().unwrap().url,
        full("/me/todo/lists/l/tasks?$orderby=createdDateTime desc")
    );
    let refused = Error::Tasks(TasksError::TaskNotFound);
    assert_eq!(s.get_active_tasks(&l, no_token()).unwrap_err(), refused);
    assert_eq!(s.get_all_tasks_for_list(&l, no_token()).unwrap_err(), refused);
    assert_eq!(
        LocalStorage::fetch_all_todo_tasks(Err("down".to_string())).unwrap_err(),
        Error::Tasks(TasksError::ApiError)
    );
    assert_eq!(
        ids(&LocalStorage::fetch_all_todo_tasks(Ok(vec![task("a", None)])).unwrap()),
        vec!["a"]
    );
}

#[test]
fn lists_are_fetched() {
    let s = storage();
    let request = s.lists(token()).unwrap();
    assert_eq!(request.http.url, full("/me/todo/lists"));
    assert!(matches!(request.body, RequestBody::Empty));
    assert_eq!(
        s.fetch_lists_via_api(token()).unwrap().next_request().unwrap().url,
        full("/me/todo/lists")
    );
    let refused = Error::Tasks(TasksError::ListNotFound);
    assert_eq!(s.lists(no_token()).unwrap_err(), refused);
    assert_eq!(s.fetch_lists_via_api(no_token()).unwrap_err(), refused);
    assert_eq!(s.lists_answered(Err("down".to_string())).unwrap_err(), refused);
    assert_eq!(
        LocalStorage::fetch_all_todo_lists(Err("down".to_string())).unwrap_err(),
        refused
    );
}

#[test]
fn lists_are_shown_in_order_and_then_fetched() {
    let s = storage();
    let mut default = list("d", "Tasks");
    default.well_known_list_name = Some("defaultList".to_string());
    let mut none = list("n", "Alpha");
    none.well_known_list_name = Some("none".to_string());
    let mut counted = list("c", "Zeta");
    counted.number_of_tasks = 9;
    let (shown, fetches) = s
        .lists_answered(Ok(vec![none, default, counted, list("b", "Beta")]))
        .unwrap();
    let order: Vec<&str> = shown.iter().map(|l| l.id.as_str()).collect();
    assert_eq!(
        order,
        vec!["virtual-my-day", "virtual-planned", "virtual-all", "b", "c", "d", "n"]
    );
    assert!(shown.iter().all(|l| l.number_of_tasks == 0));
    let plan: Vec<(u64, &str)> = fetches.iter().map(|f| (f.delay_ms, f.list.id.as_str())).collect();
    assert_eq!(plan, vec![(0, "b"), (100, "c"), (200, "d"), (300, "n")]);
}

#[test]
fn lists_keep_their_order_where_nothing_tells_them_apart() {
    let mut first = list("1", "Same");
    first.hide_completed = true;
    let arranged = ordering::arrange(vec![first, list("2", "Same"), list("0", "Same")]);
    let order: Vec<&str> = arranged.iter().map(|l| l.id.as_str()).collect();
    assert_eq!(order, vec!["1", "2", "0"]);
    assert!(!ordering::comes_first(&arranged[0], &arranged[1]));
    assert!(!ordering::comes_first(&arranged[1], &arranged[0]));
}

#[test]
fn fetches_skip_virtual_lists() {
    let lists = vec![
        list("a", "A"),
        List::new_virtual(VirtualListType::All, "All"),
        list("b", "B"),
    ];
    let fetches = LocalStorage::spawn_parallel_task_fetching(&lists);
    let plan: Vec<(u64, &str)> = fetches.iter().map(|f| (f.delay_ms, f.list.id.as_str())).collect();
    assert_eq!(plan, vec![(0, "a"), (100, "b")]);

    let mut s = storage();
    let signal = s
        .parallel_fetch_answered(&lists[0], Ok(vec![task("t", Some("a"))]))
        .unwrap();
    assert!(matches!(signal, CacheUpdateSignal::ListTasksUpdated(id) if id == "a"));
    assert_eq!(cached(&s), vec!["t"]);
    assert_eq!(
        s.parallel_fetch_answered(&lists[0], Err("down".to_string())).unwrap_err(),
        Error::Tasks(TasksError::ApiError)
    );
    assert_eq!(cached(&s), vec!["t"]);
    let last = LocalStorage::all_fetches_answered();
    assert!(matches!(last, CacheUpdateSignal::ListTasksUpdated(id) if id == "all"));
}

fn signalled(signals: Vec<CacheUpdateSignal>) -> Vec<String> {
    signals
        .into_iter()
        .map(|signal| match signal {
            CacheUpdateSignal::ListTasksUpdated(id) => id,
            other => panic!("{other:?}"),
        })
        .collect()
}

#[test]
fn the_end_of_all_fetches_is_told_at_once_where_there_are_none() {
    let lists = vec![List::new_virtual(VirtualListType::All, "All")];
    let fetches = LocalStorage::spawn_parallel_task_fetching(&lists);
    let (run, signal) = FetchRun::begin(&fetches);
    assert_eq!(run.pending(), 0);
    assert!(matches!(signal, Some(CacheUpdateSignal::ListTasksUpdated(id)) if id == "all"));
}

#[test]
fn the_end_of_all_fetches_is_told_once_and_last() {
    let mut s = storage();
    let lists = vec![list("a", "A"), list("b", "B"), list("c", "C")];
    let fetches = LocalStorage::spawn_parallel_task_fetching(&lists);
    let (mut run, signal) = FetchRun::begin(&fetches);
    assert_eq!(run.pending(), 3);
    assert!(signal.is_none());
    let told = run.fetch_answered(&mut s, &lists[2], Ok(vec![task("t", Some("c"))]));
    assert_eq!(signalled(told), vec!["c"]);
    let told = run.fetch_answered(&mut s, &lists[0], Err("down".to_string()));
    assert!(told.is_empty());
    assert_eq!(cached(&s), vec!["t"]);
    let told = run.fetch_answered(&mut s, &lists[1], Ok(vec![task("u", Some("b"))]));
    assert_eq!(signalled(told), vec!["b", "all"]);
    assert_eq!(cached(&s), vec!["t", "u"]);
    assert_eq!(run.pending(), 0);
}

#[test]
fn the_end_of_all_fetches_is_told_though_all_have_failed() {
    let mut s = storage();
    let lists = vec![list("a", "A"), list("b", "B")];
    let (mut run, signal) =
        FetchRun::begin(&LocalStorage::spawn_parallel_task_fetching(&lists));
    assert!(signal.is_none());
    assert!(run.fetch_ended().is_none());
    let told = run.fetch_answered(&mut s, &lists[1], Err("down".to_string()));
    assert_eq!(signalled(told), vec!["all"]);
    assert!(cached(&s).is_empty());
}

#[test]
fn the_cache_is_filled_list_by_list() {
    let mut s = storage();
    let lists = vec![
        list("a", "A"),
        List::new_virtual(VirtualListType::MyDay, "My Day"),
        list("b", "B"),
        list("c", "C"),
    ];
    let mut fill = LocalStorage::initialize_cache(&lists);
    assert_eq!(fill.next_list().unwrap().id, "a");
    s.initialize_cache_answered(&mut fill, Ok(vec![task("1", Some("a"))])).unwrap();
    assert_eq!(fill.next_list().unwrap().id, "b");
    s.initialize_cache_answered(&mut fill, Ok(vec![task("2", Some("b"))])).unwrap();
    let stopped = Error::Tasks(TasksError::ApiError);
    assert_eq!(
        s.initialize_cache_answered(&mut fill, Err(stopped)).unwrap_err(),
        stopped
    );
    assert_eq!(fill.next_list().unwrap().id, "c");
    s.initialize_cache_answered(&mut fill, Ok(vec![])).unwrap();
    assert!(fill.next_list().is_none());
    assert_eq!(cached(&s), vec!["1", "2"]);
}

#[test]
fn a_task_is_created_changed_and_deleted() {
    let mut s = storage();
    let l = list("l", "Home");
    let t = task("a", Some("l"));

    let request = s.create_task(&t, token()).unwrap();
    assert_eq!(request.http.method, HttpMethod::Post);
    assert_eq!(request.http.url, full("/me/todo/lists/l/tasks"));
    assert!(matches!(request.body, RequestBody::CreateTask(body) if body.id == "a"));
    let (created, signal) = s.create_task_answered(Ok(t)).unwrap();
    assert!(matches!(signal, CacheUpdateSignal::TaskAdded(id, list) if id == "a" && list == "l"));
    match s.tasks(&l) {
        TasksStep::Ready(Ok(tasks)) => assert_eq!(ids(&tasks), vec!["a"]),
        _ => panic!("no tasks"),
    }

    let mut changed = created.clone();
    changed.title = "changed".to_string();
    let request = s.update_task(&changed, token()).unwrap();
    assert_eq!(request.http.method, HttpMethod::Patch);
    assert_eq!(request.http.url, full("/me/todo/lists/l/tasks/a"));
    assert!(matches!(request.body, RequestBody::UpdateTask(body) if body.title == "changed"));
    let signal = s.update_task_answered(&changed, Ok(())).unwrap();
    assert!(matches!(signal, CacheUpdateSignal::TaskUpdated(id, list) if id == "a" && list == "l"));
    assert_eq!(s.task_cache.get_all_tasks()[0].title, "changed");
    assert_eq!(cached(&s), vec!["a"]);

    let request = s.delete_task(&changed, token()).unwrap();
    assert_eq!(request.http.method, HttpMethod::Delete);
    assert_eq!(request.http.url, full("/me/todo/lists/l/tasks/a"));
    let signal = s.delete_task_answered(&changed, Ok(())).unwrap();
    assert!(matches!(signal, CacheUpdateSignal::TaskRemoved(id, list) if id == "a" && list == "l"));
    assert!(cached(&s).is_empty());
}

#[test]
fn a_task_that_was_refused_changes_nothing() {
    let mut s = storage();
    s.update_cache_for_list("l", vec![task("a", Some("l"))]);
    let homeless = task("b", None);
    assert_eq!(
        s.create_task(&homeless, token()).unwrap().http.url,
        full("/me/todo/lists//tasks")
    );
    assert_eq!(
        s.create_task(&homeless, no_token()).unwrap_err(),
        Error::Tasks(TasksError::ExistingTask)
    );
    assert_eq!(
        s.create_task_answered(Err("400".to_string())).unwrap_err(),
        Error::Tasks(TasksError::ApiError)
    );
    let refused = Error::Tasks(TasksError::TaskNotFound);
    assert_eq!(s.update_task(&homeless, no_token()).unwrap_err(), refused);
    assert_eq!(s.update_task_answered(&homeless, Err("404".to_string())).unwrap_err(), refused);
    assert_eq!(s.delete_task(&homeless, no_token()).unwrap_err(), refused);
    assert_eq!(s.delete_task_answered(&homeless, Err("404".to_string())).unwrap_err(), refused);
    assert_eq!(cached(&s), vec!["a"]);
}

#[test]
fn a_list_is_created_changed_and_deleted() {
    let s = storage();
    let l = list("l", "Home");
    let request = s.create_list(&l, token()).unwrap();
    assert_eq!(request.http.method, HttpMethod::Post);
    assert_eq!(request.http.url, full("/me/todo/lists"));
    assert!(matches!(request.body, RequestBody::CreateList(body) if body.name == "Home"));
    let request = s.update_list(&l, token()).unwrap();
    assert_eq!(request.http.method, HttpMethod::Patch);
    assert_eq!(request.http.url, full("/me/todo/lists/l"));
    assert!(matches!(request.body, RequestBody::UpdateList(body) if body.id == "l"));
    let request = s.delete_list(&l, token()).unwrap();
    assert_eq!(request.http.method, HttpMethod::Delete);
    assert_eq!(request.http.url, full("/me/todo/lists/l"));

    assert_eq!(LocalStorage::create_list_answered(Ok(l.clone())).unwrap().id, "l");
    assert_eq!(LocalStorage::list_answered(Ok(())), Ok(()));
    assert_eq!(
        s.create_list(&l, no_token()).unwrap_err(),
        Error::Tasks(TasksError::ExistingList)
    );
    assert_eq!(
        LocalStorage::create_list_answered(Err("409".to_string())).unwrap_err(),
        Error::Tasks(TasksError::ExistingList)
    );
    let refused = Error::Tasks(TasksError::ListNotFound);
    assert_eq!(s.update_list(&l, no_token()).unwrap_err(), refused);
    assert_eq!(s.delete_list(&l, no_token()).unwrap_err(), refused);
    assert_eq!(
        LocalStorage::list_answered(Err("500".to_string())),
        Err(Error::Tasks(TasksError::ApiError))
    );
}

#[test]
fn a_list_is_exported_as_text() {
    let tasks = vec!["- [ ] a\n".to_string(), "- [x] b\n".to_string()];
    assert_eq!(
        LocalStorage::export_list("# Home", &tasks),
        "# Home\n- [ ] a\n- [x] b\n"
    );
    assert_eq!(LocalStorage::export_list("# Home", &vec![]), "# Home\n");
}

#[test]
fn steps_of_a_task() {
    let s = storage();
    let mut t = task("a", Some("l"));
    t.checklist_items.push(ChecklistItem {
        id: "i".to_string(),
        display_name: "buy".to_string(),
        is_checked: true,
    });
    assert_eq!(
        s.fetch_checklist_items(&t, token()).unwrap().next_request().unwrap().url,
        full("/me/todo/lists/l/tasks/a/checklistItems")
    );
    let request = s.create_checklist_item(&t, "sell", token()).unwrap();
    assert_eq!(request.http.method, HttpMethod::Post);
    assert_eq!(request.http.url, full("/me/todo/lists/l/tasks/a/checklistItems"));
    match request.body {
        RequestBody::CreateChecklistItem(body) => {
            assert_eq!(body.display_name, "sell");
            assert_eq!(body.is_checked, Some(false));
        }
        _ => panic!("another body"),
    }
    let request = s
        .change_checklist_item(&t, &"i".to_string(), &ItemChange::Toggle, token())
        .unwrap();
    assert_eq!(request.http.method, HttpMethod::Patch);
    assert_eq!(request.http.url, full("/me/todo/lists/l/tasks/a/checklistItems/i"));
    match request.body {
        RequestBody::UpdateChecklistItem(body) => {
            assert_eq!(body.display_name, Some("buy".to_string()));
            assert_eq!(body.is_checked, Some(false));
        }
        _ => panic!("another body"),
    }
    let rename = ItemChange::Rename("keep".to_string());
    match s.change_checklist_item(&t, &"i".to_string(), &rename, token()).unwrap().body {
        RequestBody::UpdateChecklistItem(body) => {
            assert_eq!(body.display_name, Some("keep".to_string()));
            assert_eq!(body.is_checked, Some(true));
        }
        _ => panic!("another body"),
    }
    let request = s.delete_checklist_item(&t, "i", token()).unwrap();
    assert_eq!(request.http.method, HttpMethod::Delete);
    assert_eq!(request.http.url, full("/me/todo/lists/l/tasks/a/checklistItems/i"));
}

#[test]
fn steps_that_are_refused() {
    let s = storage();
    let homeless = task("a", None);
    let not_found = Error::Tasks(TasksError::TaskNotFound);
    let api_error = Error::Tasks(TasksError::ApiError);
    assert_eq!(s.fetch_checklist_items(&homeless, token()).unwrap_err(), not_found);
    assert_eq!(s.create_checklist_item(&homeless, "x", token()).unwrap_err(), api_error);
    assert_eq!(
        s.update_checklist_item(&homeless, "i", "x", true, token()).unwrap_err(),
        api_error
    );
    assert_eq!(s.delete_checklist_item(&homeless, "i", token()).unwrap_err(), api_error);
    assert_eq!(s.fetch_checklist_items(&homeless, no_token()).unwrap_err(), not_found);
    assert_eq!(s.create_checklist_item(&homeless, "x", no_token()).unwrap_err(), not_found);
    assert_eq!(s.delete_checklist_item(&homeless, "i", no_token()).unwrap_err(), not_found);
    let t = task("a", Some("l"));
    assert_eq!(
        s.change_checklist_item(&t, &"i".to_string(), &ItemChange::Toggle, token()).unwrap_err(),
        not_found
    );
    assert_eq!(
        LocalStorage::fetch_all_checklist_items(Err("x".to_string())).unwrap_err(),
        api_error
    );
    assert_eq!(
        LocalStorage::checklist_item_answered(Err("x".to_string())).unwrap_err(),
        api_error
    );
    assert_eq!(
        LocalStorage::delete_checklist_item_answered("i", Err("x".to_string())).unwrap_err(),
        api_error
    );
    assert_eq!(
        LocalStorage::delete_checklist_item_answered("i", Ok(())).unwrap(),
        "i"
    );
}

#[test]
fn the_cache_holds_one_state_of_a_task() {
    let mut cache = TaskCache::new();
    cache.update_task(task("a", Some("l")));
    cache.update_task(task("b", Some("l")));
    let mut changed = task("a", Some("l"));
    changed.title = "changed".to_string();
    cache.update_task(changed);
    cache.update_task(task("a", Some("m")));
    let titles: Vec<String> = cache.get_all_tasks().into_iter().map(|t| t.title).collect();
    assert_eq!(titles, vec!["changed", "task b", "task a"]);
    cache.remove_task("a", "l");
    assert_eq!(ids(&cache.get_all_tasks()), vec!["b", "a"]);
    cache.remove_task("a", "elsewhere");
    cache.update_list_tasks("l", vec![task("c", Some("l"))]);
    assert_eq!(ids(&cache.get_all_tasks()), vec!["a", "c"]);
}

#[test]
fn tasks_are_counted_as_they_are_shown() {
    let tasks = vec![task("a", Some("l")), completed("b", "l"), due("c", "m", NOON)];
    let mut l = list("l", "Home");
    assert_eq!(filters::count(&l, &tasks, TODAY), 2);
    l.hide_completed = true;
    assert_eq!(filters::count(&l, &tasks, TODAY), 1);
    let my_day = List::new_virtual(VirtualListType::MyDay, "My Day");
    assert_eq!(filters::count(&my_day, &tasks, TODAY), 1);
    assert_eq!(filters::count(&my_day, &tasks, TODAY - 1), 0);
    let planned = List::new_virtual(VirtualListType::Planned, "Planned");
    assert_eq!(filters::count(&planned, &tasks, TODAY), 1);
    let all = List::new_virtual(VirtualListType::All, "All");
    assert_eq!(filters::count(&all, &tasks, TODAY), 2);
    l.is_virtual = true;
    assert_eq!(filters::count(&l, &tasks, TODAY), 0);
}
