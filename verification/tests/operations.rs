use ms_todo_app::app::channels::CacheUpdateSignal;
use ms_todo_app::app::error::{Error, TasksError};
use ms_todo_app::app::operations;
use ms_todo_app::app::operations::{
    OperationEnd, OperationOutcome, OperationStep, Question, Reply, StorageOperation,
};
use ms_todo_app::integration::ms_todo::http_client::HttpMethod;
use ms_todo_app::storage::models::{
    ChecklistItem, ChecklistSyncStatus, List, Priority, Status, Task, VirtualListType,
};
use ms_todo_app::storage::requests::RequestBody;
use ms_todo_app::storage::LocalStorage;

const TODAY: i32 = 739052;

fn task(id: &str, list_id: &str) -> Task {
    Task {
        id: id.to_string(),
        title: String::new(),
        list_id: Some(list_id.to_string()),
        status: Status::NotStarted,
        priority: Priority::Low,
        due_date: None,
        notes: String::new(),
        checklist_items: vec![item("i")],
        checklist_sync_status: ChecklistSyncStatus::NotSynced,
    }
}

fn item(id: &str) -> ChecklistItem {
    ChecklistItem {
        id: id.to_string(),
        display_name: "step".to_string(),
        is_checked: false,
    }
}

fn list(id: &str) -> List {
    let mut l = List::new(id);
    l.id = id.to_string();
    l
}

fn storage() -> LocalStorage {
    LocalStorage::new("com.example", Ok(())).unwrap()
}

fn begin(storage: &LocalStorage, operation: &StorageOperation) -> OperationStep {
    match operations::begin_on(storage, operation, TODAY) {
        Some(outcome) => OperationStep::Ended(outcome),
        None => operations::ask(storage, operation, Ok("t".to_string())),
    }
}

fn request(operation: StorageOperation) -> (HttpMethod, String, RequestBody) {
    match begin(&storage(), &operation) {
        OperationStep::Ask(Question::Request(request)) => {
            let path = request.http.url.replace("https://graph.microsoft.com/v1.0", "");
            (request.http.method, path, request.body)
        }
        _ => panic!("no request"),
    }
}

fn refusal(operation: StorageOperation) -> Error {
    assert!(operations::begin(&storage(), &operation).is_none());
    match operations::ask(&storage(), &operation, Err("expired".to_string())) {
        OperationStep::Ended(outcome) => outcome.error().unwrap(),
        OperationStep::Ask(_) => panic!("no error"),
    }
}

fn end(storage: &mut LocalStorage, operation: StorageOperation, reply: Reply) -> OperationEnd {
    assert!(operation.accepts(&reply));
    operations::end(storage, operation, reply)
}

fn cached(storage: &LocalStorage) -> Vec<String> {
    storage.task_cache.get_all_tasks().into_iter().map(|t| t.id).collect()
}

fn api_error() -> Error {
    Error::Tasks(TasksError::ApiError)
}

#[test]
fn operations_make_their_requests() {
    let (method, path, body) = request(StorageOperation::Lists);
    assert_eq!((method, path.as_str()), (HttpMethod::Get, "/me/todo/lists"));
    assert!(matches!(body, RequestBody::Empty));
    let (method, path, body) = request(StorageOperation::CreateList(list("l")));
    assert_eq!((method, path.as_str()), (HttpMethod::Post, "/me/todo/lists"));
    assert!(matches!(body, RequestBody::CreateList(_)));
    let (method, path, body) = request(StorageOperation::UpdateList(list("l")));
    assert_eq!((method, path.as_str()), (HttpMethod::Patch, "/me/todo/lists/l"));
    assert!(matches!(body, RequestBody::UpdateList(_)));
    let (method, path, _) = request(StorageOperation::DeleteList(list("l")));
    assert_eq!((method, path.as_str()), (HttpMethod::Delete, "/me/todo/lists/l"));
    let (method, path, body) = request(StorageOperation::CreateTask(task("a", "l")));
    assert_eq!((method, path.as_str()), (HttpMethod::Post, "/me/todo/lists/l/tasks"));
    assert!(matches!(body, RequestBody::CreateTask(_)));
    let (method, path, body) = request(StorageOperation::UpdateTask(task("a", "l")));
    assert_eq!((method, path.as_str()), (HttpMethod::Patch, "/me/todo/lists/l/tasks/a"));
    assert!(matches!(body, RequestBody::UpdateTask(_)));
    let (method, path, _) = request(StorageOperation::DeleteTask(task("a", "l")));
    assert_eq!((method, path.as_str()), (HttpMethod::Delete, "/me/todo/lists/l/tasks/a"));
    let steps = "/me/todo/lists/l/tasks/a/checklistItems";
    let step = "/me/todo/lists/l/tasks/a/checklistItems/i";
    let create = StorageOperation::CreateChecklistItem(task("a", "l"), "x".to_string());
    let (method, path, body) = request(create);
    assert_eq!((method, path.as_str()), (HttpMethod::Post, steps));
    assert!(matches!(body, RequestBody::CreateChecklistItem(b) if b.display_name == "x"));
    let rename =
        StorageOperation::UpdateChecklistItem(task("a", "l"), "i".to_string(), "y".to_string());
    let (method, path, body) = request(rename);
    assert_eq!((method, path.as_str()), (HttpMethod::Patch, step));
    assert!(matches!(
        body,
        RequestBody::UpdateChecklistItem(b)
            if b.display_name == Some("y".to_string()) && b.is_checked == Some(false)
    ));
    let toggle = StorageOperation::ToggleChecklistItem(task("a", "l"), "i".to_string());
    let (_, path, body) = request(toggle);
    assert_eq!(path, step);
    assert!(matches!(
        body,
        RequestBody::UpdateChecklistItem(b)
            if b.display_name == Some("step".to_string()) && b.is_checked == Some(true)
    ));
    let delete = StorageOperation::DeleteChecklistItem(task("a", "l"), "i".to_string());
    let (method, path, _) = request(delete);
    assert_eq!((method, path.as_str()), (HttpMethod::Delete, step));
}

#[test]
fn operations_gather_pages() {
    let s = storage();
    for operation in [
        StorageOperation::Tasks(list("l")),
        StorageOperation::RefreshTasks(list("l")),
        StorageOperation::ToggledTasks(list("l")),
        StorageOperation::ExportTasks(list("l")),
    ] {
        match begin(&s, &operation) {
            OperationStep::Ask(Question::TaskPages(pages)) => assert!(pages
                .next_request()
                .unwrap()
                .url
                .ends_with("/me/todo/lists/l/tasks?$orderby=createdDateTime desc")),
            _ => panic!("no pages"),
        }
    }
    match begin(&s, &StorageOperation::FetchChecklistItems(task("a", "l"))) {
        OperationStep::Ask(Question::ItemPages(pages)) => assert!(pages
            .next_request()
            .unwrap()
            .url
            .ends_with("/me/todo/lists/l/tasks/a/checklistItems")),
        _ => panic!("no pages"),
    }
}

#[test]
fn cached_tasks_need_no_request() {
    let mut s = storage();
    s.update_cache_for_list("l", vec![task("a", "l")]);
    assert!(matches!(
        begin(&s, &StorageOperation::Tasks(list("l"))),
        OperationStep::Ended(OperationOutcome::Tasks(Ok(tasks))) if tasks[0].id == "a"
    ));
    assert!(matches!(
        begin(&s, &StorageOperation::ToggledTasks(list("l"))),
        OperationStep::Ended(OperationOutcome::ToggledTasks(Ok(tasks))) if tasks.len() == 1
    ));
    assert!(matches!(
        begin(&s, &StorageOperation::ExportTasks(list("l"))),
        OperationStep::Ended(OperationOutcome::ExportTasks(l, Ok(_))) if l.id == "l"
    ));
    assert!(matches!(
        begin(&s, &StorageOperation::RefreshTasks(list("l"))),
        OperationStep::Ask(_)
    ));
    let all = List::new_virtual(VirtualListType::All, "All");
    assert!(matches!(
        begin(&s, &StorageOperation::RefreshTasks(all)),
        OperationStep::Ended(OperationOutcome::Tasks(Ok(tasks))) if tasks.len() == 1
    ));
}

#[test]
fn a_step_that_is_not_there_needs_no_token() {
    let missing = || "missing".to_string();
    for operation in [
        StorageOperation::UpdateChecklistItem(task("a", "l"), missing(), missing()),
        StorageOperation::ToggleChecklistItem(task("a", "l"), missing()),
    ] {
        let outcome = operations::begin(&storage(), &operation).unwrap();
        assert_eq!(outcome.error(), Some(Error::Tasks(TasksError::TaskNotFound)));
    }
}

#[test]
fn without_a_token_operations_are_refused() {
    let not_found = Error::Tasks(TasksError::TaskNotFound);
    let no_list = Error::Tasks(TasksError::ListNotFound);
    assert_eq!(refusal(StorageOperation::Lists), no_list);
    assert_eq!(refusal(StorageOperation::Tasks(list("l"))), not_found);
    assert_eq!(refusal(StorageOperation::RefreshTasks(list("l"))), not_found);
    assert_eq!(refusal(StorageOperation::ToggledTasks(list("l"))), not_found);
    assert_eq!(refusal(StorageOperation::ExportTasks(list("l"))), not_found);
    assert_eq!(
        refusal(StorageOperation::CreateList(list("l"))),
        Error::Tasks(TasksError::ExistingList)
    );
    assert_eq!(refusal(StorageOperation::UpdateList(list("l"))), no_list);
    assert_eq!(refusal(StorageOperation::DeleteList(list("l"))), no_list);
    assert_eq!(
        refusal(StorageOperation::CreateTask(task("a", "l"))),
        Error::Tasks(TasksError::ExistingTask)
    );
    assert_eq!(refusal(StorageOperation::UpdateTask(task("a", "l"))), not_found);
    assert_eq!(refusal(StorageOperation::DeleteTask(task("a", "l"))), not_found);
    let i = || "i".to_string();
    assert_eq!(refusal(StorageOperation::CreateChecklistItem(task("a", "l"), i())), not_found);
    assert_eq!(
        refusal(StorageOperation::UpdateChecklistItem(task("a", "l"), i(), i())),
        not_found
    );
    assert_eq!(refusal(StorageOperation::ToggleChecklistItem(task("a", "l"), i())), not_found);
    assert_eq!(refusal(StorageOperation::DeleteChecklistItem(task("a", "l"), i())), not_found);
    assert_eq!(refusal(StorageOperation::FetchChecklistItems(task("a", "l"))), not_found);
}

#[test]
fn replies_about_tasks_change_the_cache() {
    let mut s = storage();
    let ended = end(
        &mut s,
        StorageOperation::Tasks(list("l")),
        Reply::Tasks(Ok(vec![task("a", "l")])),
    );
    assert!(matches!(ended.outcome, OperationOutcome::Tasks(Ok(tasks)) if tasks.len() == 1));
    assert!(matches!(ended.signal, Some(CacheUpdateSignal::ListTasksUpdated(id)) if id == "l"));
    assert!(ended.fetches.is_none());
    let ended = end(
        &mut s,
        StorageOperation::CreateTask(task("", "l")),
        Reply::Task(Ok(task("b", "l"))),
    );
    assert!(matches!(ended.outcome, OperationOutcome::CreateTask(Ok(t)) if t.id == "b"));
    assert!(matches!(ended.signal, Some(CacheUpdateSignal::TaskAdded(_, _))));
    let ended = end(&mut s, StorageOperation::UpdateTask(task("c", "l")), Reply::Told(Ok(())));
    assert!(matches!(ended.outcome, OperationOutcome::UpdateTask(Ok(()))));
    assert!(matches!(ended.signal, Some(CacheUpdateSignal::TaskUpdated(_, _))));
    assert_eq!(cached(&s), vec!["a", "b", "c"]);
    let ended = end(&mut s, StorageOperation::DeleteTask(task("b", "l")), Reply::Told(Ok(())));
    assert!(matches!(ended.outcome, OperationOutcome::DeleteTask(Ok(()))));
    assert!(matches!(ended.signal, Some(CacheUpdateSignal::TaskRemoved(_, _))));
    assert_eq!(cached(&s), vec!["a", "c"]);
}

#[test]
fn replies_that_are_errors_change_nothing() {
    let mut s = storage();
    s.update_cache_for_list("l", vec![task("a", "l")]);
    let e = || "down".to_string();
    let i = || "i".to_string();
    let not_found = Error::Tasks(TasksError::TaskNotFound);
    let cases = vec![
        (
            StorageOperation::Lists,
            Reply::Lists(Err(e())),
            Error::Tasks(TasksError::ListNotFound),
        ),
        (StorageOperation::RefreshTasks(list("l")), Reply::Tasks(Err(e())), api_error()),
        (StorageOperation::ToggledTasks(list("l")), Reply::Tasks(Err(e())), api_error()),
        (StorageOperation::ExportTasks(list("l")), Reply::Tasks(Err(e())), api_error()),
        (
            StorageOperation::CreateList(list("l")),
            Reply::List(Err(e())),
            Error::Tasks(TasksError::ExistingList),
        ),
        (StorageOperation::UpdateList(list("l")), Reply::Told(Err(e())), api_error()),
        (StorageOperation::DeleteList(list("l")), Reply::Told(Err(e())), api_error()),
        (StorageOperation::CreateTask(task("b", "l")), Reply::Task(Err(e())), api_error()),
        (StorageOperation::UpdateTask(task("a", "l")), Reply::Told(Err(e())), not_found),
        (StorageOperation::DeleteTask(task("a", "l")), Reply::Told(Err(e())), not_found),
        (
            StorageOperation::CreateChecklistItem(task("a", "l"), i()),
            Reply::Item(Err(e())),
            api_error(),
        ),
        (
            StorageOperation::UpdateChecklistItem(task("a", "l"), i(), i()),
            Reply::Item(Err(e())),
            api_error(),
        ),
        (
            StorageOperation::ToggleChecklistItem(task("a", "l"), i()),
            Reply::Item(Err(e())),
            api_error(),
        ),
        (
            StorageOperation::DeleteChecklistItem(task("a", "l"), i()),
            Reply::Told(Err(e())),
            api_error(),
        ),
        (
            StorageOperation::FetchChecklistItems(task("a", "l")),
            Reply::Items(Err(e())),
            api_error(),
        ),
    ];
    for (operation, reply, error) in cases {
        let ended = end(&mut s, operation, reply);
        assert_eq!(ended.outcome.error(), Some(error));
        assert!(ended.signal.is_none() && ended.fetches.is_none());
        assert_eq!(cached(&s), vec!["a"]);
    }
}

#[test]
fn fetches_are_planned_though_there_is_no_list() {
    let mut s = storage();
    let ended = end(&mut s, StorageOperation::Lists, Reply::Lists(Ok(Vec::new())));
    assert!(matches!(ended.outcome, OperationOutcome::Lists(Ok(lists)) if lists.len() == 3));
    assert!(ended.signal.is_none());
    assert_eq!(ended.fetches.unwrap().len(), 0);
    let ended = end(&mut s, StorageOperation::Lists, Reply::Lists(Err("down".to_string())));
    assert!(ended.fetches.is_none());
}

#[test]
fn replies_about_lists_and_steps() {
    let mut s = storage();
    let ended = end(&mut s, StorageOperation::Lists, Reply::Lists(Ok(vec![list("l")])));
    assert_eq!(ended.fetches.unwrap().len(), 1);
    assert_eq!(ended.outcome.error(), None);
    assert!(matches!(ended.outcome, OperationOutcome::Lists(Ok(lists)) if lists.len() == 4));
    let ended = end(
        &mut s,
        StorageOperation::CreateList(list("")),
        Reply::List(Ok(list("n"))),
    );
    assert!(matches!(ended.outcome, OperationOutcome::CreateList(Ok(l)) if l.id == "n"));
    let ended = end(&mut s, StorageOperation::UpdateList(list("n")), Reply::Told(Ok(())));
    assert!(matches!(ended.outcome, OperationOutcome::UpdateList(Ok(()))));
    let ended = end(&mut s, StorageOperation::DeleteList(list("n")), Reply::Told(Ok(())));
    assert!(matches!(ended.outcome, OperationOutcome::DeleteList(Ok(()))));
    let i = || "i".to_string();
    let t = || task("a", "l");
    let create = StorageOperation::CreateChecklistItem(t(), i());
    let ended = end(&mut s, create, Reply::Item(Ok(item("n"))));
    assert!(matches!(ended.outcome, OperationOutcome::CreateChecklistItem(Ok(x)) if x.id == "n"));
    let rename = StorageOperation::UpdateChecklistItem(t(), i(), i());
    let ended = end(&mut s, rename, Reply::Item(Ok(item("i"))));
    assert!(matches!(ended.outcome, OperationOutcome::UpdateChecklistItem(Ok(_))));
    let toggle = StorageOperation::ToggleChecklistItem(t(), i());
    let ended = end(&mut s, toggle, Reply::Item(Ok(item("i"))));
    assert!(matches!(ended.outcome, OperationOutcome::ToggleChecklistItem(Ok(_))));
    let delete = StorageOperation::DeleteChecklistItem(t(), i());
    let ended = end(&mut s, delete, Reply::Told(Ok(())));
    assert!(matches!(ended.outcome, OperationOutcome::DeleteChecklistItem(Ok(id)) if id == "i"));
    let fetch = StorageOperation::FetchChecklistItems(t());
    let ended = end(&mut s, fetch, Reply::Items(Ok(vec![item("i"), item("j")])));
    assert!(matches!(ended.outcome, OperationOutcome::FetchChecklistItems(Ok(x)) if x.len() == 2));
}

#[test]
fn replies_fit_their_operations() {
    assert!(!StorageOperation::Lists.accepts(&Reply::Told(Ok(()))));
    assert!(!StorageOperation::UpdateTask(task("a", "l")).accepts(&Reply::Tasks(Ok(vec![]))));
    assert!(!StorageOperation::Tasks(list("l")).accepts(&Reply::Lists(Ok(vec![]))));
    assert!(StorageOperation::Lists.accepts(&Reply::Lists(Ok(vec![]))));
}
