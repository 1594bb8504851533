use ms_todo_app::app::about::{About, APP_ID, SYNC_NOTICE};
use ms_todo_app::app::actions::{ApplicationAction, NavMenuAction, TasksAction};
use ms_todo_app::app::channels::CacheUpdateSignal;
use ms_todo_app::app::config::{AppTheme, TasksConfig};
use ms_todo_app::app::context::ContextPage;
use ms_todo_app::app::dialog::{DateTimeInfo, DialogAction, DialogPage};
use ms_todo_app::app::effects::Effect;
use ms_todo_app::app::error::{Error, TasksError};
use ms_todo_app::app::operations::{OperationOutcome, StorageOperation};
use ms_todo_app::app::{AppEvent, Flags, Message, Progress, TasksApp, Wording};
use ms_todo_app::pages::content::SortType;
use ms_todo_app::pages::details::Details;
use ms_todo_app::pages::{content, details};
use ms_todo_app::storage::models::{
    ChecklistItem, ChecklistSyncStatus, List, Priority, Status, Task, VirtualListType,
};
use ms_todo_app::storage::LocalStorage;

const TODAY: i32 = 739052;

fn task(id: &str, list_id: &str) -> Task {
    Task {
        id: id.to_string(),
        title: String::new(),
        list_id: Some(list_id.to_string()),
        status: Status::NotStarted,
        priority: Priority::High,
        due_date: None,
        notes: "notes".to_string(),
        checklist_items: Vec::new(),
        checklist_sync_status: ChecklistSyncStatus::NotSynced,
    }
}

fn item(id: &str, name: &str, is_checked: bool) -> ChecklistItem {
    ChecklistItem {
        id: id.to_string(),
        display_name: name.to_string(),
        is_checked,
    }
}

fn list(id: &str, name: &str) -> List {
    let mut l = List::new(name);
    l.id = id.to_string();
    l
}

fn start(main_window_id: Option<u64>, has_config_handler: bool) -> (TasksApp, Vec<Effect>) {
    let flags = Flags {
        storage: LocalStorage::new("com.example", Ok(())).unwrap(),
        has_config_handler,
        config: TasksConfig {
            app_theme: AppTheme::System,
            hide_completed: false,
        },
    };
    let details = Details {
        task: task("", ""),
        text_editor_content: String::new(),
        new_checklist_item_text: String::new(),
    };
    TasksApp::init(flags, details, 5, main_window_id, "Tasks".to_string())
}

fn app() -> TasksApp {
    start(Some(1), true).0
}

fn with_lists() -> TasksApp {
    let mut app = app();
    let lists = vec![
        List::new_virtual(VirtualListType::All, "All"),
        list("a", "A"),
        list("b", "B"),
    ];
    app.update_on(Message::Tasks(TasksAction::ListsFetched(Ok(lists))), TODAY);
    app
}

fn tasks(app: &mut TasksApp, action: TasksAction) -> Vec<Effect> {
    let message = Message::Tasks(action);
    assert!(app.can_handle(&message));
    app.update_on(message, TODAY)
}

fn application(app: &mut TasksApp, action: ApplicationAction) -> Vec<Effect> {
    let message = Message::Application(action);
    assert!(app.can_handle(&message));
    app.update_on(message, TODAY)
}

fn dialog(app: &mut TasksApp, action: DialogAction) -> Vec<Effect> {
    application(app, ApplicationAction::Dialog(action))
}

fn ended(outcome: OperationOutcome) -> Message {
    let wording = Wording {
        error: "e".to_string(),
        list: "# A".to_string(),
        tasks: vec!["- t\n".to_string()],
    };
    TasksApp::storage_operation_ended(outcome, wording)
}

fn active_entity(app: &TasksApp) -> u64 {
    app.nav_model().active().unwrap()
}

fn texts(app: &TasksApp) -> Vec<String> {
    app.nav_model().items().iter().map(|i| i.text.clone()).collect()
}

#[test]
fn the_application_starts_by_fetching_lists() {
    let (app, effects) = start(Some(1), true);
    assert_eq!(app.get_operation_count(), 1);
    assert_eq!(app.window_title, Some("Tasks".to_string()));
    assert!(app.context_drawer().is_none());
    assert!(app.dialog().is_none());
    assert!(app.nav_model().items().is_empty());
    assert_eq!(app.max_operations, 1);
    assert!(matches!(effects[0], Effect::Spawn(StorageOperation::Lists)));
    assert!(matches!(&effects[1], Effect::SetWindowTitle(1, title) if title == "Tasks"));
    assert!(matches!(effects[2], Effect::ToggleNavBar));
    assert_eq!(effects.len(), 3);

    let (app, effects) = start(None, true);
    assert_eq!(app.window_title, None);
    assert_eq!(effects.len(), 2);
}

#[test]
fn the_first_list_is_chosen() {
    let mut app = app();
    let lists = vec![list("a", "A"), list("b", "B")];
    let effects = tasks(&mut app, TasksAction::ListsFetched(Ok(lists)));
    assert_eq!(app.get_operation_count(), 0);
    assert!(matches!(effects[0], Effect::RefreshCountsAfter(3000)));
    assert!(matches!(
        &effects[1],
        Effect::UpdateContent(content::Message::SetList(Some(l))) if l.id == "a"
    ));
    assert_eq!(effects.len(), 2);
    assert_eq!(app.window_title, Some("A - Tasks".to_string()));

    // A list that is chosen stays chosen.
    let b = app.nav_model().items()[1].entity;
    let effects = app.on_nav_select(b);
    assert!(matches!(
        &effects[0],
        Effect::UpdateContent(content::Message::SetList(Some(l))) if l.id == "b"
    ));
    let effects = tasks(&mut app, TasksAction::ListsFetched(Ok(vec![list("a", "AA")])));
    assert_eq!(effects.len(), 1);
    assert_eq!(active_entity(&app), b);
    assert_eq!(texts(&app), vec!["AA", "B"]);
}

#[test]
fn without_lists_none_is_chosen() {
    let mut app = app();
    let effects = tasks(&mut app, TasksAction::ListsFetched(Ok(vec![])));
    assert_eq!(effects.len(), 1);
    assert!(app.nav_model().active().is_none());
    assert!(app.on_nav_select(3).is_empty());
    assert!(tasks(&mut app, TasksAction::ListsFetched(Err("x".to_string()))).is_empty());
}

#[test]
fn operations_are_counted_until_they_end() {
    let mut app = with_lists();
    assert_eq!(app.get_operation_count(), 0);
    assert!(app.footer().is_none());
    let effects = tasks(&mut app, TasksAction::DeleteTaskAsync(task("t", "a")));
    assert!(matches!(&effects[0], Effect::Spawn(StorageOperation::DeleteTask(t)) if t.id == "t"));
    assert_eq!(app.footer(), Some(Progress::Ratio(1, 1)));
    app.update_on(Message::OperationStarted, TODAY);
    assert_eq!(app.footer(), Some(Progress::Ratio(2, 1)));
    app.max_operations = 0;
    assert_eq!(app.footer(), Some(Progress::Indeterminate));
    app.update_on(Message::OperationFailed, TODAY);
    let message = ended(OperationOutcome::DeleteTask(Ok(())));
    assert!(app.update_on(message, TODAY).is_empty());
    assert_eq!(app.get_operation_count(), 0);
    app.update_on(Message::OperationCompleted, TODAY);
    assert_eq!(app.get_operation_count(), 0);
    app.running_operations = u32::MAX;
    assert!(!app.can_handle(&Message::OperationStarted));
    assert!(!app.can_handle(&Message::Tasks(TasksAction::FetchLists)));
    assert!(app.can_handle(&Message::OperationCompleted));
}

#[test]
fn requests_for_tasks_and_lists() {
    let mut app = with_lists();
    let effects = tasks(&mut app, TasksAction::FetchLists);
    assert!(matches!(effects[0], Effect::Spawn(StorageOperation::Lists)));
    let effects = tasks(&mut app, TasksAction::FetchListsAsync);
    assert!(matches!(effects[0], Effect::Spawn(StorageOperation::Lists)));
    let effects = tasks(&mut app, TasksAction::UpdateTaskAsync(task("t", "a")));
    assert!(matches!(&effects[0], Effect::Spawn(StorageOperation::UpdateTask(t)) if t.id == "t"));
    let effects = tasks(&mut app, TasksAction::DeleteListAsync(list("a", "A")));
    assert!(matches!(&effects[0], Effect::Spawn(StorageOperation::DeleteList(l)) if l.id == "a"));
    let effects = tasks(&mut app, TasksAction::FetchTasksAsync(list("a", "A")));
    assert!(matches!(&effects[0], Effect::Spawn(StorageOperation::Tasks(l)) if l.id == "a"));
    let effects = tasks(&mut app, TasksAction::RefreshListAsync(list("a", "A")));
    assert!(matches!(&effects[0], Effect::Spawn(StorageOperation::RefreshTasks(l)) if l.id == "a"));
    assert_eq!(app.get_operation_count(), 6);
    assert!(tasks(&mut app, TasksAction::ListDeleted(Ok(()))).is_empty());
    assert!(tasks(&mut app, TasksAction::ListDeleted(Err("x".to_string()))).is_empty());
    let effects = tasks(&mut app, TasksAction::TasksFetched(Ok(vec![task("t", "a")])));
    assert!(matches!(
        &effects[0],
        Effect::UpdateContent(content::Message::SetTasks(t)) if t[0].id == "t"
    ));
    assert!(tasks(&mut app, TasksAction::TasksFetched(Err("x".to_string()))).is_empty());
    assert!(tasks(&mut app, TasksAction::TaskUpdated(Err("x".to_string()))).is_empty());
    assert!(tasks(&mut app, TasksAction::TaskDeleted(Err("x".to_string()))).is_empty());
    assert_eq!(app.get_operation_count(), 0);
}

#[test]
fn a_task_goes_to_the_default_list() {
    let mut app = with_lists();
    let mut default = list("d", "Tasks");
    default.well_known_list_name = Some("defaultList".to_string());
    app.create_nav_item(&default);
    let effects = tasks(&mut app, TasksAction::CreateTaskAsync(task("", "virtual-all")));
    match &effects[0] {
        Effect::Spawn(StorageOperation::CreateTask(t)) => {
            assert_eq!(t.list_id, Some("d".to_string()))
        }
        _ => panic!("another effect"),
    }
    let effects = tasks(&mut app, TasksAction::TaskCreated(Ok(task("t", "d"))));
    assert!(matches!(
        &effects[0],
        Effect::UpdateContent(content::Message::TaskCreated(t)) if t.id == "t"
    ));
    assert!(matches!(effects[1], Effect::Dispatch(Message::RefreshCacheCounts)));
    assert!(tasks(&mut app, TasksAction::TaskCreated(Err("x".to_string()))).is_empty());
}

#[test]
fn counts_follow_the_cache() {
    let mut app = with_lists();
    app.storage.update_cache_for_list("a", vec![task("1", "a"), task("2", "a")]);
    assert_eq!(texts(&app), vec!["All", "A", "B"]);
    app.update_on(Message::RefreshCacheCounts, TODAY);
    assert_eq!(texts(&app), vec!["(2) All", "(2) A", "B"]);
    app.storage.delete_task_answered(&task("1", "a"), Ok(())).unwrap();
    tasks(&mut app, TasksAction::TaskDeleted(Ok(())));
    assert_eq!(texts(&app), vec!["(1) All", "(1) A", "B"]);
    app.storage.create_task_answered(Ok(task("3", "b"))).unwrap();
    let signal = CacheUpdateSignal::TaskAdded("3".to_string(), "b".to_string());
    app.update(Message::CacheUpdate(signal));
    assert_eq!(texts(&app), vec!["(2) All", "(1) A", "(1) B"]);
    app.storage.update_cache_for_list("a", vec![]);
    app.update_cache_counts();
    assert_eq!(texts(&app), vec!["(1) All", "A", "(1) B"]);
}

#[test]
fn a_task_that_changed_is_shown_anew() {
    let mut app = with_lists();
    app.storage.update_task_answered(&task("1", "a"), Ok(())).unwrap();
    let effects = tasks(&mut app, TasksAction::TaskUpdated(Ok(())));
    assert!(matches!(
        &effects[0],
        Effect::Spawn(StorageOperation::Tasks(l)) if l.id == "virtual-all"
    ));
    assert_eq!(effects.len(), 1);
    assert_eq!(app.get_operation_count(), 1);
    assert_eq!(texts(&app), vec!["(1) All", "(1) A", "B"]);
}

#[test]
fn a_list_is_added_and_chosen() {
    let mut app = with_lists();
    let created = OperationOutcome::CreateList(Ok(list("n", "New")));
    let message = ended(created);
    assert!(app.can_handle(&message));
    let effects = app.update_on(message, TODAY);
    assert!(matches!(
        &effects[0],
        Effect::UpdateContent(content::Message::SetList(Some(l))) if l.id == "n"
    ));
    assert_eq!(app.nav_model().active_data().unwrap().id, "n");
    assert_eq!(app.window_title, Some("New - Tasks".to_string()));
}

#[test]
fn deleting_a_list_removes_the_chosen_item() {
    let mut app = with_lists();
    let b = app.nav_model().items()[2].entity;
    let effects = tasks(&mut app, TasksAction::DeleteList(Some(b)));
    assert!(matches!(&effects[0], Effect::Spawn(StorageOperation::DeleteList(l)) if l.id == "b"));
    assert_eq!(texts(&app), vec!["A", "B"]);
    assert!(app.nav_model().active().is_none());
    assert!(tasks(&mut app, TasksAction::DeleteList(None)).is_empty());
    assert_eq!(texts(&app), vec!["A", "B"]);
}

#[test]
fn dialogs_are_shown_in_order() {
    let mut app = with_lists();
    let effects = dialog(&mut app, DialogAction::Open(DialogPage::New("x".to_string())));
    assert!(matches!(effects[0], Effect::Focus(5)));
    dialog(&mut app, DialogAction::Open(DialogPage::Delete(None)));
    assert!(matches!(app.dialog(), Some(DialogPage::New(_))));
    dialog(&mut app, DialogAction::Update(DialogPage::New("Home".to_string())));
    assert!(dialog(&mut app, DialogAction::Nothing).is_empty());
    let effects = dialog(&mut app, DialogAction::Complete);
    assert!(matches!(
        &effects[0],
        Effect::Spawn(StorageOperation::CreateList(l)) if l.name == "Home" && l.id.is_empty()
    ));
    assert!(matches!(app.dialog(), Some(DialogPage::Delete(None))));
    let effects = dialog(&mut app, DialogAction::Complete);
    assert!(matches!(
        &effects[0],
        Effect::Spawn(StorageOperation::DeleteList(l)) if l.id == "virtual-all"
    ));
    assert!(app.dialog().is_none());
    assert!(dialog(&mut app, DialogAction::Complete).is_empty());
    assert!(dialog(&mut app, DialogAction::Close).is_empty());
    let update = DialogAction::Update(DialogPage::New(String::new()));
    assert!(!app.can_handle(&Message::Application(ApplicationAction::Dialog(update))));
}

#[test]
fn a_list_gets_another_name() {
    let mut app = with_lists();
    let b = app.nav_model().items()[2].entity;
    application(&mut app, ApplicationAction::NavMenuAction(NavMenuAction::Rename(b)));
    assert!(matches!(app.dialog(), Some(DialogPage::Rename(Some(_), name)) if name == "B"));
    let renamed = DialogPage::Rename(Some(b), "Best".to_string());
    dialog(&mut app, DialogAction::Update(renamed));
    let effects = dialog(&mut app, DialogAction::Complete);
    assert!(matches!(
        &effects[0],
        Effect::Spawn(StorageOperation::UpdateList(l)) if l.id == "b" && l.name == "Best"
    ));
    assert!(matches!(
        &effects[1],
        Effect::UpdateContent(content::Message::SetList(Some(l))) if l.name == "Best"
    ));
    assert_eq!(app.nav_model().data(b).unwrap().name, "Best");
    // The text of the item that is chosen becomes the name.
    assert_eq!(texts(&app), vec!["Best", "A", "B"]);

    let unknown = DialogPage::Rename(Some(99), String::new());
    let effects = dialog(&mut app, DialogAction::Open(unknown));
    assert!(matches!(effects[0], Effect::Focus(5)));
    assert!(app.dialog().is_none());
}

#[test]
fn dates_are_handed_to_the_details() {
    let mut app = app();
    let info = DateTimeInfo { day: 719164, second_of_day: 60 };
    dialog(&mut app, DialogAction::Open(DialogPage::Calendar(info)));
    let effects = dialog(&mut app, DialogAction::Complete);
    assert!(matches!(
        effects[0],
        Effect::UpdateDetails(details::Message::SetDueDate(86460))
    ));
    dialog(&mut app, DialogAction::Open(DialogPage::ReminderCalendar(info)));
    let effects = dialog(&mut app, DialogAction::Complete);
    assert!(matches!(
        effects[0],
        Effect::UpdateDetails(details::Message::SetReminderDate(86460))
    ));
}

#[test]
fn a_list_is_exported() {
    let mut app = with_lists();
    let a = app.nav_model().items()[1].entity;
    let export = ApplicationAction::NavMenuAction(NavMenuAction::Export(a));
    let effects = application(&mut app, export);
    assert!(matches!(&effects[0], Effect::Spawn(StorageOperation::ExportTasks(l)) if l.id == "a"));
    let message = ended(OperationOutcome::ExportTasks(list("a", "A"), Ok(vec![task("t", "a")])));
    app.update_on(message, TODAY);
    assert!(matches!(app.dialog(), Some(DialogPage::Export(text)) if text == "# A\n- t\n"));
    let effects = dialog(&mut app, DialogAction::Complete);
    assert!(matches!(&effects[0], Effect::CopyToClipboard(text) if text == "# A\n- t\n"));
    let export = ApplicationAction::NavMenuAction(NavMenuAction::Export(99));
    assert!(application(&mut app, export).is_empty());
    let delete = ApplicationAction::NavMenuAction(NavMenuAction::Delete(a));
    application(&mut app, delete);
    assert!(matches!(app.dialog(), Some(DialogPage::Delete(Some(entity))) if *entity == a));
}

#[test]
fn the_drawer_opens_and_closes() {
    let mut app = app();
    let told = |effects: Vec<Effect>| match effects[0] {
        Effect::UpdateContent(content::Message::ContextMenuOpen(open)) => open,
        _ => panic!("another effect"),
    };
    let about = || ApplicationAction::ToggleContextPage(ContextPage::About);
    assert!(told(application(&mut app, about())));
    assert_eq!(app.context_drawer(), Some(ContextPage::About));
    let settings = ApplicationAction::ToggleContextPage(ContextPage::Settings);
    assert!(told(application(&mut app, settings)));
    assert_eq!(app.context_drawer(), Some(ContextPage::Settings));
    assert!(told(application(&mut app, about())));
    assert!(!told(application(&mut app, about())));
    assert_eq!(app.context_drawer(), None);
    assert!(told(application(&mut app, ApplicationAction::ToggleContextDrawer)));
    assert!(!told(application(&mut app, ApplicationAction::ToggleContextDrawer)));
}

#[test]
fn escape_closes_one_thing() {
    let mut app = app();
    application(&mut app, ApplicationAction::ToggleContextDrawer);
    dialog(&mut app, DialogAction::Open(DialogPage::New(String::new())));
    dialog(&mut app, DialogAction::Open(DialogPage::Delete(None)));
    app.on_escape();
    assert!(matches!(app.dialog(), Some(DialogPage::Delete(None))));
    app.on_escape();
    assert!(app.dialog().is_none());
    assert!(app.context_drawer().is_some());
    app.on_escape();
    assert!(app.context_drawer().is_none());
}

#[test]
fn settings_are_stored() {
    let mut app = app();
    assert_eq!(app.settings(), 0);
    let effects = application(&mut app, ApplicationAction::AppTheme(1));
    assert!(matches!(effects[0], Effect::StoreTheme(AppTheme::Dark)));
    assert_eq!(app.settings(), 1);
    application(&mut app, ApplicationAction::AppTheme(2));
    assert_eq!(app.settings(), 2);
    let effects = application(&mut app, ApplicationAction::SystemThemeModeChange);
    assert!(matches!(effects[0], Effect::SetTheme(AppTheme::Light)));
    let effects = application(&mut app, ApplicationAction::ToggleHideCompleted(true));
    assert!(matches!(effects[0], Effect::StoreHideCompleted(true)));
    match &effects[1] {
        Effect::UpdateContent(content::Message::SetConfig(config)) => {
            assert!(config.hide_completed);
            assert_eq!(config.app_theme, AppTheme::Light);
        }
        _ => panic!("another effect"),
    }

    let (mut app, _) = start(None, false);
    assert!(application(&mut app, ApplicationAction::AppTheme(1)).is_empty());
    assert!(application(&mut app, ApplicationAction::ToggleHideCompleted(true)).is_empty());
    assert_eq!(app.settings(), 0);
    assert!(!app.config.hide_completed);
}

#[test]
fn windows_keys_and_order() {
    let mut app = app();
    let effects = application(&mut app, ApplicationAction::WindowClose);
    assert!(matches!(effects[0], Effect::CloseWindow(1)));
    let effects = application(&mut app, ApplicationAction::WindowNew);
    assert!(matches!(effects[0], Effect::OpenWindow));
    let (mut windowless, _) = start(None, true);
    assert!(application(&mut windowless, ApplicationAction::WindowClose).is_empty());
    assert!(application(&mut app, ApplicationAction::Modifiers(6)).is_empty());
    assert_eq!(app.modifiers, 6);
    let effects = application(&mut app, ApplicationAction::Focus(8));
    assert!(matches!(effects[0], Effect::Focus(8)));
    let orders = vec![
        (ApplicationAction::SortByNameAsc, SortType::NameAsc),
        (ApplicationAction::SortByNameDesc, SortType::NameDesc),
        (ApplicationAction::SortByDateAsc, SortType::DateAsc),
        (ApplicationAction::SortByDateDesc, SortType::DateDesc),
    ];
    for (action, order) in orders {
        match application(&mut app, action)[0] {
            Effect::UpdateContent(content::Message::SetSort(sort)) => assert_eq!(sort, order),
            _ => panic!("another effect"),
        }
    }
    let effects = application(&mut app, ApplicationAction::Key(2, 110));
    assert!(matches!(effects[0], Effect::FindBindings(2, 110)));
    let effects = app.key_pressed(vec![Message::OperationStarted, Message::RefreshCacheCounts]);
    assert!(matches!(effects[0], Effect::Dispatch(Message::OperationStarted)));
    assert!(matches!(effects[1], Effect::Dispatch(Message::RefreshCacheCounts)));
    assert_eq!(effects.len(), 2);
    let effects = app.update(Message::Open("https://a".to_string()));
    assert!(matches!(&effects[0], Effect::OpenUrl(url) if url == "https://a"));
    let effects = app.update(Message::Content(content::Message::Empty));
    assert!(matches!(effects[0], Effect::UpdateContent(content::Message::Empty)));
    let effects = app.update(Message::Details(details::Message::SetDueDate(3)));
    assert!(matches!(
        effects[0],
        Effect::UpdateDetails(details::Message::SetDueDate(3))
    ));
}

#[test]
fn events_become_messages() {
    assert!(matches!(
        TasksApp::subscription(AppEvent::KeyPressed(2, 110)),
        Some(Message::Application(ApplicationAction::Key(2, 110)))
    ));
    assert!(matches!(
        TasksApp::subscription(AppEvent::ModifiersChanged(4)),
        Some(Message::Application(ApplicationAction::Modifiers(4)))
    ));
    assert!(matches!(
        TasksApp::subscription(AppEvent::ConfigChanged),
        Some(Message::Application(ApplicationAction::SystemThemeModeChange))
    ));
    assert!(matches!(
        TasksApp::subscription(AppEvent::ThemeChanged),
        Some(Message::Application(ApplicationAction::SystemThemeModeChange))
    ));
    assert!(matches!(
        TasksApp::subscription(AppEvent::Content(content::Message::Empty)),
        Some(Message::Content(content::Message::Empty))
    ));
    assert!(TasksApp::subscription(AppEvent::Other).is_none());
}

#[test]
fn the_menu_of_an_item() {
    let menu = app().nav_context_menu(3);
    let entries: Vec<(&str, &str, u16, NavMenuAction)> = menu
        .iter()
        .map(|m| (m.label, m.icon, m.icon_size, m.action))
        .collect();
    assert_eq!(
        entries,
        vec![
            ("rename", "edit-symbolic", 14, NavMenuAction::Rename(3)),
            ("export", "share-symbolic", 18, NavMenuAction::Export(3)),
            ("delete", "user-trash-full-symbolic", 14, NavMenuAction::Delete(3)),
        ]
    );
}

#[test]
fn details_of_a_task_are_opened() {
    let mut app = with_lists();
    let output = content::Output::OpenTaskDetails(task("t", "a"));
    assert!(app.can_handle_content(&output));
    let effects = app.update_content(output);
    assert!(matches!(effects[0], Effect::ActivatePriority(2)));
    assert!(matches!(
        &effects[1],
        Effect::Spawn(StorageOperation::FetchChecklistItems(t)) if t.id == "t"
    ));
    assert!(matches!(
        effects[2],
        Effect::UpdateContent(content::Message::ContextMenuOpen(true))
    ));
    assert_eq!(app.details.task.id, "t");
    assert_eq!(app.details.text_editor_content, "notes");
    assert_eq!(app.context_drawer(), Some(ContextPage::TaskDetails));
    assert_eq!(app.get_operation_count(), 1);

    // A task that the service does not know yet has no steps to fetch.
    let effects = app.update_content(content::Output::OpenTaskDetails(task("", "a")));
    assert_eq!(effects.len(), 2);
    assert_eq!(app.context_drawer(), None);
    app.running_operations = u32::MAX;
    assert!(!app.can_handle_content(&content::Output::OpenTaskDetails(task("t", "a"))));
    assert!(app.can_handle_content(&content::Output::OpenTaskDetails(task("", "a"))));
}

#[test]
fn the_page_of_tasks_asks() {
    let mut app = with_lists();
    let mut ask = |output| app.update_content(output);
    assert!(matches!(ask(content::Output::Focus(9))[0], Effect::Focus(9)));
    assert!(matches!(
        ask(content::Output::FinishedTasksChanged)[0],
        Effect::Spawn(StorageOperation::Lists)
    ));
    assert!(matches!(
        ask(content::Output::CreateTaskAsync(task("t", "a")))[0],
        Effect::Spawn(StorageOperation::CreateTask(_))
    ));
    assert!(matches!(
        ask(content::Output::UpdateTaskAsync(task("t", "a")))[0],
        Effect::Spawn(StorageOperation::UpdateTask(_))
    ));
    assert!(matches!(
        ask(content::Output::DeleteTaskAsync(task("t", "a")))[0],
        Effect::Spawn(StorageOperation::DeleteTask(_))
    ));
    assert!(matches!(
        ask(content::Output::FetchTasksAsync(list("a", "A")))[0],
        Effect::Spawn(StorageOperation::Tasks(_))
    ));
    assert!(matches!(
        ask(content::Output::RefreshListAsync(list("a", "A")))[0],
        Effect::Spawn(StorageOperation::RefreshTasks(_))
    ));
    assert_eq!(app.get_operation_count(), 6);
}

#[test]
fn completed_tasks_are_hidden() {
    let mut app = with_lists();
    let mut all = app.nav_model().active_data().unwrap();
    all.hide_completed = true;
    let effects = app.update_content(content::Output::ToggleHideCompleted(all));
    assert!(matches!(&effects[0], Effect::Spawn(StorageOperation::ToggledTasks(l)) if l.hide_completed));
    assert!(app.nav_model().active_data().unwrap().hide_completed);
    assert_eq!(app.get_operation_count(), 0);
    let shown = ended(OperationOutcome::ToggledTasks(Ok(vec![])));
    assert!(matches!(shown, Message::Content(content::Message::SetTasks(_))));

    let mut app = crate::app();
    let output = content::Output::ToggleHideCompleted(list("a", "A"));
    assert!(app.update_content(output).is_empty());
}

#[test]
fn the_page_of_details_asks() {
    let mut app = app();
    app.details.task = task("t", "a");
    let effects = app.update_details_on(details::Output::OpenCalendarDialog, TODAY);
    assert!(matches!(effects[0], Effect::Focus(5)));
    app.update_details_on(details::Output::OpenReminderCalendarDialog, TODAY);
    assert!(matches!(
        app.dialog(),
        Some(DialogPage::Calendar(info)) if *info == DateTimeInfo::new(TODAY)
    ));
    dialog(&mut app, DialogAction::Close);
    assert!(matches!(
        app.dialog(),
        Some(DialogPage::ReminderCalendar(info)) if *info == DateTimeInfo::new(TODAY)
    ));
    let effects = app.update_details(details::Output::RefreshTask(task("r", "a")));
    assert!(matches!(
        &effects[0],
        Effect::UpdateContent(content::Message::RefreshTask(t)) if t.id == "r"
    ));
    let effects = app.update_details(details::Output::UpdateTaskAsync(task("u", "a")));
    assert!(matches!(&effects[0], Effect::Spawn(StorageOperation::UpdateTask(t)) if t.id == "u"));
    app.details.new_checklist_item_text = "buy".to_string();
    let effects = app.update_details(details::Output::AddChecklistItemAsync("buy".to_string()));
    assert!(matches!(
        &effects[0],
        Effect::Spawn(StorageOperation::CreateChecklistItem(t, title)) if t.id == "t" && title == "buy"
    ));
    assert_eq!(app.details.new_checklist_item_text, "");
    let rename = details::Output::UpdateChecklistItemAsync("i".to_string(), "sell".to_string());
    let effects = app.update_details(rename);
    assert!(matches!(
        &effects[0],
        Effect::Spawn(StorageOperation::UpdateChecklistItem(_, id, title)) if id == "i" && title == "sell"
    ));
    let effects = app.update_details(details::Output::ToggleChecklistItemAsync("i".to_string()));
    assert!(matches!(
        &effects[0],
        Effect::Spawn(StorageOperation::ToggleChecklistItem(_, id)) if id == "i"
    ));
    let effects = app.update_details(details::Output::DeleteChecklistItemAsync("i".to_string()));
    assert!(matches!(
        &effects[0],
        Effect::Spawn(StorageOperation::DeleteChecklistItem(_, id)) if id == "i"
    ));
    let effects = app.update_details(details::Output::FetchChecklistItems);
    assert!(matches!(
        &effects[0],
        Effect::Spawn(StorageOperation::FetchChecklistItems(t)) if t.id == "t"
    ));
    // Three of these operations are counted, beside the fetch of the lists.
    assert_eq!(app.get_operation_count(), 4);
    app.running_operations = u32::MAX;
    assert!(!app.can_handle_details(&details::Output::FetchChecklistItems));
    assert!(app.can_handle_details(&details::Output::OpenCalendarDialog));
}

#[test]
fn steps_follow_the_service() {
    let mut app = app();
    let names = |app: &TasksApp| -> Vec<String> {
        app.details
            .task
            .checklist_items
            .iter()
            .map(|i| format!("{}:{}:{}", i.id, i.display_name, i.is_checked))
            .collect()
    };
    let fetched = vec![item("1", "a", false), item("2", "b", true)];
    tasks(&mut app, TasksAction::ChecklistItemsFetched(Ok(fetched)));
    assert_eq!(app.get_operation_count(), 0);
    tasks(&mut app, TasksAction::ChecklistItemAdded(Ok(item("3", "c", false))));
    assert_eq!(names(&app), vec!["1:a:false", "2:b:true", "3:c:false"]);
    tasks(&mut app, TasksAction::ChecklistItemUpdated(Ok(item("2", "bb", true))));
    tasks(&mut app, TasksAction::ChecklistItemToggled(Ok(item("1", "a", true))));
    tasks(&mut app, TasksAction::ChecklistItemToggled(Ok(item("9", "z", true))));
    assert_eq!(names(&app), vec!["1:a:true", "2:bb:true", "3:c:false"]);
    tasks(&mut app, TasksAction::ChecklistItemDeleted(Ok("2".to_string())));
    assert_eq!(names(&app), vec!["1:a:true", "3:c:false"]);
    assert!(matches!(
        app.details.task.checklist_sync_status,
        ChecklistSyncStatus::Synced
    ));
}

#[test]
fn steps_are_marked_when_the_service_fails() {
    let failures = vec![
        TasksAction::ChecklistItemAdded(Err("e".to_string())),
        TasksAction::ChecklistItemUpdated(Err("e".to_string())),
        TasksAction::ChecklistItemToggled(Err("e".to_string())),
        TasksAction::ChecklistItemDeleted(Err("e".to_string())),
        TasksAction::ChecklistItemsFetched(Err("e".to_string())),
    ];
    for failure in failures {
        let mut app = app();
        app.details.task.checklist_items.push(item("1", "a", false));
        assert!(tasks(&mut app, failure).is_empty());
        assert_eq!(app.details.task.checklist_items.len(), 1);
        assert!(matches!(
            &app.details.task.checklist_sync_status,
            ChecklistSyncStatus::SyncFailed(error) if error == "e"
        ));
    }
}

#[test]
fn outcomes_become_messages() {
    let e = || Error::Tasks(TasksError::ApiError);
    assert!(matches!(
        ended(OperationOutcome::Lists(Err(e()))),
        Message::Tasks(TasksAction::ListsFetched(Err(text))) if text == "e"
    ));
    assert!(matches!(
        ended(OperationOutcome::Tasks(Ok(vec![]))),
        Message::Tasks(TasksAction::TasksFetched(Ok(_)))
    ));
    for outcome in [
        OperationOutcome::ToggledTasks(Err(e())),
        OperationOutcome::ExportTasks(list("a", "A"), Err(e())),
        OperationOutcome::CreateList(Err(e())),
        OperationOutcome::UpdateList(Err(e())),
        OperationOutcome::UpdateList(Ok(())),
    ] {
        assert!(matches!(ended(outcome), Message::Content(content::Message::Empty)));
    }
    assert!(matches!(
        ended(OperationOutcome::DeleteList(Ok(()))),
        Message::Tasks(TasksAction::ListDeleted(Ok(())))
    ));
    assert!(matches!(
        ended(OperationOutcome::CreateTask(Err(e()))),
        Message::Tasks(TasksAction::TaskCreated(Err(_)))
    ));
    assert!(matches!(
        ended(OperationOutcome::UpdateTask(Ok(()))),
        Message::Tasks(TasksAction::TaskUpdated(Ok(())))
    ));
    assert!(matches!(
        ended(OperationOutcome::CreateChecklistItem(Err(e()))),
        Message::Tasks(TasksAction::ChecklistItemAdded(Err(_)))
    ));
    assert!(matches!(
        ended(OperationOutcome::UpdateChecklistItem(Err(e()))),
        Message::Tasks(TasksAction::ChecklistItemUpdated(Err(_)))
    ));
    assert!(matches!(
        ended(OperationOutcome::ToggleChecklistItem(Err(e()))),
        Message::Tasks(TasksAction::ChecklistItemToggled(Err(_)))
    ));
    assert!(matches!(
        ended(OperationOutcome::DeleteChecklistItem(Ok("i".to_string()))),
        Message::Tasks(TasksAction::ChecklistItemDeleted(Ok(_)))
    ));
    assert!(matches!(
        ended(OperationOutcome::FetchChecklistItems(Ok(vec![]))),
        Message::Tasks(TasksAction::ChecklistItemsFetched(Ok(_)))
    ));
}

#[test]
fn what_the_application_says_of_itself() {
    let about = About::new();
    assert_eq!(APP_ID, "com.github.digit1024.ms-todo-app");
    assert_eq!(SYNC_NOTICE, "Syncing with Microsoft Todo...");
    assert_eq!((about.name, about.version, about.license), ("tasks", "1.0.0", "GPL-3.0-only"));
    assert_eq!(about.links.len(), 6);
    assert_eq!(about.links[3], ("support", "https://github.com/digit1024/msToDO/issues"));
    assert_eq!(about.developers[0], ("Eduardo Flores", "edfloreshz@proton.me"));
    assert!(about.author.starts_with("Eduardo Flores"));
    assert!(about.comments.starts_with("I want to thank"));
}

#[test]
fn messages_and_storage_are_copied() {
    let lists = vec![list("a", "A"), list("b", "B")];
    let message = Message::Tasks(TasksAction::ListsFetched(Ok(lists)));
    assert_eq!(format!("{:?}", message.clone()), format!("{:?}", message));
    let page = DialogPage::Rename(Some(3), "x".to_string());
    let message =
        Message::Application(ApplicationAction::Dialog(DialogAction::Open(page)));
    assert_eq!(format!("{:?}", message.clone()), format!("{:?}", message));
    let message = Message::Content(content::Message::SetTasks(vec![task("t", "a")]));
    assert_eq!(format!("{:?}", message.clone()), format!("{:?}", message));
    let mut storage = LocalStorage::new("com.example", Ok(())).unwrap();
    storage.update_cache_for_list("a", vec![task("t", "a")]);
    let copy = storage.clone();
    assert_eq!(format!("{:?}", copy), format!("{:?}", storage));
}
