//! How the application answers what happens: its state, and what becomes of it.

use vstd::prelude::*;

use crate::app::actions::{ApplicationActionView, NavMenuAction, TasksActionView};
use crate::app::config::{AppTheme, TasksConfig};
use crate::app::context::ContextPage;
use crate::app::dialog::{DateTimeInfo, DialogActionView, DialogPageView};
use crate::app::effects::EffectView;
use crate::app::error::Error;
use crate::app::nav;
use crate::app::nav::NavView;
use crate::app::operations::{OperationOutcomeView, StorageOperationView};
use crate::app::{AppEventView, MessageView};
use crate::pages::content::SortType;
use crate::pages::details::DetailsView;
use crate::pages::{content, details};
use crate::storage;
use crate::storage::checklist;
use crate::storage::models::{ChecklistItemView, ListView, TaskView};

verus! {

/// The state of the application.
pub struct AppView {
    pub nav: NavView,
    /// The tasks that are cached.
    pub cached: Seq<TaskView>,
    pub details: DetailsView,
    /// Whether the settings can be written.
    pub has_config_handler: bool,
    pub config: TasksConfig,
    /// What the drawer beside the tasks shows when it is open.
    pub context_page: ContextPage,
    /// Whether the drawer beside the tasks is open.
    pub show_context: bool,
    pub modifiers: u32,
    /// The dialogs that are open, of which the first is shown.
    pub dialog_pages: Seq<DialogPageView>,
    pub dialog_text_input: u64,
    pub running_operations: u32,
    pub max_operations: u32,
    pub main_window_id: Option<u64>,
    pub window_title: Option<Seq<char>>,
    /// The name of the application in the language of the user.
    pub tasks_label: Seq<char>,
}

/// What becomes of the application when it has handled something, and what it asks for then. What it
/// asks for is to be done in this order, each with all that follows from it before the next.
pub struct Turn {
    pub app: AppView,
    pub effects: Seq<EffectView>,
}

impl AppView {
    pub open spec fn well_formed(self) -> bool {
        self.nav.well_formed()
    }

    pub open spec fn turn(self, effects: Seq<EffectView>) -> Turn {
        Turn { app: self, effects }
    }

    /// With one more operation running.
    pub open spec fn started(self) -> AppView {
        AppView { running_operations: (self.running_operations + 1) as u32, ..self }
    }

    /// With one operation fewer running.
    pub open spec fn completed(self) -> AppView {
        if self.running_operations > 0 {
            AppView { running_operations: (self.running_operations - 1) as u32, ..self }
        } else {
            self
        }
    }

    /// Begins an operation that is not counted.
    pub open spec fn spawned(self, operation: StorageOperationView) -> Turn {
        self.turn(seq![EffectView::Spawn(operation)])
    }

    /// Begins an operation that is counted.
    pub open spec fn begun(self, operation: StorageOperationView) -> Turn {
        self.started().spawned(operation)
    }

    /// With the numbers of the tasks that each list shows on the day `today`.
    pub open spec fn counted(self, today: i32) -> AppView {
        AppView { nav: self.nav.counted(self.cached, today as int), ..self }
    }

    /// The title of the main window while `list` is chosen.
    pub open spec fn title_for(self, list: ListView) -> Seq<char> {
        list.name + " - "@ + self.tasks_label
    }

    /// Chooses the item `entity`.
    pub open spec fn selected(self, entity: u64) -> Turn {
        let chosen = AppView { nav: self.nav.activated(entity), ..self };
        match chosen.nav.data(entity) {
            Some(list) => AppView {
                window_title: if self.main_window_id is Some {
                    Some(self.title_for(list))
                } else {
                    self.window_title
                },
                ..chosen
            }.turn(seq![EffectView::UpdateContent(content::MessageView::SetList(Some(list)))]),
            None => chosen.turn(seq![]),
        }
    }

    /// Shows the lists that the service holds. If none is chosen, the first is chosen.
    pub open spec fn lists_fetched(self, lists: Seq<ListView>) -> Turn {
        let shown = AppView { nav: self.nav.with_lists(lists), ..self };
        let refresh = EffectView::RefreshCountsAfter(3000);
        if shown.nav.active_data() is None && shown.nav.items.len() > 0 {
            let turn = shown.selected(shown.nav.items[0].entity);
            turn.app.turn(seq![refresh] + turn.effects)
        } else {
            shown.turn(seq![refresh])
        }
    }

    /// Shows a list that is new, and chooses it.
    pub open spec fn list_added(self, list: ListView) -> Turn {
        AppView { nav: self.nav.inserted(list, false), ..self }.selected(self.nav.next_entity)
    }

    /// Deletes the list of the item `entity`, or the one that is chosen. The item that is chosen goes.
    pub open spec fn list_deleted(self, entity: Option<u64>) -> Turn {
        let turn = match self.nav.data_or_active(entity) {
            Some(list) => self.begun(StorageOperationView::DeleteList(list)),
            None => self.turn(seq![]),
        };
        match self.nav.active {
            Some(active) => Turn {
                app: AppView { nav: self.nav.removed(active), ..turn.app },
                effects: turn.effects,
            },
            None => turn,
        }
    }

    /// A task has changed: the tasks of the list that is chosen are fetched, and all are counted.
    pub open spec fn task_updated(self, today: i32) -> Turn {
        match self.nav.active_data() {
            Some(list) => self.started().counted(today).spawned(StorageOperationView::Tasks(list)),
            None => self.counted(today).turn(seq![]),
        }
    }

    /// After the service has added `task`, or not.
    pub open spec fn task_created(self, answer: Result<TaskView, Seq<char>>) -> Turn {
        match answer {
            Ok(task) => self.turn(
                seq![
                    EffectView::UpdateContent(content::MessageView::TaskCreated(task)),
                    EffectView::Dispatch(MessageView::RefreshCacheCounts),
                ],
            ),
            Err(_) => self.turn(seq![]),
        }
    }

    /// After the tasks of a list have come, or an error has.
    pub open spec fn tasks_fetched(self, answer: Result<Seq<TaskView>, Seq<char>>) -> Turn {
        match answer {
            Ok(tasks) => self.turn(
                seq![EffectView::UpdateContent(content::MessageView::SetTasks(tasks))],
            ),
            Err(_) => self.turn(seq![]),
        }
    }

    /// Asks for a step to be added to the task whose details are shown. What was written of its title
    /// is cleared.
    pub open spec fn item_addition(self, title: Seq<char>) -> Turn {
        AppView {
            details: DetailsView { new_checklist_item_text: Seq::empty(), ..self.details },
            ..self
        }.begun(StorageOperationView::CreateChecklistItem(self.details.task, title))
    }

    /// With other steps of the task whose details are shown, or with the mark of an error.
    pub open spec fn items_answered(
        self,
        answer: Result<Seq<ChecklistItemView>, Seq<char>>,
    ) -> AppView {
        AppView { details: self.details.answered(answer), ..self }
    }

    /// After the service has added a step to the task whose details are shown, or not.
    pub open spec fn item_added(self, answer: Result<ChecklistItemView, Seq<char>>) -> AppView {
        self.items_answered(
            match answer {
                Ok(item) => Ok(self.details.task.checklist_items.push(item)),
                Err(error) => Err(error),
            },
        )
    }

    /// After the service has changed a step of the task whose details are shown, or not.
    pub open spec fn item_changed(self, answer: Result<ChecklistItemView, Seq<char>>) -> AppView {
        self.items_answered(
            match answer {
                Ok(item) => Ok(checklist::with_item(self.details.task.checklist_items, item)),
                Err(error) => Err(error),
            },
        )
    }

    /// After the service has deleted a step of the task whose details are shown, or not.
    pub open spec fn item_deleted(self, answer: Result<Seq<char>, Seq<char>>) -> AppView {
        self.items_answered(
            match answer {
                Ok(item_id) => Ok(
                    checklist::without_item(self.details.task.checklist_items, item_id),
                ),
                Err(error) => Err(error),
            },
        )
    }

    /// Whether one more operation can be counted.
    pub open spec fn can_start(self) -> bool {
        self.running_operations < u32::MAX
    }
}

/// Whether `action` can be handled: the operations can be counted, and the items numbered.
pub open spec fn accepts_tasks(app: AppView, action: TasksActionView) -> bool {
    match action {
        TasksActionView::FetchLists
        | TasksActionView::FetchListsAsync
        | TasksActionView::CreateTaskAsync(_)
        | TasksActionView::UpdateTaskAsync(_)
        | TasksActionView::DeleteTaskAsync(_)
        | TasksActionView::DeleteListAsync(_)
        | TasksActionView::FetchTasksAsync(_)
        | TasksActionView::RefreshListAsync(_)
        | TasksActionView::AddChecklistItemAsync(_)
        | TasksActionView::FetchChecklistItemsAsync(_) => app.can_start(),
        TasksActionView::DeleteList(entity) => {
            app.nav.data_or_active(entity) is Some ==> app.can_start()
        },
        TasksActionView::ListsFetched(Ok(lists)) => nav::has_numbers_for(app.nav, lists),
        TasksActionView::AddList(_) => app.nav.next_entity < u64::MAX,
        _ => true,
    }
}

/// Whether `action` is about the steps of the task whose details are shown.
pub open spec fn is_checklist_action(action: TasksActionView) -> bool {
    ||| action is AddChecklistItemAsync
    ||| action is ChecklistItemAdded
    ||| action is UpdateChecklistItemAsync
    ||| action is ChecklistItemUpdated
    ||| action is ToggleChecklistItemAsync
    ||| action is ChecklistItemToggled
    ||| action is DeleteChecklistItemAsync
    ||| action is ChecklistItemDeleted
    ||| action is FetchChecklistItemsAsync
    ||| action is ChecklistItemsFetched
}

/// Handles what is to be done with lists and tasks, and what has become of it.
pub open spec fn tasks_turn(app: AppView, action: TasksActionView, today: i32) -> Turn {
    match action {
        TasksActionView::FetchLists => app.begun(StorageOperationView::Lists),
        TasksActionView::FetchListsAsync => app.begun(StorageOperationView::Lists),
        TasksActionView::ListsFetched(Ok(lists)) => app.completed().lists_fetched(lists),
        TasksActionView::ListsFetched(Err(_)) => app.completed().turn(seq![]),
        TasksActionView::AddList(list) => app.list_added(list),
        TasksActionView::DeleteList(entity) => app.list_deleted(entity),
        TasksActionView::CreateTaskAsync(task) => app.begun(
            StorageOperationView::CreateTask(app.nav.routed(task)),
        ),
        TasksActionView::TaskCreated(answer) => app.completed().task_created(answer),
        TasksActionView::UpdateTaskAsync(task) => app.begun(StorageOperationView::UpdateTask(task)),
        TasksActionView::TaskUpdated(Ok(_)) => app.completed().task_updated(today),
        TasksActionView::TaskUpdated(Err(_)) => app.completed().turn(seq![]),
        TasksActionView::DeleteTaskAsync(task) => app.begun(StorageOperationView::DeleteTask(task)),
        TasksActionView::TaskDeleted(Ok(_)) => app.completed().counted(today).turn(seq![]),
        TasksActionView::TaskDeleted(Err(_)) => app.completed().turn(seq![]),
        TasksActionView::DeleteListAsync(list) => app.begun(StorageOperationView::DeleteList(list)),
        TasksActionView::ListDeleted(_) => app.completed().turn(seq![]),
        TasksActionView::FetchTasksAsync(list) => app.begun(StorageOperationView::Tasks(list)),
        TasksActionView::RefreshListAsync(list) => app.begun(
            StorageOperationView::RefreshTasks(list),
        ),
        TasksActionView::TasksFetched(answer) => app.completed().tasks_fetched(answer),
        TasksActionView::AddChecklistItemAsync(title) => app.item_addition(title),
        TasksActionView::ChecklistItemAdded(answer) => app.completed().item_added(answer).turn(
            seq![],
        ),
        TasksActionView::UpdateChecklistItemAsync(item_id, title) => app.spawned(
            StorageOperationView::UpdateChecklistItem(app.details.task, item_id, title),
        ),
        TasksActionView::ChecklistItemUpdated(answer) => app.completed().item_changed(answer).turn(
            seq![],
        ),
        TasksActionView::ToggleChecklistItemAsync(item_id) => app.spawned(
            StorageOperationView::ToggleChecklistItem(app.details.task, item_id),
        ),
        TasksActionView::ChecklistItemToggled(answer) => app.item_changed(answer).turn(seq![]),
        TasksActionView::DeleteChecklistItemAsync(item_id) => app.spawned(
            StorageOperationView::DeleteChecklistItem(app.details.task, item_id),
        ),
        TasksActionView::ChecklistItemDeleted(answer) => app.item_deleted(answer).turn(seq![]),
        TasksActionView::FetchChecklistItemsAsync(_) => app.begun(
            StorageOperationView::FetchChecklistItems(app.details.task),
        ),
        TasksActionView::ChecklistItemsFetched(answer) => app.completed().items_answered(
            answer,
        ).turn(seq![]),
    }
}

impl AppView {
    /// Without the dialog that is shown.
    pub open spec fn dialog_closed(self) -> AppView {
        if self.dialog_pages.len() > 0 {
            AppView { dialog_pages: self.dialog_pages.drop_first(), ..self }
        } else {
            self
        }
    }

    /// With a dialog behind those that are open, and the focus on its text. A dialog that asks for
    /// another name of a list begins with the name that the list has, and needs a list.
    pub open spec fn dialog_opened(self, page: DialogPageView) -> Turn {
        let opened = match page {
            DialogPageView::Rename(entity, _) => match self.nav.data_or_active(entity) {
                Some(list) => self.dialog_pages.push(DialogPageView::Rename(entity, list.name)),
                None => self.dialog_pages,
            },
            _ => self.dialog_pages.push(page),
        };
        AppView { dialog_pages: opened, ..self }.turn(
            seq![EffectView::Focus(self.dialog_text_input)],
        )
    }

    /// Gives the list of the item `entity`, or the one that is chosen, the name `name`. The text of
    /// the item that is chosen becomes that name.
    pub open spec fn renamed(self, entity: Option<u64>, name: Seq<char>) -> Turn {
        let place = match entity {
            Some(entity) => Some(entity),
            None => self.nav.active,
        };
        match self.nav.data_or_active(entity) {
            Some(list) => {
                let list = ListView { name, ..list };
                let nav = self.nav.data_set(place->0, list);
                let nav = match nav.active {
                    Some(active) => nav.text_set(active, name),
                    None => nav,
                };
                AppView { nav, ..self }.turn(
                    seq![
                        EffectView::Spawn(StorageOperationView::UpdateList(list)),
                        EffectView::UpdateContent(content::MessageView::SetList(Some(list))),
                    ],
                )
            },
            None => self.turn(seq![]),
        }
    }

    /// Does what the dialog `page` is for.
    pub open spec fn dialog_completed(self, page: DialogPageView) -> Turn {
        match page {
            DialogPageView::New(name) => self.spawned(
                StorageOperationView::CreateList(ListView::named(name)),
            ),
            DialogPageView::Rename(entity, name) => self.renamed(entity, name),
            DialogPageView::Delete(entity) => self.list_deleted(entity),
            DialogPageView::Calendar(info) => self.turn(
                seq![
                    EffectView::UpdateDetails(
                        details::Message::SetDueDate(info.spec_seconds() as i64),
                    ),
                ],
            ),
            DialogPageView::ReminderCalendar(info) => self.turn(
                seq![
                    EffectView::UpdateDetails(
                        details::Message::SetReminderDate(info.spec_seconds() as i64),
                    ),
                ],
            ),
            DialogPageView::Export(text) => self.turn(seq![EffectView::CopyToClipboard(text)]),
        }
    }

    /// Shows `page` in the drawer beside the tasks, or closes the drawer if it shows that page.
    pub open spec fn context_page_toggled(self, page: ContextPage) -> Turn {
        if self.context_page == page {
            self.context_drawer_toggled()
        } else {
            AppView { context_page: page, show_context: true, ..self }.context_told()
        }
    }

    /// Opens the drawer beside the tasks, or closes it.
    pub open spec fn context_drawer_toggled(self) -> Turn {
        AppView { show_context: !self.show_context, ..self }.context_told()
    }

    /// Tells the page that shows the tasks whether the drawer is open.
    pub open spec fn context_told(self) -> Turn {
        self.turn(
            seq![EffectView::UpdateContent(content::MessageView::ContextMenuOpen(self.show_context))],
        )
    }

    /// Tells the page that shows the tasks in which order to show them.
    pub open spec fn sorted(self, sort: SortType) -> Turn {
        self.turn(seq![EffectView::UpdateContent(content::MessageView::SetSort(sort))])
    }
}

/// Whether `action` can be handled: there is a dialog to change, and operations can be counted.
pub open spec fn accepts_dialog(app: AppView, action: DialogActionView) -> bool {
    match action {
        DialogActionView::Update(_) => app.dialog_pages.len() > 0,
        DialogActionView::Complete => {
            app.dialog_pages.len() > 0 && app.dialog_pages[0] is Delete ==> accepts_tasks(
                app,
                TasksActionView::DeleteList(app.dialog_pages[0]->Delete_0),
            )
        },
        _ => true,
    }
}

/// Handles what is done with the dialogs.
pub open spec fn dialog_turn(app: AppView, action: DialogActionView) -> Turn {
    match action {
        DialogActionView::Open(page) => app.dialog_opened(page),
        DialogActionView::Update(page) => AppView {
            dialog_pages: app.dialog_pages.update(0, page),
            ..app
        }.turn(seq![]),
        DialogActionView::Close => app.dialog_closed().turn(seq![]),
        DialogActionView::Complete => if app.dialog_pages.len() > 0 {
            app.dialog_closed().dialog_completed(app.dialog_pages[0])
        } else {
            app.turn(seq![])
        },
        DialogActionView::Nothing => app.turn(seq![]),
    }
}

/// Whether `action` can be handled.
pub open spec fn accepts_application(app: AppView, action: ApplicationActionView) -> bool {
    match action {
        ApplicationActionView::Dialog(action) => accepts_dialog(app, action),
        _ => true,
    }
}

/// Handles what is to be done with the application.
pub open spec fn application_turn(app: AppView, action: ApplicationActionView) -> Turn {
    match action {
        ApplicationActionView::WindowClose => match app.main_window_id {
            Some(window_id) => app.turn(seq![EffectView::CloseWindow(window_id)]),
            None => app.turn(seq![]),
        },
        ApplicationActionView::WindowNew => app.turn(seq![EffectView::OpenWindow]),
        ApplicationActionView::AppTheme(position) => if app.has_config_handler {
            let app_theme = AppTheme::spec_at(position);
            AppView { config: TasksConfig { app_theme, ..app.config }, ..app }.turn(
                seq![EffectView::StoreTheme(app_theme)],
            )
        } else {
            app.turn(seq![])
        },
        ApplicationActionView::ToggleHideCompleted(hide_completed) => if app.has_config_handler {
            let config = TasksConfig { hide_completed, ..app.config };
            AppView { config, ..app }.turn(
                seq![
                    EffectView::StoreHideCompleted(hide_completed),
                    EffectView::UpdateContent(content::MessageView::SetConfig(config)),
                ],
            )
        } else {
            app.turn(seq![])
        },
        ApplicationActionView::SystemThemeModeChange => app.turn(
            seq![EffectView::SetTheme(app.config.app_theme)],
        ),
        ApplicationActionView::Key(modifiers, key) => app.turn(
            seq![EffectView::FindBindings(modifiers, key)],
        ),
        ApplicationActionView::Modifiers(modifiers) => AppView { modifiers, ..app }.turn(seq![]),
        ApplicationActionView::NavMenuAction(NavMenuAction::Rename(entity)) => app.dialog_opened(
            DialogPageView::Rename(Some(entity), Seq::empty()),
        ),
        ApplicationActionView::NavMenuAction(NavMenuAction::Export(entity)) => {
            match app.nav.data(entity) {
                Some(list) => app.spawned(
            StorageOperationView::ExportTasks(list),
        ),
                None => app.turn(seq![]),
            }
        },
        ApplicationActionView::NavMenuAction(NavMenuAction::Delete(entity)) => app.dialog_opened(
            DialogPageView::Delete(Some(entity)),
        ),
        ApplicationActionView::ToggleContextPage(page) => app.context_page_toggled(page),
        ApplicationActionView::ToggleContextDrawer => app.context_drawer_toggled(),
        ApplicationActionView::Dialog(action) => dialog_turn(app, action),
        ApplicationActionView::Focus(id) => app.turn(seq![EffectView::Focus(id)]),
        ApplicationActionView::SortByNameAsc => app.sorted(SortType::NameAsc),
        ApplicationActionView::SortByNameDesc => app.sorted(SortType::NameDesc),
        ApplicationActionView::SortByDateAsc => app.sorted(SortType::DateAsc),
        ApplicationActionView::SortByDateDesc => app.sorted(SortType::DateDesc),
    }
}

/// Whether what the page that shows the tasks asks for can be handled.
pub open spec fn accepts_content(app: AppView, output: content::OutputView) -> bool {
    match output {
        content::OutputView::OpenTaskDetails(task) => task.id.len() > 0 ==> app.can_start(),
        content::OutputView::Focus(_) | content::OutputView::ToggleHideCompleted(_) => true,
        _ => app.can_start(),
    }
}

impl AppView {
    /// Shows the details of `task`, and fetches its steps if the service knows it.
    pub open spec fn details_opened(self, task: TaskView) -> Turn {
        let opened = AppView { details: self.details.opened(task), ..self };
        let priority = seq![EffectView::ActivatePriority(task.priority.spec_position())];
        let fetched = if task.id.len() > 0 {
            opened.begun(StorageOperationView::FetchChecklistItems(task))
        } else {
            opened.turn(seq![])
        };
        let shown = fetched.app.context_page_toggled(ContextPage::TaskDetails);
        shown.app.turn(priority + fetched.effects + shown.effects)
    }

    /// Shows the tasks of `list`, where the list that is chosen hides its completed tasks from now on
    /// if `list` does.
    pub open spec fn hide_completed_toggled(self, list: ListView) -> Turn {
        match self.nav.active_data() {
            Some(data) => AppView {
                nav: self.nav.data_set(
                    self.nav.active->0,
                    ListView { hide_completed: list.hide_completed, ..data },
                ),
                ..self
            }.spawned(StorageOperationView::ToggledTasks(list)),
            None => self.turn(seq![]),
        }
    }
}

/// Handles what the page that shows the tasks asks for.
pub open spec fn content_turn(app: AppView, output: content::OutputView) -> Turn {
    match output {
        content::OutputView::Focus(id) => app.turn(seq![EffectView::Focus(id)]),
        content::OutputView::FinishedTasksChanged => app.begun(StorageOperationView::Lists),
        content::OutputView::OpenTaskDetails(task) => app.details_opened(task),
        content::OutputView::ToggleHideCompleted(list) => app.hide_completed_toggled(list),
        content::OutputView::CreateTaskAsync(task) => app.begun(
            StorageOperationView::CreateTask(app.nav.routed(task)),
        ),
        content::OutputView::UpdateTaskAsync(task) => app.begun(
            StorageOperationView::UpdateTask(task),
        ),
        content::OutputView::DeleteTaskAsync(task) => app.begun(
            StorageOperationView::DeleteTask(task),
        ),
        content::OutputView::FetchTasksAsync(list) => app.begun(StorageOperationView::Tasks(list)),
        content::OutputView::RefreshListAsync(list) => app.begun(
            StorageOperationView::RefreshTasks(list),
        ),
    }
}

/// Whether what the page that shows the details of a task asks for can be handled.
pub open spec fn accepts_details(app: AppView, output: details::OutputView) -> bool {
    match output {
        details::OutputView::UpdateTaskAsync(_)
        | details::OutputView::AddChecklistItemAsync(_)
        | details::OutputView::FetchChecklistItems => app.can_start(),
        _ => true,
    }
}

/// Handles what the page that shows the details of a task asks for, on the day `today`.
pub open spec fn details_turn(app: AppView, output: details::OutputView, today: i32) -> Turn {
    match output {
        details::OutputView::OpenCalendarDialog => app.dialog_opened(
            DialogPageView::Calendar(DateTimeInfo { day: today, second_of_day: 0 }),
        ),
        details::OutputView::OpenReminderCalendarDialog => app.dialog_opened(
            DialogPageView::ReminderCalendar(DateTimeInfo { day: today, second_of_day: 0 }),
        ),
        details::OutputView::RefreshTask(task) => app.turn(
            seq![EffectView::UpdateContent(content::MessageView::RefreshTask(task))],
        ),
        details::OutputView::UpdateTaskAsync(task) => app.begun(
            StorageOperationView::UpdateTask(task),
        ),
        details::OutputView::AddChecklistItemAsync(title) => app.item_addition(title),
        details::OutputView::UpdateChecklistItemAsync(item_id, title) => app.spawned(
            StorageOperationView::UpdateChecklistItem(app.details.task, item_id, title),
        ),
        details::OutputView::ToggleChecklistItemAsync(item_id) => app.spawned(
            StorageOperationView::ToggleChecklistItem(app.details.task, item_id),
        ),
        details::OutputView::DeleteChecklistItemAsync(item_id) => app.spawned(
            StorageOperationView::DeleteChecklistItem(app.details.task, item_id),
        ),
        details::OutputView::FetchChecklistItems => app.begun(
            StorageOperationView::FetchChecklistItems(app.details.task),
        ),
    }
}

/// Whether `message` can be handled.
pub open spec fn accepts(app: AppView, message: MessageView) -> bool {
    match message {
        MessageView::Tasks(action) => accepts_tasks(app, action),
        MessageView::Application(action) => accepts_application(app, action),
        MessageView::OperationStarted => app.can_start(),
        _ => true,
    }
}

/// Handles a message on the day `today`.
pub open spec fn message_turn(app: AppView, message: MessageView, today: i32) -> Turn {
    match message {
        MessageView::Open(url) => app.turn(seq![EffectView::OpenUrl(url)]),
        MessageView::Content(message) => app.turn(seq![EffectView::UpdateContent(message)]),
        MessageView::Details(message) => app.turn(seq![EffectView::UpdateDetails(message)]),
        MessageView::Tasks(action) => tasks_turn(app, action, today),
        MessageView::Application(action) => application_turn(app, action),
        MessageView::OperationStarted => app.started().turn(seq![]),
        MessageView::OperationCompleted => app.completed().turn(seq![]),
        MessageView::OperationFailed => app.completed().turn(seq![]),
        MessageView::CacheUpdate(_) => app.counted(today).turn(seq![]),
        MessageView::RefreshCacheCounts => app.counted(today).turn(seq![]),
    }
}

/// Handles the messages that a key is bound to: all of them, in their order.
pub open spec fn bindings_turn(app: AppView, bound: Seq<MessageView>) -> Turn {
    app.turn(bound.map_values(|message: MessageView| EffectView::Dispatch(message)))
}

/// The message that an event leads to.
pub open spec fn event_message(event: AppEventView) -> Option<MessageView> {
    match event {
        AppEventView::KeyPressed(modifiers, key) => Some(
            MessageView::Application(ApplicationActionView::Key(modifiers, key)),
        ),
        AppEventView::ModifiersChanged(modifiers) => Some(
            MessageView::Application(ApplicationActionView::Modifiers(modifiers)),
        ),
        AppEventView::ConfigChanged | AppEventView::ThemeChanged => Some(
            MessageView::Application(ApplicationActionView::SystemThemeModeChange),
        ),
        AppEventView::Content(message) => Some(MessageView::Content(message)),
        AppEventView::Other => None,
    }
}

/// What an outcome is put into words with: the text of its error, and those of the list and the tasks
/// whose text is wanted.
pub struct WordingView {
    pub error: Seq<char>,
    pub list: Seq<char>,
    pub tasks: Seq<Seq<char>>,
}

/// `result` with `text` in the place of its error.
pub open spec fn worded<T>(result: Result<T, Error>, text: Seq<char>) -> Result<T, Seq<char>> {
    match result {
        Ok(value) => Ok(value),
        Err(_) => Err(text),
    }
}

/// The message that follows an operation of the storage.
pub open spec fn outcome_message(outcome: OperationOutcomeView, wording: WordingView) -> MessageView {
    let text = wording.error;
    let nothing = MessageView::Content(content::MessageView::Empty);
    match outcome {
        OperationOutcomeView::Lists(lists) => MessageView::Tasks(
            TasksActionView::ListsFetched(worded(lists, text)),
        ),
        OperationOutcomeView::Tasks(tasks) => MessageView::Tasks(
            TasksActionView::TasksFetched(worded(tasks, text)),
        ),
        OperationOutcomeView::ToggledTasks(Ok(tasks)) => MessageView::Content(
            content::MessageView::SetTasks(tasks),
        ),
        OperationOutcomeView::ToggledTasks(Err(_)) => nothing,
        OperationOutcomeView::ExportTasks(_, Ok(_)) => MessageView::Application(
            ApplicationActionView::Dialog(
                DialogActionView::Open(
                    DialogPageView::Export(storage::exported(wording.list, wording.tasks)),
                ),
            ),
        ),
        OperationOutcomeView::ExportTasks(_, Err(_)) => nothing,
        OperationOutcomeView::CreateList(Ok(list)) => MessageView::Tasks(
            TasksActionView::AddList(list),
        ),
        OperationOutcomeView::CreateList(Err(_)) => nothing,
        OperationOutcomeView::UpdateList(_) => nothing,
        OperationOutcomeView::DeleteList(done) => MessageView::Tasks(
            TasksActionView::ListDeleted(worded(done, text)),
        ),
        OperationOutcomeView::CreateTask(task) => MessageView::Tasks(
            TasksActionView::TaskCreated(worded(task, text)),
        ),
        OperationOutcomeView::UpdateTask(done) => MessageView::Tasks(
            TasksActionView::TaskUpdated(worded(done, text)),
        ),
        OperationOutcomeView::DeleteTask(done) => MessageView::Tasks(
            TasksActionView::TaskDeleted(worded(done, text)),
        ),
        OperationOutcomeView::CreateChecklistItem(item) => MessageView::Tasks(
            TasksActionView::ChecklistItemAdded(worded(item, text)),
        ),
        OperationOutcomeView::UpdateChecklistItem(item) => MessageView::Tasks(
            TasksActionView::ChecklistItemUpdated(worded(item, text)),
        ),
        OperationOutcomeView::ToggleChecklistItem(item) => MessageView::Tasks(
            TasksActionView::ChecklistItemToggled(worded(item, text)),
        ),
        OperationOutcomeView::DeleteChecklistItem(item_id) => MessageView::Tasks(
            TasksActionView::ChecklistItemDeleted(worded(item_id, text)),
        ),
        OperationOutcomeView::FetchChecklistItems(items) => MessageView::Tasks(
            TasksActionView::ChecklistItemsFetched(worded(items, text)),
        ),
    }
}

/// The application as it starts: no lists yet, which are then fetched, and no drawer or dialog.
pub open spec fn initial_turn(
    cached: Seq<TaskView>,
    details: DetailsView,
    has_config_handler: bool,
    config: TasksConfig,
    dialog_text_input: u64,
    main_window_id: Option<u64>,
    tasks_label: Seq<char>,
) -> Turn {
    let turn = AppView {
        nav: NavView::empty(),
        cached,
        details,
        has_config_handler,
        config,
        context_page: ContextPage::Settings,
        show_context: false,
        modifiers: 0,
        dialog_pages: Seq::empty(),
        dialog_text_input,
        running_operations: 0,
        max_operations: 1,
        main_window_id,
        window_title: if main_window_id is Some {
            Some(tasks_label)
        } else {
            None
        },
        tasks_label,
    }.begun(StorageOperationView::Lists);
    let title = match main_window_id {
        Some(window_id) => seq![EffectView::SetWindowTitle(window_id, tasks_label)],
        None => seq![],
    };
    turn.app.turn(turn.effects + title + seq![EffectView::ToggleNavBar])
}

impl AppView {
    /// What the drawer beside the tasks shows, if it is open.
    pub open spec fn shown_page(self) -> Option<ContextPage> {
        if self.show_context {
            Some(self.context_page)
        } else {
            None
        }
    }

    /// Without the dialog that is shown, or else without the drawer.
    pub open spec fn escaped(self) -> AppView {
        if self.dialog_pages.len() > 0 {
            self.dialog_closed()
        } else {
            AppView { show_context: false, ..self }
        }
    }
}

} // verus!
