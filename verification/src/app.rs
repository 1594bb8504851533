//! The application: it handles messages, and asks for what they lead to.
//!
//! What the application cannot do itself, it asks for by the effects that it hands out. They are to
//! be done in their order, each with all that follows from it before the next.

pub mod about;
pub mod actions;
pub mod channels;
pub mod config;
pub mod context;
pub mod dialog;
pub mod effects;
pub mod error;
pub mod laws;
pub mod model;
pub mod nav;
pub mod operations;
pub mod service;
pub mod surroundings;
pub mod turns;

use std::collections::VecDeque;
use vstd::prelude::*;
use vstd::string::*;

use crate::app::actions::{
    ApplicationAction, ApplicationActionView, NavMenuAction, TasksAction, TasksActionView,
};
use crate::app::channels::{CacheUpdateSignal, CacheUpdateSignalView};
use crate::app::config::{AppTheme, TasksConfig};
use crate::app::context::ContextPage;
use crate::app::dialog::{DateTimeInfo, DialogAction, DialogPage, DialogPageView};
use crate::app::effects::{Effect, EffectView};
use crate::app::error::Error;
use crate::app::model::{AppView, Turn, WordingView};
use crate::app::nav::NavModel;
use crate::app::operations::{OperationOutcome, StorageOperation, StorageOperationView};
use crate::clock;
use crate::pages::content::SortType;
use crate::pages::details::Details;
use crate::pages::{content, details};
use crate::storage::models::{ChecklistItem, List, Task};
use crate::storage::LocalStorage;

verus! {

/// The application.
#[derive(Debug)]
pub struct TasksApp {
    pub nav_model: NavModel,
    pub storage: LocalStorage,
    pub details: Details,
    /// Whether the settings can be written.
    pub has_config_handler: bool,
    pub config: TasksConfig,
    /// What the drawer beside the tasks shows when it is open.
    pub context_page: ContextPage,
    /// Whether the drawer beside the tasks is open.
    pub show_context: bool,
    /// The keys that are held down beside others.
    pub modifiers: u32,
    /// The dialogs that are open, of which the first is shown.
    pub dialog_pages: VecDeque<DialogPage>,
    /// The widget for text in a dialog.
    pub dialog_text_input: u64,
    pub running_operations: u32,
    pub max_operations: u32,
    pub main_window_id: Option<u64>,
    pub window_title: Option<String>,
    /// The name of the application in the language of the user.
    pub tasks_label: String,
}

impl View for TasksApp {
    type V = AppView;

    open spec fn view(&self) -> AppView {
        AppView {
            nav: self.nav_model@,
            cached: self.storage.task_cache@,
            details: self.details@,
            has_config_handler: self.has_config_handler,
            config: self.config,
            context_page: self.context_page,
            show_context: self.show_context,
            modifiers: self.modifiers,
            dialog_pages: self.dialog_pages.deep_view(),
            dialog_text_input: self.dialog_text_input,
            running_operations: self.running_operations,
            max_operations: self.max_operations,
            main_window_id: self.main_window_id,
            window_title: self.window_title.deep_view(),
            tasks_label: self.tasks_label@,
        }
    }
}

/// What the application handles.
#[derive(Debug)]
pub enum Message {
    Content(content::Message),
    Details(details::Message),
    Tasks(TasksAction),
    Application(ApplicationAction),
    /// To show a page of the web.
    Open(String),
    OperationStarted,
    OperationCompleted,
    OperationFailed,
    /// The cached tasks have changed.
    CacheUpdate(CacheUpdateSignal),
    /// To count the tasks of the lists anew.
    RefreshCacheCounts,
}

/// What a [`Message`] says.
pub enum MessageView {
    Content(content::MessageView),
    Details(details::Message),
    Tasks(TasksActionView),
    Application(ApplicationActionView),
    Open(Seq<char>),
    OperationStarted,
    OperationCompleted,
    OperationFailed,
    CacheUpdate(CacheUpdateSignalView),
    RefreshCacheCounts,
}

impl DeepView for Message {
    type V = MessageView;

    open spec fn deep_view(&self) -> MessageView {
        match self {
            Message::Content(message) => MessageView::Content(message@),
            Message::Details(message) => MessageView::Details(*message),
            Message::Tasks(action) => MessageView::Tasks(action@),
            Message::Application(action) => MessageView::Application(action@),
            Message::Open(url) => MessageView::Open(url@),
            Message::OperationStarted => MessageView::OperationStarted,
            Message::OperationCompleted => MessageView::OperationCompleted,
            Message::OperationFailed => MessageView::OperationFailed,
            Message::CacheUpdate(signal) => MessageView::CacheUpdate(signal@),
            Message::RefreshCacheCounts => MessageView::RefreshCacheCounts,
        }
    }
}

impl View for Message {
    type V = MessageView;

    open spec fn view(&self) -> MessageView {
        self.deep_view()
    }
}

impl Clone for Message {
    fn clone(&self) -> (r: Message)
        ensures
            r@ == self@,
    {
        match self {
            Message::Content(message) => Message::Content(message.clone()),
            Message::Details(message) => Message::Details(*message),
            Message::Tasks(action) => Message::Tasks(action.clone()),
            Message::Application(action) => Message::Application(action.clone()),
            Message::Open(url) => Message::Open(url.clone()),
            Message::OperationStarted => Message::OperationStarted,
            Message::OperationCompleted => Message::OperationCompleted,
            Message::OperationFailed => Message::OperationFailed,
            Message::CacheUpdate(signal) => Message::CacheUpdate(signal.clone()),
            Message::RefreshCacheCounts => Message::RefreshCacheCounts,
        }
    }
}

/// What an outcome is put into words with.
#[derive(Debug)]
pub struct Wording {
    /// The text of the error, if there is one.
    pub error: String,
    /// The text of the list whose text is wanted.
    pub list: String,
    /// The texts of its tasks.
    pub tasks: Vec<String>,
}

impl View for Wording {
    type V = WordingView;

    open spec fn view(&self) -> WordingView {
        WordingView { error: self.error@, list: self.list@, tasks: self.tasks.deep_view() }
    }
}

/// `result` with `text` in the place of its error.
fn worded<T>(result: Result<T, Error>, text: String) -> (r: Result<T, String>)
    ensures
        match result {
            Ok(value) => r == Ok::<T, String>(value),
            Err(_) => r == Err::<T, String>(text),
        },
{
    match result {
        Ok(value) => Ok(value),
        Err(_) => Err(text),
    }
}

/// What the application starts with.
#[derive(Debug)]
pub struct Flags {
    pub storage: LocalStorage,
    /// Whether the settings can be written.
    pub has_config_handler: bool,
    pub config: TasksConfig,
}

/// How far the operations that are running have come.
#[derive(Clone, Copy, Debug, PartialEq, Eq, Structural)]
pub enum Progress {
    /// So many of so many.
    Ratio(u32, u32),
    Indeterminate,
}

/// What the menu of an item offers.
#[derive(Clone, Copy, Debug)]
pub struct NavMenuItem {
    /// The key of its text in the language of the user.
    pub label: &'static str,
    pub icon: &'static str,
    pub icon_size: u16,
    pub action: NavMenuAction,
}

/// The menu of the item `id`.
pub open spec fn nav_menu(id: u64) -> Seq<NavMenuItem> {
    seq![
        NavMenuItem {
            label: "rename",
            icon: "edit-symbolic",
            icon_size: 14,
            action: NavMenuAction::Rename(id),
        },
        NavMenuItem {
            label: "export",
            icon: "share-symbolic",
            icon_size: 18,
            action: NavMenuAction::Export(id),
        },
        NavMenuItem {
            label: "delete",
            icon: "user-trash-full-symbolic",
            icon_size: 14,
            action: NavMenuAction::Delete(id),
        },
    ]
}

/// What happens around the application.
#[derive(Debug)]
pub enum AppEvent {
    /// The keys that were held down, and the key that was pressed.
    KeyPressed(u32, u32),
    ModifiersChanged(u32),
    ConfigChanged,
    ThemeChanged,
    /// The page that shows the tasks has been told something.
    Content(content::Message),
    Other,
}

/// What an [`AppEvent`] says.
pub enum AppEventView {
    KeyPressed(u32, u32),
    ModifiersChanged(u32),
    ConfigChanged,
    ThemeChanged,
    Content(content::MessageView),
    Other,
}

impl View for AppEvent {
    type V = AppEventView;

    open spec fn view(&self) -> AppEventView {
        match self {
            AppEvent::KeyPressed(modifiers, key) => AppEventView::KeyPressed(*modifiers, *key),
            AppEvent::ModifiersChanged(modifiers) => AppEventView::ModifiersChanged(*modifiers),
            AppEvent::ConfigChanged => AppEventView::ConfigChanged,
            AppEvent::ThemeChanged => AppEventView::ThemeChanged,
            AppEvent::Content(message) => AppEventView::Content(message@),
            AppEvent::Other => AppEventView::Other,
        }
    }
}

/// Whether `before` turned into `after`, with the given effects, as `turn` says. The items of the
/// application stay well-formed.
pub open spec fn turned(before: TasksApp, after: TasksApp, effects: Vec<Effect>, turn: Turn) -> bool {
    &&& after@ == turn.app
    &&& effects.deep_view() == turn.effects
    &&& before@.well_formed() ==> after@.well_formed()
}

impl TasksApp {
    /// Counts one more operation that is running.
    pub fn start_operation(&mut self)
        requires
            old(self)@.can_start(),
        ensures
            final(self)@ == old(self)@.started(),
    {
        self.running_operations = self.running_operations + 1;
    }

    /// Counts one operation fewer that is running.
    pub fn complete_operation(&mut self)
        ensures
            final(self)@ == old(self)@.completed(),
    {
        if self.running_operations > 0 {
            self.running_operations = self.running_operations - 1;
        }
    }

    /// The number of operations that are running.
    pub fn get_operation_count(&self) -> (n: u32)
        ensures
            n == self@.running_operations,
    {
        self.running_operations
    }

    /// Begins an operation that is counted.
    fn begin(&mut self, operation: StorageOperation) -> (effects: Vec<Effect>)
        requires
            old(self)@.can_start(),
        ensures
            turned(*old(self), *final(self), effects, old(self)@.begun(operation@)),
    {
        self.start_operation();
        effects::only(self.spawn_storage_operation(operation))
    }

    /// Asks for an operation of the storage.
    pub fn spawn_storage_operation(&self, operation: StorageOperation) -> (effect: Effect)
        ensures
            effect@ == EffectView::Spawn(operation@),
    {
        Effect::Spawn(operation)
    }

    /// The message that follows an operation of the storage.
    #[verifier::spinoff_prover]
    pub fn storage_operation_ended(outcome: OperationOutcome, wording: Wording) -> (message: Message)
        ensures
            message@ == model::outcome_message(outcome@, wording@),
    {
        let text = wording.error;
        match outcome {
            OperationOutcome::Lists(lists) => Message::Tasks(
                TasksAction::ListsFetched(worded(lists, text)),
            ),
            OperationOutcome::Tasks(tasks) => Message::Tasks(
                TasksAction::TasksFetched(worded(tasks, text)),
            ),
            OperationOutcome::ToggledTasks(Ok(tasks)) => Message::Content(
                content::Message::SetTasks(tasks),
            ),
            OperationOutcome::ToggledTasks(Err(_)) => Message::Content(content::Message::Empty),
            OperationOutcome::ExportTasks(_, Ok(_)) => {
                let text = LocalStorage::export_list(wording.list.as_str(), &wording.tasks);
                Message::Application(
                    ApplicationAction::Dialog(DialogAction::Open(DialogPage::Export(text))),
                )
            },
            OperationOutcome::ExportTasks(_, Err(_)) => Message::Content(content::Message::Empty),
            OperationOutcome::CreateList(Ok(list)) => Message::Tasks(TasksAction::AddList(list)),
            OperationOutcome::CreateList(Err(_)) => Message::Content(content::Message::Empty),
            OperationOutcome::UpdateList(_) => Message::Content(content::Message::Empty),
            OperationOutcome::DeleteList(done) => Message::Tasks(
                TasksAction::ListDeleted(worded(done, text)),
            ),
            OperationOutcome::CreateTask(task) => Message::Tasks(
                TasksAction::TaskCreated(worded(task, text)),
            ),
            OperationOutcome::UpdateTask(done) => Message::Tasks(
                TasksAction::TaskUpdated(worded(done, text)),
            ),
            OperationOutcome::DeleteTask(done) => Message::Tasks(
                TasksAction::TaskDeleted(worded(done, text)),
            ),
            OperationOutcome::CreateChecklistItem(item) => Message::Tasks(
                TasksAction::ChecklistItemAdded(worded(item, text)),
            ),
            OperationOutcome::UpdateChecklistItem(item) => Message::Tasks(
                TasksAction::ChecklistItemUpdated(worded(item, text)),
            ),
            OperationOutcome::ToggleChecklistItem(item) => Message::Tasks(
                TasksAction::ChecklistItemToggled(worded(item, text)),
            ),
            OperationOutcome::DeleteChecklistItem(item_id) => Message::Tasks(
                TasksAction::ChecklistItemDeleted(worded(item_id, text)),
            ),
            OperationOutcome::FetchChecklistItems(items) => Message::Tasks(
                TasksAction::ChecklistItemsFetched(worded(items, text)),
            ),
        }
    }

    /// Shows the lists that the service holds.
    pub fn update_lists(&mut self, lists: Vec<List>)
        requires
            nav::has_numbers_for(old(self)@.nav, lists.deep_view()),
        ensures
            final(self)@ == (AppView {
                nav: old(self)@.nav.with_lists(lists.deep_view()),
                ..old(self)@
            }),
            old(self)@.well_formed() ==> final(self)@.well_formed(),
            nav::has_distinct_lists(old(self)@.nav) ==> nav::adds_lists(
                old(self)@.nav,
                lists.deep_view(),
                final(self)@.nav,
            ),
            nav::has_distinct_lists(old(self)@.nav) ==> nav::has_numbers_for(
                final(self)@.nav,
                lists.deep_view(),
            ) && final(self)@.nav.with_lists(lists.deep_view()) == final(self)@.nav,
    {
        self.nav_model.show_all(&lists);
    }

    /// Adds an item for `list` behind the others and gives its number.
    pub fn create_nav_item(&mut self, list: &List) -> (entity: u64)
        requires
            old(self)@.nav.next_entity < u64::MAX,
        ensures
            entity == old(self)@.nav.next_entity,
            final(self)@ == (AppView {
                nav: old(self)@.nav.inserted(list@, false),
                ..old(self)@
            }),
            old(self)@.well_formed() ==> final(self)@.well_formed(),
    {
        self.nav_model.insert(list, false)
    }

    /// Shows beside each list how many tasks it shows on the day `today`.
    pub fn update_cache_counts_on(&mut self, today: i32)
        ensures
            final(self)@ == old(self)@.counted(today),
            old(self)@.well_formed() ==> final(self)@.well_formed(),
    {
        let all_tasks = self.storage.task_cache.get_all_tasks();
        let tasks = all_tasks.as_slice();
        assert(tasks.deep_view() =~= self@.cached);
        self.nav_model.count(tasks, today);
    }

    /// Shows beside each list how many tasks it shows as of now.
    pub fn update_cache_counts(&mut self)
        ensures
            exists|today: i32|
                clock::can_be_today(today) && final(self)@ == #[trigger] old(self)@.counted(today),
            old(self)@.well_formed() ==> final(self)@.well_formed(),
    {
        let today = clock::utc_today();
        self.update_cache_counts_on(today);
    }

    /// Chooses the item `entity`.
    pub fn on_nav_select(&mut self, entity: u64) -> (effects: Vec<Effect>)
        ensures
            turned(*old(self), *final(self), effects, old(self)@.selected(entity)),
    {
        self.nav_model.activate(entity);
        match self.nav_model.data(entity) {
            Some(list) => {
                if self.main_window_id.is_some() {
                    let mut title = list.name.clone();
                    title.append(" - ");
                    title.append(self.tasks_label.as_str());
                    self.window_title = Some(title);
                }
                effects::only(Effect::UpdateContent(content::Message::SetList(Some(list))))
            },
            None => effects::nothing(),
        }
    }

    /// Shows the lists that the service holds. If none is chosen, the first is chosen.
    fn lists_fetched(&mut self, lists: Vec<List>) -> (effects: Vec<Effect>)
        requires
            nav::has_numbers_for(old(self)@.nav, lists.deep_view()),
        ensures
            turned(*old(self), *final(self), effects, old(self)@.lists_fetched(lists.deep_view())),
    {
        self.update_lists(lists);
        let mut effects = effects::only(Effect::RefreshCountsAfter(3000));
        if self.nav_model.active_data().is_none() {
            let items = self.nav_model.items();
            if items.len() > 0 {
                let entity = items[0].entity;
                assert(entity == self@.nav.items[0].entity);
                let more = self.on_nav_select(entity);
                effects::append(&mut effects, more);
            }
        }
        effects
    }

    /// Shows a list that is new, and chooses it.
    fn list_added(&mut self, list: List) -> (effects: Vec<Effect>)
        requires
            old(self)@.nav.next_entity < u64::MAX,
        ensures
            turned(*old(self), *final(self), effects, old(self)@.list_added(list@)),
    {
        let entity = self.create_nav_item(&list);
        self.on_nav_select(entity)
    }

    /// Deletes the list of the item `entity`, or the one that is chosen.
    fn list_deleted(&mut self, entity: Option<u64>) -> (effects: Vec<Effect>)
        requires
            old(self)@.nav.data_or_active(entity) is Some ==> old(self)@.can_start(),
        ensures
            turned(*old(self), *final(self), effects, old(self)@.list_deleted(entity)),
    {
        let effects = match self.nav_model.data_or_active(entity) {
            Some(list) => self.begin(StorageOperation::DeleteList(list)),
            None => effects::nothing(),
        };
        if let Some(active) = self.nav_model.active() {
            self.nav_model.remove(active);
        }
        effects
    }

    /// Takes the word that a task has changed.
    fn task_updated(&mut self, today: i32) -> (effects: Vec<Effect>)
        requires
            old(self)@.can_start(),
        ensures
            turned(*old(self), *final(self), effects, old(self)@.task_updated(today)),
    {
        let effects = match self.nav_model.active_data() {
            Some(list) => self.begin(StorageOperation::Tasks(list)),
            None => effects::nothing(),
        };
        self.update_cache_counts_on(today);
        effects
    }

    /// Asks for a step to be added to the task whose details are shown.
    fn add_checklist_item(&mut self, title: String) -> (effects: Vec<Effect>)
        requires
            old(self)@.can_start(),
        ensures
            turned(*old(self), *final(self), effects, old(self)@.item_addition(title@)),
    {
        let operation = StorageOperation::CreateChecklistItem(self.details.task.clone(), title);
        self.details.new_checklist_item_text = String::new();
        self.begin(operation)
    }

    /// Asks for another title of a step of the task whose details are shown.
    fn rename_checklist_item(&self, item_id: String, new_title: String) -> (effects: Vec<Effect>)
        ensures
            effects.deep_view() == self@.spawned(
                StorageOperationView::UpdateChecklistItem(
                    self@.details.task,
                    item_id@,
                    new_title@,
                ),
            ).effects,
    {
        let task = self.details.task.clone();
        effects::only(
            self.spawn_storage_operation(
                StorageOperation::UpdateChecklistItem(task, item_id, new_title),
            ),
        )
    }

    /// Asks for a step of the task whose details are shown to be checked, or unchecked.
    fn toggle_checklist_item(&self, item_id: String) -> (effects: Vec<Effect>)
        ensures
            effects.deep_view() == self@.spawned(
                StorageOperationView::ToggleChecklistItem(self@.details.task, item_id@),
            ).effects,
    {
        let task = self.details.task.clone();
        effects::only(
            self.spawn_storage_operation(StorageOperation::ToggleChecklistItem(task, item_id)),
        )
    }

    /// Asks for a step of the task whose details are shown to be deleted.
    fn delete_checklist_item(&self, item_id: String) -> (effects: Vec<Effect>)
        ensures
            effects.deep_view() == self@.spawned(
                StorageOperationView::DeleteChecklistItem(self@.details.task, item_id@),
            ).effects,
    {
        let task = self.details.task.clone();
        effects::only(
            self.spawn_storage_operation(StorageOperation::DeleteChecklistItem(task, item_id)),
        )
    }

    /// Asks for the steps of the task whose details are shown.
    fn fetch_checklist_items(&mut self) -> (effects: Vec<Effect>)
        requires
            old(self)@.can_start(),
        ensures
            turned(
                *old(self),
                *final(self),
                effects,
                old(self)@.begun(StorageOperationView::FetchChecklistItems(old(self)@.details.task)),
            ),
    {
        let task = self.details.task.clone();
        self.begin(StorageOperation::FetchChecklistItems(task))
    }

    /// Takes a step that the service has added to the task whose details are shown.
    fn checklist_item_added(&mut self, result: Result<ChecklistItem, String>)
        ensures
            final(self)@ == old(self)@.item_added(actions::answer_view(result)),
    {
        match result {
            Ok(item) => self.details.item_added(item),
            Err(error) => self.details.mark_failed(error),
        }
    }

    /// Takes a step that the service has changed in the task whose details are shown.
    fn checklist_item_changed(&mut self, result: Result<ChecklistItem, String>)
        ensures
            final(self)@ == old(self)@.item_changed(actions::answer_view(result)),
    {
        match result {
            Ok(item) => self.details.item_changed(item),
            Err(error) => self.details.mark_failed(error),
        }
    }

    /// Takes the word of the service on a step of the task whose details are shown.
    fn checklist_item_deleted(&mut self, result: Result<String, String>)
        ensures
            final(self)@ == old(self)@.item_deleted(actions::answer_view(result)),
    {
        match result {
            Ok(item_id) => self.details.item_deleted(&item_id),
            Err(error) => self.details.mark_failed(error),
        }
    }

    /// Takes the steps of the task whose details are shown.
    fn checklist_items_fetched(&mut self, result: Result<Vec<ChecklistItem>, String>)
        ensures
            final(self)@ == old(self)@.items_answered(actions::answer_view(result)),
    {
        match result {
            Ok(items) => self.details.items_fetched(items),
            Err(error) => self.details.mark_failed(error),
        }
    }

    /// Takes the lists that the service holds, or the error that came instead.
    fn lists_answered(&mut self, result: Result<Vec<List>, String>) -> (effects: Vec<Effect>)
        requires
            result matches Ok(lists) ==> nav::has_numbers_for(old(self)@.nav, lists.deep_view()),
        ensures
            turned(
                *old(self),
                *final(self),
                effects,
                match actions::answer_view(result) {
                    Ok(lists) => old(self)@.completed().lists_fetched(lists),
                    Err(_) => old(self)@.completed().turn(seq![]),
                },
            ),
    {
        self.complete_operation();
        match result {
            Ok(lists) => self.lists_fetched(lists),
            Err(_) => effects::nothing(),
        }
    }

    /// Takes a task that the service has added, or the error that came instead.
    fn task_created(&mut self, result: Result<Task, String>) -> (effects: Vec<Effect>)
        ensures
            turned(
                *old(self),
                *final(self),
                effects,
                old(self)@.completed().task_created(actions::answer_view(result)),
            ),
    {
        self.complete_operation();
        match result {
            Ok(task) => effects::both(
                Effect::UpdateContent(content::Message::TaskCreated(task)),
                Effect::Dispatch(Message::RefreshCacheCounts),
            ),
            Err(_) => effects::nothing(),
        }
    }

    /// Takes the tasks of a list, or the error that came instead.
    fn tasks_fetched(&mut self, result: Result<Vec<Task>, String>) -> (effects: Vec<Effect>)
        ensures
            turned(
                *old(self),
                *final(self),
                effects,
                old(self)@.completed().tasks_fetched(actions::answer_view(result)),
            ),
    {
        self.complete_operation();
        match result {
            Ok(tasks) => effects::only(Effect::UpdateContent(content::Message::SetTasks(tasks))),
            Err(_) => effects::nothing(),
        }
    }

    /// Takes the word of the service on a task that was to be changed.
    fn task_update_answered(&mut self, result: Result<(), String>, today: i32) -> (effects: Vec<
        Effect,
    >)
        ensures
            turned(
                *old(self),
                *final(self),
                effects,
                if result is Ok {
                    old(self)@.completed().task_updated(today)
                } else {
                    old(self)@.completed().turn(seq![])
                },
            ),
    {
        self.complete_operation();
        match result {
            Ok(_) => self.task_updated(today),
            Err(_) => effects::nothing(),
        }
    }

    /// Takes the word of the service on a task that was to be deleted.
    fn task_deletion_answered(&mut self, result: Result<(), String>, today: i32)
        ensures
            final(self)@ == (if result is Ok {
                old(self)@.completed().counted(today)
            } else {
                old(self)@.completed()
            }),
            old(self)@.well_formed() ==> final(self)@.well_formed(),
    {
        self.complete_operation();
        if result.is_ok() {
            self.update_cache_counts_on(today);
        }
    }

    /// Handles what is to be done with the steps of the task whose details are shown, and what has
    /// become of it.
    #[verifier::spinoff_prover]
    #[verifier::rlimit(40)]
    fn update_checklist(&mut self, tasks_action: TasksAction, today: i32) -> (effects: Vec<Effect>)
        requires
            model::is_checklist_action(tasks_action@),
            model::accepts_tasks(old(self)@, tasks_action@),
        ensures
            turned(
                *old(self),
                *final(self),
                effects,
                model::tasks_turn(old(self)@, tasks_action@, today),
            ),
    {
        match tasks_action {
            TasksAction::AddChecklistItemAsync(title) => self.add_checklist_item(title),
            TasksAction::ChecklistItemAdded(result) => {
                self.complete_operation();
                self.checklist_item_added(result);
                effects::nothing()
            },
            TasksAction::UpdateChecklistItemAsync(item_id, new_title) => {
                self.rename_checklist_item(item_id, new_title)
            },
            TasksAction::ChecklistItemUpdated(result) => {
                self.complete_operation();
                self.checklist_item_changed(result);
                effects::nothing()
            },
            TasksAction::ToggleChecklistItemAsync(item_id) => self.toggle_checklist_item(item_id),
            TasksAction::ChecklistItemToggled(result) => {
                self.checklist_item_changed(result);
                effects::nothing()
            },
            TasksAction::DeleteChecklistItemAsync(item_id) => self.delete_checklist_item(item_id),
            TasksAction::ChecklistItemDeleted(result) => {
                self.checklist_item_deleted(result);
                effects::nothing()
            },
            TasksAction::FetchChecklistItemsAsync(_) => self.fetch_checklist_items(),
            TasksAction::ChecklistItemsFetched(result) => {
                self.complete_operation();
                self.checklist_items_fetched(result);
                effects::nothing()
            },
            _ => effects::nothing(),
        }
    }

    /// Handles what is to be done with lists and tasks, and what has become of it, on the day
    /// `today`.
    #[verifier::spinoff_prover]
    #[verifier::rlimit(40)]
    pub fn update_tasks(&mut self, tasks_action: TasksAction, today: i32) -> (effects: Vec<Effect>)
        requires
            model::accepts_tasks(old(self)@, tasks_action@),
        ensures
            turned(
                *old(self),
                *final(self),
                effects,
                model::tasks_turn(old(self)@, tasks_action@, today),
            ),
    {
        match tasks_action {
            TasksAction::FetchLists => self.begin(StorageOperation::Lists),
            TasksAction::FetchListsAsync => self.begin(StorageOperation::Lists),
            TasksAction::ListsFetched(result) => self.lists_answered(result),
            TasksAction::AddList(list) => self.list_added(list),
            TasksAction::DeleteList(entity) => self.list_deleted(entity),
            TasksAction::CreateTaskAsync(task) => {
                let task = self.nav_model.route(task);
                self.begin(StorageOperation::CreateTask(task))
            },
            TasksAction::TaskCreated(result) => self.task_created(result),
            TasksAction::UpdateTaskAsync(task) => self.begin(StorageOperation::UpdateTask(task)),
            TasksAction::TaskUpdated(result) => self.task_update_answered(result, today),
            TasksAction::DeleteTaskAsync(task) => self.begin(StorageOperation::DeleteTask(task)),
            TasksAction::TaskDeleted(result) => {
                self.task_deletion_answered(result, today);
                effects::nothing()
            },
            TasksAction::DeleteListAsync(list) => self.begin(StorageOperation::DeleteList(list)),
            TasksAction::ListDeleted(_) => {
                self.complete_operation();
                effects::nothing()
            },
            TasksAction::FetchTasksAsync(list) => self.begin(StorageOperation::Tasks(list)),
            TasksAction::RefreshListAsync(list) => self.begin(StorageOperation::RefreshTasks(list)),
            TasksAction::TasksFetched(result) => self.tasks_fetched(result),
            tasks_action => self.update_checklist(tasks_action, today),
        }
    }

    /// Opens a dialog behind those that are open, and puts the focus on its text.
    fn open_dialog(&mut self, page: DialogPage) -> (effects: Vec<Effect>)
        ensures
            turned(*old(self), *final(self), effects, old(self)@.dialog_opened(page@)),
    {
        let ghost before = self.dialog_pages.deep_view();
        match page {
            DialogPage::Rename(entity, _) => {
                if let Some(list) = self.nav_model.data_or_active(entity) {
                    self.dialog_pages.push_back(DialogPage::Rename(entity, list.name));
                    assert(self.dialog_pages.deep_view() =~= before.push(
                        DialogPageView::Rename(entity, list@.name),
                    ));
                }
            },
            page => {
                self.dialog_pages.push_back(page);
                assert(self.dialog_pages.deep_view() =~= before.push(page@));
            },
        }
        effects::only(Effect::Focus(self.dialog_text_input))
    }

    /// Takes away the dialog that is shown.
    fn close_dialog(&mut self) -> (page: Option<DialogPage>)
        ensures
            final(self)@ == old(self)@.dialog_closed(),
            page.deep_view() == (if old(self)@.dialog_pages.len() > 0 {
                Some(old(self)@.dialog_pages[0])
            } else {
                None
            }),
    {
        let ghost before = self.dialog_pages.deep_view();
        let page = self.dialog_pages.pop_front();
        assert(before.len() > 0 ==> self.dialog_pages.deep_view() =~= before.drop_first());
        page
    }

    /// Gives a list another name.
    fn rename(&mut self, entity: Option<u64>, name: String) -> (effects: Vec<Effect>)
        ensures
            turned(*old(self), *final(self), effects, old(self)@.renamed(entity, name@)),
    {
        let place = match entity {
            Some(entity) => Some(entity),
            None => self.nav_model.active(),
        };
        match (self.nav_model.data_or_active(entity), place) {
            (Some(list), Some(place)) => {
                let mut list = list;
                list.name = name.clone();
                self.nav_model.data_set(place, list.clone());
                if let Some(active) = self.nav_model.active() {
                    self.nav_model.text_set(active, name);
                }
                let update = self.spawn_storage_operation(
                    StorageOperation::UpdateList(list.clone()),
                );
                effects::both(
                    update,
                    Effect::UpdateContent(content::Message::SetList(Some(list))),
                )
            },
            _ => effects::nothing(),
        }
    }

    /// Does what a dialog is for.
    fn complete_dialog(&mut self, page: DialogPage) -> (effects: Vec<Effect>)
        requires
            page@ is Delete && old(self)@.nav.data_or_active(page@->Delete_0) is Some
                ==> old(self)@.can_start(),
        ensures
            turned(*old(self), *final(self), effects, old(self)@.dialog_completed(page@)),
    {
        match page {
            DialogPage::New(name) => {
                let list = List::new(name.as_str());
                effects::only(self.spawn_storage_operation(StorageOperation::CreateList(list)))
            },
            DialogPage::Rename(entity, name) => self.rename(entity, name),
            DialogPage::Delete(entity) => self.list_deleted(entity),
            DialogPage::Calendar(info) => effects::only(
                Effect::UpdateDetails(details::Message::SetDueDate(info.to_naive_datetime())),
            ),
            DialogPage::ReminderCalendar(info) => effects::only(
                Effect::UpdateDetails(details::Message::SetReminderDate(info.to_naive_datetime())),
            ),
            DialogPage::Export(text) => effects::only(Effect::CopyToClipboard(text)),
        }
    }

    /// Handles what is done with the dialogs.
    pub fn update_dialog(&mut self, dialog_action: DialogAction) -> (effects: Vec<Effect>)
        requires
            model::accepts_dialog(old(self)@, dialog_action@),
        ensures
            turned(
                *old(self),
                *final(self),
                effects,
                model::dialog_turn(old(self)@, dialog_action@),
            ),
    {
        match dialog_action {
            DialogAction::Open(page) => self.open_dialog(page),
            DialogAction::Update(page) => {
                let ghost before = self.dialog_pages.deep_view();
                self.dialog_pages.pop_front();
                self.dialog_pages.push_front(page);
                assert(self.dialog_pages.deep_view() =~= before.update(0, page@));
                effects::nothing()
            },
            DialogAction::Close => {
                self.close_dialog();
                effects::nothing()
            },
            DialogAction::Complete => match self.close_dialog() {
                Some(page) => self.complete_dialog(page),
                None => effects::nothing(),
            },
            DialogAction::Nothing => effects::nothing(),
        }
    }

    /// Tells the page that shows the tasks whether the drawer is open.
    fn tell_context(&self) -> (effects: Vec<Effect>)
        ensures
            effects.deep_view() == self@.context_told().effects,
    {
        effects::only(Effect::UpdateContent(content::Message::ContextMenuOpen(self.show_context)))
    }

    /// Opens the drawer beside the tasks, or closes it.
    fn toggle_context_drawer(&mut self) -> (effects: Vec<Effect>)
        ensures
            turned(*old(self), *final(self), effects, old(self)@.context_drawer_toggled()),
    {
        self.show_context = !self.show_context;
        self.tell_context()
    }

    /// Shows `page` in the drawer beside the tasks, or closes the drawer if it shows that page.
    fn toggle_context_page(&mut self, page: ContextPage) -> (effects: Vec<Effect>)
        ensures
            turned(*old(self), *final(self), effects, old(self)@.context_page_toggled(page)),
    {
        if self.context_page == page {
            self.toggle_context_drawer()
        } else {
            self.context_page = page;
            self.show_context = true;
            self.tell_context()
        }
    }

    /// Tells the page that shows the tasks in which order to show them.
    fn sort(&self, sort: SortType) -> (effects: Vec<Effect>)
        ensures
            effects.deep_view() == self@.sorted(sort).effects,
    {
        effects::only(Effect::UpdateContent(content::Message::SetSort(sort)))
    }

    /// Handles what is to be done with the application.
    #[verifier::spinoff_prover]
    #[verifier::rlimit(40)]
    pub fn update_app(&mut self, application_action: ApplicationAction) -> (effects: Vec<Effect>)
        requires
            model::accepts_application(old(self)@, application_action@),
        ensures
            turned(
                *old(self),
                *final(self),
                effects,
                model::application_turn(old(self)@, application_action@),
            ),
    {
        match application_action {
            ApplicationAction::WindowClose => match self.main_window_id {
                Some(window_id) => effects::only(Effect::CloseWindow(window_id)),
                None => effects::nothing(),
            },
            ApplicationAction::WindowNew => effects::only(Effect::OpenWindow),
            ApplicationAction::AppTheme(position) => {
                if self.has_config_handler {
                    self.config.app_theme = AppTheme::at(position);
                    effects::only(Effect::StoreTheme(self.config.app_theme))
                } else {
                    effects::nothing()
                }
            },
            ApplicationAction::ToggleHideCompleted(value) => {
                if self.has_config_handler {
                    self.config.hide_completed = value;
                    effects::both(
                        Effect::StoreHideCompleted(value),
                        Effect::UpdateContent(content::Message::SetConfig(self.config)),
                    )
                } else {
                    effects::nothing()
                }
            },
            ApplicationAction::SystemThemeModeChange => effects::only(
                Effect::SetTheme(self.config.app_theme),
            ),
            ApplicationAction::Key(modifiers, key) => effects::only(
                Effect::FindBindings(modifiers, key),
            ),
            ApplicationAction::Modifiers(modifiers) => {
                self.modifiers = modifiers;
                effects::nothing()
            },
            ApplicationAction::NavMenuAction(NavMenuAction::Rename(entity)) => {
                let name = String::new();
                assert(name@ =~= Seq::empty());
                self.open_dialog(DialogPage::Rename(Some(entity), name))
            },
            ApplicationAction::NavMenuAction(NavMenuAction::Export(entity)) => {
                match self.nav_model.data(entity) {
                    Some(list) => effects::only(
                        self.spawn_storage_operation(StorageOperation::ExportTasks(list)),
                    ),
                    None => effects::nothing(),
                }
            },
            ApplicationAction::NavMenuAction(NavMenuAction::Delete(entity)) => self.open_dialog(
                DialogPage::Delete(Some(entity)),
            ),
            ApplicationAction::ToggleContextPage(page) => self.toggle_context_page(page),
            ApplicationAction::ToggleContextDrawer => self.toggle_context_drawer(),
            ApplicationAction::Dialog(dialog_action) => self.update_dialog(dialog_action),
            ApplicationAction::Focus(id) => effects::only(Effect::Focus(id)),
            ApplicationAction::SortByNameAsc => self.sort(SortType::NameAsc),
            ApplicationAction::SortByNameDesc => self.sort(SortType::NameDesc),
            ApplicationAction::SortByDateAsc => self.sort(SortType::DateAsc),
            ApplicationAction::SortByDateDesc => self.sort(SortType::DateDesc),
        }
    }

    /// Shows the details of `task`, and fetches its steps if the service knows it.
    fn open_details(&mut self, task: Task) -> (effects: Vec<Effect>)
        requires
            task@.id.len() > 0 ==> old(self)@.can_start(),
        ensures
            turned(*old(self), *final(self), effects, old(self)@.details_opened(task@)),
    {
        let mut effects = effects::only(Effect::ActivatePriority(task.priority.position()));
        let is_known = task.id.as_str().unicode_len() > 0;
        self.details.open(task.clone());
        if is_known {
            let more = self.begin(StorageOperation::FetchChecklistItems(task));
            effects::append(&mut effects, more);
        } else {
            assert(effects.deep_view() + Seq::<EffectView>::empty() =~= effects.deep_view());
        }
        let more = self.toggle_context_page(ContextPage::TaskDetails);
        effects::append(&mut effects, more);
        effects
    }

    /// Shows the tasks of a list whose completed tasks are now hidden, or now shown.
    fn toggle_hide_completed(&mut self, list: List) -> (effects: Vec<Effect>)
        ensures
            turned(*old(self), *final(self), effects, old(self)@.hide_completed_toggled(list@)),
    {
        match (self.nav_model.active(), self.nav_model.active_data()) {
            (Some(active), Some(data)) => {
                let mut data = data;
                data.hide_completed = list.hide_completed;
                self.nav_model.data_set(active, data);
                effects::only(self.spawn_storage_operation(StorageOperation::ToggledTasks(list)))
            },
            _ => effects::nothing(),
        }
    }

    /// Handles what the page that shows the tasks asks for.
    #[verifier::spinoff_prover]
    pub fn update_content(&mut self, output: content::Output) -> (effects: Vec<Effect>)
        requires
            model::accepts_content(old(self)@, output@),
        ensures
            turned(*old(self), *final(self), effects, model::content_turn(old(self)@, output@)),
    {
        match output {
            content::Output::Focus(id) => effects::only(Effect::Focus(id)),
            content::Output::FinishedTasksChanged => self.begin(StorageOperation::Lists),
            content::Output::OpenTaskDetails(task) => self.open_details(task),
            content::Output::ToggleHideCompleted(list) => self.toggle_hide_completed(list),
            content::Output::CreateTaskAsync(task) => {
                let task = self.nav_model.route(task);
                self.begin(StorageOperation::CreateTask(task))
            },
            content::Output::UpdateTaskAsync(task) => self.begin(StorageOperation::UpdateTask(task)),
            content::Output::DeleteTaskAsync(task) => self.begin(StorageOperation::DeleteTask(task)),
            content::Output::FetchTasksAsync(list) => self.begin(StorageOperation::Tasks(list)),
            content::Output::RefreshListAsync(list) => self.begin(
                StorageOperation::RefreshTasks(list),
            ),
        }
    }

    /// Handles what the page that shows the details of a task asks for, on the day `today`.
    #[verifier::spinoff_prover]
    pub fn update_details_on(&mut self, output: details::Output, today: i32) -> (effects: Vec<
        Effect,
    >)
        requires
            model::accepts_details(old(self)@, output@),
        ensures
            turned(
                *old(self),
                *final(self),
                effects,
                model::details_turn(old(self)@, output@, today),
            ),
    {
        match output {
            details::Output::OpenCalendarDialog => self.open_dialog(
                DialogPage::Calendar(DateTimeInfo::new(today)),
            ),
            details::Output::OpenReminderCalendarDialog => self.open_dialog(
                DialogPage::ReminderCalendar(DateTimeInfo::new(today)),
            ),
            details::Output::RefreshTask(task) => effects::only(
                Effect::UpdateContent(content::Message::RefreshTask(task)),
            ),
            details::Output::UpdateTaskAsync(task) => self.begin(StorageOperation::UpdateTask(task)),
            details::Output::AddChecklistItemAsync(title) => self.add_checklist_item(title),
            details::Output::UpdateChecklistItemAsync(item_id, new_title) => {
                self.rename_checklist_item(item_id, new_title)
            },
            details::Output::ToggleChecklistItemAsync(item_id) => self.toggle_checklist_item(item_id),
            details::Output::DeleteChecklistItemAsync(item_id) => self.delete_checklist_item(item_id),
            details::Output::FetchChecklistItems => self.fetch_checklist_items(),
        }
    }

    /// Handles what the page that shows the details of a task asks for, as of now.
    pub fn update_details(&mut self, output: details::Output) -> (effects: Vec<Effect>)
        requires
            model::accepts_details(old(self)@, output@),
        ensures
            exists|today: i32|
                clock::can_be_today(today) && turned(
                    *old(self),
                    *final(self),
                    effects,
                    #[trigger] model::details_turn(old(self)@, output@, today),
                ),
    {
        let today = clock::utc_today();
        self.update_details_on(output, today)
    }

    /// Handles a message on the day `today`.
    #[verifier::spinoff_prover]
    pub fn update_on(&mut self, message: Message, today: i32) -> (effects: Vec<Effect>)
        requires
            model::accepts(old(self)@, message@),
        ensures
            turned(
                *old(self),
                *final(self),
                effects,
                model::message_turn(old(self)@, message@, today),
            ),
    {
        match message {
            Message::Open(url) => effects::only(Effect::OpenUrl(url)),
            Message::Content(message) => effects::only(Effect::UpdateContent(message)),
            Message::Details(message) => effects::only(Effect::UpdateDetails(message)),
            Message::Tasks(tasks_action) => self.update_tasks(tasks_action, today),
            Message::Application(application_action) => self.update_app(application_action),
            Message::OperationStarted => {
                self.start_operation();
                effects::nothing()
            },
            Message::OperationCompleted => {
                self.complete_operation();
                effects::nothing()
            },
            Message::OperationFailed => {
                self.complete_operation();
                effects::nothing()
            },
            Message::CacheUpdate(_) => {
                self.update_cache_counts_on(today);
                effects::nothing()
            },
            Message::RefreshCacheCounts => {
                self.update_cache_counts_on(today);
                effects::nothing()
            },
        }
    }

    /// Handles a message as of now.
    pub fn update(&mut self, message: Message) -> (effects: Vec<Effect>)
        requires
            model::accepts(old(self)@, message@),
        ensures
            exists|today: i32|
                clock::can_be_today(today) && turned(
                    *old(self),
                    *final(self),
                    effects,
                    #[trigger] model::message_turn(old(self)@, message@, today),
                ),
    {
        let today = clock::utc_today();
        self.update_on(message, today)
    }

    /// Handles the messages that a key is bound to.
    pub fn key_pressed(&self, bound: Vec<Message>) -> (effects: Vec<Effect>)
        ensures
            effects.deep_view() == model::bindings_turn(self@, bound.deep_view()).effects,
    {
        let ghost all = bound.deep_view();
        let ghost asked = all.map_values(|message: MessageView| EffectView::Dispatch(message));
        let mut bound = bound;
        let mut effects = effects::nothing();
        assert(all.skip(0) =~= all);
        assert(asked.take(0) =~= Seq::empty());
        while bound.len() > 0
            invariant
                asked == all.map_values(|message: MessageView| EffectView::Dispatch(message)),
                bound@.len() <= all.len(),
                bound.deep_view() == all.skip(all.len() - bound@.len()),
                effects.deep_view() == asked.take(all.len() - bound@.len()),
            decreases bound@.len(),
        {
            let ghost n = all.len() - bound@.len();
            let ghost before = bound.deep_view();
            let message = bound.remove(0);
            assert(message@ == before[0]);
            assert(bound.deep_view() =~= before.drop_first());
            assert(before.drop_first() =~= all.skip(n + 1));
            effects::append(&mut effects, effects::only(Effect::Dispatch(message)));
            assert(asked.take(n + 1) =~= asked.take(n) + seq![asked[n]]);
        }
        assert(asked.take(all.len() as int) =~= asked);
        effects
    }

    /// The application as it starts, and what it asks for then.
    pub fn init(
        flags: Flags,
        details: Details,
        dialog_text_input: u64,
        main_window_id: Option<u64>,
        tasks_label: String,
    ) -> (r: (TasksApp, Vec<Effect>))
        ensures
            r.0@.turn(r.1.deep_view()) == model::initial_turn(
                flags.storage.task_cache@,
                details@,
                flags.has_config_handler,
                flags.config,
                dialog_text_input,
                main_window_id,
                tasks_label@,
            ),
            r.0@.well_formed(),
    {
        let mut app = TasksApp {
            nav_model: NavModel::new(),
            storage: flags.storage,
            details,
            has_config_handler: flags.has_config_handler,
            config: flags.config,
            context_page: ContextPage::Settings,
            show_context: false,
            modifiers: 0,
            dialog_pages: VecDeque::new(),
            dialog_text_input,
            running_operations: 0,
            max_operations: 1,
            main_window_id,
            window_title: None,
            tasks_label,
        };
        assert(app.dialog_pages.deep_view() =~= Seq::empty());
        let mut effects = app.begin(StorageOperation::Lists);
        if let Some(window_id) = main_window_id {
            app.window_title = Some(app.tasks_label.clone());
            let title = Effect::SetWindowTitle(window_id, app.tasks_label.clone());
            effects::append(&mut effects, effects::only(title));
        } else {
            assert(effects.deep_view() + Seq::<EffectView>::empty() =~= effects.deep_view());
        }
        effects::append(&mut effects, effects::only(Effect::ToggleNavBar));
        (app, effects)
    }

    /// What the drawer beside the tasks shows, if it is open.
    pub fn context_drawer(&self) -> (page: Option<ContextPage>)
        ensures
            page == self@.shown_page(),
    {
        if !self.show_context {
            return None;
        }
        Some(self.context_page)
    }

    /// The dialog that is shown.
    pub fn dialog(&self) -> (page: Option<&DialogPage>)
        ensures
            match page {
                Some(page) => self@.dialog_pages.len() > 0 && page@ == self@.dialog_pages[0],
                None => self@.dialog_pages.len() == 0,
            },
    {
        if self.dialog_pages.len() > 0 {
            Some(&self.dialog_pages[0])
        } else {
            None
        }
    }

    /// How far the operations that are running have come, if there are any.
    pub fn footer(&self) -> (progress: Option<Progress>)
        ensures
            progress == (if self@.running_operations > 0 {
                Some(
                    if self@.max_operations > 0 {
                        Progress::Ratio(self@.running_operations, self@.max_operations)
                    } else {
                        Progress::Indeterminate
                    },
                )
            } else {
                None::<Progress>
            }),
    {
        if self.running_operations > 0 {
            if self.max_operations > 0 {
                Some(Progress::Ratio(self.running_operations, self.max_operations))
            } else {
                Some(Progress::Indeterminate)
            }
        } else {
            None
        }
    }

    /// The menu of the item `id`.
    pub fn nav_context_menu(&self, id: u64) -> (menu: Vec<NavMenuItem>)
        ensures
            menu@ == nav_menu(id),
    {
        let mut menu: Vec<NavMenuItem> = Vec::new();
        menu.push(
            NavMenuItem {
                label: "rename",
                icon: "edit-symbolic",
                icon_size: 14,
                action: NavMenuAction::Rename(id),
            },
        );
        menu.push(
            NavMenuItem {
                label: "export",
                icon: "share-symbolic",
                icon_size: 18,
                action: NavMenuAction::Export(id),
            },
        );
        menu.push(
            NavMenuItem {
                label: "delete",
                icon: "user-trash-full-symbolic",
                icon_size: 14,
                action: NavMenuAction::Delete(id),
            },
        );
        menu
    }

    /// The lists that are offered for choice.
    pub fn nav_model(&self) -> (nav: &NavModel)
        ensures
            nav@ == self@.nav,
    {
        &self.nav_model
    }

    /// Takes away the dialog that is shown, or else the drawer.
    pub fn on_escape(&mut self)
        ensures
            final(self)@ == old(self)@.escaped(),
    {
        if self.close_dialog().is_some() {
            return;
        }
        self.show_context = false;
    }

    /// The message that an event leads to.
    pub fn subscription(event: AppEvent) -> (message: Option<Message>)
        ensures
            message.deep_view() == model::event_message(event@),
    {
        match event {
            AppEvent::KeyPressed(modifiers, key) => Some(
                Message::Application(ApplicationAction::Key(modifiers, key)),
            ),
            AppEvent::ModifiersChanged(modifiers) => Some(
                Message::Application(ApplicationAction::Modifiers(modifiers)),
            ),
            AppEvent::ConfigChanged => Some(
                Message::Application(ApplicationAction::SystemThemeModeChange),
            ),
            AppEvent::ThemeChanged => Some(
                Message::Application(ApplicationAction::SystemThemeModeChange),
            ),
            AppEvent::Content(message) => Some(Message::Content(message)),
            AppEvent::Other => None,
        }
    }

    /// The place of the look that is chosen among those that are offered.
    pub fn settings(&self) -> (position: usize)
        ensures
            position < 3,
            AppTheme::spec_at(position) == self@.config.app_theme,
    {
        self.config.app_theme.position()
    }

    /// Tells whether one more operation can be counted.
    fn can_start(&self) -> (b: bool)
        ensures
            b == self@.can_start(),
    {
        self.running_operations < u32::MAX
    }

    /// Tells whether the list of the item `entity`, or the one that is chosen, can be deleted.
    fn can_delete(&self, entity: Option<u64>) -> (b: bool)
        ensures
            b == (self@.nav.data_or_active(entity) is Some ==> self@.can_start()),
    {
        self.can_start() || self.nav_model.data_or_active(entity).is_none()
    }

    /// Tells whether what is to be done with lists and tasks can be handled.
    fn can_handle_tasks(&self, action: &TasksAction) -> (b: bool)
        ensures
            b == model::accepts_tasks(self@, action@),
    {
        match action {
            TasksAction::FetchLists
            | TasksAction::FetchListsAsync
            | TasksAction::CreateTaskAsync(_)
            | TasksAction::UpdateTaskAsync(_)
            | TasksAction::DeleteTaskAsync(_)
            | TasksAction::DeleteListAsync(_)
            | TasksAction::FetchTasksAsync(_)
            | TasksAction::RefreshListAsync(_)
            | TasksAction::AddChecklistItemAsync(_)
            | TasksAction::FetchChecklistItemsAsync(_) => self.can_start(),
            TasksAction::DeleteList(entity) => self.can_delete(*entity),
            TasksAction::ListsFetched(Ok(lists)) => self.nav_model.has_room_for_lists(lists),
            TasksAction::AddList(_) => self.nav_model.has_room_for(1),
            _ => true,
        }
    }

    /// Tells whether what is to be done with the dialogs can be handled.
    fn can_handle_dialog(&self, action: &DialogAction) -> (b: bool)
        ensures
            b == model::accepts_dialog(self@, action@),
    {
        match action {
            DialogAction::Update(_) => self.dialog_pages.len() > 0,
            DialogAction::Complete => match self.dialog() {
                Some(DialogPage::Delete(entity)) => self.can_delete(*entity),
                _ => true,
            },
            _ => true,
        }
    }

    /// Tells whether a message can be handled.
    pub fn can_handle(&self, message: &Message) -> (b: bool)
        ensures
            b == model::accepts(self@, message@),
    {
        match message {
            Message::Tasks(action) => self.can_handle_tasks(action),
            Message::Application(ApplicationAction::Dialog(action)) => self.can_handle_dialog(action),
            Message::OperationStarted => self.can_start(),
            _ => true,
        }
    }

    /// Tells whether what the page that shows the tasks asks for can be handled.
    pub fn can_handle_content(&self, output: &content::Output) -> (b: bool)
        ensures
            b == model::accepts_content(self@, output@),
    {
        match output {
            content::Output::OpenTaskDetails(task) => {
                self.can_start() || task.id.as_str().unicode_len() == 0
            },
            content::Output::Focus(_) | content::Output::ToggleHideCompleted(_) => true,
            _ => self.can_start(),
        }
    }

    /// Tells whether what the page that shows the details of a task asks for can be handled.
    pub fn can_handle_details(&self, output: &details::Output) -> (b: bool)
        ensures
            b == model::accepts_details(self@, output@),
    {
        match output {
            details::Output::UpdateTaskAsync(_)
            | details::Output::AddChecklistItemAsync(_)
            | details::Output::FetchChecklistItems => self.can_start(),
            _ => true,
        }
    }
}

} // verus!
