//! The operations of the storage, from the question that is put to the service to what its answer
//! leads to.

use vstd::prelude::*;

use crate::app::actions;
use crate::app::channels::{CacheUpdateSignal, CacheUpdateSignalView};
use crate::app::error::{Error, TasksError};
use crate::clock;
use crate::integration::ms_todo::http_client::{HttpMethod, Pages, PagesView};
use crate::storage;
use crate::storage::cache;
use crate::storage::checklist;
use crate::storage::checklist::{ItemChange, ItemChangeView};
use crate::storage::models::{
    ChecklistItem, ChecklistItemView, List, ListView, Task, TaskView,
};
use crate::storage::ordering;
use crate::storage::requests;
use crate::storage::requests::{ApiRequest, ApiRequestView, RequestBodyView};
use crate::storage::{LocalStorage, ScheduledFetch, TasksStep, TasksStepView};

verus! {

/// An operation of the storage.
#[derive(Debug)]
pub enum StorageOperation {
    /// To fetch all lists.
    Lists,
    /// To get at the tasks of a list.
    Tasks(List),
    /// To fetch the tasks of a list past the cache.
    RefreshTasks(List),
    /// To get at the tasks of a list whose completed tasks are now hidden, or now shown.
    ToggledTasks(List),
    /// To get at the tasks of a list, whose text is wanted.
    ExportTasks(List),
    CreateList(List),
    UpdateList(List),
    DeleteList(List),
    CreateTask(Task),
    UpdateTask(Task),
    DeleteTask(Task),
    /// To add a step with this title to a task.
    CreateChecklistItem(Task, String),
    /// To give a step of a task another title.
    UpdateChecklistItem(Task, String, String),
    /// To check a step of a task, or to uncheck it.
    ToggleChecklistItem(Task, String),
    /// To delete a step of a task.
    DeleteChecklistItem(Task, String),
    /// To fetch the steps of a task.
    FetchChecklistItems(Task),
}

/// What a [`StorageOperation`] says.
pub enum StorageOperationView {
    Lists,
    Tasks(ListView),
    RefreshTasks(ListView),
    ToggledTasks(ListView),
    ExportTasks(ListView),
    CreateList(ListView),
    UpdateList(ListView),
    DeleteList(ListView),
    CreateTask(TaskView),
    UpdateTask(TaskView),
    DeleteTask(TaskView),
    CreateChecklistItem(TaskView, Seq<char>),
    UpdateChecklistItem(TaskView, Seq<char>, Seq<char>),
    ToggleChecklistItem(TaskView, Seq<char>),
    DeleteChecklistItem(TaskView, Seq<char>),
    FetchChecklistItems(TaskView),
}

impl View for StorageOperation {
    type V = StorageOperationView;

    open spec fn view(&self) -> StorageOperationView {
        match self {
            StorageOperation::Lists => StorageOperationView::Lists,
            StorageOperation::Tasks(list) => StorageOperationView::Tasks(list@),
            StorageOperation::RefreshTasks(list) => StorageOperationView::RefreshTasks(list@),
            StorageOperation::ToggledTasks(list) => StorageOperationView::ToggledTasks(list@),
            StorageOperation::ExportTasks(list) => StorageOperationView::ExportTasks(list@),
            StorageOperation::CreateList(list) => StorageOperationView::CreateList(list@),
            StorageOperation::UpdateList(list) => StorageOperationView::UpdateList(list@),
            StorageOperation::DeleteList(list) => StorageOperationView::DeleteList(list@),
            StorageOperation::CreateTask(task) => StorageOperationView::CreateTask(task@),
            StorageOperation::UpdateTask(task) => StorageOperationView::UpdateTask(task@),
            StorageOperation::DeleteTask(task) => StorageOperationView::DeleteTask(task@),
            StorageOperation::CreateChecklistItem(task, title) => {
                StorageOperationView::CreateChecklistItem(task@, title@)
            },
            StorageOperation::UpdateChecklistItem(task, item_id, title) => {
                StorageOperationView::UpdateChecklistItem(task@, item_id@, title@)
            },
            StorageOperation::ToggleChecklistItem(task, item_id) => {
                StorageOperationView::ToggleChecklistItem(task@, item_id@)
            },
            StorageOperation::DeleteChecklistItem(task, item_id) => {
                StorageOperationView::DeleteChecklistItem(task@, item_id@)
            },
            StorageOperation::FetchChecklistItems(task) => {
                StorageOperationView::FetchChecklistItems(task@)
            },
        }
    }
}

/// What the last step of an operation says.
pub open spec fn told<T: DeepView>(result: Result<T, Error>) -> Result<T::V, Error> {
    match result {
        Ok(value) => Ok(value.deep_view()),
        Err(error) => Err(error),
    }
}

/// What has become of an operation of the storage.
#[derive(Debug)]
pub enum OperationOutcome {
    Lists(Result<Vec<List>, Error>),
    Tasks(Result<Vec<Task>, Error>),
    ToggledTasks(Result<Vec<Task>, Error>),
    /// The list whose text is wanted, and its tasks.
    ExportTasks(List, Result<Vec<Task>, Error>),
    CreateList(Result<List, Error>),
    UpdateList(Result<(), Error>),
    DeleteList(Result<(), Error>),
    CreateTask(Result<Task, Error>),
    UpdateTask(Result<(), Error>),
    DeleteTask(Result<(), Error>),
    CreateChecklistItem(Result<ChecklistItem, Error>),
    UpdateChecklistItem(Result<ChecklistItem, Error>),
    ToggleChecklistItem(Result<ChecklistItem, Error>),
    /// The id of the step.
    DeleteChecklistItem(Result<String, Error>),
    FetchChecklistItems(Result<Vec<ChecklistItem>, Error>),
}

/// What an [`OperationOutcome`] says.
pub enum OperationOutcomeView {
    Lists(Result<Seq<ListView>, Error>),
    Tasks(Result<Seq<TaskView>, Error>),
    ToggledTasks(Result<Seq<TaskView>, Error>),
    ExportTasks(ListView, Result<Seq<TaskView>, Error>),
    CreateList(Result<ListView, Error>),
    UpdateList(Result<(), Error>),
    DeleteList(Result<(), Error>),
    CreateTask(Result<TaskView, Error>),
    UpdateTask(Result<(), Error>),
    DeleteTask(Result<(), Error>),
    CreateChecklistItem(Result<ChecklistItemView, Error>),
    UpdateChecklistItem(Result<ChecklistItemView, Error>),
    ToggleChecklistItem(Result<ChecklistItemView, Error>),
    DeleteChecklistItem(Result<Seq<char>, Error>),
    FetchChecklistItems(Result<Seq<ChecklistItemView>, Error>),
}

impl View for OperationOutcome {
    type V = OperationOutcomeView;

    open spec fn view(&self) -> OperationOutcomeView {
        match self {
            OperationOutcome::Lists(answer) => OperationOutcomeView::Lists(told(*answer)),
            OperationOutcome::Tasks(answer) => OperationOutcomeView::Tasks(told(*answer)),
            OperationOutcome::ToggledTasks(answer) => {
                OperationOutcomeView::ToggledTasks(told(*answer))
            },
            OperationOutcome::ExportTasks(list, answer) => {
                OperationOutcomeView::ExportTasks(list@, told(*answer))
            },
            OperationOutcome::CreateList(answer) => OperationOutcomeView::CreateList(told(*answer)),
            OperationOutcome::UpdateList(answer) => OperationOutcomeView::UpdateList(told(*answer)),
            OperationOutcome::DeleteList(answer) => OperationOutcomeView::DeleteList(told(*answer)),
            OperationOutcome::CreateTask(answer) => OperationOutcomeView::CreateTask(told(*answer)),
            OperationOutcome::UpdateTask(answer) => OperationOutcomeView::UpdateTask(told(*answer)),
            OperationOutcome::DeleteTask(answer) => OperationOutcomeView::DeleteTask(told(*answer)),
            OperationOutcome::CreateChecklistItem(answer) => {
                OperationOutcomeView::CreateChecklistItem(told(*answer))
            },
            OperationOutcome::UpdateChecklistItem(answer) => {
                OperationOutcomeView::UpdateChecklistItem(told(*answer))
            },
            OperationOutcome::ToggleChecklistItem(answer) => {
                OperationOutcomeView::ToggleChecklistItem(told(*answer))
            },
            OperationOutcome::DeleteChecklistItem(answer) => {
                OperationOutcomeView::DeleteChecklistItem(told(*answer))
            },
            OperationOutcome::FetchChecklistItems(answer) => {
                OperationOutcomeView::FetchChecklistItems(told(*answer))
            },
        }
    }
}

/// What is put to the service.
#[derive(Debug)]
pub enum Question {
    Request(ApiRequest),
    /// To gather all pages of the tasks of a list.
    TaskPages(Pages<Task>),
    /// To gather all pages of the steps of a task.
    ItemPages(Pages<ChecklistItem>),
}

/// What a [`Question`] says.
pub enum QuestionView {
    Request(ApiRequestView),
    TaskPages(PagesView<Task>),
    ItemPages(PagesView<ChecklistItem>),
}

impl View for Question {
    type V = QuestionView;

    open spec fn view(&self) -> QuestionView {
        match self {
            Question::Request(request) => QuestionView::Request(request@),
            Question::TaskPages(pages) => QuestionView::TaskPages(pages@),
            Question::ItemPages(pages) => QuestionView::ItemPages(pages@),
        }
    }
}

/// How an operation goes on.
#[derive(Debug)]
pub enum OperationStep {
    /// The service is to be asked.
    Ask(Question),
    /// The operation has ended already.
    Ended(OperationOutcome),
}

/// What an [`OperationStep`] says.
pub enum OperationStepView {
    Ask(QuestionView),
    Ended(OperationOutcomeView),
}

impl View for OperationStep {
    type V = OperationStepView;

    open spec fn view(&self) -> OperationStepView {
        match self {
            OperationStep::Ask(question) => OperationStepView::Ask(question@),
            OperationStep::Ended(outcome) => OperationStepView::Ended(outcome@),
        }
    }
}

/// What the service has answered to an operation, or why it did not.
#[derive(Debug)]
pub enum Reply {
    Lists(Result<Vec<List>, String>),
    List(Result<List, String>),
    Task(Result<Task, String>),
    Tasks(Result<Vec<Task>, String>),
    Item(Result<ChecklistItem, String>),
    Items(Result<Vec<ChecklistItem>, String>),
    /// Nothing but that it has done what was asked, or why not.
    Told(Result<(), String>),
}

/// What a [`Reply`] says.
pub enum ReplyView {
    Lists(Result<Seq<ListView>, Seq<char>>),
    List(Result<ListView, Seq<char>>),
    Task(Result<TaskView, Seq<char>>),
    Tasks(Result<Seq<TaskView>, Seq<char>>),
    Item(Result<ChecklistItemView, Seq<char>>),
    Items(Result<Seq<ChecklistItemView>, Seq<char>>),
    Told(Result<(), Seq<char>>),
}

impl View for Reply {
    type V = ReplyView;

    open spec fn view(&self) -> ReplyView {
        match self {
            Reply::Lists(reply) => ReplyView::Lists(actions::answer_view(*reply)),
            Reply::List(reply) => ReplyView::List(actions::answer_view(*reply)),
            Reply::Task(reply) => ReplyView::Task(actions::answer_view(*reply)),
            Reply::Tasks(reply) => ReplyView::Tasks(actions::answer_view(*reply)),
            Reply::Item(reply) => ReplyView::Item(actions::answer_view(*reply)),
            Reply::Items(reply) => ReplyView::Items(actions::answer_view(*reply)),
            Reply::Told(reply) => ReplyView::Told(actions::answer_view(*reply)),
        }
    }
}

impl StorageOperationView {
    /// The outcome of an operation that failed before the service was asked.
    pub open spec fn refused(self, error: Error) -> OperationOutcomeView {
        match self {
            StorageOperationView::Lists => OperationOutcomeView::Lists(Err(error)),
            StorageOperationView::Tasks(_)
            | StorageOperationView::RefreshTasks(_)
            | StorageOperationView::ToggledTasks(_)
            | StorageOperationView::ExportTasks(_) => self.tasks_had(Err(error)),
            StorageOperationView::CreateList(_) => OperationOutcomeView::CreateList(Err(error)),
            StorageOperationView::UpdateList(_) => OperationOutcomeView::UpdateList(Err(error)),
            StorageOperationView::DeleteList(_) => OperationOutcomeView::DeleteList(Err(error)),
            StorageOperationView::CreateTask(_) => OperationOutcomeView::CreateTask(Err(error)),
            StorageOperationView::UpdateTask(_) => OperationOutcomeView::UpdateTask(Err(error)),
            StorageOperationView::DeleteTask(_) => OperationOutcomeView::DeleteTask(Err(error)),
            StorageOperationView::CreateChecklistItem(_, _) => {
                OperationOutcomeView::CreateChecklistItem(Err(error))
            },
            StorageOperationView::UpdateChecklistItem(_, _, _) => {
                OperationOutcomeView::UpdateChecklistItem(Err(error))
            },
            StorageOperationView::ToggleChecklistItem(_, _) => {
                OperationOutcomeView::ToggleChecklistItem(Err(error))
            },
            StorageOperationView::DeleteChecklistItem(_, _) => {
                OperationOutcomeView::DeleteChecklistItem(Err(error))
            },
            StorageOperationView::FetchChecklistItems(_) => {
                OperationOutcomeView::FetchChecklistItems(Err(error))
            },
        }
    }

    /// The outcome of an operation on the tasks of a list, once the tasks are had, or an error is.
    pub open spec fn tasks_had(self, tasks: Result<Seq<TaskView>, Error>) -> OperationOutcomeView {
        match self {
            StorageOperationView::ToggledTasks(_) => OperationOutcomeView::ToggledTasks(tasks),
            StorageOperationView::ExportTasks(list) => OperationOutcomeView::ExportTasks(list, tasks),
            _ => OperationOutcomeView::Tasks(tasks),
        }
    }

    /// Whether the operation is about the tasks of a list.
    pub open spec fn is_about_tasks(self) -> bool {
        ||| self is Tasks
        ||| self is RefreshTasks
        ||| self is ToggledTasks
        ||| self is ExportTasks
    }

    /// The list that an operation on the tasks of a list is about.
    pub open spec fn list(self) -> ListView {
        match self {
            StorageOperationView::Tasks(list) => list,
            StorageOperationView::RefreshTasks(list) => list,
            StorageOperationView::ToggledTasks(list) => list,
            StorageOperationView::ExportTasks(list) => list,
            _ => arbitrary(),
        }
    }

    /// The request that an operation makes that is neither about the tasks of a list nor gathers the
    /// steps of a task.
    pub open spec fn request(self, token: Result<String, String>) -> Result<ApiRequestView, Error> {
        match self {
            StorageOperationView::CreateList(list) => storage::request_of(
                token,
                TasksError::ExistingList,
                HttpMethod::Post,
                requests::lists_url(),
                RequestBodyView::CreateList(list),
            ),
            StorageOperationView::UpdateList(list) => storage::request_of(
                token,
                TasksError::ListNotFound,
                HttpMethod::Patch,
                requests::list_url(list.id),
                RequestBodyView::UpdateList(list),
            ),
            StorageOperationView::DeleteList(list) => storage::request_of(
                token,
                TasksError::ListNotFound,
                HttpMethod::Delete,
                requests::list_url(list.id),
                RequestBodyView::Empty,
            ),
            StorageOperationView::CreateTask(task) => storage::request_of(
                token,
                TasksError::ExistingTask,
                HttpMethod::Post,
                requests::tasks_url(cache::home(task)),
                RequestBodyView::CreateTask(task),
            ),
            StorageOperationView::UpdateTask(task) => storage::request_of(
                token,
                TasksError::TaskNotFound,
                HttpMethod::Patch,
                requests::task_url(cache::home(task), task.id),
                RequestBodyView::UpdateTask(task),
            ),
            StorageOperationView::DeleteTask(task) => storage::request_of(
                token,
                TasksError::TaskNotFound,
                HttpMethod::Delete,
                requests::task_url(cache::home(task), task.id),
                RequestBodyView::Empty,
            ),
            StorageOperationView::CreateChecklistItem(task, title) => storage::checklist_request_of(
                task,
                token,
                HttpMethod::Post,
                requests::checklist_url(task.list_id->0, task.id),
                RequestBodyView::CreateChecklistItem(title, Some(false)),
            ),
            StorageOperationView::UpdateChecklistItem(task, item_id, title) => {
                storage::change_request_of(task, item_id, ItemChangeView::Rename(title), token)
            },
            StorageOperationView::ToggleChecklistItem(task, item_id) => storage::change_request_of(
                task,
                item_id,
                ItemChangeView::Toggle,
                token,
            ),
            StorageOperationView::DeleteChecklistItem(task, item_id) => {
                storage::checklist_request_of(
                    task,
                    token,
                    HttpMethod::Delete,
                    requests::checklist_item_url(task.list_id->0, task.id, item_id),
                    RequestBodyView::Empty,
                )
            },
            _ => storage::request_of(
                token,
                TasksError::ListNotFound,
                HttpMethod::Get,
                requests::lists_url(),
                RequestBodyView::Empty,
            ),
        }
    }

    /// What the operation ends with before a token is asked for, on the day `today` and when `cached` is
    /// what the cache holds: the tasks that are known, or that there is no step to change.
    pub open spec fn known(self, cached: Seq<TaskView>, today: i32) -> Option<OperationOutcomeView> {
        let tasks = if self is RefreshTasks {
            storage::refresh_step(cached, self.list(), today as int)
        } else if self.is_about_tasks() {
            storage::tasks_step(cached, self.list(), today as int)
        } else {
            TasksStepView::Fetch
        };
        let has_its_step = match self {
            StorageOperationView::UpdateChecklistItem(task, item_id, _) => {
                checklist::item_place(task.checklist_items, item_id) is Some
            },
            StorageOperationView::ToggleChecklistItem(task, item_id) => {
                checklist::item_place(task.checklist_items, item_id) is Some
            },
            _ => true,
        };
        match tasks {
            TasksStepView::Ready(tasks) => Some(self.tasks_had(tasks)),
            TasksStepView::Fetch => if has_its_step {
                None
            } else {
                Some(self.refused(Error::Tasks(TasksError::TaskNotFound)))
            },
        }
    }

    /// How the operation goes on once a token was asked for.
    pub open spec fn asked(self, token: Result<String, String>) -> OperationStepView {
        let question = if self.is_about_tasks() {
            match storage::pages_of::<Task>(
                token,
                TasksError::TaskNotFound,
                requests::shown_tasks_url(self.list()),
            ) {
                Ok(pages) => Ok(QuestionView::TaskPages(pages)),
                Err(error) => Err(error),
            }
        } else if self is FetchChecklistItems {
            match storage::checklist_pages_of(self->FetchChecklistItems_0, token) {
                Ok(pages) => Ok(QuestionView::ItemPages(pages)),
                Err(error) => Err(error),
            }
        } else {
            match self.request(token) {
                Ok(request) => Ok(QuestionView::Request(request)),
                Err(error) => Err(error),
            }
        };
        match question {
            Ok(question) => OperationStepView::Ask(question),
            Err(error) => OperationStepView::Ended(self.refused(error)),
        }
    }
}

/// The outcome of an operation on the tasks of a list, once the tasks are had, or an error is.
fn tasks_had(operation: &StorageOperation, tasks: Result<Vec<Task>, Error>) -> (outcome:
    OperationOutcome)
    ensures
        outcome@ == operation@.tasks_had(told(tasks)),
{
    match operation {
        StorageOperation::ToggledTasks(_) => OperationOutcome::ToggledTasks(tasks),
        StorageOperation::ExportTasks(list) => OperationOutcome::ExportTasks(list.clone(), tasks),
        _ => OperationOutcome::Tasks(tasks),
    }
}

/// The outcome of an operation that failed before the service was asked.
#[verifier::spinoff_prover]
fn refused(operation: &StorageOperation, error: Error) -> (outcome: OperationOutcome)
    ensures
        outcome@ == operation@.refused(error),
{
    match operation {
        StorageOperation::Lists => OperationOutcome::Lists(Err(error)),
        StorageOperation::Tasks(_)
        | StorageOperation::RefreshTasks(_)
        | StorageOperation::ToggledTasks(_)
        | StorageOperation::ExportTasks(_) => tasks_had(operation, Err(error)),
        StorageOperation::CreateList(_) => OperationOutcome::CreateList(Err(error)),
        StorageOperation::UpdateList(_) => OperationOutcome::UpdateList(Err(error)),
        StorageOperation::DeleteList(_) => OperationOutcome::DeleteList(Err(error)),
        StorageOperation::CreateTask(_) => OperationOutcome::CreateTask(Err(error)),
        StorageOperation::UpdateTask(_) => OperationOutcome::UpdateTask(Err(error)),
        StorageOperation::DeleteTask(_) => OperationOutcome::DeleteTask(Err(error)),
        StorageOperation::CreateChecklistItem(_, _) => {
            OperationOutcome::CreateChecklistItem(Err(error))
        },
        StorageOperation::UpdateChecklistItem(_, _, _) => {
            OperationOutcome::UpdateChecklistItem(Err(error))
        },
        StorageOperation::ToggleChecklistItem(_, _) => {
            OperationOutcome::ToggleChecklistItem(Err(error))
        },
        StorageOperation::DeleteChecklistItem(_, _) => {
            OperationOutcome::DeleteChecklistItem(Err(error))
        },
        StorageOperation::FetchChecklistItems(_) => {
            OperationOutcome::FetchChecklistItems(Err(error))
        },
    }
}

/// The request that an operation makes that is neither about the tasks of a list nor gathers the steps
/// of a task.
#[verifier::spinoff_prover]
fn request(storage: &LocalStorage, operation: &StorageOperation, token: Result<String, String>) -> (r:
    Result<ApiRequest, Error>)
    ensures
        storage::result_view(r) == operation@.request(token),
{
    match operation {
        StorageOperation::CreateList(list) => storage.create_list(list, token),
        StorageOperation::UpdateList(list) => storage.update_list(list, token),
        StorageOperation::DeleteList(list) => storage.delete_list(list, token),
        StorageOperation::CreateTask(task) => storage.create_task(task, token),
        StorageOperation::UpdateTask(task) => storage.update_task(task, token),
        StorageOperation::DeleteTask(task) => storage.delete_task(task, token),
        StorageOperation::CreateChecklistItem(task, title) => storage.create_checklist_item(
            task,
            title.as_str(),
            token,
        ),
        StorageOperation::UpdateChecklistItem(task, item_id, title) => {
            let change = ItemChange::Rename(title.clone());
            storage.change_checklist_item(task, item_id, &change, token)
        },
        StorageOperation::ToggleChecklistItem(task, item_id) => storage.change_checklist_item(
            task,
            item_id,
            &ItemChange::Toggle,
            token,
        ),
        StorageOperation::DeleteChecklistItem(task, item_id) => storage.delete_checklist_item(
            task,
            item_id.as_str(),
            token,
        ),
        _ => storage.lists(token),
    }
}

/// Begins an operation on the day `today`: gives what it ends with, if it needs no token.
#[verifier::spinoff_prover]
pub fn begin_on(storage: &LocalStorage, operation: &StorageOperation, today: i32) -> (outcome: Option<
    OperationOutcome,
>)
    ensures
        match outcome {
            Some(outcome) => operation@.known(storage.task_cache@, today) == Some(outcome@),
            None => operation@.known(storage.task_cache@, today) is None,
        },
{
    let tasks = match operation {
        StorageOperation::RefreshTasks(list) => storage.refresh_tasks_on(list, today),
        StorageOperation::Tasks(list)
        | StorageOperation::ToggledTasks(list)
        | StorageOperation::ExportTasks(list) => storage.tasks_on(list, today),
        _ => TasksStep::Fetch,
    };
    if let TasksStep::Ready(tasks) = tasks {
        return Some(tasks_had(operation, tasks));
    }
    let has_its_step = match operation {
        StorageOperation::UpdateChecklistItem(task, item_id, _)
        | StorageOperation::ToggleChecklistItem(task, item_id) => {
            checklist::find_item(&task.checklist_items, item_id).is_some()
        },
        _ => true,
    };
    if has_its_step {
        None
    } else {
        Some(refused(operation, Error::Tasks(TasksError::TaskNotFound)))
    }
}

/// Begins an operation as of now: gives what it ends with, if it needs no token.
pub fn begin(storage: &LocalStorage, operation: &StorageOperation) -> (outcome: Option<
    OperationOutcome,
>)
    ensures
        exists|today: i32|
            clock::can_be_today(today) && match outcome {
                Some(outcome) => #[trigger] operation@.known(storage.task_cache@, today) == Some(
                    outcome@,
                ),
                None => operation@.known(storage.task_cache@, today) is None,
            },
{
    let today = clock::utc_today();
    let outcome = begin_on(storage, operation, today);
    assert(operation@.known(storage.task_cache@, today) is Some <==> outcome is Some);
    outcome
}

/// Goes on with an operation once a token was asked for.
#[verifier::spinoff_prover]
pub fn ask(
    storage: &LocalStorage,
    operation: &StorageOperation,
    token: Result<String, String>,
) -> (step: OperationStep)
    ensures
        step@ == operation@.asked(token),
{
    let question = match operation {
        StorageOperation::Tasks(list)
        | StorageOperation::RefreshTasks(list)
        | StorageOperation::ToggledTasks(list)
        | StorageOperation::ExportTasks(list) => match storage.refresh_request(list, token) {
            Ok(pages) => Ok(Question::TaskPages(pages)),
            Err(error) => Err(error),
        },
        StorageOperation::FetchChecklistItems(task) => {
            match storage.fetch_checklist_items(task, token) {
                Ok(pages) => Ok(Question::ItemPages(pages)),
                Err(error) => Err(error),
            }
        },
        _ => match request(storage, operation, token) {
            Ok(request) => Ok(Question::Request(request)),
            Err(error) => Err(error),
        },
    };
    match question {
        Ok(question) => OperationStep::Ask(question),
        Err(error) => OperationStep::Ended(refused(operation, error)),
    }
}

/// The number of lists that can be taken from the service at once.
pub open spec fn takes_lists(n: nat) -> bool {
    (n + 3) * 100 <= u64::MAX
}

/// Whether `reply` is the kind of reply that the operation gets.
pub open spec fn fits(operation: StorageOperationView, reply: ReplyView) -> bool {
    match reply {
        ReplyView::Lists(Ok(lists)) => operation is Lists && takes_lists(lists.len()),
        ReplyView::Lists(Err(_)) => operation is Lists,
        ReplyView::List(_) => operation is CreateList,
        ReplyView::Task(_) => operation is CreateTask,
        ReplyView::Tasks(_) => operation.is_about_tasks(),
        ReplyView::Item(_) => {
            ||| operation is CreateChecklistItem
            ||| operation is UpdateChecklistItem
            ||| operation is ToggleChecklistItem
        },
        ReplyView::Items(_) => operation is FetchChecklistItems,
        ReplyView::Told(_) => {
            ||| operation is UpdateList
            ||| operation is DeleteList
            ||| operation is UpdateTask
            ||| operation is DeleteTask
            ||| operation is DeleteChecklistItem
        },
    }
}

/// What an operation ends with.
#[derive(Debug)]
pub struct OperationEnd {
    pub outcome: OperationOutcome,
    /// The plan of the fetches that follow, where the lists have come.
    pub fetches: Option<Vec<ScheduledFetch>>,
    /// What is told of the cached tasks, if they have changed.
    pub signal: Option<CacheUpdateSignal>,
}

/// What an operation ends with, and the cached tasks after it.
pub struct OperationEndView {
    pub cached: Seq<TaskView>,
    pub outcome: OperationOutcomeView,
    pub fetches: Option<Seq<(int, ListView)>>,
    pub signal: Option<CacheUpdateSignalView>,
}

impl OperationEnd {
    /// What the operation ends with when `cached` are the cached tasks after it.
    pub open spec fn with_cached(self, cached: Seq<TaskView>) -> OperationEndView {
        OperationEndView {
            cached,
            outcome: self.outcome@,
            fetches: self.fetches.deep_view(),
            signal: match self.signal {
                Some(signal) => Some(signal@),
                None => None,
            },
        }
    }
}

/// An end that changes no cached task and leads to no fetch.
pub open spec fn plain_end(cached: Seq<TaskView>, outcome: OperationOutcomeView) -> OperationEndView {
    OperationEndView { cached, outcome, fetches: None, signal: None }
}

/// An end that changes the cached tasks.
pub open spec fn cached_end(
    cached: Seq<TaskView>,
    outcome: OperationOutcomeView,
    signal: CacheUpdateSignalView,
) -> OperationEndView {
    OperationEndView { cached, outcome, fetches: None, signal: Some(signal) }
}

/// `reply` with `error` in the place of the text of an error.
pub open spec fn reply_or<T>(reply: Result<T, Seq<char>>, error: TasksError) -> Result<T, Error> {
    match reply {
        Ok(value) => Ok(value),
        Err(_) => Err(Error::Tasks(error)),
    }
}

/// What an operation other than that on all lists ends with, when `cached` are the cached tasks.
pub open spec fn ended(
    operation: StorageOperationView,
    cached: Seq<TaskView>,
    reply: ReplyView,
) -> OperationEndView {
    match reply {
        ReplyView::List(reply) => plain_end(
            cached,
            OperationOutcomeView::CreateList(reply_or(reply, TasksError::ExistingList)),
        ),
        ReplyView::Task(Ok(task)) => cached_end(
            cache::with_task(cached, task),
            OperationOutcomeView::CreateTask(Ok(task)),
            CacheUpdateSignalView::TaskAdded(task.id, cache::home(task)),
        ),
        ReplyView::Tasks(Ok(tasks)) => cached_end(
            cache::with_list(cached, operation.list().id, tasks),
            operation.tasks_had(Ok(tasks)),
            CacheUpdateSignalView::ListTasksUpdated(operation.list().id),
        ),
        ReplyView::Task(Err(_)) | ReplyView::Tasks(Err(_)) => plain_end(
            cached,
            operation.refused(Error::Tasks(TasksError::ApiError)),
        ),
        ReplyView::Item(reply) => {
            let item = reply_or(reply, TasksError::ApiError);
            match operation {
                StorageOperationView::CreateChecklistItem(_, _) => plain_end(
                    cached,
                    OperationOutcomeView::CreateChecklistItem(item),
                ),
                StorageOperationView::UpdateChecklistItem(_, _, _) => plain_end(
                    cached,
                    OperationOutcomeView::UpdateChecklistItem(item),
                ),
                _ => plain_end(cached, OperationOutcomeView::ToggleChecklistItem(item)),
            }
        },
        ReplyView::Items(reply) => plain_end(
            cached,
            OperationOutcomeView::FetchChecklistItems(reply_or(reply, TasksError::ApiError)),
        ),
        ReplyView::Told(reply) => match operation {
            StorageOperationView::UpdateTask(task) => match reply {
                Ok(_) => cached_end(
                    cache::with_task(cached, task),
                    OperationOutcomeView::UpdateTask(Ok(())),
                    CacheUpdateSignalView::TaskUpdated(task.id, cache::home(task)),
                ),
                Err(_) => plain_end(
                    cached,
                    operation.refused(Error::Tasks(TasksError::TaskNotFound)),
                ),
            },
            StorageOperationView::DeleteTask(task) => match reply {
                Ok(_) => cached_end(
                    cache::without_task(cached, task.id, cache::home(task)),
                    OperationOutcomeView::DeleteTask(Ok(())),
                    CacheUpdateSignalView::TaskRemoved(task.id, cache::home(task)),
                ),
                Err(_) => plain_end(
                    cached,
                    operation.refused(Error::Tasks(TasksError::TaskNotFound)),
                ),
            },
            StorageOperationView::UpdateList(_) => plain_end(
                cached,
                OperationOutcomeView::UpdateList(reply_or(reply, TasksError::ApiError)),
            ),
            StorageOperationView::DeleteList(_) => plain_end(
                cached,
                OperationOutcomeView::DeleteList(reply_or(reply, TasksError::ApiError)),
            ),
            StorageOperationView::DeleteChecklistItem(_, item_id) => plain_end(
                cached,
                OperationOutcomeView::DeleteChecklistItem(
                    match reply {
                        Ok(_) => Ok(item_id),
                        Err(_) => Err(Error::Tasks(TasksError::ApiError)),
                    },
                ),
            ),
            _ => plain_end(cached, operation.refused(Error::Tasks(TasksError::ApiError))),
        },
        ReplyView::Lists(_) => plain_end(
            cached,
            operation.refused(Error::Tasks(TasksError::ListNotFound)),
        ),
    }
}

/// Whether an operation ends with `end`, when `cached` are the cached tasks. With the lists, arranged
/// behind the virtual lists, come the fetches of their tasks.
pub open spec fn ends_with(
    operation: StorageOperationView,
    cached: Seq<TaskView>,
    reply: ReplyView,
    end: OperationEndView,
) -> bool {
    match reply {
        ReplyView::Lists(Ok(lists)) => {
            &&& end.cached == cached
            &&& end.signal is None
            &&& end.outcome matches OperationOutcomeView::Lists(Ok(shown)) && ordering::is_arranged(
                storage::with_virtual_lists(lists),
                shown,
            ) && end.fetches == Some(storage::fetch_schedule(shown))
        },
        _ => end == ended(operation, cached, reply),
    }
}

/// An end that changes no cached task and leads to no fetch.
fn plainly(outcome: OperationOutcome) -> (end: OperationEnd)
    ensures
        forall|cached: Seq<TaskView>| #[trigger]
            end.with_cached(cached) == plain_end(cached, outcome@),
{
    OperationEnd { outcome, fetches: None, signal: None }
}

/// An end that changes the cached tasks.
fn with_signal(outcome: OperationOutcome, signal: CacheUpdateSignal) -> (end: OperationEnd)
    ensures
        forall|cached: Seq<TaskView>| #[trigger]
            end.with_cached(cached) == cached_end(cached, outcome@, signal@),
{
    OperationEnd { outcome, fetches: None, signal: Some(signal) }
}

fn end_lists(storage: &LocalStorage, reply: Result<Vec<List>, String>) -> (end: OperationEnd)
    requires
        reply matches Ok(lists) ==> takes_lists(lists@.len()),
    ensures
        ends_with(
            StorageOperationView::Lists,
            storage.task_cache@,
            ReplyView::Lists(actions::answer_view(reply)),
            end.with_cached(storage.task_cache@),
        ),
{
    match storage.lists_answered(reply) {
        Ok((lists, fetches)) => OperationEnd {
            outcome: OperationOutcome::Lists(Ok(lists)),
            fetches: Some(fetches),
            signal: None,
        },
        Err(error) => plainly(OperationOutcome::Lists(Err(error))),
    }
}

fn end_tasks(
    storage: &mut LocalStorage,
    operation: &StorageOperation,
    list: &List,
    reply: Result<Vec<Task>, String>,
) -> (end: OperationEnd)
    requires
        operation@.is_about_tasks(),
        list@ == operation@.list(),
    ensures
        end.with_cached(final(storage).task_cache@) == ended(
            operation@,
            old(storage).task_cache@,
            ReplyView::Tasks(actions::answer_view(reply)),
        ),
{
    match storage.refresh_tasks_answered(list, reply) {
        Ok((tasks, signal)) => with_signal(tasks_had(operation, Ok(tasks)), signal),
        Err(error) => plainly(refused(operation, error)),
    }
}

fn end_task(
    storage: &mut LocalStorage,
    operation: &StorageOperation,
    reply: Result<Task, String>,
) -> (end: OperationEnd)
    requires
        operation@ is CreateTask,
    ensures
        end.with_cached(final(storage).task_cache@) == ended(
            operation@,
            old(storage).task_cache@,
            ReplyView::Task(actions::answer_view(reply)),
        ),
{
    match storage.create_task_answered(reply) {
        Ok((task, signal)) => with_signal(OperationOutcome::CreateTask(Ok(task)), signal),
        Err(error) => plainly(refused(operation, error)),
    }
}

fn end_item(operation: &StorageOperation, reply: Result<ChecklistItem, String>) -> (end: OperationEnd)
    requires
        fits(operation@, ReplyView::Item(actions::answer_view(reply))),
    ensures
        forall|cached: Seq<TaskView>| #[trigger]
            end.with_cached(cached) == ended(
                operation@,
                cached,
                ReplyView::Item(actions::answer_view(reply)),
            ),
{
    let item = LocalStorage::checklist_item_answered(reply);
    match operation {
        StorageOperation::CreateChecklistItem(_, _) => plainly(
            OperationOutcome::CreateChecklistItem(item),
        ),
        StorageOperation::UpdateChecklistItem(_, _, _) => plainly(
            OperationOutcome::UpdateChecklistItem(item),
        ),
        _ => plainly(OperationOutcome::ToggleChecklistItem(item)),
    }
}

fn end_told(
    storage: &mut LocalStorage,
    operation: &StorageOperation,
    reply: Result<(), String>,
) -> (end: OperationEnd)
    requires
        fits(operation@, ReplyView::Told(actions::answer_view(reply))),
    ensures
        end.with_cached(final(storage).task_cache@) == ended(
            operation@,
            old(storage).task_cache@,
            ReplyView::Told(actions::answer_view(reply)),
        ),
{
    match operation {
        StorageOperation::UpdateTask(task) => match storage.update_task_answered(task, reply) {
            Ok(signal) => with_signal(OperationOutcome::UpdateTask(Ok(())), signal),
            Err(error) => plainly(refused(operation, error)),
        },
        StorageOperation::DeleteTask(task) => match storage.delete_task_answered(task, reply) {
            Ok(signal) => with_signal(OperationOutcome::DeleteTask(Ok(())), signal),
            Err(error) => plainly(refused(operation, error)),
        },
        StorageOperation::UpdateList(_) => plainly(
            OperationOutcome::UpdateList(LocalStorage::list_answered(reply)),
        ),
        StorageOperation::DeleteList(_) => plainly(
            OperationOutcome::DeleteList(LocalStorage::list_answered(reply)),
        ),
        StorageOperation::DeleteChecklistItem(_, item_id) => plainly(
            OperationOutcome::DeleteChecklistItem(
                LocalStorage::delete_checklist_item_answered(item_id.as_str(), reply),
            ),
        ),
        _ => plainly(refused(operation, Error::Tasks(TasksError::ApiError))),
    }
}

/// Takes the reply of the service.
#[verifier::spinoff_prover]
pub fn end(storage: &mut LocalStorage, operation: StorageOperation, reply: Reply) -> (end: OperationEnd)
    requires
        fits(operation@, reply@),
    ensures
        ends_with(
            operation@,
            old(storage).task_cache@,
            reply@,
            end.with_cached(final(storage).task_cache@),
        ),
{
    match reply {
        Reply::Lists(reply) => end_lists(storage, reply),
        Reply::List(reply) => plainly(
            OperationOutcome::CreateList(LocalStorage::create_list_answered(reply)),
        ),
        Reply::Task(reply) => end_task(storage, &operation, reply),
        Reply::Tasks(reply) => match &operation {
            StorageOperation::Tasks(list)
            | StorageOperation::RefreshTasks(list)
            | StorageOperation::ToggledTasks(list)
            | StorageOperation::ExportTasks(list) => end_tasks(storage, &operation, list, reply),
            _ => plainly(refused(&operation, Error::Tasks(TasksError::ApiError))),
        },
        Reply::Item(reply) => end_item(&operation, reply),
        Reply::Items(reply) => plainly(
            OperationOutcome::FetchChecklistItems(LocalStorage::fetch_all_checklist_items(reply)),
        ),
        Reply::Told(reply) => end_told(storage, &operation, reply),
    }
}

impl OperationOutcomeView {
    /// The error that the operation ended with.
    pub open spec fn error(self) -> Option<Error> {
        match self {
            OperationOutcomeView::Lists(Err(error)) => Some(error),
            OperationOutcomeView::Tasks(Err(error)) => Some(error),
            OperationOutcomeView::ToggledTasks(Err(error)) => Some(error),
            OperationOutcomeView::ExportTasks(_, Err(error)) => Some(error),
            OperationOutcomeView::CreateList(Err(error)) => Some(error),
            OperationOutcomeView::UpdateList(Err(error)) => Some(error),
            OperationOutcomeView::DeleteList(Err(error)) => Some(error),
            OperationOutcomeView::CreateTask(Err(error)) => Some(error),
            OperationOutcomeView::UpdateTask(Err(error)) => Some(error),
            OperationOutcomeView::DeleteTask(Err(error)) => Some(error),
            OperationOutcomeView::CreateChecklistItem(Err(error)) => Some(error),
            OperationOutcomeView::UpdateChecklistItem(Err(error)) => Some(error),
            OperationOutcomeView::ToggleChecklistItem(Err(error)) => Some(error),
            OperationOutcomeView::DeleteChecklistItem(Err(error)) => Some(error),
            OperationOutcomeView::FetchChecklistItems(Err(error)) => Some(error),
            _ => None,
        }
    }
}

impl OperationOutcome {
    /// The error that the operation ended with.
    pub fn error(&self) -> (error: Option<Error>)
        ensures
            error == self@.error(),
    {
        match self {
            OperationOutcome::Lists(Err(error)) => Some(*error),
            OperationOutcome::Tasks(Err(error)) => Some(*error),
            OperationOutcome::ToggledTasks(Err(error)) => Some(*error),
            OperationOutcome::ExportTasks(_, Err(error)) => Some(*error),
            OperationOutcome::CreateList(Err(error)) => Some(*error),
            OperationOutcome::UpdateList(Err(error)) => Some(*error),
            OperationOutcome::DeleteList(Err(error)) => Some(*error),
            OperationOutcome::CreateTask(Err(error)) => Some(*error),
            OperationOutcome::UpdateTask(Err(error)) => Some(*error),
            OperationOutcome::DeleteTask(Err(error)) => Some(*error),
            OperationOutcome::CreateChecklistItem(Err(error)) => Some(*error),
            OperationOutcome::UpdateChecklistItem(Err(error)) => Some(*error),
            OperationOutcome::ToggleChecklistItem(Err(error)) => Some(*error),
            OperationOutcome::DeleteChecklistItem(Err(error)) => Some(*error),
            OperationOutcome::FetchChecklistItems(Err(error)) => Some(*error),
            _ => None,
        }
    }
}

impl StorageOperation {
    /// Tells whether `reply` is the kind of reply that the operation gets.
    pub fn accepts(&self, reply: &Reply) -> (b: bool)
        ensures
            b == fits(self@, reply@),
    {
        match (self, reply) {
            (StorageOperation::Lists, Reply::Lists(Ok(lists))) => {
                lists.len() as u64 <= u64::MAX / 100 - 3
            },
            (StorageOperation::Lists, Reply::Lists(Err(_))) => true,
            (StorageOperation::CreateList(_), Reply::List(_)) => true,
            (StorageOperation::CreateTask(_), Reply::Task(_)) => true,
            (StorageOperation::Tasks(_), Reply::Tasks(_)) => true,
            (StorageOperation::RefreshTasks(_), Reply::Tasks(_)) => true,
            (StorageOperation::ToggledTasks(_), Reply::Tasks(_)) => true,
            (StorageOperation::ExportTasks(_), Reply::Tasks(_)) => true,
            (StorageOperation::CreateChecklistItem(_, _), Reply::Item(_)) => true,
            (StorageOperation::UpdateChecklistItem(_, _, _), Reply::Item(_)) => true,
            (StorageOperation::ToggleChecklistItem(_, _), Reply::Item(_)) => true,
            (StorageOperation::FetchChecklistItems(_), Reply::Items(_)) => true,
            (StorageOperation::UpdateList(_), Reply::Told(_)) => true,
            (StorageOperation::DeleteList(_), Reply::Told(_)) => true,
            (StorageOperation::UpdateTask(_), Reply::Told(_)) => true,
            (StorageOperation::DeleteTask(_), Reply::Told(_)) => true,
            (StorageOperation::DeleteChecklistItem(_, _), Reply::Told(_)) => true,
            _ => false,
        }
    }
}

} // verus!
