//! Lists and tasks, the cache that holds them, and the requests that keep both up to date.
//!
//! An operation that asks the service goes in two steps. The first takes the outcome of asking for
//! an access token and gives the request to make. The second, whose name ends in `_answered`, takes
//! the outcome of the request.

pub mod cache;
pub mod checklist;
pub mod fetching;
pub mod filters;
pub mod models;
pub mod ordering;
pub mod requests;

use vstd::prelude::*;
use vstd::string::*;

use crate::app::channels::{CacheUpdateSignal, CacheUpdateSignalView};
use crate::app::error::{Error, LocalStorageError, LocalStorageErrorView, TasksError};
use crate::clock;
use crate::integration::ms_todo::http_client;
use crate::integration::ms_todo::http_client::{
    HttpMethod, MsTodoHttpClient, Pages, PagesView,
};
use crate::storage::cache::TaskCache;
use crate::storage::checklist::{ItemChange, ItemChangeView};
use crate::storage::models::{
    ChecklistItem, List, ListView, Task, TaskView, VirtualListType,
};
use crate::storage::requests::{
    ApiRequest, ApiRequestView, CreateChecklistItemRequest, RequestBody, RequestBodyView,
    UpdateChecklistItemRequest,
};

verus! {

/// The lists and tasks of the service, and the tasks that are cached.
#[derive(Debug)]
pub struct LocalStorage {
    pub http_client: MsTodoHttpClient,
    pub task_cache: TaskCache,
}

impl Clone for LocalStorage {
    fn clone(&self) -> (r: LocalStorage)
        ensures
            r.http_client == self.http_client,
            r.task_cache@ == self.task_cache@,
    {
        LocalStorage { http_client: self.http_client, task_cache: self.task_cache.clone() }
    }
}

/// How to get at the tasks of a list.
#[derive(Debug)]
pub enum TasksStep {
    /// They are known already, or known not to be had.
    Ready(Result<Vec<Task>, Error>),
    /// Ask the service for them.
    Fetch,
}

/// What a [`TasksStep`] says.
pub enum TasksStepView {
    Ready(Result<Seq<TaskView>, Error>),
    Fetch,
}

impl View for TasksStep {
    type V = TasksStepView;

    open spec fn view(&self) -> TasksStepView {
        match self {
            TasksStep::Ready(Ok(tasks)) => TasksStepView::Ready(Ok(tasks.deep_view())),
            TasksStep::Ready(Err(error)) => TasksStepView::Ready(Err(*error)),
            TasksStep::Fetch => TasksStepView::Fetch,
        }
    }
}

/// The tasks of a virtual list on the day `today`, when `cached` is what the cache holds.
pub open spec fn virtual_list(
    cached: Seq<TaskView>,
    list: ListView,
    today: int,
) -> Result<Seq<TaskView>, Error> {
    match list.virtual_type {
        Some(virtual_type) => Ok(filters::virtual_tasks(virtual_type, cached, today)),
        None => Err(Error::Tasks(TasksError::TaskNotFound)),
    }
}

/// How to get at the tasks of `list` on the day `today`, when `cached` is what the cache holds: a
/// virtual list and a list with cached tasks to show need no request.
pub open spec fn tasks_step(cached: Seq<TaskView>, list: ListView, today: int) -> TasksStepView {
    if list.is_virtual {
        TasksStepView::Ready(virtual_list(cached, list, today))
    } else if filters::list_tasks(list, cached).len() > 0 {
        TasksStepView::Ready(Ok(filters::list_tasks(list, cached)))
    } else {
        TasksStepView::Fetch
    }
}

/// How to get at the tasks of `list` past the cache: only a virtual list needs no request.
pub open spec fn refresh_step(cached: Seq<TaskView>, list: ListView, today: int) -> TasksStepView {
    if list.is_virtual {
        TasksStepView::Ready(virtual_list(cached, list, today))
    } else {
        TasksStepView::Fetch
    }
}

/// What the first step of an operation says.
pub open spec fn result_view<T: View>(result: Result<T, Error>) -> Result<T::V, Error> {
    match result {
        Ok(value) => Ok(value@),
        Err(error) => Err(error),
    }
}

/// What the first step of an operation gives: `error` without a token, else the request of `url` by
/// `method`, with `body`.
pub open spec fn request_of(
    token: Result<String, String>,
    error: TasksError,
    method: HttpMethod,
    url: Seq<char>,
    body: RequestBodyView,
) -> Result<ApiRequestView, Error> {
    match token {
        Ok(token) => Ok(
            ApiRequestView {
                http: http_client::authorized(
                    method,
                    url,
                    requests::bearer(token@),
                    !(body is Empty),
                    true,
                ),
                body,
            },
        ),
        Err(_) => Err(Error::Tasks(error)),
    }
}

/// What the first step of an operation gives that gathers the pages at `url`: `error` without a
/// token.
pub open spec fn pages_of<T>(token: Result<String, String>, error: TasksError, url: Seq<char>) -> Result<
    PagesView<T>,
    Error,
> {
    match token {
        Ok(token) => Ok(http_client::first_page::<T>(url, requests::bearer(token@))),
        Err(_) => Err(Error::Tasks(error)),
    }
}

/// What the first step of an operation on a step of `task` gives: as [`request_of`], but an error
/// where the task is in no list.
pub open spec fn checklist_request_of(
    task: TaskView,
    token: Result<String, String>,
    method: HttpMethod,
    url: Seq<char>,
    body: RequestBodyView,
) -> Result<ApiRequestView, Error> {
    if token is Ok && task.list_id is None {
        Err(Error::Tasks(TasksError::ApiError))
    } else {
        request_of(token, TasksError::TaskNotFound, method, url, body)
    }
}

/// What the first step gives that fetches the steps of `task`: an error where the task is in no list.
pub open spec fn checklist_pages_of(task: TaskView, token: Result<String, String>) -> Result<
    PagesView<ChecklistItem>,
    Error,
> {
    if task.list_id is None {
        Err(Error::Tasks(TasksError::TaskNotFound))
    } else {
        pages_of(
            token,
            TasksError::TaskNotFound,
            requests::checklist_url(task.list_id->0, task.id),
        )
    }
}

/// What the first step gives that changes the step `item_id` of `task`.
pub open spec fn change_request_of(
    task: TaskView,
    item_id: Seq<char>,
    change: ItemChangeView,
    token: Result<String, String>,
) -> Result<ApiRequestView, Error> {
    match checklist::item_place(task.checklist_items, item_id) {
        Some(i) => {
            let item = checklist::changed(task.checklist_items[i], change);
            checklist_request_of(
                task,
                token,
                HttpMethod::Patch,
                requests::checklist_item_url(task.list_id->0, task.id, item_id),
                RequestBodyView::UpdateChecklistItem(
                    Some(item.display_name),
                    Some(item.is_checked),
                ),
            )
        },
        None => Err(Error::Tasks(TasksError::TaskNotFound)),
    }
}

/// The text of a list for use elsewhere: that of the list itself, then those of its tasks.
pub open spec fn exported(list: Seq<char>, tasks: Seq<Seq<char>>) -> Seq<char> {
    list + "\n"@ + tasks.flatten()
}

/// The fetch of the tasks of a list, and the wait in milliseconds that comes between the start of the
/// fetch before it and its own.
#[derive(Debug)]
pub struct ScheduledFetch {
    pub delay_ms: u64,
    pub list: List,
}

impl DeepView for ScheduledFetch {
    type V = (int, ListView);

    open spec fn deep_view(&self) -> (int, ListView) {
        (self.delay_ms as int, self.list@)
    }
}

/// The lists that are not virtual.
pub open spec fn regular_lists(lists: Seq<ListView>) -> Seq<ListView> {
    lists.filter(|list: ListView| !list.is_virtual)
}

/// The fetches of the tasks of `lists`: one for each list that is not virtual, where the first begins
/// at once and the wait before each other one is 100 milliseconds longer than the wait before that.
pub open spec fn fetch_schedule(lists: Seq<ListView>) -> Seq<(int, ListView)> {
    regular_lists(lists).map(|i: int, list: ListView| (100 * i, list))
}

/// The lists of the service, with no tasks counted yet, and the virtual lists behind them.
pub open spec fn with_virtual_lists(lists: Seq<ListView>) -> Seq<ListView> {
    lists.map_values(|list: ListView| ListView { number_of_tasks: 0, ..list }) + seq![
        ListView::computed(VirtualListType::MyDay, "My Day"@),
        ListView::computed(VirtualListType::Planned, "Planned"@),
        ListView::computed(VirtualListType::All, "All"@),
    ]
}

/// The lists whose tasks are still to be put into the cache.
#[derive(Debug)]
pub struct CacheFill {
    pub lists: Vec<List>,
}

impl CacheFill {
    /// The list whose tasks are to be fetched next.
    pub fn next_list(&self) -> (r: Option<&List>)
        ensures
            r is Some <==> self.lists@.len() > 0,
            r matches Some(list) ==> list@ == self.lists.deep_view()[0],
    {
        if self.lists.len() > 0 {
            Some(&self.lists[0])
        } else {
            None
        }
    }
}

/// What the cache holds once the tasks of each list in `fills` have been put into it, in this order.
pub open spec fn filled(
    cached: Seq<TaskView>,
    fills: Seq<(Seq<char>, Seq<TaskView>)>,
) -> Seq<TaskView>
    decreases fills.len(),
{
    if fills.len() == 0 {
        cached
    } else {
        cache::with_list(filled(cached, fills.drop_last()), fills.last().0, fills.last().1)
    }
}

impl LocalStorage {
    /// A storage with an empty cache; `auth` is the outcome of setting up authentication.
    pub fn new(_application_id: &str, auth: Result<(), String>) -> (r: Result<
        LocalStorage,
        LocalStorageError,
    >)
        ensures
            match auth {
                Ok(_) => r matches Ok(storage) && storage.task_cache@ == Seq::<TaskView>::empty(),
                Err(reason) => r matches Err(error) && error@
                    == LocalStorageErrorView::LocalStorageDirectoryCreationFailed(reason@),
            },
    {
        match auth {
            Ok(_) => Ok(
                LocalStorage { http_client: MsTodoHttpClient::new(), task_cache: TaskCache::new() },
            ),
            Err(reason) => Err(LocalStorageError::LocalStorageDirectoryCreationFailed(reason)),
        }
    }

    /// Takes the outcome of asking for an access token.
    pub fn get_valid_token(&self, token: Result<String, String>) -> (r: Result<
        String,
        LocalStorageError,
    >)
        ensures
            match token {
                Ok(token) => r == Ok::<String, LocalStorageError>(token),
                Err(reason) => r matches Err(error) && error@
                    == LocalStorageErrorView::LocalStorageDirectoryCreationFailed(reason@),
            },
    {
        match token {
            Ok(token) => Ok(token),
            Err(reason) => Err(LocalStorageError::LocalStorageDirectoryCreationFailed(reason)),
        }
    }

    /// The header that proves the right to make a request, or `error` where there is no token.
    fn header_or(&self, token: Result<String, String>, error: TasksError) -> (r: Result<
        String,
        Error,
    >)
        ensures
            match token {
                Ok(token) => r matches Ok(header) && header@ == requests::bearer(token@),
                Err(_) => r == Err::<String, Error>(Error::Tasks(error)),
            },
    {
        match self.get_valid_token(token) {
            Ok(token) => Ok(requests::bearer_header(token.as_str())),
            Err(_) => Err(Error::Tasks(error)),
        }
    }

    /// Puts a task that is new into the cache.
    pub fn add_task_to_cache(&mut self, task: Task) -> (signal: CacheUpdateSignal)
        ensures
            final(self).task_cache@ == cache::with_task(old(self).task_cache@, task@),
            signal@ == CacheUpdateSignalView::TaskAdded(task@.id, cache::home(task@)),
    {
        let signal = CacheUpdateSignal::TaskAdded(task.id.clone(), cache::list_id_of(&task));
        self.task_cache.update_task(task);
        signal
    }

    /// Puts a task that has changed into the cache.
    pub fn update_task_in_cache(&mut self, task: Task) -> (signal: CacheUpdateSignal)
        ensures
            final(self).task_cache@ == cache::with_task(old(self).task_cache@, task@),
            signal@ == CacheUpdateSignalView::TaskUpdated(task@.id, cache::home(task@)),
    {
        let signal = CacheUpdateSignal::TaskUpdated(task.id.clone(), cache::list_id_of(&task));
        self.task_cache.update_task(task);
        signal
    }

    /// Takes a task out of the cache.
    pub fn remove_task_from_cache(&mut self, task_id: &str, list_id: &str) -> (signal:
        CacheUpdateSignal)
        ensures
            final(self).task_cache@ == cache::without_task(
                old(self).task_cache@,
                task_id@,
                list_id@,
            ),
            signal@ == CacheUpdateSignalView::TaskRemoved(task_id@, list_id@),
    {
        self.task_cache.remove_task(task_id, list_id);
        CacheUpdateSignal::TaskRemoved(task_id.to_string(), list_id.to_string())
    }

    /// Makes `tasks` all that the cache holds of a list.
    pub fn update_cache_for_list(&mut self, list_id: &str, tasks: Vec<Task>) -> (signal:
        CacheUpdateSignal)
        ensures
            final(self).task_cache@ == cache::with_list(
                old(self).task_cache@,
                list_id@,
                tasks.deep_view(),
            ),
            signal@ == CacheUpdateSignalView::ListTasksUpdated(list_id@),
    {
        self.task_cache.update_list_tasks(list_id, tasks);
        CacheUpdateSignal::ListTasksUpdated(list_id.to_string())
    }

    /// The tasks of "My Day" as of now.
    pub fn filter_my_day_tasks(&self, tasks: &[Task]) -> (r: Vec<Task>)
        ensures
            exists|today: i32|
                clock::can_be_today(today) && r.deep_view() == #[trigger] filters::my_day_tasks(
                    tasks.deep_view(),
                    today as int,
                ),
    {
        let today = clock::utc_today();
        filters::due_on(tasks, today)
    }

    /// The tasks of "Planned".
    pub fn filter_planned_tasks(&self, tasks: &[Task]) -> (r: Vec<Task>)
        ensures
            r.deep_view() == filters::planned_tasks(tasks.deep_view()),
    {
        filters::planned(tasks)
    }

    /// The tasks of "All".
    pub fn filter_all_tasks(&self, tasks: &[Task]) -> (r: Vec<Task>)
        ensures
            r.deep_view() == filters::open_tasks(tasks.deep_view()),
    {
        filters::not_completed(tasks)
    }

    /// The cached tasks that belong to a virtual list on the day `today`.
    pub fn get_tasks_for_virtual_list_on(&self, list: &List, today: i32) -> (r: Result<
        Vec<Task>,
        Error,
    >)
        ensures
            TasksStep::Ready(r)@ == TasksStepView::Ready(
                virtual_list(self.task_cache@, list@, today as int),
            ),
    {
        let all_tasks = self.task_cache.get_all_tasks();
        match list.virtual_type {
            Some(virtual_type) => {
                let tasks = all_tasks.as_slice();
                assert(tasks.deep_view() =~= self.task_cache@);
                Ok(filters::of_virtual_type(virtual_type, tasks, today))
            },
            None => Err(Error::Tasks(TasksError::TaskNotFound)),
        }
    }

    /// The cached tasks that belong to a virtual list as of now.
    pub fn get_tasks_for_virtual_list(&self, list: &List) -> (r: Result<Vec<Task>, Error>)
        ensures
            exists|today: i32|
                clock::can_be_today(today) && TasksStep::Ready(r)@ == TasksStepView::Ready(
                    #[trigger] virtual_list(self.task_cache@, list@, today as int),
                ),
    {
        let today = clock::utc_today();
        self.get_tasks_for_virtual_list_on(list, today)
    }

    /// How to get at the tasks of a list on the day `today`.
    pub fn tasks_on(&self, list: &List, today: i32) -> (step: TasksStep)
        ensures
            step@ == tasks_step(self.task_cache@, list@, today as int),
    {
        if list.is_virtual {
            return TasksStep::Ready(self.get_tasks_for_virtual_list_on(list, today));
        }
        let all_tasks = self.task_cache.get_all_tasks();
        let tasks = all_tasks.as_slice();
        assert(tasks.deep_view() =~= self.task_cache@);
        let cached_tasks = filters::shown_in(list, tasks);
        assert(cached_tasks@.len() == cached_tasks.deep_view().len());
        if cached_tasks.len() > 0 {
            TasksStep::Ready(Ok(cached_tasks))
        } else {
            TasksStep::Fetch
        }
    }

    /// How to get at the tasks of a list as of now.
    pub fn tasks(&self, list: &List) -> (step: TasksStep)
        ensures
            exists|today: i32|
                clock::can_be_today(today) && step@ == #[trigger] tasks_step(
                    self.task_cache@,
                    list@,
                    today as int,
                ),
    {
        let today = clock::utc_today();
        self.tasks_on(list, today)
    }

    /// How to get at the tasks of a list past the cache, on the day `today`.
    pub fn refresh_tasks_on(&self, list: &List, today: i32) -> (step: TasksStep)
        ensures
            step@ == refresh_step(self.task_cache@, list@, today as int),
    {
        if list.is_virtual {
            TasksStep::Ready(self.get_tasks_for_virtual_list_on(list, today))
        } else {
            TasksStep::Fetch
        }
    }

    /// How to get at the tasks of a list past the cache, as of now.
    pub fn refresh_tasks(&self, list: &List) -> (step: TasksStep)
        ensures
            exists|today: i32|
                clock::can_be_today(today) && step@ == #[trigger] refresh_step(
                    self.task_cache@,
                    list@,
                    today as int,
                ),
    {
        let today = clock::utc_today();
        self.refresh_tasks_on(list, today)
    }

    /// Begins to ask the service for the tasks of a regular list.
    pub fn refresh_request(&self, list: &List, token: Result<String, String>) -> (r: Result<
        Pages<Task>,
        Error,
    >)
        ensures
            result_view(r) == pages_of::<Task>(
                token,
                TasksError::TaskNotFound,
                requests::shown_tasks_url(list@),
            ),
    {
        let header = self.header_or(token, TasksError::TaskNotFound)?;
        let url = requests::url_of_shown_tasks(list);
        Ok(self.http_client.get_all_pages(url.as_str(), header.as_str()))
    }

    /// Takes the tasks of a regular list from the service.
    pub fn refresh_tasks_answered(&mut self, list: &List, reply: Result<Vec<Task>, String>) -> (r:
        Result<(Vec<Task>, CacheUpdateSignal), Error>)
        ensures
            match reply {
                Ok(tasks) => {
                    &&& r matches Ok((shown, signal)) && shown.deep_view() == tasks.deep_view()
                        && signal@ == CacheUpdateSignalView::ListTasksUpdated(list@.id)
                    &&& final(self).task_cache@ == cache::with_list(
                        old(self).task_cache@,
                        list@.id,
                        tasks.deep_view(),
                    )
                },
                Err(_) => {
                    &&& r == Err::<(Vec<Task>, CacheUpdateSignal), Error>(
                        Error::Tasks(TasksError::ApiError),
                    )
                    &&& *final(self) == *old(self)
                },
            },
    {
        let tasks = Self::fetch_all_todo_tasks(reply)?;
        let shown = tasks.clone();
        assert(shown.deep_view() =~= tasks.deep_view());
        let signal = self.update_cache_for_list(list.id.as_str(), tasks);
        Ok((shown, signal))
    }

    /// Begins to ask the service for the tasks of a list that are not completed.
    pub fn get_active_tasks(&self, list: &List, token: Result<String, String>) -> (r: Result<
        Pages<Task>,
        Error,
    >)
        ensures
            result_view(r) == pages_of::<Task>(
                token,
                TasksError::TaskNotFound,
                requests::active_tasks_url(list@.id),
            ),
    {
        let header = self.header_or(token, TasksError::TaskNotFound)?;
        let url = requests::url_of_active_tasks(list.id.as_str());
        Ok(self.http_client.get_all_pages(url.as_str(), header.as_str()))
    }

    /// Begins to ask the service for all tasks of a list.
    pub fn get_all_tasks_for_list(&self, list: &List, token: Result<String, String>) -> (r: Result<
        Pages<Task>,
        Error,
    >)
        ensures
            result_view(r) == pages_of::<Task>(
                token,
                TasksError::TaskNotFound,
                requests::all_tasks_url(list@.id),
            ),
    {
        let header = self.header_or(token, TasksError::TaskNotFound)?;
        let url = requests::url_of_all_tasks(list.id.as_str());
        Ok(self.http_client.get_all_pages(url.as_str(), header.as_str()))
    }

    /// Takes the tasks that the service was asked for.
    pub fn fetch_all_todo_tasks(reply: Result<Vec<Task>, String>) -> (r: Result<Vec<Task>, Error>)
        ensures
            match reply {
                Ok(tasks) => r == Ok::<Vec<Task>, Error>(tasks),
                Err(_) => r == Err::<Vec<Task>, Error>(Error::Tasks(TasksError::ApiError)),
            },
    {
        match reply {
            Ok(tasks) => Ok(tasks),
            Err(_) => Err(Error::Tasks(TasksError::ApiError)),
        }
    }

    /// Begins to ask the service for all pages of its lists.
    pub fn fetch_lists_via_api(&self, token: Result<String, String>) -> (r: Result<
        Pages<List>,
        Error,
    >)
        ensures
            result_view(r) == pages_of::<List>(
                token,
                TasksError::ListNotFound,
                requests::lists_url(),
            ),
    {
        let header = self.header_or(token, TasksError::ListNotFound)?;
        Ok(self.http_client.get_all_pages("/me/todo/lists", header.as_str()))
    }

    /// Takes the lists that the service was asked for.
    pub fn fetch_all_todo_lists(reply: Result<Vec<List>, String>) -> (r: Result<Vec<List>, Error>)
        ensures
            match reply {
                Ok(lists) => r == Ok::<Vec<List>, Error>(lists),
                Err(_) => r == Err::<Vec<List>, Error>(Error::Tasks(TasksError::ListNotFound)),
            },
    {
        match reply {
            Ok(lists) => Ok(lists),
            Err(_) => Err(Error::Tasks(TasksError::ListNotFound)),
        }
    }

    /// Asks the service for its lists.
    pub fn lists(&self, token: Result<String, String>) -> (r: Result<ApiRequest, Error>)
        ensures
            result_view(r) == request_of(
                token,
                TasksError::ListNotFound,
                HttpMethod::Get,
                requests::lists_url(),
                RequestBodyView::Empty,
            ),
    {
        let header = self.header_or(token, TasksError::ListNotFound)?;
        Ok(
            ApiRequest {
                http: self.http_client.get("/me/todo/lists", header.as_str()),
                body: RequestBody::Empty,
            },
        )
    }

    /// Asks the service to add a task.
    pub fn create_task(&self, task: &Task, token: Result<String, String>) -> (r: Result<
        ApiRequest,
        Error,
    >)
        ensures
            result_view(r) == request_of(
                token,
                TasksError::ExistingTask,
                HttpMethod::Post,
                requests::tasks_url(cache::home(task@)),
                RequestBodyView::CreateTask(task@),
            ),
    {
        let list_id = cache::list_id_of(task);
        let header = self.header_or(token, TasksError::ExistingTask)?;
        let url = requests::url_of_tasks(list_id.as_str());
        Ok(
            ApiRequest {
                http: self.http_client.post(url.as_str(), header.as_str()),
                body: RequestBody::CreateTask(task.clone()),
            },
        )
    }

    /// Takes the task that the service has added.
    pub fn create_task_answered(&mut self, reply: Result<Task, String>) -> (r: Result<
        (Task, CacheUpdateSignal),
        Error,
    >)
        ensures
            match reply {
                Ok(task) => {
                    &&& r matches Ok((new_task, signal)) && new_task@ == task@ && signal@
                        == CacheUpdateSignalView::TaskAdded(task@.id, cache::home(task@))
                    &&& final(self).task_cache@ == cache::with_task(old(self).task_cache@, task@)
                },
                Err(_) => {
                    &&& r == Err::<(Task, CacheUpdateSignal), Error>(
                        Error::Tasks(TasksError::ApiError),
                    )
                    &&& *final(self) == *old(self)
                },
            },
    {
        match reply {
            Ok(new_task) => {
                let signal = self.add_task_to_cache(new_task.clone());
                Ok((new_task, signal))
            },
            Err(_) => Err(Error::Tasks(TasksError::ApiError)),
        }
    }

    /// Asks the service to change a task.
    pub fn update_task(&self, task: &Task, token: Result<String, String>) -> (r: Result<
        ApiRequest,
        Error,
    >)
        ensures
            result_view(r) == request_of(
                token,
                TasksError::TaskNotFound,
                HttpMethod::Patch,
                requests::task_url(cache::home(task@), task@.id),
                RequestBodyView::UpdateTask(task@),
            ),
    {
        let list_id = cache::list_id_of(task);
        let header = self.header_or(token, TasksError::TaskNotFound)?;
        let url = requests::url_of_task(list_id.as_str(), task.id.as_str());
        Ok(
            ApiRequest {
                http: self.http_client.patch(url.as_str(), header.as_str()),
                body: RequestBody::UpdateTask(task.clone()),
            },
        )
    }

    /// Takes the word of the service that it has changed `task`.
    pub fn update_task_answered(&mut self, task: &Task, reply: Result<(), String>) -> (r: Result<
        CacheUpdateSignal,
        Error,
    >)
        ensures
            match reply {
                Ok(_) => {
                    &&& r matches Ok(signal) && signal@ == CacheUpdateSignalView::TaskUpdated(
                        task@.id,
                        cache::home(task@),
                    )
                    &&& final(self).task_cache@ == cache::with_task(old(self).task_cache@, task@)
                },
                Err(_) => {
                    &&& r == Err::<CacheUpdateSignal, Error>(Error::Tasks(TasksError::TaskNotFound))
                    &&& *final(self) == *old(self)
                },
            },
    {
        match reply {
            Ok(_) => Ok(self.update_task_in_cache(task.clone())),
            Err(_) => Err(Error::Tasks(TasksError::TaskNotFound)),
        }
    }

    /// Asks the service to delete a task.
    pub fn delete_task(&self, task: &Task, token: Result<String, String>) -> (r: Result<
        ApiRequest,
        Error,
    >)
        ensures
            result_view(r) == request_of(
                token,
                TasksError::TaskNotFound,
                HttpMethod::Delete,
                requests::task_url(cache::home(task@), task@.id),
                RequestBodyView::Empty,
            ),
    {
        let list_id = cache::list_id_of(task);
        let header = self.header_or(token, TasksError::TaskNotFound)?;
        let url = requests::url_of_task(list_id.as_str(), task.id.as_str());
        Ok(
            ApiRequest {
                http: self.http_client.delete(url.as_str(), header.as_str()),
                body: RequestBody::Empty,
            },
        )
    }

    /// Takes the word of the service that it has deleted `task`.
    pub fn delete_task_answered(&mut self, task: &Task, reply: Result<(), String>) -> (r: Result<
        CacheUpdateSignal,
        Error,
    >)
        ensures
            match reply {
                Ok(_) => {
                    &&& r matches Ok(signal) && signal@ == CacheUpdateSignalView::TaskRemoved(
                        task@.id,
                        cache::home(task@),
                    )
                    &&& final(self).task_cache@ == cache::without_task(
                        old(self).task_cache@,
                        task@.id,
                        cache::home(task@),
                    )
                },
                Err(_) => {
                    &&& r == Err::<CacheUpdateSignal, Error>(Error::Tasks(TasksError::TaskNotFound))
                    &&& *final(self) == *old(self)
                },
            },
    {
        match reply {
            Ok(_) => {
                let list_id = cache::list_id_of(task);
                Ok(self.remove_task_from_cache(task.id.as_str(), list_id.as_str()))
            },
            Err(_) => Err(Error::Tasks(TasksError::TaskNotFound)),
        }
    }

    /// Asks the service to add a list.
    pub fn create_list(&self, list: &List, token: Result<String, String>) -> (r: Result<
        ApiRequest,
        Error,
    >)
        ensures
            result_view(r) == request_of(
                token,
                TasksError::ExistingList,
                HttpMethod::Post,
                requests::lists_url(),
                RequestBodyView::CreateList(list@),
            ),
    {
        let header = self.header_or(token, TasksError::ExistingList)?;
        Ok(
            ApiRequest {
                http: self.http_client.post("/me/todo/lists", header.as_str()),
                body: RequestBody::CreateList(list.clone()),
            },
        )
    }

    /// Takes the list that the service has added.
    pub fn create_list_answered(reply: Result<List, String>) -> (r: Result<List, Error>)
        ensures
            match reply {
                Ok(list) => r == Ok::<List, Error>(list),
                Err(_) => r == Err::<List, Error>(Error::Tasks(TasksError::ExistingList)),
            },
    {
        match reply {
            Ok(list) => Ok(list),
            Err(_) => Err(Error::Tasks(TasksError::ExistingList)),
        }
    }

    /// Asks the service to change a list.
    pub fn update_list(&self, list: &List, token: Result<String, String>) -> (r: Result<
        ApiRequest,
        Error,
    >)
        ensures
            result_view(r) == request_of(
                token,
                TasksError::ListNotFound,
                HttpMethod::Patch,
                requests::list_url(list@.id),
                RequestBodyView::UpdateList(list@),
            ),
    {
        let header = self.header_or(token, TasksError::ListNotFound)?;
        let url = requests::url_of_list(list.id.as_str());
        Ok(
            ApiRequest {
                http: self.http_client.patch(url.as_str(), header.as_str()),
                body: RequestBody::UpdateList(list.clone()),
            },
        )
    }

    /// Takes the word of the service on a list that was to be changed or deleted.
    pub fn list_answered(reply: Result<(), String>) -> (r: Result<(), Error>)
        ensures
            match reply {
                Ok(_) => r == Ok::<(), Error>(()),
                Err(_) => r == Err::<(), Error>(Error::Tasks(TasksError::ApiError)),
            },
    {
        match reply {
            Ok(_) => Ok(()),
            Err(_) => Err(Error::Tasks(TasksError::ApiError)),
        }
    }

    /// Asks the service to delete a list.
    pub fn delete_list(&self, list: &List, token: Result<String, String>) -> (r: Result<
        ApiRequest,
        Error,
    >)
        ensures
            result_view(r) == request_of(
                token,
                TasksError::ListNotFound,
                HttpMethod::Delete,
                requests::list_url(list@.id),
                RequestBodyView::Empty,
            ),
    {
        let header = self.header_or(token, TasksError::ListNotFound)?;
        let url = requests::url_of_list(list.id.as_str());
        Ok(
            ApiRequest {
                http: self.http_client.delete(url.as_str(), header.as_str()),
                body: RequestBody::Empty,
            },
        )
    }

    /// Takes the lists of the service: gives all lists in the order in which they are shown, and the
    /// fetches of their tasks.
    pub fn lists_answered(&self, reply: Result<Vec<List>, String>) -> (r: Result<
        (Vec<List>, Vec<ScheduledFetch>),
        Error,
    >)
        requires
            reply matches Ok(lists) ==> (lists@.len() + 3) * 100 <= u64::MAX,
        ensures
            match reply {
                Ok(lists) => {
                    &&& r matches Ok((shown, fetches)) && ordering::is_arranged(
                        with_virtual_lists(lists.deep_view()),
                        shown.deep_view(),
                    ) && fetches.deep_view() == fetch_schedule(shown.deep_view())
                },
                Err(_) => r == Err::<(Vec<List>, Vec<ScheduledFetch>), Error>(
                    Error::Tasks(TasksError::ListNotFound),
                ),
            },
    {
        let mut lists = Self::fetch_all_todo_lists(reply)?;
        let ghost fetched = lists.deep_view();
        let mut i: usize = 0;
        while i < lists.len()
            invariant
                i <= lists@.len(),
                lists@.len() == fetched.len(),
                forall|j: int|
                    0 <= j < i ==> #[trigger] lists@[j]@ == (ListView {
                        number_of_tasks: 0,
                        ..fetched[j]
                    }),
                forall|j: int| i <= j < lists@.len() ==> #[trigger] lists@[j]@ == fetched[j],
            decreases lists@.len() - i,
        {
            let mut list = lists[i].clone();
            list.number_of_tasks = 0;
            lists.set(i, list);
            i += 1;
        }
        let ghost uncounted = fetched.map_values(
            |list: ListView| ListView { number_of_tasks: 0, ..list },
        );
        assert forall|j: int| 0 <= j < lists@.len() implies #[trigger] lists.deep_view()[j]
            == uncounted[j] by {
            assert(lists@[j]@ == (ListView { number_of_tasks: 0, ..fetched[j] }));
        }
        assert(lists.deep_view() =~= uncounted);
        lists.push(List::new_virtual(VirtualListType::MyDay, "My Day"));
        lists.push(List::new_virtual(VirtualListType::Planned, "Planned"));
        lists.push(List::new_virtual(VirtualListType::All, "All"));
        assert forall|j: int| 0 <= j < uncounted.len() implies #[trigger] lists.deep_view()[j]
            == uncounted[j] by {}
        assert(lists.deep_view() =~= with_virtual_lists(fetched));
        let shown = ordering::arrange(lists);
        assert(shown.deep_view().len() == with_virtual_lists(fetched).len());
        let fetches = Self::spawn_parallel_task_fetching(&shown);
        Ok((shown, fetches))
    }

    /// Plans the fetches of the tasks of `lists`.
    pub fn spawn_parallel_task_fetching(lists: &Vec<List>) -> (fetches: Vec<ScheduledFetch>)
        requires
            lists@.len() * 100 <= u64::MAX,
        ensures
            fetches.deep_view() == fetch_schedule(lists.deep_view()),
    {
        let ghost all = lists.deep_view();
        let ghost regular = |list: ListView| !list.is_virtual;
        let mut fetches: Vec<ScheduledFetch> = Vec::new();
        let mut i: usize = 0;
        proof {
            reveal(Seq::filter);
            assert(fetch_schedule(all.take(0)) =~= Seq::empty());
            assert(fetches.deep_view() =~= Seq::empty());
        }
        while i < lists.len()
            invariant
                i <= lists@.len(),
                lists@.len() * 100 <= u64::MAX,
                all == lists.deep_view(),
                regular == (|list: ListView| !list.is_virtual),
                fetches.deep_view() == fetch_schedule(all.take(i as int)),
                fetches@.len() <= i,
            decreases lists@.len() - i,
        {
            let ghost before = fetches.deep_view();
            proof {
                reveal(Seq::filter);
                assert(all.take(i + 1).drop_last() =~= all.take(i as int));
            }
            if !lists[i].is_virtual {
                let delay_ms: u64 = 100 * (fetches.len() as u64);
                fetches.push(ScheduledFetch { delay_ms, list: lists[i].clone() });
                assert(fetches.deep_view() =~= before.push(
                    (100 * before.len() as int, all[i as int]),
                ));
                assert(fetches.deep_view() =~= fetch_schedule(all.take(i + 1)));
            }
            i += 1;
        }
        assert(all.take(i as int) =~= all);
        fetches
    }

    /// Takes the tasks of a list that a planned fetch has brought.
    pub fn parallel_fetch_answered(&mut self, list: &List, reply: Result<Vec<Task>, String>) -> (r:
        Result<CacheUpdateSignal, Error>)
        ensures
            match reply {
                Ok(tasks) => {
                    &&& r matches Ok(signal) && signal@ == CacheUpdateSignalView::ListTasksUpdated(
                        list@.id,
                    )
                    &&& final(self).task_cache@ == cache::with_list(
                        old(self).task_cache@,
                        list@.id,
                        tasks.deep_view(),
                    )
                },
                Err(_) => {
                    &&& r == Err::<CacheUpdateSignal, Error>(Error::Tasks(TasksError::ApiError))
                    &&& *final(self) == *old(self)
                },
            },
    {
        let tasks = Self::fetch_all_todo_tasks(reply)?;
        Ok(self.update_cache_for_list(list.id.as_str(), tasks))
    }

    /// The signal that follows the last planned fetch.
    pub fn all_fetches_answered() -> (signal: CacheUpdateSignal)
        ensures
            signal@ == CacheUpdateSignalView::ListTasksUpdated("all"@),
    {
        CacheUpdateSignal::ListTasksUpdated("all".to_string())
    }

    /// The text of a list for use elsewhere, made of that of the list itself and those of its tasks.
    pub fn export_list(list_text: &str, task_texts: &Vec<String>) -> (s: String)
        ensures
            s@ == exported(list_text@, task_texts.deep_view()),
    {
        let ghost texts = task_texts.deep_view();
        let mut tasks = String::new();
        let mut i: usize = 0;
        assert(texts.take(0).flatten() =~= Seq::empty());
        while i < task_texts.len()
            invariant
                i <= task_texts@.len(),
                texts == task_texts.deep_view(),
                tasks@ == texts.take(i as int).flatten(),
            decreases task_texts@.len() - i,
        {
            proof {
                assert(texts.take(i + 1) =~= texts.take(i as int).push(texts[i as int]));
                texts.take(i as int).lemma_flatten_push(texts[i as int]);
            }
            tasks.append(task_texts[i].as_str());
            i += 1;
        }
        assert(texts.take(i as int) =~= texts);
        let mut s = list_text.to_string();
        s.append("\n");
        s.append(tasks.as_str());
        s
    }

    /// Begins to ask the service for the steps of a task.
    pub fn fetch_checklist_items(&self, task: &Task, token: Result<String, String>) -> (r: Result<
        Pages<ChecklistItem>,
        Error,
    >)
        ensures
            result_view(r) == checklist_pages_of(task@, token),
    {
        let header = self.header_or(token, TasksError::TaskNotFound)?;
        match &task.list_id {
            Some(list_id) => {
                let url = requests::url_of_checklist(list_id.as_str(), task.id.as_str());
                Ok(self.http_client.get_all_pages(url.as_str(), header.as_str()))
            },
            None => Err(Error::Tasks(TasksError::TaskNotFound)),
        }
    }

    /// Takes the steps that the service was asked for.
    pub fn fetch_all_checklist_items(reply: Result<Vec<ChecklistItem>, String>) -> (r: Result<
        Vec<ChecklistItem>,
        Error,
    >)
        ensures
            match reply {
                Ok(items) => r == Ok::<Vec<ChecklistItem>, Error>(items),
                Err(_) => r == Err::<Vec<ChecklistItem>, Error>(Error::Tasks(TasksError::ApiError)),
            },
    {
        match reply {
            Ok(items) => Ok(items),
            Err(_) => Err(Error::Tasks(TasksError::ApiError)),
        }
    }

    /// Asks the service to add a step to a task.
    pub fn create_checklist_item(
        &self,
        task: &Task,
        title: &str,
        token: Result<String, String>,
    ) -> (r: Result<ApiRequest, Error>)
        ensures
            result_view(r) == checklist_request_of(
                task@,
                token,
                HttpMethod::Post,
                requests::checklist_url(task@.list_id->0, task@.id),
                RequestBodyView::CreateChecklistItem(title@, Some(false)),
            ),
    {
        let header = self.header_or(token, TasksError::TaskNotFound)?;
        match &task.list_id {
            Some(list_id) => {
                let request = CreateChecklistItemRequest {
                    display_name: title.to_string(),
                    is_checked: Some(false),
                };
                let url = requests::url_of_checklist(list_id.as_str(), task.id.as_str());
                Ok(
                    ApiRequest {
                        http: self.http_client.post(url.as_str(), header.as_str()),
                        body: RequestBody::CreateChecklistItem(request),
                    },
                )
            },
            None => Err(Error::Tasks(TasksError::ApiError)),
        }
    }

    /// Asks the service to change a step of a task.
    pub fn update_checklist_item(
        &self,
        task: &Task,
        item_id: &str,
        title: &str,
        is_checked: bool,
        token: Result<String, String>,
    ) -> (r: Result<ApiRequest, Error>)
        ensures
            result_view(r) == checklist_request_of(
                task@,
                token,
                HttpMethod::Patch,
                requests::checklist_item_url(task@.list_id->0, task@.id, item_id@),
                RequestBodyView::UpdateChecklistItem(Some(title@), Some(is_checked)),
            ),
    {
        let header = self.header_or(token, TasksError::TaskNotFound)?;
        match &task.list_id {
            Some(list_id) => {
                let request = UpdateChecklistItemRequest {
                    display_name: Some(title.to_string()),
                    is_checked: Some(is_checked),
                };
                let url = requests::url_of_checklist_item(
                    list_id.as_str(),
                    task.id.as_str(),
                    item_id,
                );
                Ok(
                    ApiRequest {
                        http: self.http_client.patch(url.as_str(), header.as_str()),
                        body: RequestBody::UpdateChecklistItem(request),
                    },
                )
            },
            None => Err(Error::Tasks(TasksError::ApiError)),
        }
    }

    /// Asks the service to change the step `item_id` of a task, as the task holds it.
    pub fn change_checklist_item(
        &self,
        task: &Task,
        item_id: &String,
        change: &ItemChange,
        token: Result<String, String>,
    ) -> (r: Result<ApiRequest, Error>)
        ensures
            result_view(r) == change_request_of(task@, item_id@, change@, token),
    {
        match checklist::find_item(&task.checklist_items, item_id) {
            Some(i) => {
                let item = checklist::change_item(&task.checklist_items[i], change);
                self.update_checklist_item(
                    task,
                    item_id.as_str(),
                    item.display_name.as_str(),
                    item.is_checked,
                    token,
                )
            },
            None => Err(Error::Tasks(TasksError::TaskNotFound)),
        }
    }

    /// Takes the step that the service has added or changed.
    pub fn checklist_item_answered(reply: Result<ChecklistItem, String>) -> (r: Result<
        ChecklistItem,
        Error,
    >)
        ensures
            match reply {
                Ok(item) => r == Ok::<ChecklistItem, Error>(item),
                Err(_) => r == Err::<ChecklistItem, Error>(Error::Tasks(TasksError::ApiError)),
            },
    {
        match reply {
            Ok(item) => Ok(item),
            Err(_) => Err(Error::Tasks(TasksError::ApiError)),
        }
    }

    /// Asks the service to delete a step of a task.
    pub fn delete_checklist_item(
        &self,
        task: &Task,
        item_id: &str,
        token: Result<String, String>,
    ) -> (r: Result<ApiRequest, Error>)
        ensures
            result_view(r) == checklist_request_of(
                task@,
                token,
                HttpMethod::Delete,
                requests::checklist_item_url(task@.list_id->0, task@.id, item_id@),
                RequestBodyView::Empty,
            ),
    {
        let header = self.header_or(token, TasksError::TaskNotFound)?;
        match &task.list_id {
            Some(list_id) => {
                let url = requests::url_of_checklist_item(
                    list_id.as_str(),
                    task.id.as_str(),
                    item_id,
                );
                Ok(
                    ApiRequest {
                        http: self.http_client.delete(url.as_str(), header.as_str()),
                        body: RequestBody::Empty,
                    },
                )
            },
            None => Err(Error::Tasks(TasksError::ApiError)),
        }
    }

    /// Takes the word of the service that it has deleted the step `item_id`.
    pub fn delete_checklist_item_answered(item_id: &str, reply: Result<(), String>) -> (r: Result<
        String,
        Error,
    >)
        ensures
            match reply {
                Ok(_) => r matches Ok(id) && id@ == item_id@,
                Err(_) => r == Err::<String, Error>(Error::Tasks(TasksError::ApiError)),
            },
    {
        match reply {
            Ok(_) => Ok(item_id.to_string()),
            Err(_) => Err(Error::Tasks(TasksError::ApiError)),
        }
    }

    /// Begins to put the tasks of all regular lists into the cache.
    pub fn initialize_cache(lists: &Vec<List>) -> (fill: CacheFill)
        ensures
            fill.lists.deep_view() == regular_lists(lists.deep_view()),
    {
        let ghost all = lists.deep_view();
        let ghost regular = |list: ListView| !list.is_virtual;
        let mut kept: Vec<List> = Vec::new();
        let mut i: usize = 0;
        proof {
            reveal(Seq::filter);
            assert(regular_lists(all.take(0)) =~= Seq::empty());
            assert(kept.deep_view() =~= Seq::empty());
        }
        while i < lists.len()
            invariant
                i <= lists@.len(),
                all == lists.deep_view(),
                kept.deep_view() == regular_lists(all.take(i as int)),
            decreases lists@.len() - i,
        {
            let ghost before = kept.deep_view();
            proof {
                reveal(Seq::filter);
                assert(all.take(i + 1).drop_last() =~= all.take(i as int));
            }
            if !lists[i].is_virtual {
                kept.push(lists[i].clone());
                assert(kept.deep_view() =~= before.push(all[i as int]));
            }
            i += 1;
        }
        assert(all.take(i as int) =~= all);
        CacheFill { lists: kept }
    }

    /// Puts the tasks that were fetched for the next list of `fill` into the cache. A fetch that
    /// failed ends the filling with its error.
    pub fn initialize_cache_answered(
        &mut self,
        fill: &mut CacheFill,
        reply: Result<Vec<Task>, Error>,
    ) -> (r: Result<(), Error>)
        requires
            old(fill).lists@.len() > 0,
        ensures
            match reply {
                Ok(tasks) => {
                    &&& r == Ok::<(), Error>(())
                    &&& final(self).task_cache@ == cache::with_list(
                        old(self).task_cache@,
                        old(fill).lists.deep_view()[0].id,
                        tasks.deep_view(),
                    )
                    &&& final(fill).lists.deep_view() == old(fill).lists.deep_view().drop_first()
                },
                Err(error) => {
                    &&& r == Err::<(), Error>(error)
                    &&& *final(self) == *old(self)
                    &&& *final(fill) == *old(fill)
                },
            },
    {
        let tasks = reply?;
        let ghost lists = fill.lists.deep_view();
        let list = fill.lists.remove(0);
        assert forall|i: int| 0 <= i < fill.lists@.len() implies #[trigger] fill.lists.deep_view()[i]
            == lists[i + 1] by {}
        assert(fill.lists.deep_view() =~= lists.drop_first());
        assert(list@ == lists[0]);
        self.task_cache.update_list_tasks(list.id.as_str(), tasks);
        Ok(())
    }
}

/// The virtual lists are shown first, in their usual order, and the lists of the service behind them.
pub proof fn virtual_lists_are_shown_first(lists: Seq<ListView>, shown: Seq<ListView>)
    requires
        forall|i: int| 0 <= i < lists.len() ==> !(#[trigger] lists[i]).is_virtual,
        ordering::is_arranged(with_virtual_lists(lists), shown),
    ensures
        shown.len() == lists.len() + 3,
        shown[0] == ListView::computed(VirtualListType::MyDay, "My Day"@),
        shown[1] == ListView::computed(VirtualListType::Planned, "Planned"@),
        shown[2] == ListView::computed(VirtualListType::All, "All"@),
        forall|i: int| 3 <= i < shown.len() ==> !(#[trigger] shown[i]).is_virtual,
{
    let all = with_virtual_lists(lists);
    let n = lists.len() as int;
    let places = choose|places: Seq<int>| ordering::is_arranged_by(all, shown, places);
    assert(all[n] == ListView::computed(VirtualListType::MyDay, "My Day"@));
    assert(all[n + 1] == ListView::computed(VirtualListType::Planned, "Planned"@));
    assert(all[n + 2] == ListView::computed(VirtualListType::All, "All"@));
    assert forall|i: int| 0 <= i < n implies !(#[trigger] all[i]).is_virtual by {
        assert(!lists[i].is_virtual);
    }
    ordering::lemma_place_is_taken(places, n);
    ordering::lemma_place_is_taken(places, n + 1);
    ordering::lemma_place_is_taken(places, n + 2);
    let a = choose|i: int| 0 <= i < places.len() && places[i] == n;
    let b = choose|i: int| 0 <= i < places.len() && places[i] == n + 1;
    let c = choose|i: int| 0 <= i < places.len() && places[i] == n + 2;
    if a != 0 {
        assert(ordering::is_shown_first(all, places[0], places[a]));
    }
    if b != 1 {
        assert(ordering::is_shown_first(all, places[1], places[b]) || b < 1);
    }
    if c != 2 {
        assert(ordering::is_shown_first(all, places[2], places[c]) || c < 2);
    }
    assert forall|i: int| 3 <= i < shown.len() implies !(#[trigger] shown[i]).is_virtual by {
        assert(shown[i] == all[places[i]]);
    }
}

/// Whether all of `tasks` belong to the list with the id `list_id`.
pub open spec fn all_of_list(tasks: Seq<TaskView>, list_id: Seq<char>) -> bool {
    forall|i: int| 0 <= i < tasks.len() ==> filters::is_of_list(#[trigger] tasks[i], list_id)
}

/// A cache that was filled gives back for each list what was put into it for that list, as far as
/// the list shows it, whatever was put into it for other lists.
pub proof fn filled_cache_is_read_back(
    cached: Seq<TaskView>,
    fills: Seq<(Seq<char>, Seq<TaskView>)>,
    k: int,
    list: ListView,
)
    requires
        0 <= k < fills.len(),
        fills[k].0 == list.id,
        forall|i: int| k < i < fills.len() ==> (#[trigger] fills[i]).0 != list.id,
        forall|i: int|
            0 <= i < fills.len() ==> all_of_list((#[trigger] fills[i]).1, fills[i].0),
    ensures
        filters::list_tasks(list, filled(cached, fills)) == (if list.hide_completed {
            filters::open_tasks(fills[k].1)
        } else {
            fills[k].1
        }),
    decreases fills.len(),
{
    let rest = fills.drop_last();
    let last = fills[fills.len() - 1];
    lemma_filled_step(filled(cached, rest), last, list);
    if k < fills.len() - 1 {
        assert(rest[k] == fills[k]);
        assert forall|i: int| 0 <= i < rest.len() implies all_of_list(
            (#[trigger] rest[i]).1,
            rest[i].0,
        ) by {
            assert(rest[i] == fills[i]);
        }
        filled_cache_is_read_back(cached, rest, k, list);
    }
}

/// What a list shows after one list was put into the cache.
proof fn lemma_filled_step(
    before: Seq<TaskView>,
    fill: (Seq<char>, Seq<TaskView>),
    list: ListView,
)
    requires
        all_of_list(fill.1, fill.0),
    ensures
        filters::list_tasks(list, cache::with_list(before, fill.0, fill.1)) == (if list.id != fill.0 {
            filters::list_tasks(list, before)
        } else if list.hide_completed {
            filters::open_tasks(fill.1)
        } else {
            fill.1
        }),
{
    cache::list_is_read_back(before, fill.0, fill.1, list);
}

/// What a refresh has brought is what the list shows from then on, without its completed tasks where
/// it hides them. Only a list that has nothing to show is fetched again.
pub proof fn refreshed_tasks_are_read_back(
    cached: Seq<TaskView>,
    list: ListView,
    fetched: Seq<TaskView>,
    today: int,
)
    requires
        !list.is_virtual,
        all_of_list(fetched, list.id),
    ensures
        ({
            let shown = if list.hide_completed {
                filters::open_tasks(fetched)
            } else {
                fetched
            };
            tasks_step(cache::with_list(cached, list.id, fetched), list, today) == if shown.len()
                > 0 {
                TasksStepView::Ready(Ok(shown))
            } else {
                TasksStepView::Fetch
            }
        }),
{
    cache::list_is_read_back(cached, list.id, fetched, list);
}

/// The number beside a list is the number of tasks that the list shows from the cache.
pub proof fn count_is_number_of_shown_tasks(cached: Seq<TaskView>, list: ListView, today: int)
    ensures
        match tasks_step(cached, list, today) {
            TasksStepView::Ready(Ok(tasks)) => filters::task_count(list, cached, today) == tasks.len(),
            TasksStepView::Ready(Err(_)) => filters::task_count(list, cached, today) == 0,
            TasksStepView::Fetch => filters::task_count(list, cached, today) == 0,
        },
{
}

/// Whether the task belongs to a virtual list of the given type, on the day `today`.
pub open spec fn belongs_to_virtual(virtual_type: VirtualListType, task: TaskView, today: int) -> bool {
    match virtual_type {
        VirtualListType::MyDay => filters::is_due_on(task, today),
        VirtualListType::Planned => filters::is_planned(task),
        VirtualListType::All => filters::is_open(task),
    }
}

/// A task that the service has added or changed is shown by its list from then on, without another
/// request, unless the list hides it for being completed.
pub proof fn stored_task_is_shown(
    cached: Seq<TaskView>,
    task: TaskView,
    list: ListView,
    today: int,
)
    requires
        !list.is_virtual,
        filters::is_shown(list, task),
    ensures
        tasks_step(cache::with_task(cached, task), list, today) matches TasksStepView::Ready(
            Ok(tasks),
        ) && tasks.contains(task),
{
    cache::stored_task_is_shown(cached, task, list);
    let shown = filters::list_tasks(list, cache::with_task(cached, task));
    let i = choose|i: int| 0 <= i < shown.len() && shown[i] == task;
    assert(shown.len() > 0);
}

/// A task that the service has added or changed is shown by a virtual list if and only if it belongs
/// to that list.
pub proof fn stored_task_is_shown_by_virtual_list(
    cached: Seq<TaskView>,
    task: TaskView,
    list: ListView,
    virtual_type: VirtualListType,
    today: int,
)
    requires
        list.is_virtual,
        list.virtual_type == Some(virtual_type),
    ensures
        tasks_step(cache::with_task(cached, task), list, today) matches TasksStepView::Ready(
            Ok(tasks),
        ) && (tasks.contains(task) <==> belongs_to_virtual(virtual_type, task, today)),
{
    let after = cache::with_task(cached, task);
    let chosen = match virtual_type {
        VirtualListType::MyDay => |task: TaskView| filters::is_due_on(task, today),
        VirtualListType::Planned => |task: TaskView| filters::is_planned(task),
        VirtualListType::All => |task: TaskView| filters::is_open(task),
    };
    cache::updated_task_is_held(cached, task);
    let i = choose|i: int| 0 <= i < after.len() && after[i] == task;
    if chosen(task) {
        after.lemma_filter_contains(chosen, i);
    }
    if after.filter(chosen).contains(task) {
        let j = choose|j: int| 0 <= j < after.filter(chosen).len() && after.filter(chosen)[j] == task;
        after.lemma_filter_pred(chosen, j);
    }
}

/// A task that the service has deleted is no longer shown by its list.
pub proof fn deleted_task_is_not_shown(
    cached: Seq<TaskView>,
    task_id: Seq<char>,
    list: ListView,
    today: int,
)
    requires
        !list.is_virtual,
    ensures
        match tasks_step(cache::without_task(cached, task_id, list.id), list, today) {
            TasksStepView::Ready(Ok(tasks)) => forall|i: int|
                0 <= i < tasks.len() ==> (#[trigger] tasks[i]).id != task_id,
            TasksStepView::Ready(Err(_)) => false,
            TasksStepView::Fetch => true,
        },
{
    let shown = filters::list_tasks(list, cache::without_task(cached, task_id, list.id));
    assert forall|i: int| 0 <= i < shown.len() implies (#[trigger] shown[i]).id != task_id by {
        cache::removed_task_is_not_shown(cached, task_id, list, i);
    }
}

/// The lists that are shown are those that the service holds, with no tasks counted yet and otherwise as
/// they are, and the three virtual lists; there are no others.
pub proof fn lists_are_shown_as_they_came(lists: Seq<ListView>, shown: Seq<ListView>)
    requires
        ordering::is_arranged(with_virtual_lists(lists), shown),
    ensures
        shown.len() == lists.len() + 3,
        forall|k: int|
            0 <= k < lists.len() ==> shown.contains(
                (ListView { number_of_tasks: 0, ..#[trigger] lists[k] }),
            ),
        forall|virtual_type: VirtualListType| shown.contains(#[trigger] usual_list(virtual_type)),
        forall|i: int|
            0 <= i < shown.len() ==> (exists|k: int|
                0 <= k < lists.len() && #[trigger] shown[i] == (ListView {
                    number_of_tasks: 0,
                    ..#[trigger] lists[k]
                })) || (exists|virtual_type: VirtualListType|
                shown[i] == #[trigger] usual_list(virtual_type)),
{
    let all = with_virtual_lists(lists);
    let n = lists.len() as int;
    let places = choose|places: Seq<int>| ordering::is_arranged_by(all, shown, places);
    assert(all[n] == usual_list(VirtualListType::MyDay));
    assert(all[n + 1] == usual_list(VirtualListType::Planned));
    assert(all[n + 2] == usual_list(VirtualListType::All));
    assert forall|k: int| 0 <= k < n implies #[trigger] all[k] == (ListView {
        number_of_tasks: 0,
        ..lists[k]
    }) by {}
    assert forall|k: int| 0 <= k < all.len() implies shown.contains(#[trigger] all[k]) by {
        ordering::arrangement_holds_the_lists(all, shown, all[k]);
    }
    assert forall|k: int| 0 <= k < lists.len() implies shown.contains(
        (ListView { number_of_tasks: 0, ..#[trigger] lists[k] }),
    ) by {
        assert(shown.contains(all[k]));
    }
    assert forall|virtual_type: VirtualListType| shown.contains(
        #[trigger] usual_list(virtual_type),
    ) by {
        let k = match virtual_type {
            VirtualListType::MyDay => n,
            VirtualListType::Planned => n + 1,
            VirtualListType::All => n + 2,
        };
        assert(shown.contains(all[k]));
    }
    assert forall|i: int| 0 <= i < shown.len() implies (exists|k: int|
        0 <= k < lists.len() && #[trigger] shown[i] == (ListView {
            number_of_tasks: 0,
            ..#[trigger] lists[k]
        })) || (exists|virtual_type: VirtualListType|
        shown[i] == #[trigger] usual_list(virtual_type)) by {
        let place = places[i];
        assert(shown[i] == all[place]);
        if place < n {
            assert(lists[place] == lists[place]);
        } else if place == n {
            assert(shown[i] == usual_list(VirtualListType::MyDay));
        } else if place == n + 1 {
            assert(shown[i] == usual_list(VirtualListType::Planned));
        } else {
            assert(shown[i] == usual_list(VirtualListType::All));
        }
    }
}

/// The virtual list of the given type as it is offered.
pub open spec fn usual_list(virtual_type: VirtualListType) -> ListView {
    ListView {
        id: match virtual_type {
            VirtualListType::MyDay => "virtual-my-day"@,
            VirtualListType::Planned => "virtual-planned"@,
            VirtualListType::All => "virtual-all"@,
        },
        name: match virtual_type {
            VirtualListType::MyDay => "My Day"@,
            VirtualListType::Planned => "Planned"@,
            VirtualListType::All => "All"@,
        },
        icon: None,
        number_of_tasks: 0,
        hide_completed: false,
        is_virtual: true,
        virtual_type: Some(virtual_type),
        sort_order: match virtual_type {
            VirtualListType::MyDay => 0,
            VirtualListType::Planned => 1,
            VirtualListType::All => 2,
        },
        well_known_list_name: None,
    }
}

/// One list more leads to one fetch more, behind the others, unless it is virtual. The first fetch begins
/// at once, and the wait before each other one grows by a tenth of a second from fetch to fetch.
pub proof fn fetches_are_planned_list_by_list(lists: Seq<ListView>, list: ListView)
    ensures
        fetch_schedule(Seq::empty()).len() == 0,
        regular_lists(Seq::empty()).len() == 0,
        list.is_virtual ==> fetch_schedule(lists.push(list)) == fetch_schedule(lists)
            && regular_lists(lists.push(list)) == regular_lists(lists),
        !list.is_virtual ==> fetch_schedule(lists.push(list)) == fetch_schedule(lists).push(
            ((fetch_schedule(lists).len() * 100) as int, list),
        ) && regular_lists(lists.push(list)) == regular_lists(lists).push(list),
{
    reveal(Seq::filter);
    assert(lists.push(list).drop_last() =~= lists);
    if !list.is_virtual {
        assert(fetch_schedule(lists.push(list)) =~= fetch_schedule(lists).push(
            ((fetch_schedule(lists).len() * 100) as int, list),
        ));
    }
}

/// The text of a list begins with that of the list itself and a line break, and the text of one task more
/// comes behind all others.
pub proof fn text_grows_task_by_task(list: Seq<char>, tasks: Seq<Seq<char>>, task: Seq<char>)
    ensures
        exported(list, Seq::empty()) == list + seq!['\n'],
        exported(list, tasks.push(task)) == exported(list, tasks) + task,
{
    reveal_strlit("\n");
    assert(Seq::<Seq<char>>::empty().flatten() =~= Seq::empty());
    assert(exported(list, Seq::empty()) =~= list + seq!['\n']);
    tasks.lemma_flatten_push(task);
    assert(exported(list, tasks.push(task)) =~= exported(list, tasks) + task);
}

} // verus!
