//! What the operations of the storage ask the service for, and what becomes of its replies.

use vstd::prelude::*;

use crate::app::channels::CacheUpdateSignalView;
use crate::app::error::{Error, TasksError};
use crate::app::operations;
use crate::app::operations::{
    OperationEndView, OperationOutcomeView, OperationStepView, QuestionView, ReplyView,
    StorageOperationView,
};
use crate::clock;
use crate::integration::ms_todo::http_client;
use crate::integration::ms_todo::http_client::HttpMethod;
use crate::storage;
use crate::storage::cache;
use crate::storage::checklist;
use crate::storage::checklist::ItemChangeView;
use crate::storage::filters;
use crate::storage::models::{ChecklistItemView, ListView, TaskView, VirtualListType};
use crate::storage::ordering;
use crate::storage::requests::{ApiRequestView, RequestBodyView};
use crate::text;

verus! {

/// Whether `request` goes to `path` of the service by `method`, with the right that `token` gives, and
/// carries `body`. It is made again after trouble that may pass.
pub open spec fn goes_to(
    request: ApiRequestView,
    method: HttpMethod,
    path: Seq<char>,
    token: Seq<char>,
    body: RequestBodyView,
) -> bool {
    &&& request.http.method == method
    &&& request.http.url == "https://graph.microsoft.com/v1.0"@ + path
    &&& request.http.headers.len() == (if body is Empty {
        1int
    } else {
        2
    })
    &&& request.http.headers[0] == ("Authorization"@, "Bearer "@ + token)
    &&& !(body is Empty) ==> request.http.headers[1] == ("Content-Type"@, "application/json"@)
    &&& request.http.has_body == !(body is Empty)
    &&& request.http.retried
    &&& request.body == body
}

/// Whether an operation goes on with such a request.
pub open spec fn sends(
    step: OperationStepView,
    method: HttpMethod,
    path: Seq<char>,
    token: Seq<char>,
    body: RequestBodyView,
) -> bool {
    step matches OperationStepView::Ask(QuestionView::Request(request)) && goes_to(
        request,
        method,
        path,
        token,
        body,
    )
}

proof fn lemma_request(
    token: String,
    error: TasksError,
    method: HttpMethod,
    path: Seq<char>,
    body: RequestBodyView,
)
    requires
        path.len() > 0,
        path[0] == '/',
    ensures
        storage::request_of(Ok(token), error, method, path, body) matches Ok(request) && goes_to(
            request,
            method,
            path,
            token@,
            body,
        ),
{
    http_client::requests_are_addressed_and_authorized(
        method,
        path,
        "Bearer "@ + token@,
        !(body is Empty),
        true,
    );
}

/// The address of the list with the id `list_id`, below that of the service.
pub open spec fn path_of_list(list_id: Seq<char>) -> Seq<char> {
    "/me/todo/lists/"@ + list_id
}

/// The address of the task `task_id` of the list with the id `list_id`, below that of the service.
pub open spec fn path_of_task(list_id: Seq<char>, task_id: Seq<char>) -> Seq<char> {
    path_of_list(list_id) + "/tasks"@ + "/"@ + task_id
}

/// The lists are asked for where a list is added too; a list is changed and deleted at its own address.
/// What is added or changed goes along.
pub proof fn lists_are_worked_on_at_their_address(list: ListView, token: String)
    ensures
        sends(
            StorageOperationView::Lists.asked(Ok(token)),
            HttpMethod::Get,
            "/me/todo/lists"@,
            token@,
            RequestBodyView::Empty,
        ),
        sends(
            StorageOperationView::CreateList(list).asked(Ok(token)),
            HttpMethod::Post,
            "/me/todo/lists"@,
            token@,
            RequestBodyView::CreateList(list),
        ),
        sends(
            StorageOperationView::UpdateList(list).asked(Ok(token)),
            HttpMethod::Patch,
            path_of_list(list.id),
            token@,
            RequestBodyView::UpdateList(list),
        ),
        sends(
            StorageOperationView::DeleteList(list).asked(Ok(token)),
            HttpMethod::Delete,
            path_of_list(list.id),
            token@,
            RequestBodyView::Empty,
        ),
{
    reveal_strlit("/me/todo/lists");
    reveal_strlit("/me/todo/lists/");
    lemma_request(
        token,
        TasksError::ListNotFound,
        HttpMethod::Get,
        "/me/todo/lists"@,
        RequestBodyView::Empty,
    );
    lemma_request(
        token,
        TasksError::ExistingList,
        HttpMethod::Post,
        "/me/todo/lists"@,
        RequestBodyView::CreateList(list),
    );
    lemma_request(
        token,
        TasksError::ListNotFound,
        HttpMethod::Patch,
        path_of_list(list.id),
        RequestBodyView::UpdateList(list),
    );
    lemma_request(
        token,
        TasksError::ListNotFound,
        HttpMethod::Delete,
        path_of_list(list.id),
        RequestBodyView::Empty,
    );
}

/// A task is added to its own list, and changed and deleted at its own address in that list; the list of
/// a task that is in none has no name there. What is added or changed goes along as it is.
pub proof fn tasks_are_worked_on_in_their_list(task: TaskView, list_id: Seq<char>, token: String)
    requires
        cache::stands_in(task, list_id),
    ensures
        sends(
            StorageOperationView::CreateTask(task).asked(Ok(token)),
            HttpMethod::Post,
            path_of_list(list_id) + "/tasks"@,
            token@,
            RequestBodyView::CreateTask(task),
        ),
        sends(
            StorageOperationView::UpdateTask(task).asked(Ok(token)),
            HttpMethod::Patch,
            path_of_task(list_id, task.id),
            token@,
            RequestBodyView::UpdateTask(task),
        ),
        sends(
            StorageOperationView::DeleteTask(task).asked(Ok(token)),
            HttpMethod::Delete,
            path_of_task(list_id, task.id),
            token@,
            RequestBodyView::Empty,
        ),
{
    reveal_strlit("/me/todo/lists/");
    if task.list_id is None {
        assert(list_id =~= Seq::empty());
    }
    lemma_request(
        token,
        TasksError::ExistingTask,
        HttpMethod::Post,
        path_of_list(list_id) + "/tasks"@,
        RequestBodyView::CreateTask(task),
    );
    lemma_request(
        token,
        TasksError::TaskNotFound,
        HttpMethod::Patch,
        path_of_task(list_id, task.id),
        RequestBodyView::UpdateTask(task),
    );
    lemma_request(
        token,
        TasksError::TaskNotFound,
        HttpMethod::Delete,
        path_of_task(list_id, task.id),
        RequestBodyView::Empty,
    );
}

/// A step is added to the steps of its task, unchecked and under its title, and deleted at its own
/// address. The steps of a task are gathered from where they are added.
pub proof fn steps_are_worked_on_at_their_task(
    task: TaskView,
    list_id: Seq<char>,
    title: Seq<char>,
    item_id: Seq<char>,
    token: String,
)
    requires
        task.list_id == Some(list_id),
    ensures
        sends(
            StorageOperationView::CreateChecklistItem(task, title).asked(Ok(token)),
            HttpMethod::Post,
            path_of_task(list_id, task.id) + "/checklistItems"@,
            token@,
            RequestBodyView::CreateChecklistItem(title, Some(false)),
        ),
        sends(
            StorageOperationView::DeleteChecklistItem(task, item_id).asked(Ok(token)),
            HttpMethod::Delete,
            path_of_task(list_id, task.id) + "/checklistItems"@ + "/"@ + item_id,
            token@,
            RequestBodyView::Empty,
        ),
        ({
            let step = StorageOperationView::FetchChecklistItems(task).asked(Ok(token));
            step matches OperationStepView::Ask(QuestionView::ItemPages(pages)) && pages.next_url
                == Some(path_of_task(list_id, task.id) + "/checklistItems"@) && pages.auth_header
                == "Bearer "@ + token@ && pages.items.len() == 0
        }),
{
    reveal_strlit("/me/todo/lists/");
    lemma_request(
        token,
        TasksError::TaskNotFound,
        HttpMethod::Post,
        path_of_task(list_id, task.id) + "/checklistItems"@,
        RequestBodyView::CreateChecklistItem(title, Some(false)),
    );
    lemma_request(
        token,
        TasksError::TaskNotFound,
        HttpMethod::Delete,
        path_of_task(list_id, task.id) + "/checklistItems"@ + "/"@ + item_id,
        RequestBodyView::Empty,
    );
}

/// A step that is changed is the first of its task with the given id: a toggle sends the title of that
/// very step and the opposite of its checked state, and another title goes with the checked state of that
/// very step. Both go to the address of the step.
pub proof fn changed_step_is_the_one_that_was_named(
    task: TaskView,
    list_id: Seq<char>,
    item_id: Seq<char>,
    title: Seq<char>,
    i: int,
    token: String,
)
    requires
        task.list_id == Some(list_id),
        0 <= i < task.checklist_items.len(),
        task.checklist_items[i].id == item_id,
        forall|j: int| 0 <= j < i ==> (#[trigger] task.checklist_items[j]).id != item_id,
    ensures
        ({
            let item = task.checklist_items[i];
            let path = path_of_task(list_id, task.id) + "/checklistItems"@ + "/"@ + item_id;
            let toggle = RequestBodyView::UpdateChecklistItem(
                Some(item.display_name),
                Some(!item.is_checked),
            );
            let rename = RequestBodyView::UpdateChecklistItem(Some(title), Some(item.is_checked));
            &&& sends(
                StorageOperationView::ToggleChecklistItem(task, item_id).asked(Ok(token)),
                HttpMethod::Patch,
                path,
                token@,
                toggle,
            )
            &&& sends(
                StorageOperationView::UpdateChecklistItem(task, item_id, title).asked(Ok(token)),
                HttpMethod::Patch,
                path,
                token@,
                rename,
            )
            &&& storage::change_request_of(
                task,
                item_id,
                ItemChangeView::Toggle,
                Ok(token),
            ) matches Ok(request) && goes_to(request, HttpMethod::Patch, path, token@, toggle)
            &&& storage::change_request_of(
                task,
                item_id,
                ItemChangeView::Rename(title),
                Ok(token),
            ) matches Ok(request) && goes_to(request, HttpMethod::Patch, path, token@, rename)
        }),
{
    reveal_strlit("/me/todo/lists/");
    checklist::first_step_with_the_id_is_found(task.checklist_items, item_id, i);
    let item = task.checklist_items[i];
    let path = path_of_task(list_id, task.id) + "/checklistItems"@ + "/"@ + item_id;
    lemma_request(
        token,
        TasksError::TaskNotFound,
        HttpMethod::Patch,
        path,
        RequestBodyView::UpdateChecklistItem(Some(item.display_name), Some(!item.is_checked)),
    );
    lemma_request(
        token,
        TasksError::TaskNotFound,
        HttpMethod::Patch,
        path,
        RequestBodyView::UpdateChecklistItem(Some(title), Some(item.is_checked)),
    );
}

/// Nothing is sent to change a step that the task does not have, or any step of a task that is in no
/// list.
pub proof fn steps_without_a_place_are_refused(
    task: TaskView,
    item_id: Seq<char>,
    title: Seq<char>,
    cached: Seq<TaskView>,
    today: i32,
    token: String,
)
    ensures
        ({
            let toggle = StorageOperationView::ToggleChecklistItem(task, item_id);
            let rename = StorageOperationView::UpdateChecklistItem(task, item_id, title);
            let missing = forall|j: int|
                0 <= j < task.checklist_items.len() ==> (#[trigger] task.checklist_items[j]).id
                    != item_id;
            &&& missing <==> toggle.known(cached, today) is Some
            &&& missing <==> rename.known(cached, today) is Some
            &&& missing ==> toggle.known(cached, today) == Some(
                OperationOutcomeView::ToggleChecklistItem(Err(Error::Tasks(TasksError::TaskNotFound))),
            )
            &&& missing ==> rename.known(cached, today) == Some(
                OperationOutcomeView::UpdateChecklistItem(Err(Error::Tasks(TasksError::TaskNotFound))),
            )
            &&& missing ==> storage::change_request_of(
                task,
                item_id,
                ItemChangeView::Rename(title),
                Ok(token),
            ) == Err::<ApiRequestView, Error>(Error::Tasks(TasksError::TaskNotFound))
            &&& missing ==> storage::change_request_of(
                task,
                item_id,
                ItemChangeView::Toggle,
                Ok(token),
            ) == Err::<ApiRequestView, Error>(Error::Tasks(TasksError::TaskNotFound))
        }),
        task.list_id is None ==> {
            &&& StorageOperationView::CreateChecklistItem(task, title).asked(Ok(token))
                == OperationStepView::Ended(
                OperationOutcomeView::CreateChecklistItem(Err(Error::Tasks(TasksError::ApiError))),
            )
            &&& StorageOperationView::DeleteChecklistItem(task, item_id).asked(Ok(token))
                == OperationStepView::Ended(
                OperationOutcomeView::DeleteChecklistItem(Err(Error::Tasks(TasksError::ApiError))),
            )
            &&& StorageOperationView::FetchChecklistItems(task).asked(Ok(token))
                == OperationStepView::Ended(
                OperationOutcomeView::FetchChecklistItems(
                    Err(Error::Tasks(TasksError::TaskNotFound)),
                ),
            )
            &&& (exists|j: int|
                0 <= j < task.checklist_items.len() && (#[trigger] task.checklist_items[j]).id
                    == item_id) ==> StorageOperationView::ToggleChecklistItem(task, item_id).asked(
                Ok(token),
            ) == OperationStepView::Ended(
                OperationOutcomeView::ToggleChecklistItem(Err(Error::Tasks(TasksError::ApiError))),
            ) && StorageOperationView::UpdateChecklistItem(task, item_id, title).asked(Ok(token))
                == OperationStepView::Ended(
                OperationOutcomeView::UpdateChecklistItem(Err(Error::Tasks(TasksError::ApiError))),
            )
        },
{
    checklist::first_step_with_the_id_is_found(task.checklist_items, item_id, 0);
}

/// The operations on the tasks of a list ask for what the list shows, the newest first: where it hides
/// completed tasks they are filtered out, and where it does not there is no filter. They begin with
/// nothing gathered.
pub proof fn tasks_are_asked_for_as_the_list_shows_them(
    operation: StorageOperationView,
    list: ListView,
    token: String,
)
    requires
        ({
            ||| operation == StorageOperationView::Tasks(list)
            ||| operation == StorageOperationView::RefreshTasks(list)
            ||| operation == StorageOperationView::ToggledTasks(list)
            ||| operation == StorageOperationView::ExportTasks(list)
        }),
    ensures
        operation.asked(Ok(token)) matches OperationStepView::Ask(QuestionView::TaskPages(pages)) && {
            &&& pages.items.len() == 0
            &&& pages.auth_header == "Bearer "@ + token@
            &&& list.hide_completed ==> pages.next_url == Some(
                path_of_list(list.id) + "/tasks"@
                    + "?$filter=status ne 'completed'&$orderby=createdDateTime desc"@,
            )
            &&& !list.hide_completed ==> pages.next_url == Some(
                path_of_list(list.id) + "/tasks"@ + "?$orderby=createdDateTime desc"@,
            )
        },
{
}

/// Without a token nothing is sent. Each operation then ends with the error that is its own.
pub proof fn nothing_is_sent_without_a_token(
    list: ListView,
    task: TaskView,
    item_id: Seq<char>,
    title: Seq<char>,
    reason: String,
)
    ensures
        StorageOperationView::Lists.asked(Err(reason)) == OperationStepView::Ended(
            OperationOutcomeView::Lists(Err(Error::Tasks(TasksError::ListNotFound))),
        ),
        StorageOperationView::Tasks(list).asked(Err(reason)) == OperationStepView::Ended(
            OperationOutcomeView::Tasks(Err(Error::Tasks(TasksError::TaskNotFound))),
        ),
        StorageOperationView::RefreshTasks(list).asked(Err(reason)) == OperationStepView::Ended(
            OperationOutcomeView::Tasks(Err(Error::Tasks(TasksError::TaskNotFound))),
        ),
        StorageOperationView::ToggledTasks(list).asked(Err(reason)) == OperationStepView::Ended(
            OperationOutcomeView::ToggledTasks(Err(Error::Tasks(TasksError::TaskNotFound))),
        ),
        StorageOperationView::ExportTasks(list).asked(Err(reason)) == OperationStepView::Ended(
            OperationOutcomeView::ExportTasks(list, Err(Error::Tasks(TasksError::TaskNotFound))),
        ),
        StorageOperationView::CreateList(list).asked(Err(reason)) == OperationStepView::Ended(
            OperationOutcomeView::CreateList(Err(Error::Tasks(TasksError::ExistingList))),
        ),
        StorageOperationView::UpdateList(list).asked(Err(reason)) == OperationStepView::Ended(
            OperationOutcomeView::UpdateList(Err(Error::Tasks(TasksError::ListNotFound))),
        ),
        StorageOperationView::DeleteList(list).asked(Err(reason)) == OperationStepView::Ended(
            OperationOutcomeView::DeleteList(Err(Error::Tasks(TasksError::ListNotFound))),
        ),
        StorageOperationView::CreateTask(task).asked(Err(reason)) == OperationStepView::Ended(
            OperationOutcomeView::CreateTask(Err(Error::Tasks(TasksError::ExistingTask))),
        ),
        StorageOperationView::UpdateTask(task).asked(Err(reason)) == OperationStepView::Ended(
            OperationOutcomeView::UpdateTask(Err(Error::Tasks(TasksError::TaskNotFound))),
        ),
        StorageOperationView::DeleteTask(task).asked(Err(reason)) == OperationStepView::Ended(
            OperationOutcomeView::DeleteTask(Err(Error::Tasks(TasksError::TaskNotFound))),
        ),
        StorageOperationView::CreateChecklistItem(task, title).asked(Err(reason))
            == OperationStepView::Ended(
            OperationOutcomeView::CreateChecklistItem(Err(Error::Tasks(TasksError::TaskNotFound))),
        ),
        StorageOperationView::UpdateChecklistItem(task, item_id, title).asked(Err(reason))
            == OperationStepView::Ended(
            OperationOutcomeView::UpdateChecklistItem(Err(Error::Tasks(TasksError::TaskNotFound))),
        ),
        StorageOperationView::ToggleChecklistItem(task, item_id).asked(Err(reason))
            == OperationStepView::Ended(
            OperationOutcomeView::ToggleChecklistItem(Err(Error::Tasks(TasksError::TaskNotFound))),
        ),
        StorageOperationView::DeleteChecklistItem(task, item_id).asked(Err(reason))
            == OperationStepView::Ended(
            OperationOutcomeView::DeleteChecklistItem(Err(Error::Tasks(TasksError::TaskNotFound))),
        ),
        StorageOperationView::FetchChecklistItems(task).asked(Err(reason)) == OperationStepView::Ended(
            OperationOutcomeView::FetchChecklistItems(Err(Error::Tasks(TasksError::TaskNotFound))),
        ),
{
}

/// The tasks of a list are had without a request where the cache holds tasks that the list shows, and
/// then they are all of these. To refresh a regular list always takes a request. A virtual list never
/// does: it shows the cached tasks that are meant for it, and one that is of no type has no tasks.
pub proof fn cached_tasks_are_had_without_a_request(list: ListView, cached: Seq<TaskView>, today: i32)
    requires
        clock::FIRST_DAY <= today <= clock::LAST_DAY,
    ensures
        ({
            let tasks = StorageOperationView::Tasks(list).known(cached, today);
            let refreshed = StorageOperationView::RefreshTasks(list).known(cached, today);
            let toggled = StorageOperationView::ToggledTasks(list).known(cached, today);
            let exported = StorageOperationView::ExportTasks(list).known(cached, today);
            let shown = cached.filter(|task: TaskView| filters::is_to_be_shown(list, task));
            let meant = cached.filter(
                |task: TaskView| filters::is_meant_for(list.virtual_type->0, task, today as int),
            );
            let none: Result<Seq<TaskView>, Error> = Err(Error::Tasks(TasksError::TaskNotFound));
            &&& !list.is_virtual ==> refreshed is None
            &&& !list.is_virtual && shown.len() == 0 ==> tasks is None && toggled is None && exported
                is None
            &&& !list.is_virtual && shown.len() > 0 ==> {
                &&& tasks == Some(OperationOutcomeView::Tasks(Ok(shown)))
                &&& toggled == Some(OperationOutcomeView::ToggledTasks(Ok(shown)))
                &&& exported == Some(OperationOutcomeView::ExportTasks(list, Ok(shown)))
            }
            &&& list.is_virtual && list.virtual_type is Some ==> {
                &&& tasks == Some(OperationOutcomeView::Tasks(Ok(meant)))
                &&& refreshed == Some(OperationOutcomeView::Tasks(Ok(meant)))
                &&& toggled == Some(OperationOutcomeView::ToggledTasks(Ok(meant)))
                &&& exported == Some(OperationOutcomeView::ExportTasks(list, Ok(meant)))
            }
            &&& list.is_virtual && list.virtual_type is None ==> {
                &&& tasks == Some(OperationOutcomeView::Tasks(none))
                &&& refreshed == Some(OperationOutcomeView::Tasks(none))
                &&& toggled == Some(OperationOutcomeView::ToggledTasks(none))
                &&& exported == Some(OperationOutcomeView::ExportTasks(list, none))
            }
        }),
{
    filters::lists_show_what_is_meant_for_them(list, cached, today as int);
}

/// Every operation but one on tasks or on a step that is there asks for a token first.
pub proof fn other_operations_need_a_token(
    operation: StorageOperationView,
    cached: Seq<TaskView>,
    today: i32,
)
    requires
        ({
            ||| operation is Lists
            ||| operation is CreateList
            ||| operation is UpdateList
            ||| operation is DeleteList
            ||| operation is CreateTask
            ||| operation is UpdateTask
            ||| operation is DeleteTask
            ||| operation is CreateChecklistItem
            ||| operation is DeleteChecklistItem
            ||| operation is FetchChecklistItems
        }),
    ensures
        operation.known(cached, today) is None,
{
}

/// Whether an end leaves the cached tasks alone, tells of nothing and plans no fetch.
pub open spec fn is_quiet(cached: Seq<TaskView>, end: OperationEndView) -> bool {
    end.cached == cached && end.signal is None && end.fetches is None
}

/// Whether `after` is `cached` with `task` stored: in the place of the first task with its id and list, or
/// behind all others.
pub open spec fn holds_stored(cached: Seq<TaskView>, task: TaskView, after: Seq<TaskView>) -> bool {
    ||| after == cached.push(task) && forall|i: int|
        0 <= i < cached.len() ==> (#[trigger] cached[i]).id != task.id || cached[i].list_id
            != task.list_id
    ||| exists|k: int|
        {
            &&& 0 <= k < cached.len()
            &&& (#[trigger] cached[k]).id == task.id
            &&& cached[k].list_id == task.list_id
            &&& forall|i: int|
                0 <= i < k ==> (#[trigger] cached[i]).id != task.id || cached[i].list_id
                    != task.list_id
            &&& after == cached.update(k, task)
        }
}

proof fn lemma_stored(cached: Seq<TaskView>, task: TaskView)
    ensures
        holds_stored(cached, task, cache::with_task(cached, task)),
{
    if exists|i: int|
        0 <= i < cached.len() && (#[trigger] cached[i]).id == task.id && cached[i].list_id
            == task.list_id {
        let i = choose|i: int|
            0 <= i < cached.len() && (#[trigger] cached[i]).id == task.id && cached[i].list_id
                == task.list_id;
        let k = lemma_first(cached, task, i);
        cache::cache_changes_only_what_is_meant(
            cached,
            task,
            k,
            Seq::empty(),
            Seq::empty(),
            Seq::empty(),
        );
    } else {
        cache::cache_changes_only_what_is_meant(
            cached,
            task,
            -1,
            Seq::empty(),
            Seq::empty(),
            Seq::empty(),
        );
    }
}

/// The first place, up to `i`, of a task with the id and list of `task`.
proof fn lemma_first(cached: Seq<TaskView>, task: TaskView, i: int) -> (k: int)
    requires
        0 <= i < cached.len(),
        cached[i].id == task.id,
        cached[i].list_id == task.list_id,
    ensures
        0 <= k <= i,
        cached[k].id == task.id,
        cached[k].list_id == task.list_id,
        forall|j: int|
            0 <= j < k ==> (#[trigger] cached[j]).id != task.id || cached[j].list_id != task.list_id,
    decreases i,
{
    if exists|j: int|
        0 <= j < i && (#[trigger] cached[j]).id == task.id && cached[j].list_id == task.list_id {
        let j = choose|j: int|
            0 <= j < i && (#[trigger] cached[j]).id == task.id && cached[j].list_id == task.list_id;
        lemma_first(cached, task, j)
    } else {
        i
    }
}

/// A task that the service has added or changed is stored, and told of by its id and that of its list. A
/// task that it has deleted leaves the cache, with no other, and is told of likewise. A refusal changes
/// nothing and ends with the error of the operation.
pub proof fn replies_about_tasks_reach_the_cache(
    task: TaskView,
    list_id: Seq<char>,
    new_task: TaskView,
    cached: Seq<TaskView>,
    error: Seq<char>,
    created: OperationEndView,
    updated: OperationEndView,
    deleted: OperationEndView,
)
    requires
        cache::stands_in(task, list_id),
    ensures
        operations::ends_with(
            StorageOperationView::CreateTask(new_task),
            cached,
            ReplyView::Task(Ok(task)),
            created,
        ) ==> created.outcome == OperationOutcomeView::CreateTask(Ok(task)) && created.fetches is None
            && created.signal == Some(CacheUpdateSignalView::TaskAdded(task.id, list_id))
            && holds_stored(cached, task, created.cached),
        operations::ends_with(
            StorageOperationView::UpdateTask(task),
            cached,
            ReplyView::Told(Ok(())),
            updated,
        ) ==> updated.outcome == OperationOutcomeView::UpdateTask(Ok(())) && updated.fetches is None
            && updated.signal == Some(CacheUpdateSignalView::TaskUpdated(task.id, list_id))
            && holds_stored(cached, task, updated.cached),
        operations::ends_with(
            StorageOperationView::DeleteTask(task),
            cached,
            ReplyView::Told(Ok(())),
            deleted,
        ) ==> deleted.outcome == OperationOutcomeView::DeleteTask(Ok(())) && deleted.fetches is None
            && deleted.signal == Some(CacheUpdateSignalView::TaskRemoved(task.id, list_id))
            && deleted.cached == cached.filter(
            |t: TaskView| !(t.id == task.id && cache::stands_in(t, list_id)),
        ),
        operations::ends_with(
            StorageOperationView::CreateTask(new_task),
            cached,
            ReplyView::Task(Err(error)),
            created,
        ) ==> is_quiet(cached, created) && created.outcome == OperationOutcomeView::CreateTask(
            Err(Error::Tasks(TasksError::ApiError)),
        ),
        operations::ends_with(
            StorageOperationView::UpdateTask(task),
            cached,
            ReplyView::Told(Err(error)),
            updated,
        ) ==> is_quiet(cached, updated) && updated.outcome == OperationOutcomeView::UpdateTask(
            Err(Error::Tasks(TasksError::TaskNotFound)),
        ),
        operations::ends_with(
            StorageOperationView::DeleteTask(task),
            cached,
            ReplyView::Told(Err(error)),
            deleted,
        ) ==> is_quiet(cached, deleted) && deleted.outcome == OperationOutcomeView::DeleteTask(
            Err(Error::Tasks(TasksError::TaskNotFound)),
        ),
{
    if task.list_id is None {
        assert(list_id =~= Seq::empty());
    }
    lemma_stored(cached, task);
    cache::cache_changes_only_what_is_meant(cached, task, -1, task.id, list_id, Seq::empty());
    cache::lemma_same_filter(
        cached,
        |t: TaskView| !(t.id == task.id && cache::stands_in(t, list_id)),
        |task2: TaskView| !(task2.id == task.id && cache::stands_in(task2, list_id)),
    );
}

/// The tasks of a list that have come are handed on as they are. They become all that the cache holds of
/// that list, and are told of under its id. An error changes nothing.
pub proof fn fetched_tasks_reach_the_cache(
    operation: StorageOperationView,
    list: ListView,
    cached: Seq<TaskView>,
    reply: Result<Seq<TaskView>, Seq<char>>,
    end: OperationEndView,
)
    requires
        ({
            ||| operation == StorageOperationView::Tasks(list)
            ||| operation == StorageOperationView::RefreshTasks(list)
            ||| operation == StorageOperationView::ToggledTasks(list)
            ||| operation == StorageOperationView::ExportTasks(list)
        }),
        operations::ends_with(operation, cached, ReplyView::Tasks(reply), end),
    ensures
        ({
            let had: Result<Seq<TaskView>, Error> = match reply {
                Ok(tasks) => Ok(tasks),
                Err(_) => Err(Error::Tasks(TasksError::ApiError)),
            };
            match operation {
                StorageOperationView::ToggledTasks(_) => end.outcome
                    == OperationOutcomeView::ToggledTasks(had),
                StorageOperationView::ExportTasks(_) => end.outcome
                    == OperationOutcomeView::ExportTasks(list, had),
                _ => end.outcome == OperationOutcomeView::Tasks(had),
            }
        }),
        reply matches Ok(tasks) ==> end.fetches is None && end.signal == Some(
            CacheUpdateSignalView::ListTasksUpdated(list.id),
        ) && end.cached == cached.filter(|task: TaskView| !cache::stands_in(task, list.id)) + tasks,
        reply is Err ==> is_quiet(cached, end),
{
    if reply is Ok {
        cache::cache_changes_only_what_is_meant(
            cached,
            arbitrary(),
            -1,
            Seq::empty(),
            list.id,
            reply->Ok_0,
        );
    }
}

/// Replies about lists and steps are handed on as they are, errors as the error of the operation, and
/// change no cached task. Of a step that was deleted the id is handed on that was to go.
pub proof fn other_replies_are_handed_on(
    list: ListView,
    new_list: ListView,
    task: TaskView,
    item: ChecklistItemView,
    items: Seq<ChecklistItemView>,
    item_id: Seq<char>,
    title: Seq<char>,
    error: Seq<char>,
    cached: Seq<TaskView>,
    end: OperationEndView,
)
    ensures
        ({
            let ends = |operation: StorageOperationView, reply: ReplyView|
                operations::ends_with(operation, cached, reply, end);
            let api = Error::Tasks(TasksError::ApiError);
            let create = StorageOperationView::CreateChecklistItem(task, title);
            let rename = StorageOperationView::UpdateChecklistItem(task, item_id, title);
            let toggle = StorageOperationView::ToggleChecklistItem(task, item_id);
            let delete = StorageOperationView::DeleteChecklistItem(task, item_id);
            let fetch = StorageOperationView::FetchChecklistItems(task);
            &&& ends(StorageOperationView::CreateList(new_list), ReplyView::List(Ok(list)))
                ==> is_quiet(cached, end) && end.outcome == OperationOutcomeView::CreateList(Ok(list))
            &&& ends(StorageOperationView::CreateList(new_list), ReplyView::List(Err(error)))
                ==> is_quiet(cached, end) && end.outcome == OperationOutcomeView::CreateList(
                Err(Error::Tasks(TasksError::ExistingList)),
            )
            &&& ends(StorageOperationView::UpdateList(list), ReplyView::Told(Ok(())))
                ==> is_quiet(cached, end) && end.outcome == OperationOutcomeView::UpdateList(Ok(()))
            &&& ends(StorageOperationView::UpdateList(list), ReplyView::Told(Err(error)))
                ==> is_quiet(cached, end) && end.outcome == OperationOutcomeView::UpdateList(Err(api))
            &&& ends(StorageOperationView::DeleteList(list), ReplyView::Told(Ok(())))
                ==> is_quiet(cached, end) && end.outcome == OperationOutcomeView::DeleteList(Ok(()))
            &&& ends(StorageOperationView::DeleteList(list), ReplyView::Told(Err(error)))
                ==> is_quiet(cached, end) && end.outcome == OperationOutcomeView::DeleteList(Err(api))
            &&& ends(create, ReplyView::Item(Ok(item))) ==> is_quiet(cached, end) && end.outcome
                == OperationOutcomeView::CreateChecklistItem(Ok(item))
            &&& ends(create, ReplyView::Item(Err(error))) ==> is_quiet(cached, end) && end.outcome
                == OperationOutcomeView::CreateChecklistItem(Err(api))
            &&& ends(rename, ReplyView::Item(Ok(item))) ==> is_quiet(cached, end) && end.outcome
                == OperationOutcomeView::UpdateChecklistItem(Ok(item))
            &&& ends(rename, ReplyView::Item(Err(error))) ==> is_quiet(cached, end) && end.outcome
                == OperationOutcomeView::UpdateChecklistItem(Err(api))
            &&& ends(toggle, ReplyView::Item(Ok(item))) ==> is_quiet(cached, end) && end.outcome
                == OperationOutcomeView::ToggleChecklistItem(Ok(item))
            &&& ends(toggle, ReplyView::Item(Err(error))) ==> is_quiet(cached, end) && end.outcome
                == OperationOutcomeView::ToggleChecklistItem(Err(api))
            &&& ends(delete, ReplyView::Told(Ok(()))) ==> is_quiet(cached, end) && end.outcome
                == OperationOutcomeView::DeleteChecklistItem(Ok(item_id))
            &&& ends(delete, ReplyView::Told(Err(error))) ==> is_quiet(cached, end) && end.outcome
                == OperationOutcomeView::DeleteChecklistItem(Err(api))
            &&& ends(fetch, ReplyView::Items(Ok(items))) ==> is_quiet(cached, end) && end.outcome
                == OperationOutcomeView::FetchChecklistItems(Ok(items))
            &&& ends(fetch, ReplyView::Items(Err(error))) ==> is_quiet(cached, end) && end.outcome
                == OperationOutcomeView::FetchChecklistItems(Err(api))
        }),
{
}

/// The lists that the service answers with are shown with the virtual lists before them: My Day, Planned
/// and All, then the lists without a role, and then by role. Of two lists of one role, whatever it is, the
/// one whose name is smaller stands first. No cached task changes. An error ends with that of the
/// operation.
pub proof fn answered_lists_are_shown_in_order(
    lists: Seq<ListView>,
    cached: Seq<TaskView>,
    error: Seq<char>,
    end: OperationEndView,
    failed: OperationEndView,
    i: int,
    j: int,
)
    requires
        forall|k: int| 0 <= k < lists.len() ==> !(#[trigger] lists[k]).is_virtual,
        operations::ends_with(
            StorageOperationView::Lists,
            cached,
            ReplyView::Lists(Ok(lists)),
            end,
        ),
        operations::ends_with(
            StorageOperationView::Lists,
            cached,
            ReplyView::Lists(Err(error)),
            failed,
        ),
    ensures
        end.cached == cached,
        end.signal is None,
        end.outcome matches OperationOutcomeView::Lists(Ok(shown)) && {
            &&& shown.len() == lists.len() + 3
            &&& shown[0] == storage::usual_list(VirtualListType::MyDay)
            &&& shown[1] == storage::usual_list(VirtualListType::Planned)
            &&& shown[2] == storage::usual_list(VirtualListType::All)
            &&& forall|k: int|
                0 <= k < lists.len() ==> shown.contains(
                    (ListView { number_of_tasks: 0, ..#[trigger] lists[k] }),
                )
            &&& 3 <= i < j < shown.len() ==> {
                let a = shown[i];
                let b = shown[j];
                &&& !a.is_virtual
                &&& !b.is_virtual
                &&& a.well_known_list_name is Some ==> b.well_known_list_name is Some
                &&& a.well_known_list_name is Some ==> !text::text_before(
                    b.well_known_list_name->0,
                    a.well_known_list_name->0,
                )
                &&& a.well_known_list_name == b.well_known_list_name ==> !text::text_before(
                    b.name,
                    a.name,
                )
            }
            &&& end.fetches == Some(storage::fetch_schedule(shown))
        },
        is_quiet(cached, failed),
        failed.outcome == OperationOutcomeView::Lists(Err(Error::Tasks(TasksError::ListNotFound))),
{
    let shown = end.outcome->Lists_0->Ok_0;
    let all = storage::with_virtual_lists(lists);
    storage::virtual_lists_are_shown_first(lists, shown);
    storage::lists_are_shown_as_they_came(lists, shown);
    if 3 <= i < j < shown.len() {
        ordering::lists_are_shown_in_order(all, shown, i, j);
    }
}

/// Each operation takes the kind of reply that its question asks for, and no other.
pub proof fn operations_take_their_own_replies(
    operation: StorageOperationView,
    lists: Result<Seq<ListView>, Seq<char>>,
    list: Result<ListView, Seq<char>>,
    task: Result<TaskView, Seq<char>>,
    tasks: Result<Seq<TaskView>, Seq<char>>,
    item: Result<ChecklistItemView, Seq<char>>,
    items: Result<Seq<ChecklistItemView>, Seq<char>>,
    done: Result<(), Seq<char>>,
)
    ensures
        lists matches Ok(lists) ==> lists.len() <= 100_000_000_000_000_000 ==> (operations::fits(
            operation,
            ReplyView::Lists(Ok(lists)),
        ) <==> operation is Lists),
        lists is Err ==> (operations::fits(operation, ReplyView::Lists(lists)) <==> operation is Lists),
        operations::fits(operation, ReplyView::List(list)) <==> operation is CreateList,
        operations::fits(operation, ReplyView::Task(task)) <==> operation is CreateTask,
        operations::fits(operation, ReplyView::Tasks(tasks)) <==> operation is Tasks || operation
            is RefreshTasks || operation is ToggledTasks || operation is ExportTasks,
        operations::fits(operation, ReplyView::Item(item)) <==> operation is CreateChecklistItem
            || operation is UpdateChecklistItem || operation is ToggleChecklistItem,
        operations::fits(operation, ReplyView::Items(items)) <==> operation is FetchChecklistItems,
        operations::fits(operation, ReplyView::Told(done)) <==> operation is UpdateList || operation
            is DeleteList || operation is UpdateTask || operation is DeleteTask || operation
            is DeleteChecklistItem,
{
}

/// An outcome has an error if and only if what it holds is one, and then it is that one.
pub proof fn errors_are_read_off_outcomes(
    list: ListView,
    lists: Result<Seq<ListView>, Error>,
    tasks: Result<Seq<TaskView>, Error>,
    made: Result<ListView, Error>,
    task: Result<TaskView, Error>,
    item: Result<ChecklistItemView, Error>,
    items: Result<Seq<ChecklistItemView>, Error>,
    item_id: Result<Seq<char>, Error>,
    done: Result<(), Error>,
)
    ensures
        OperationOutcomeView::Lists(lists).error() == lists.err(),
        OperationOutcomeView::Tasks(tasks).error() == tasks.err(),
        OperationOutcomeView::ToggledTasks(tasks).error() == tasks.err(),
        OperationOutcomeView::ExportTasks(list, tasks).error() == tasks.err(),
        OperationOutcomeView::CreateList(made).error() == made.err(),
        OperationOutcomeView::UpdateList(done).error() == done.err(),
        OperationOutcomeView::DeleteList(done).error() == done.err(),
        OperationOutcomeView::CreateTask(task).error() == task.err(),
        OperationOutcomeView::UpdateTask(done).error() == done.err(),
        OperationOutcomeView::DeleteTask(done).error() == done.err(),
        OperationOutcomeView::CreateChecklistItem(item).error() == item.err(),
        OperationOutcomeView::UpdateChecklistItem(item).error() == item.err(),
        OperationOutcomeView::ToggleChecklistItem(item).error() == item.err(),
        OperationOutcomeView::DeleteChecklistItem(item_id).error() == item_id.err(),
        OperationOutcomeView::FetchChecklistItems(items).error() == items.err(),
{
}

} // verus!
