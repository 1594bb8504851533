//! The requests that the storage makes of the service.

use vstd::prelude::*;
use vstd::string::*;

use crate::integration::ms_todo::http_client::{HttpRequest, HttpRequestView};
use crate::storage::models::{List, ListView, Task, TaskView};
use crate::text;

verus! {

/// The address of all lists.
pub open spec fn lists_url() -> Seq<char> {
    "/me/todo/lists"@
}

/// The address of a list.
pub open spec fn list_url(list_id: Seq<char>) -> Seq<char> {
    "/me/todo/lists/"@ + list_id
}

/// The address of the tasks of a list.
pub open spec fn tasks_url(list_id: Seq<char>) -> Seq<char> {
    list_url(list_id) + "/tasks"@
}

/// The address of the tasks of a list that are not completed.
pub open spec fn active_tasks_url(list_id: Seq<char>) -> Seq<char> {
    tasks_url(list_id) + "?$filter=status ne 'completed'"@
}

/// The address of the tasks of a list, the newest first.
pub open spec fn all_tasks_url(list_id: Seq<char>) -> Seq<char> {
    tasks_url(list_id) + "?$orderby=createdDateTime desc"@
}

/// The address of the tasks that a list shows, the newest first.
pub open spec fn shown_tasks_url(list: ListView) -> Seq<char> {
    if list.hide_completed {
        tasks_url(list.id) + "?$filter=status ne 'completed'&$orderby=createdDateTime desc"@
    } else {
        all_tasks_url(list.id)
    }
}

/// The address of a task.
pub open spec fn task_url(list_id: Seq<char>, task_id: Seq<char>) -> Seq<char> {
    tasks_url(list_id) + "/"@ + task_id
}

/// The address of the steps of a task.
pub open spec fn checklist_url(list_id: Seq<char>, task_id: Seq<char>) -> Seq<char> {
    task_url(list_id, task_id) + "/checklistItems"@
}

/// The address of a step of a task.
pub open spec fn checklist_item_url(
    list_id: Seq<char>,
    task_id: Seq<char>,
    item_id: Seq<char>,
) -> Seq<char> {
    checklist_url(list_id, task_id) + "/"@ + item_id
}

/// The header that proves the right to make a request.
pub open spec fn bearer(token: Seq<char>) -> Seq<char> {
    "Bearer "@ + token
}

/// What is asked for when a step is added to a task.
#[derive(Debug)]
pub struct CreateChecklistItemRequest {
    pub display_name: String,
    pub is_checked: Option<bool>,
}

/// What is asked for when a step of a task is changed.
#[derive(Debug)]
pub struct UpdateChecklistItemRequest {
    pub display_name: Option<String>,
    pub is_checked: Option<bool>,
}

/// What goes with a request.
#[derive(Debug)]
pub enum RequestBody {
    Empty,
    CreateTask(Task),
    UpdateTask(Task),
    CreateList(List),
    UpdateList(List),
    CreateChecklistItem(CreateChecklistItemRequest),
    UpdateChecklistItem(UpdateChecklistItemRequest),
}

/// What a [`RequestBody`] says.
pub enum RequestBodyView {
    Empty,
    CreateTask(TaskView),
    UpdateTask(TaskView),
    CreateList(ListView),
    UpdateList(ListView),
    CreateChecklistItem(Seq<char>, Option<bool>),
    UpdateChecklistItem(Option<Seq<char>>, Option<bool>),
}

impl View for RequestBody {
    type V = RequestBodyView;

    open spec fn view(&self) -> RequestBodyView {
        match self {
            RequestBody::Empty => RequestBodyView::Empty,
            RequestBody::CreateTask(task) => RequestBodyView::CreateTask(task@),
            RequestBody::UpdateTask(task) => RequestBodyView::UpdateTask(task@),
            RequestBody::CreateList(list) => RequestBodyView::CreateList(list@),
            RequestBody::UpdateList(list) => RequestBodyView::UpdateList(list@),
            RequestBody::CreateChecklistItem(request) => RequestBodyView::CreateChecklistItem(
                request.display_name@,
                request.is_checked,
            ),
            RequestBody::UpdateChecklistItem(request) => RequestBodyView::UpdateChecklistItem(
                request.display_name.deep_view(),
                request.is_checked,
            ),
        }
    }
}

/// A request of the service, with what goes with it.
#[derive(Debug)]
pub struct ApiRequest {
    pub http: HttpRequest,
    pub body: RequestBody,
}

/// What an [`ApiRequest`] says.
pub struct ApiRequestView {
    pub http: HttpRequestView,
    pub body: RequestBodyView,
}

impl View for ApiRequest {
    type V = ApiRequestView;

    open spec fn view(&self) -> ApiRequestView {
        ApiRequestView { http: self.http@, body: self.body@ }
    }
}

/// Gives the address of a list.
pub(crate) fn url_of_list(list_id: &str) -> (url: String)
    ensures
        url@ == list_url(list_id@),
{
    text::join("/me/todo/lists/", list_id)
}

/// Gives the address of the tasks of a list.
pub(crate) fn url_of_tasks(list_id: &str) -> (url: String)
    ensures
        url@ == tasks_url(list_id@),
{
    text::join(url_of_list(list_id).as_str(), "/tasks")
}

/// Gives the address of the tasks of a list that are not completed.
pub(crate) fn url_of_active_tasks(list_id: &str) -> (url: String)
    ensures
        url@ == active_tasks_url(list_id@),
{
    text::join(url_of_tasks(list_id).as_str(), "?$filter=status ne 'completed'")
}

/// Gives the address of the tasks of a list, the newest first.
pub(crate) fn url_of_all_tasks(list_id: &str) -> (url: String)
    ensures
        url@ == all_tasks_url(list_id@),
{
    text::join(url_of_tasks(list_id).as_str(), "?$orderby=createdDateTime desc")
}

/// Gives the address of the tasks that a list shows, the newest first.
pub(crate) fn url_of_shown_tasks(list: &List) -> (url: String)
    ensures
        url@ == shown_tasks_url(list@),
{
    if list.hide_completed {
        text::join(
            url_of_tasks(list.id.as_str()).as_str(),
            "?$filter=status ne 'completed'&$orderby=createdDateTime desc",
        )
    } else {
        url_of_all_tasks(list.id.as_str())
    }
}

/// Gives the address of a task.
pub(crate) fn url_of_task(list_id: &str, task_id: &str) -> (url: String)
    ensures
        url@ == task_url(list_id@, task_id@),
{
    let mut url = url_of_tasks(list_id);
    url.append("/");
    url.append(task_id);
    url
}

/// Gives the address of the steps of a task.
pub(crate) fn url_of_checklist(list_id: &str, task_id: &str) -> (url: String)
    ensures
        url@ == checklist_url(list_id@, task_id@),
{
    text::join(url_of_task(list_id, task_id).as_str(), "/checklistItems")
}

/// Gives the address of a step of a task.
pub(crate) fn url_of_checklist_item(list_id: &str, task_id: &str, item_id: &str) -> (url: String)
    ensures
        url@ == checklist_item_url(list_id@, task_id@, item_id@),
{
    let mut url = url_of_checklist(list_id, task_id);
    url.append("/");
    url.append(item_id);
    url
}

/// Gives the header that proves the right to make a request.
pub(crate) fn bearer_header(token: &str) -> (header: String)
    ensures
        header@ == bearer(token@),
{
    text::join("Bearer ", token)
}

/// Where the tasks of a list are gathered from: all of them the newest first, or those that are not
/// completed. Both are at the address of the tasks of that list.
pub proof fn tasks_are_gathered_at_their_list(list_id: Seq<char>)
    ensures
        lists_url() == "/me/todo/lists"@,
        all_tasks_url(list_id) == "/me/todo/lists/"@ + list_id + "/tasks"@
            + "?$orderby=createdDateTime desc"@,
        active_tasks_url(list_id) == "/me/todo/lists/"@ + list_id + "/tasks"@
            + "?$filter=status ne 'completed'"@,
{
}

} // verus!
