//! What is to be done: with lists and tasks, and with the application around them.

use vstd::prelude::*;

use crate::app::context::ContextPage;
use crate::app::dialog::{DialogAction, DialogActionView};
use crate::storage::models;
use crate::storage::models::{
    ChecklistItem, ChecklistItemView, List, ListView, Task, TaskView,
};

verus! {

/// What an answer says: the text of an error stands for the error.
pub open spec fn answer_view<T: DeepView>(r: Result<T, String>) -> Result<T::V, Seq<char>> {
    match r {
        Ok(value) => Ok(value.deep_view()),
        Err(error) => Err(error@),
    }
}

/// What the menu of an item offers, with the number of the item.
#[derive(Clone, Copy, Debug, PartialEq, Eq, Structural)]
pub enum NavMenuAction {
    Rename(u64),
    Export(u64),
    Delete(u64),
}

/// What is to be done with lists and tasks, and what has become of it.
#[derive(Debug)]
pub enum TasksAction {
    FetchLists,
    FetchListsAsync,
    /// The lists have come, or an error has.
    ListsFetched(Result<Vec<List>, String>),
    /// The service has added a list.
    AddList(List),
    /// To delete the list of an item, or the one that is chosen.
    DeleteList(Option<u64>),
    CreateTaskAsync(Task),
    /// The service has added the task, or not.
    TaskCreated(Result<Task, String>),
    UpdateTaskAsync(Task),
    /// The service has changed a task, or not.
    TaskUpdated(Result<(), String>),
    DeleteTaskAsync(Task),
    /// The service has deleted a task, or not.
    TaskDeleted(Result<(), String>),
    DeleteListAsync(List),
    /// The service has deleted a list, or not.
    ListDeleted(Result<(), String>),
    FetchTasksAsync(List),
    /// To fetch the tasks of a list past the cache.
    RefreshListAsync(List),
    /// The tasks of a list have come, or an error has.
    TasksFetched(Result<Vec<Task>, String>),
    /// To add a step with this title to the task whose details are shown.
    AddChecklistItemAsync(String),
    ChecklistItemAdded(Result<ChecklistItem, String>),
    /// To give the step with the first text as id the second as title.
    UpdateChecklistItemAsync(String, String),
    ChecklistItemUpdated(Result<ChecklistItem, String>),
    /// To check the step with this id, or to uncheck it.
    ToggleChecklistItemAsync(String),
    ChecklistItemToggled(Result<ChecklistItem, String>),
    /// To delete the step with this id.
    DeleteChecklistItemAsync(String),
    /// The service has deleted the step with this id, or none.
    ChecklistItemDeleted(Result<String, String>),
    /// To fetch the steps of the task whose details are shown; its id goes along.
    FetchChecklistItemsAsync(String),
    ChecklistItemsFetched(Result<Vec<ChecklistItem>, String>),
}

/// What a [`TasksAction`] says.
pub enum TasksActionView {
    FetchLists,
    FetchListsAsync,
    ListsFetched(Result<Seq<ListView>, Seq<char>>),
    AddList(ListView),
    DeleteList(Option<u64>),
    CreateTaskAsync(TaskView),
    TaskCreated(Result<TaskView, Seq<char>>),
    UpdateTaskAsync(TaskView),
    TaskUpdated(Result<(), Seq<char>>),
    DeleteTaskAsync(TaskView),
    TaskDeleted(Result<(), Seq<char>>),
    DeleteListAsync(ListView),
    ListDeleted(Result<(), Seq<char>>),
    FetchTasksAsync(ListView),
    RefreshListAsync(ListView),
    TasksFetched(Result<Seq<TaskView>, Seq<char>>),
    AddChecklistItemAsync(Seq<char>),
    ChecklistItemAdded(Result<ChecklistItemView, Seq<char>>),
    UpdateChecklistItemAsync(Seq<char>, Seq<char>),
    ChecklistItemUpdated(Result<ChecklistItemView, Seq<char>>),
    ToggleChecklistItemAsync(Seq<char>),
    ChecklistItemToggled(Result<ChecklistItemView, Seq<char>>),
    DeleteChecklistItemAsync(Seq<char>),
    ChecklistItemDeleted(Result<Seq<char>, Seq<char>>),
    FetchChecklistItemsAsync(Seq<char>),
    ChecklistItemsFetched(Result<Seq<ChecklistItemView>, Seq<char>>),
}

impl View for TasksAction {
    type V = TasksActionView;

    open spec fn view(&self) -> TasksActionView {
        match self {
            TasksAction::FetchLists => TasksActionView::FetchLists,
            TasksAction::FetchListsAsync => TasksActionView::FetchListsAsync,
            TasksAction::ListsFetched(answer) => TasksActionView::ListsFetched(answer_view(*answer)),
            TasksAction::AddList(list) => TasksActionView::AddList(list@),
            TasksAction::DeleteList(entity) => TasksActionView::DeleteList(*entity),
            TasksAction::CreateTaskAsync(task) => TasksActionView::CreateTaskAsync(task@),
            TasksAction::TaskCreated(answer) => TasksActionView::TaskCreated(answer_view(*answer)),
            TasksAction::UpdateTaskAsync(task) => TasksActionView::UpdateTaskAsync(task@),
            TasksAction::TaskUpdated(answer) => TasksActionView::TaskUpdated(answer_view(*answer)),
            TasksAction::DeleteTaskAsync(task) => TasksActionView::DeleteTaskAsync(task@),
            TasksAction::TaskDeleted(answer) => TasksActionView::TaskDeleted(answer_view(*answer)),
            TasksAction::DeleteListAsync(list) => TasksActionView::DeleteListAsync(list@),
            TasksAction::ListDeleted(answer) => TasksActionView::ListDeleted(answer_view(*answer)),
            TasksAction::FetchTasksAsync(list) => TasksActionView::FetchTasksAsync(list@),
            TasksAction::RefreshListAsync(list) => TasksActionView::RefreshListAsync(list@),
            TasksAction::TasksFetched(answer) => TasksActionView::TasksFetched(answer_view(*answer)),
            TasksAction::AddChecklistItemAsync(title) => {
                TasksActionView::AddChecklistItemAsync(title@)
            },
            TasksAction::ChecklistItemAdded(answer) => {
                TasksActionView::ChecklistItemAdded(answer_view(*answer))
            },
            TasksAction::UpdateChecklistItemAsync(item_id, title) => {
                TasksActionView::UpdateChecklistItemAsync(item_id@, title@)
            },
            TasksAction::ChecklistItemUpdated(answer) => {
                TasksActionView::ChecklistItemUpdated(answer_view(*answer))
            },
            TasksAction::ToggleChecklistItemAsync(item_id) => {
                TasksActionView::ToggleChecklistItemAsync(item_id@)
            },
            TasksAction::ChecklistItemToggled(answer) => {
                TasksActionView::ChecklistItemToggled(answer_view(*answer))
            },
            TasksAction::DeleteChecklistItemAsync(item_id) => {
                TasksActionView::DeleteChecklistItemAsync(item_id@)
            },
            TasksAction::ChecklistItemDeleted(answer) => {
                TasksActionView::ChecklistItemDeleted(answer_view(*answer))
            },
            TasksAction::FetchChecklistItemsAsync(task_id) => {
                TasksActionView::FetchChecklistItemsAsync(task_id@)
            },
            TasksAction::ChecklistItemsFetched(answer) => {
                TasksActionView::ChecklistItemsFetched(answer_view(*answer))
            },
        }
    }
}

/// What is to be done with the application.
#[derive(Debug)]
pub enum ApplicationAction {
    WindowClose,
    WindowNew,
    /// The place of a look among those that are offered.
    AppTheme(usize),
    ToggleHideCompleted(bool),
    SystemThemeModeChange,
    /// A key was pressed: the keys that were held down beside it, and the key.
    Key(u32, u32),
    /// The keys that are held down beside others.
    Modifiers(u32),
    NavMenuAction(NavMenuAction),
    ToggleContextPage(ContextPage),
    ToggleContextDrawer,
    Dialog(DialogAction),
    /// To put the focus on a widget.
    Focus(u64),
    SortByNameAsc,
    SortByNameDesc,
    SortByDateAsc,
    SortByDateDesc,
}

/// What an [`ApplicationAction`] says.
pub enum ApplicationActionView {
    WindowClose,
    WindowNew,
    AppTheme(usize),
    ToggleHideCompleted(bool),
    SystemThemeModeChange,
    Key(u32, u32),
    Modifiers(u32),
    NavMenuAction(NavMenuAction),
    ToggleContextPage(ContextPage),
    ToggleContextDrawer,
    Dialog(DialogActionView),
    Focus(u64),
    SortByNameAsc,
    SortByNameDesc,
    SortByDateAsc,
    SortByDateDesc,
}

impl View for ApplicationAction {
    type V = ApplicationActionView;

    open spec fn view(&self) -> ApplicationActionView {
        match self {
            ApplicationAction::WindowClose => ApplicationActionView::WindowClose,
            ApplicationAction::WindowNew => ApplicationActionView::WindowNew,
            ApplicationAction::AppTheme(position) => ApplicationActionView::AppTheme(*position),
            ApplicationAction::ToggleHideCompleted(hidden) => {
                ApplicationActionView::ToggleHideCompleted(*hidden)
            },
            ApplicationAction::SystemThemeModeChange => ApplicationActionView::SystemThemeModeChange,
            ApplicationAction::Key(modifiers, key) => ApplicationActionView::Key(*modifiers, *key),
            ApplicationAction::Modifiers(modifiers) => ApplicationActionView::Modifiers(*modifiers),
            ApplicationAction::NavMenuAction(action) => {
                ApplicationActionView::NavMenuAction(*action)
            },
            ApplicationAction::ToggleContextPage(page) => {
                ApplicationActionView::ToggleContextPage(*page)
            },
            ApplicationAction::ToggleContextDrawer => ApplicationActionView::ToggleContextDrawer,
            ApplicationAction::Dialog(action) => ApplicationActionView::Dialog(action@),
            ApplicationAction::Focus(id) => ApplicationActionView::Focus(*id),
            ApplicationAction::SortByNameAsc => ApplicationActionView::SortByNameAsc,
            ApplicationAction::SortByNameDesc => ApplicationActionView::SortByNameDesc,
            ApplicationAction::SortByDateAsc => ApplicationActionView::SortByDateAsc,
            ApplicationAction::SortByDateDesc => ApplicationActionView::SortByDateDesc,
        }
    }
}

fn copy_lists_answer(answer: &Result<Vec<List>, String>) -> (r: Result<Vec<List>, String>)
    ensures
        answer_view(r) == answer_view(*answer),
{
    match answer {
        Ok(value) => Ok(models::copy_lists(value)),
        Err(error) => Err(error.clone()),
    }
}

fn copy_tasks_answer(answer: &Result<Vec<Task>, String>) -> (r: Result<Vec<Task>, String>)
    ensures
        answer_view(r) == answer_view(*answer),
{
    match answer {
        Ok(value) => Ok(models::copy_tasks(value)),
        Err(error) => Err(error.clone()),
    }
}

fn copy_items_answer(answer: &Result<Vec<ChecklistItem>, String>) -> (r: Result<Vec<ChecklistItem>, String>)
    ensures
        answer_view(r) == answer_view(*answer),
{
    match answer {
        Ok(value) => Ok(models::copy_items(value)),
        Err(error) => Err(error.clone()),
    }
}

fn copy_task_answer(answer: &Result<Task, String>) -> (r: Result<Task, String>)
    ensures
        answer_view(r) == answer_view(*answer),
{
    match answer {
        Ok(value) => Ok(value.clone()),
        Err(error) => Err(error.clone()),
    }
}

fn copy_item_answer(answer: &Result<ChecklistItem, String>) -> (r: Result<ChecklistItem, String>)
    ensures
        answer_view(r) == answer_view(*answer),
{
    match answer {
        Ok(value) => Ok(value.clone()),
        Err(error) => Err(error.clone()),
    }
}

fn copy_text_answer(answer: &Result<String, String>) -> (r: Result<String, String>)
    ensures
        answer_view(r) == answer_view(*answer),
{
    match answer {
        Ok(value) => Ok(value.clone()),
        Err(error) => Err(error.clone()),
    }
}

fn copy_done_answer(answer: &Result<(), String>) -> (r: Result<(), String>)
    ensures
        answer_view(r) == answer_view(*answer),
{
    match answer {
        Ok(_) => Ok(()),
        Err(error) => Err(error.clone()),
    }
}

impl Clone for TasksAction {
    #[verifier::spinoff_prover]
    fn clone(&self) -> (r: TasksAction)
        ensures
            r@ == self@,
    {
        match self {
            TasksAction::FetchLists => TasksAction::FetchLists,
            TasksAction::FetchListsAsync => TasksAction::FetchListsAsync,
            TasksAction::ListsFetched(answer) => {
                TasksAction::ListsFetched(copy_lists_answer(answer))
            },
            TasksAction::AddList(list) => TasksAction::AddList(list.clone()),
            TasksAction::DeleteList(entity) => TasksAction::DeleteList(*entity),
            TasksAction::CreateTaskAsync(task) => TasksAction::CreateTaskAsync(task.clone()),
            TasksAction::TaskCreated(answer) => TasksAction::TaskCreated(copy_task_answer(answer)),
            TasksAction::UpdateTaskAsync(task) => TasksAction::UpdateTaskAsync(task.clone()),
            TasksAction::TaskUpdated(answer) => TasksAction::TaskUpdated(copy_done_answer(answer)),
            TasksAction::DeleteTaskAsync(task) => TasksAction::DeleteTaskAsync(task.clone()),
            TasksAction::TaskDeleted(answer) => TasksAction::TaskDeleted(copy_done_answer(answer)),
            TasksAction::DeleteListAsync(list) => TasksAction::DeleteListAsync(list.clone()),
            TasksAction::ListDeleted(answer) => TasksAction::ListDeleted(copy_done_answer(answer)),
            TasksAction::FetchTasksAsync(list) => TasksAction::FetchTasksAsync(list.clone()),
            TasksAction::RefreshListAsync(list) => TasksAction::RefreshListAsync(list.clone()),
            TasksAction::TasksFetched(answer) => {
                TasksAction::TasksFetched(copy_tasks_answer(answer))
            },
            TasksAction::AddChecklistItemAsync(title) => {
                TasksAction::AddChecklistItemAsync(title.clone())
            },
            TasksAction::ChecklistItemAdded(answer) => {
                TasksAction::ChecklistItemAdded(copy_item_answer(answer))
            },
            TasksAction::UpdateChecklistItemAsync(item_id, title) => {
                TasksAction::UpdateChecklistItemAsync(item_id.clone(), title.clone())
            },
            TasksAction::ChecklistItemUpdated(answer) => {
                TasksAction::ChecklistItemUpdated(copy_item_answer(answer))
            },
            TasksAction::ToggleChecklistItemAsync(item_id) => {
                TasksAction::ToggleChecklistItemAsync(item_id.clone())
            },
            TasksAction::ChecklistItemToggled(answer) => {
                TasksAction::ChecklistItemToggled(copy_item_answer(answer))
            },
            TasksAction::DeleteChecklistItemAsync(item_id) => {
                TasksAction::DeleteChecklistItemAsync(item_id.clone())
            },
            TasksAction::ChecklistItemDeleted(answer) => {
                TasksAction::ChecklistItemDeleted(copy_text_answer(answer))
            },
            TasksAction::FetchChecklistItemsAsync(task_id) => {
                TasksAction::FetchChecklistItemsAsync(task_id.clone())
            },
            TasksAction::ChecklistItemsFetched(answer) => {
                TasksAction::ChecklistItemsFetched(copy_items_answer(answer))
            },
        }
    }
}

impl Clone for ApplicationAction {
    fn clone(&self) -> (r: ApplicationAction)
        ensures
            r@ == self@,
    {
        match self {
            ApplicationAction::WindowClose => ApplicationAction::WindowClose,
            ApplicationAction::WindowNew => ApplicationAction::WindowNew,
            ApplicationAction::AppTheme(position) => ApplicationAction::AppTheme(*position),
            ApplicationAction::ToggleHideCompleted(hidden) => {
                ApplicationAction::ToggleHideCompleted(*hidden)
            },
            ApplicationAction::SystemThemeModeChange => ApplicationAction::SystemThemeModeChange,
            ApplicationAction::Key(modifiers, key) => ApplicationAction::Key(*modifiers, *key),
            ApplicationAction::Modifiers(modifiers) => ApplicationAction::Modifiers(*modifiers),
            ApplicationAction::NavMenuAction(action) => ApplicationAction::NavMenuAction(*action),
            ApplicationAction::ToggleContextPage(page) => {
                ApplicationAction::ToggleContextPage(*page)
            },
            ApplicationAction::ToggleContextDrawer => ApplicationAction::ToggleContextDrawer,
            ApplicationAction::Dialog(action) => ApplicationAction::Dialog(action.clone()),
            ApplicationAction::Focus(id) => ApplicationAction::Focus(*id),
            ApplicationAction::SortByNameAsc => ApplicationAction::SortByNameAsc,
            ApplicationAction::SortByNameDesc => ApplicationAction::SortByNameDesc,
            ApplicationAction::SortByDateAsc => ApplicationAction::SortByDateAsc,
            ApplicationAction::SortByDateDesc => ApplicationAction::SortByDateDesc,
        }
    }
}

} // verus!
