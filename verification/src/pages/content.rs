//! What passes between the application and the page that shows the tasks of a list.

use vstd::prelude::*;

use crate::app::config::TasksConfig;
use crate::storage::models;
use crate::storage::models::{List, ListView, Task, TaskView};

verus! {

/// The orders in which tasks can be shown.
#[derive(Clone, Copy, Debug, PartialEq, Eq, Structural)]
pub enum SortType {
    NameAsc,
    NameDesc,
    DateAsc,
    DateDesc,
}

/// What the application tells the page.
#[derive(Debug)]
pub enum Message {
    /// The tasks to show.
    SetTasks(Vec<Task>),
    /// Nothing.
    Empty,
    /// The list whose tasks are shown.
    SetList(Option<List>),
    /// A task that has changed.
    RefreshTask(Task),
    /// A task that is new.
    TaskCreated(Task),
    SetConfig(TasksConfig),
    /// Whether the drawer beside the tasks is open.
    ContextMenuOpen(bool),
    SetSort(SortType),
}

/// What a [`Message`] says.
pub enum MessageView {
    SetTasks(Seq<TaskView>),
    Empty,
    SetList(Option<ListView>),
    RefreshTask(TaskView),
    TaskCreated(TaskView),
    SetConfig(TasksConfig),
    ContextMenuOpen(bool),
    SetSort(SortType),
}

impl View for Message {
    type V = MessageView;

    open spec fn view(&self) -> MessageView {
        match self {
            Message::SetTasks(tasks) => MessageView::SetTasks(tasks.deep_view()),
            Message::Empty => MessageView::Empty,
            Message::SetList(list) => MessageView::SetList(list.deep_view()),
            Message::RefreshTask(task) => MessageView::RefreshTask(task@),
            Message::TaskCreated(task) => MessageView::TaskCreated(task@),
            Message::SetConfig(config) => MessageView::SetConfig(*config),
            Message::ContextMenuOpen(open) => MessageView::ContextMenuOpen(*open),
            Message::SetSort(sort) => MessageView::SetSort(*sort),
        }
    }
}

/// What the page asks of the application.
#[derive(Debug)]
pub enum Output {
    /// To put the focus on a widget.
    Focus(u64),
    /// To show the lists anew.
    FinishedTasksChanged,
    OpenTaskDetails(Task),
    /// To show the tasks of a list whose completed tasks are now hidden, or now shown.
    ToggleHideCompleted(List),
    CreateTaskAsync(Task),
    UpdateTaskAsync(Task),
    DeleteTaskAsync(Task),
    FetchTasksAsync(List),
    RefreshListAsync(List),
}

/// What an [`Output`] says.
pub enum OutputView {
    Focus(u64),
    FinishedTasksChanged,
    OpenTaskDetails(TaskView),
    ToggleHideCompleted(ListView),
    CreateTaskAsync(TaskView),
    UpdateTaskAsync(TaskView),
    DeleteTaskAsync(TaskView),
    FetchTasksAsync(ListView),
    RefreshListAsync(ListView),
}

impl View for Output {
    type V = OutputView;

    open spec fn view(&self) -> OutputView {
        match self {
            Output::Focus(id) => OutputView::Focus(*id),
            Output::FinishedTasksChanged => OutputView::FinishedTasksChanged,
            Output::OpenTaskDetails(task) => OutputView::OpenTaskDetails(task@),
            Output::ToggleHideCompleted(list) => OutputView::ToggleHideCompleted(list@),
            Output::CreateTaskAsync(task) => OutputView::CreateTaskAsync(task@),
            Output::UpdateTaskAsync(task) => OutputView::UpdateTaskAsync(task@),
            Output::DeleteTaskAsync(task) => OutputView::DeleteTaskAsync(task@),
            Output::FetchTasksAsync(list) => OutputView::FetchTasksAsync(list@),
            Output::RefreshListAsync(list) => OutputView::RefreshListAsync(list@),
        }
    }
}

impl Clone for Message {
    fn clone(&self) -> (r: Message)
        ensures
            r@ == self@,
    {
        match self {
            Message::SetTasks(tasks) => Message::SetTasks(models::copy_tasks(tasks)),
            Message::Empty => Message::Empty,
            Message::SetList(Some(list)) => Message::SetList(Some(list.clone())),
            Message::SetList(None) => Message::SetList(None),
            Message::RefreshTask(task) => Message::RefreshTask(task.clone()),
            Message::TaskCreated(task) => Message::TaskCreated(task.clone()),
            Message::SetConfig(config) => Message::SetConfig(*config),
            Message::ContextMenuOpen(open) => Message::ContextMenuOpen(*open),
            Message::SetSort(sort) => Message::SetSort(*sort),
        }
    }
}

} // verus!
