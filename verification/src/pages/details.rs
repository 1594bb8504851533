//! The details of a task, and what passes between the application and the page that shows them.

use vstd::prelude::*;

use crate::storage::checklist;
use crate::storage::models::{
    ChecklistItem, ChecklistItemView, ChecklistSyncStatus, ChecklistSyncStatusView, Task, TaskView,
};

verus! {

/// The task whose details are shown, with what is being written about it.
#[derive(Debug)]
pub struct Details {
    pub task: Task,
    /// The notes, as they are being written.
    pub text_editor_content: String,
    /// The title of the next step, as it is being written.
    pub new_checklist_item_text: String,
}

/// What [`Details`] say.
pub struct DetailsView {
    pub task: TaskView,
    pub text_editor_content: Seq<char>,
    pub new_checklist_item_text: Seq<char>,
}

impl View for Details {
    type V = DetailsView;

    open spec fn view(&self) -> DetailsView {
        DetailsView {
            task: self.task@,
            text_editor_content: self.text_editor_content@,
            new_checklist_item_text: self.new_checklist_item_text@,
        }
    }
}

/// What the application tells the page.
#[derive(Clone, Copy, Debug, PartialEq, Eq, Structural)]
pub enum Message {
    /// When the task is due, in seconds since the Unix epoch.
    SetDueDate(i64),
    /// When to be reminded of the task, in seconds since the Unix epoch.
    SetReminderDate(i64),
}

/// What the page asks of the application.
#[derive(Debug)]
pub enum Output {
    OpenCalendarDialog,
    OpenReminderCalendarDialog,
    RefreshTask(Task),
    UpdateTaskAsync(Task),
    /// To add a step with this title.
    AddChecklistItemAsync(String),
    /// To give the step with the first text as id the second as title.
    UpdateChecklistItemAsync(String, String),
    ToggleChecklistItemAsync(String),
    DeleteChecklistItemAsync(String),
    FetchChecklistItems,
}

/// What an [`Output`] says.
pub enum OutputView {
    OpenCalendarDialog,
    OpenReminderCalendarDialog,
    RefreshTask(TaskView),
    UpdateTaskAsync(TaskView),
    AddChecklistItemAsync(Seq<char>),
    UpdateChecklistItemAsync(Seq<char>, Seq<char>),
    ToggleChecklistItemAsync(Seq<char>),
    DeleteChecklistItemAsync(Seq<char>),
    FetchChecklistItems,
}

impl View for Output {
    type V = OutputView;

    open spec fn view(&self) -> OutputView {
        match self {
            Output::OpenCalendarDialog => OutputView::OpenCalendarDialog,
            Output::OpenReminderCalendarDialog => OutputView::OpenReminderCalendarDialog,
            Output::RefreshTask(task) => OutputView::RefreshTask(task@),
            Output::UpdateTaskAsync(task) => OutputView::UpdateTaskAsync(task@),
            Output::AddChecklistItemAsync(title) => OutputView::AddChecklistItemAsync(title@),
            Output::UpdateChecklistItemAsync(item_id, title) => {
                OutputView::UpdateChecklistItemAsync(item_id@, title@)
            },
            Output::ToggleChecklistItemAsync(item_id) => {
                OutputView::ToggleChecklistItemAsync(item_id@)
            },
            Output::DeleteChecklistItemAsync(item_id) => {
                OutputView::DeleteChecklistItemAsync(item_id@)
            },
            Output::FetchChecklistItems => OutputView::FetchChecklistItems,
        }
    }
}

impl DetailsView {
    /// With `items` as the steps of the task, which are those that the service holds.
    pub open spec fn synced(self, items: Seq<ChecklistItemView>) -> DetailsView {
        DetailsView {
            task: TaskView {
                checklist_items: items,
                checklist_sync_status: ChecklistSyncStatusView::Synced,
                ..self.task
            },
            ..self
        }
    }

    /// With the mark that the steps of the task may not be those that the service holds.
    pub open spec fn sync_failed(self, error: Seq<char>) -> DetailsView {
        DetailsView {
            task: TaskView {
                checklist_sync_status: ChecklistSyncStatusView::SyncFailed(error),
                ..self.task
            },
            ..self
        }
    }

    /// After the answer to a request whose answer leaves the steps `items` in the task.
    pub open spec fn answered(
        self,
        answer: Result<Seq<ChecklistItemView>, Seq<char>>,
    ) -> DetailsView {
        match answer {
            Ok(items) => self.synced(items),
            Err(error) => self.sync_failed(error),
        }
    }

    /// With the details of `task`.
    pub open spec fn opened(self, task: TaskView) -> DetailsView {
        DetailsView { task, text_editor_content: task.notes, ..self }
    }
}

impl Details {
    /// Marks the steps of the task as those that the service holds.
    fn mark_synced(&mut self)
        ensures
            final(self)@ == old(self)@.synced(old(self)@.task.checklist_items),
    {
        self.task.checklist_sync_status = ChecklistSyncStatus::Synced;
    }

    /// Marks that the steps of the task may not be those that the service holds.
    pub fn mark_failed(&mut self, error: String)
        ensures
            final(self)@ == old(self)@.sync_failed(error@),
    {
        self.task.checklist_sync_status = ChecklistSyncStatus::SyncFailed(error);
    }

    /// Takes a step that was added.
    pub fn item_added(&mut self, item: ChecklistItem)
        ensures
            final(self)@ == old(self)@.synced(old(self)@.task.checklist_items.push(item@)),
    {
        let ghost before = self@.task.checklist_items;
        self.task.checklist_items.push(item);
        assert(self@.task.checklist_items =~= before.push(item@));
        self.mark_synced();
    }

    /// Takes a step that was changed.
    pub fn item_changed(&mut self, item: ChecklistItem)
        ensures
            final(self)@ == old(self)@.synced(checklist::with_item(old(self)@.task.checklist_items, item@)),
    {
        let ghost before = self@.task.checklist_items;
        if let Some(i) = checklist::find_item(&self.task.checklist_items, &item.id) {
            self.task.checklist_items.set(i, item);
            assert(self@.task.checklist_items =~= before.update(i as int, item@));
        }
        self.mark_synced();
    }

    /// Takes away the steps with the id `item_id`.
    pub fn item_deleted(&mut self, item_id: &String)
        ensures
            final(self)@ == old(self)@.synced(
                checklist::without_item(old(self)@.task.checklist_items, item_id@),
            ),
    {
        let ghost all = self.task.checklist_items.deep_view();
        let ghost stays = |item: ChecklistItemView| item.id != item_id@;
        let mut kept: Vec<ChecklistItem> = Vec::new();
        let mut i: usize = 0;
        proof {
            reveal(Seq::filter);
            assert(all.take(0) =~= Seq::empty());
            assert(kept.deep_view() =~= Seq::empty());
        }
        while i < self.task.checklist_items.len()
            invariant
                i <= self.task.checklist_items@.len(),
                *self == *old(self),
                all == self.task.checklist_items.deep_view(),
                stays == (|item: ChecklistItemView| item.id != item_id@),
                kept.deep_view() == all.take(i as int).filter(stays),
            decreases self.task.checklist_items@.len() - i,
        {
            let ghost before = kept.deep_view();
            proof {
                reveal(Seq::filter);
                assert(all.take(i + 1).drop_last() =~= all.take(i as int));
            }
            if self.task.checklist_items[i].id != *item_id {
                kept.push(self.task.checklist_items[i].clone());
                assert(kept.deep_view() =~= before.push(all[i as int]));
            }
            i += 1;
        }
        assert(all.take(i as int) =~= all);
        self.task.checklist_items = kept;
        self.mark_synced();
    }

    /// Takes all steps of the task.
    pub fn items_fetched(&mut self, items: Vec<ChecklistItem>)
        ensures
            final(self)@ == old(self)@.synced(items.deep_view()),
    {
        self.task.checklist_items = items;
        self.mark_synced();
    }

    /// Shows the details of `task`.
    pub fn open(&mut self, task: Task)
        ensures
            final(self)@ == old(self)@.opened(task@),
    {
        self.text_editor_content = task.notes.clone();
        self.task = task;
    }
}

/// After steps have come, the task holds these steps and is marked as in step with the service. After an
/// error it holds the steps that it held, with the error as its mark. Nothing else of the task changes,
/// and nothing that is being written.
pub proof fn answers_change_the_steps_alone(
    details: DetailsView,
    items: Seq<ChecklistItemView>,
    error: Seq<char>,
)
    ensures
        ({
            let synced = details.answered(Ok(items));
            let failed = details.answered(Err(error));
            &&& synced.task.checklist_items == items
            &&& synced.task.checklist_sync_status == ChecklistSyncStatusView::Synced
            &&& failed.task.checklist_items == details.task.checklist_items
            &&& failed.task.checklist_sync_status == ChecklistSyncStatusView::SyncFailed(error)
            &&& failed == (DetailsView { task: failed.task, ..details })
            &&& synced == (DetailsView { task: synced.task, ..details })
            &&& synced.task == (TaskView {
                checklist_items: synced.task.checklist_items,
                checklist_sync_status: synced.task.checklist_sync_status,
                ..details.task
            })
            &&& failed.task == (TaskView {
                checklist_sync_status: failed.task.checklist_sync_status,
                ..details.task
            })
        }),
{
}

/// Opening a task shows that task, with its notes to write on, and keeps the title that is being written.
pub proof fn opened_task_is_shown(details: DetailsView, task: TaskView)
    ensures
        details.opened(task).task == task,
        details.opened(task).text_editor_content == task.notes,
        details.opened(task).new_checklist_item_text == details.new_checklist_item_text,
{
}

} // verus!
