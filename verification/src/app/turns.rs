//! What the messages about lists and tasks lead to, and what the pages ask for.

use vstd::prelude::*;

use crate::app;
use crate::app::actions::{ApplicationActionView, TasksActionView};
use crate::app::channels::CacheUpdateSignalView;
use crate::app::context::ContextPage;
use crate::app::dialog::{DateTimeInfo, DialogPageView};
use crate::app::effects::{Effect, EffectView};
use crate::app::model;
use crate::app::model::{AppView, Turn};
use crate::app::nav;
use crate::app::nav::{NavItemView, NavView};
use crate::app::operations::StorageOperationView;
use crate::app::{MessageView, TasksApp};
use crate::clock;
use crate::pages::details::DetailsView;
use crate::pages::{content, details};
use crate::storage::checklist;
use crate::storage::filters;
use crate::storage::models::{
    ChecklistItemView, ChecklistSyncStatusView, ListView, Priority, TaskView,
};
use crate::text;

verus! {

/// Whether the only thing that is asked for is to begin `operation`, which is not counted, and nothing else
/// changes.
pub open spec fn only_spawns(app: AppView, turn: Turn, operation: StorageOperationView) -> bool {
    turn.effects == seq![EffectView::Spawn(operation)] && turn.app == app
}

/// Whether the only thing that is asked for is to begin `operation`, one more operation is counted, and
/// nothing else changes.
pub open spec fn only_begins(app: AppView, turn: Turn, operation: StorageOperationView) -> bool {
    turn.effects == seq![EffectView::Spawn(operation)] && turn.app == (AppView {
        running_operations: (app.running_operations + 1) as u32,
        ..app
    })
}

/// `app` with one operation fewer that is counted, unless none is.
pub open spec fn one_fewer(app: AppView) -> AppView {
    AppView {
        running_operations: if app.running_operations == 0 {
            0
        } else {
            (app.running_operations - 1) as u32
        },
        ..app
    }
}

/// Whether the item at the place `p` is the one that is chosen.
pub open spec fn is_chosen(app: AppView, p: int) -> bool {
    0 <= p < app.nav.items.len() && app.nav.active == Some(app.nav.items[p].entity)
}

/// Whether the item at the place `d` is the first whose list has the role of the default list.
pub open spec fn is_first_default(app: AppView, d: int) -> bool {
    &&& 0 <= d < app.nav.items.len()
    &&& app.nav.items[d].list.well_known_list_name == Some("defaultList"@)
    &&& forall|i: int|
        0 <= i < d ==> (#[trigger] app.nav.items[i]).list.well_known_list_name != Some("defaultList"@)
}

/// However a task is to be made, by the page that shows the tasks or by a message: while a virtual list is
/// chosen it is made in the first list with the role of the default list, and is otherwise the task that
/// was asked for. While a regular list is chosen, or none is, or there is no default list, it is made as it
/// was asked for.
#[verifier::spinoff_prover]
pub proof fn new_tasks_go_to_the_default_list(
    app: AppView,
    task: TaskView,
    p: int,
    d: int,
    turn: Turn,
    today: i32,
)
    requires
        app.well_formed(),
        turn == model::content_turn(app, content::OutputView::CreateTaskAsync(task)) || turn
            == model::message_turn(
            app,
            MessageView::Tasks(TasksActionView::CreateTaskAsync(task)),
            today,
        ),
    ensures
        is_chosen(app, p) && app.nav.items[p].list.is_virtual && is_first_default(app, d)
            ==> only_begins(
            app,
            turn,
            StorageOperationView::CreateTask(
                TaskView { list_id: Some(app.nav.items[d].list.id), ..task },
            ),
        ),
        is_chosen(app, p) && !app.nav.items[p].list.is_virtual ==> only_begins(
            app,
            turn,
            StorageOperationView::CreateTask(task),
        ),
        app.nav.active is None ==> only_begins(app, turn, StorageOperationView::CreateTask(task)),
        (forall|i: int|
            0 <= i < app.nav.items.len() ==> (#[trigger] app.nav.items[i]).list.well_known_list_name
                != Some("defaultList"@)) ==> only_begins(
            app,
            turn,
            StorageOperationView::CreateTask(task),
        ),
{
    nav::task_goes_to_the_first_default_list(app.nav, p, d, task);
}

/// Whether `action` is the message of the name of what the page that shows the tasks asks for.
pub open spec fn is_meant_by_page(output: content::OutputView, action: TasksActionView) -> bool {
    match output {
        content::OutputView::FinishedTasksChanged => action == TasksActionView::FetchLists,
        content::OutputView::CreateTaskAsync(task) => action == TasksActionView::CreateTaskAsync(task),
        content::OutputView::UpdateTaskAsync(task) => action == TasksActionView::UpdateTaskAsync(task),
        content::OutputView::DeleteTaskAsync(task) => action == TasksActionView::DeleteTaskAsync(task),
        content::OutputView::FetchTasksAsync(list) => action == TasksActionView::FetchTasksAsync(list),
        content::OutputView::RefreshListAsync(list) => action == TasksActionView::RefreshListAsync(
            list,
        ),
        _ => false,
    }
}

/// What the page that shows the tasks asks for is what the message of that name asks for.
#[verifier::spinoff_prover]
pub proof fn page_of_tasks_asks_as_messages_do(
    app: AppView,
    output: content::OutputView,
    action: TasksActionView,
    today: i32,
)
    requires
        is_meant_by_page(output, action),
    ensures
        model::content_turn(app, output) == model::tasks_turn(app, action, today),
{
}

/// The focus goes to the widget that is named, whoever asks for it.
#[verifier::spinoff_prover]
pub proof fn focus_goes_where_it_is_asked_for(app: AppView, id: u64)
    ensures
        model::content_turn(app, content::OutputView::Focus(id)) == (Turn {
            app,
            effects: seq![EffectView::Focus(id)],
        }),
        model::application_turn(app, ApplicationActionView::Focus(id)) == (Turn {
            app,
            effects: seq![EffectView::Focus(id)],
        }),
{
}

/// Whether `action` is the message of the name of what the page that shows the details of `task` asks for.
pub open spec fn is_meant_by_details(
    task: TaskView,
    output: details::OutputView,
    action: TasksActionView,
) -> bool {
    match output {
        details::OutputView::UpdateTaskAsync(task) => action == TasksActionView::UpdateTaskAsync(task),
        details::OutputView::AddChecklistItemAsync(title) => action
            == TasksActionView::AddChecklistItemAsync(title),
        details::OutputView::UpdateChecklistItemAsync(item_id, title) => action
            == TasksActionView::UpdateChecklistItemAsync(item_id, title),
        details::OutputView::ToggleChecklistItemAsync(item_id) => action
            == TasksActionView::ToggleChecklistItemAsync(item_id),
        details::OutputView::DeleteChecklistItemAsync(item_id) => action
            == TasksActionView::DeleteChecklistItemAsync(item_id),
        details::OutputView::FetchChecklistItems => action == TasksActionView::FetchChecklistItemsAsync(
            task.id,
        ),
        _ => false,
    }
}

/// What the page that shows the details of a task asks for is what the message of that name asks for.
#[verifier::spinoff_prover]
pub proof fn page_of_details_asks_as_messages_do(
    app: AppView,
    output: details::OutputView,
    action: TasksActionView,
    today: i32,
)
    requires
        is_meant_by_details(app.details.task, output, action),
    ensures
        model::details_turn(app, output, today) == model::tasks_turn(app, action, today),
{
}

/// A calendar is opened behind the dialogs that are open, begins with the first second of the day, and gets
/// the focus. The page that shows the tasks is told of a task that has changed.
#[verifier::spinoff_prover]
pub proof fn details_open_calendars(app: AppView, task: TaskView, today: i32)
    ensures
        ({
            let day = DateTimeInfo { day: today, second_of_day: 0 };
            let focus = seq![EffectView::Focus(app.dialog_text_input)];
            &&& model::details_turn(app, details::OutputView::OpenCalendarDialog, today) == (Turn {
                app: AppView {
                    dialog_pages: app.dialog_pages.push(DialogPageView::Calendar(day)),
                    ..app
                },
                effects: focus,
            })
            &&& model::details_turn(app, details::OutputView::OpenReminderCalendarDialog, today) == (
            Turn {
                app: AppView {
                    dialog_pages: app.dialog_pages.push(DialogPageView::ReminderCalendar(day)),
                    ..app
                },
                effects: focus,
            })
            &&& model::details_turn(app, details::OutputView::RefreshTask(task), today) == (Turn {
                app,
                effects: seq![EffectView::UpdateContent(content::MessageView::RefreshTask(task))],
            })
        }),
{
}

/// What is asked for of a task or a list is begun for that very task or list, and counted. Nothing else
/// changes.
#[verifier::spinoff_prover]
pub proof fn work_is_begun_as_asked_for(
    app: AppView,
    action: TasksActionView,
    operation: StorageOperationView,
    task: TaskView,
    list: ListView,
    today: i32,
)
    requires
        ({
            ||| action == TasksActionView::FetchLists && operation == StorageOperationView::Lists
            ||| action == TasksActionView::FetchListsAsync && operation == StorageOperationView::Lists
            ||| action == TasksActionView::UpdateTaskAsync(task) && operation
                == StorageOperationView::UpdateTask(task)
            ||| action == TasksActionView::DeleteTaskAsync(task) && operation
                == StorageOperationView::DeleteTask(task)
            ||| action == TasksActionView::DeleteListAsync(list) && operation
                == StorageOperationView::DeleteList(list)
            ||| action == TasksActionView::FetchTasksAsync(list) && operation
                == StorageOperationView::Tasks(list)
            ||| action == TasksActionView::RefreshListAsync(list) && operation
                == StorageOperationView::RefreshTasks(list)
        }),
    ensures
        only_begins(app, model::message_turn(app, MessageView::Tasks(action), today), operation),
{
}

/// What is asked for of the steps of a task is begun for the task whose details are shown, with the id and
/// title that were given. Renaming, toggling and deleting are not counted.
#[verifier::spinoff_prover]
pub proof fn work_on_steps_is_begun_as_asked_for(
    app: AppView,
    action: TasksActionView,
    item_id: Seq<char>,
    title: Seq<char>,
    today: i32,
)
    ensures
        ({
            let task = app.details.task;
            let turn = model::message_turn(app, MessageView::Tasks(action), today);
            &&& action == TasksActionView::UpdateChecklistItemAsync(item_id, title) ==> only_spawns(
                app,
                turn,
                StorageOperationView::UpdateChecklistItem(task, item_id, title),
            )
            &&& action == TasksActionView::ToggleChecklistItemAsync(item_id) ==> only_spawns(
                app,
                turn,
                StorageOperationView::ToggleChecklistItem(task, item_id),
            )
            &&& action == TasksActionView::DeleteChecklistItemAsync(item_id) ==> only_spawns(
                app,
                turn,
                StorageOperationView::DeleteChecklistItem(task, item_id),
            )
            &&& action is FetchChecklistItemsAsync ==> only_begins(
                app,
                turn,
                StorageOperationView::FetchChecklistItems(task),
            )
            &&& action == TasksActionView::AddChecklistItemAsync(title) ==> only_begins(
                AppView {
                    details: DetailsView { new_checklist_item_text: Seq::empty(), ..app.details },
                    ..app
                },
                turn,
                StorageOperationView::CreateChecklistItem(task, title),
            )
        }),
{
}

/// The number of tasks that `list` shows of `cached` on the day `today`.
pub open spec fn shown_number(list: ListView, cached: Seq<TaskView>, today: i32) -> nat {
    if !list.is_virtual {
        cached.filter(|task: TaskView| filters::is_to_be_shown(list, task)).len()
    } else if list.virtual_type is Some {
        cached.filter(
            |task: TaskView| filters::is_meant_for(list.virtual_type->0, task, today as int),
        ).len()
    } else {
        0
    }
}

/// Whether `after` is `app` with the numbers beside the lists brought up to date: each text is the name of
/// the list, behind the number in brackets of the tasks that the list shows of the cached ones, if it shows
/// any. Nothing else changes.
pub open spec fn is_up_to_date(app: AppView, after: AppView, today: i32) -> bool {
    &&& after == (AppView { nav: after.nav, ..app })
    &&& after.nav == (NavView { items: after.nav.items, ..app.nav })
    &&& after.nav.items.len() == app.nav.items.len()
    &&& forall|i: int|
        0 <= i < app.nav.items.len() ==> {
            let item = #[trigger] after.nav.items[i];
            let list = app.nav.items[i].list;
            let n = shown_number(list, app.cached, today);
            &&& item == (NavItemView { text: item.text, ..app.nav.items[i] })
            &&& n == 0 ==> item.text == list.name
            &&& n > 0 ==> item.text == seq!['('] + text::decimal_digits(n) + seq![')', ' ']
                + list.name
        }
}

proof fn lemma_counted(app: AppView, today: i32)
    requires
        clock::FIRST_DAY <= today <= clock::LAST_DAY,
    ensures
        is_up_to_date(app, app.counted(today), today),
{
    let after = app.counted(today);
    assert forall|i: int| 0 <= i < app.nav.items.len() implies {
        let item = #[trigger] after.nav.items[i];
        let list = app.nav.items[i].list;
        let n = shown_number(list, app.cached, today);
        &&& item == (NavItemView { text: item.text, ..app.nav.items[i] })
        &&& n == 0 ==> item.text == list.name
        &&& n > 0 ==> item.text == seq!['('] + text::decimal_digits(n) + seq![')', ' '] + list.name
    } by {
        let list = app.nav.items[i].list;
        filters::lists_show_what_is_meant_for_them(list, app.cached, today as int);
        nav::items_are_labelled_by_name_and_number(
            filters::task_count(list, app.cached, today as int),
            list.name,
            list,
        );
    }
}

/// Whatever is told of the cached tasks, and whenever the numbers are to be counted anew, the numbers
/// beside the lists are brought up to date with the cache, and nothing else happens.
#[verifier::spinoff_prover]
pub proof fn numbers_follow_the_cache(app: AppView, signal: CacheUpdateSignalView, today: i32)
    requires
        clock::FIRST_DAY <= today <= clock::LAST_DAY,
    ensures
        ({
            let told = model::message_turn(app, MessageView::CacheUpdate(signal), today);
            let refreshed = model::message_turn(app, MessageView::RefreshCacheCounts, today);
            &&& is_up_to_date(app, told.app, today)
            &&& told.effects.len() == 0
            &&& refreshed == told
            &&& is_up_to_date(app, app.counted(today), today)
        }),
{
    lemma_counted(app, today);
}

/// Once a task was changed, the numbers are brought up to date, and the tasks of the list that is chosen
/// are fetched again. Once one was deleted, the numbers are brought up to date. One operation has ended.
#[verifier::spinoff_prover]
pub proof fn changed_tasks_are_counted_anew(app: AppView, p: int, today: i32)
    requires
        app.well_formed(),
        clock::FIRST_DAY <= today <= clock::LAST_DAY,
    ensures
        ({
            let updated = model::message_turn(
                app,
                MessageView::Tasks(TasksActionView::TaskUpdated(Ok(()))),
                today,
            );
            let deleted = model::message_turn(
                app,
                MessageView::Tasks(TasksActionView::TaskDeleted(Ok(()))),
                today,
            );
            let ended = one_fewer(app);
            &&& is_up_to_date(ended, deleted.app, today)
            &&& deleted.effects.len() == 0
            &&& is_chosen(app, p) ==> updated.effects == seq![
                EffectView::Spawn(StorageOperationView::Tasks(app.nav.items[p].list)),
            ] && is_up_to_date(
                (AppView {
                    running_operations: (ended.running_operations + 1) as u32,
                    ..ended
                }),
                updated.app,
                today,
            )
            &&& app.nav.active is None ==> updated.effects.len() == 0 && is_up_to_date(
                ended,
                updated.app,
                today,
            )
        }),
{
    let ended = one_fewer(app);
    nav::items_are_found_by_their_numbers(app.nav, p, 0);
    lemma_counted(ended, today);
    lemma_counted(
        AppView { running_operations: (ended.running_operations + 1) as u32, ..ended },
        today,
    );
}

/// What has come is handed to the page that shows the tasks: the very task that was made, whereupon the
/// numbers are counted anew, or the very tasks that were fetched. One operation has ended, and nothing else
/// changes.
#[verifier::spinoff_prover]
pub proof fn answers_are_handed_to_the_page(
    app: AppView,
    task: TaskView,
    tasks: Seq<TaskView>,
    today: i32,
)
    ensures
        model::message_turn(app, MessageView::Tasks(TasksActionView::TaskCreated(Ok(task))), today) == (
        Turn {
            app: one_fewer(app),
            effects: seq![
                EffectView::UpdateContent(content::MessageView::TaskCreated(task)),
                EffectView::Dispatch(MessageView::RefreshCacheCounts),
            ],
        }),
        model::message_turn(app, MessageView::Tasks(TasksActionView::TasksFetched(Ok(tasks))), today)
            == (Turn {
            app: one_fewer(app),
            effects: seq![EffectView::UpdateContent(content::MessageView::SetTasks(tasks))],
        }),
        model::message_turn(app, MessageView::Tasks(TasksActionView::ListDeleted(Ok(()))), today) == (
        Turn { app: one_fewer(app), effects: Seq::empty() }),
{
}

/// After an error in place of an answer about lists or tasks one operation has ended, nothing is handed on
/// and nothing else changes.
#[verifier::spinoff_prover]
pub proof fn errors_end_the_operation(
    app: AppView,
    action: TasksActionView,
    error: Seq<char>,
    today: i32,
)
    requires
        ({
            ||| action == TasksActionView::ListDeleted(Err(error))
            ||| action == TasksActionView::TaskCreated(Err(error))
            ||| action == TasksActionView::TaskUpdated(Err(error))
            ||| action == TasksActionView::TaskDeleted(Err(error))
            ||| action == TasksActionView::TasksFetched(Err(error))
            ||| action == TasksActionView::ListsFetched(Err(error))
        }),
    ensures
        model::message_turn(app, MessageView::Tasks(action), today) == (Turn {
            app: one_fewer(app),
            effects: Seq::empty(),
        }),
{
}

/// `app` with `items` as the steps of the task whose details are shown, which are those that the service
/// holds.
pub open spec fn with_steps(app: AppView, items: Seq<ChecklistItemView>) -> AppView {
    AppView {
        details: DetailsView {
            task: TaskView {
                checklist_items: items,
                checklist_sync_status: ChecklistSyncStatusView::Synced,
                ..app.details.task
            },
            ..app.details
        },
        ..app
    }
}

/// What the service has done with the steps is done with those of the task whose details are shown: a new
/// step comes last, the first step with the id of one that was changed becomes that one, the steps with the
/// id of one that was deleted go, and steps that were fetched take the place of all. Nothing is asked for.
#[verifier::spinoff_prover]
pub proof fn answered_steps_are_taken_over(
    app: AppView,
    action: TasksActionView,
    item: ChecklistItemView,
    items: Seq<ChecklistItemView>,
    item_id: Seq<char>,
    i: int,
    today: i32,
)
    ensures
        ({
            let turn = model::message_turn(app, MessageView::Tasks(action), today);
            let steps = app.details.task.checklist_items;
            let is_first = 0 <= i < steps.len() && steps[i].id == item.id && forall|j: int|
                0 <= j < i ==> (#[trigger] steps[j]).id != item.id;
            let is_missing = forall|j: int|
                0 <= j < steps.len() ==> (#[trigger] steps[j]).id != item.id;
            let is_answer = {
                ||| action == TasksActionView::ChecklistItemAdded(Ok(item))
                ||| action == TasksActionView::ChecklistItemUpdated(Ok(item))
                ||| action == TasksActionView::ChecklistItemToggled(Ok(item))
                ||| action == TasksActionView::ChecklistItemDeleted(Ok(item_id))
                ||| action == TasksActionView::ChecklistItemsFetched(Ok(items))
            };
            let is_counted = !(action is ChecklistItemToggled || action is ChecklistItemDeleted);
            let after = turn.app.details.task.checklist_items;
            &&& is_answer ==> turn.effects.len() == 0
            &&& is_answer ==> turn.app == with_steps(
                if is_counted {
                    one_fewer(app)
                } else {
                    app
                },
                after,
            )
            &&& is_answer && action is ChecklistItemAdded ==> after == steps.push(item)
            &&& is_answer && action is ChecklistItemUpdated && is_first ==> after == steps.update(i, item)
            &&& is_answer && action is ChecklistItemToggled && is_first ==> after == steps.update(i, item)
            &&& is_answer && action is ChecklistItemUpdated && is_missing ==> after == steps
            &&& is_answer && action is ChecklistItemToggled && is_missing ==> after == steps
            &&& is_answer && action is ChecklistItemDeleted ==> after == steps.filter(
                |item: ChecklistItemView| item.id != item_id,
            )
            &&& is_answer && action is ChecklistItemsFetched ==> after == items
        }),
{
    checklist::first_step_with_the_id_is_changed(app.details.task.checklist_items, item, i);
}

/// An error in place of an answer about steps leaves the steps as they are, marks them with that error, and
/// asks for nothing.
#[verifier::spinoff_prover]
pub proof fn failed_steps_are_marked(app: AppView, action: TasksActionView, error: Seq<char>, today: i32)
    requires
        ({
            ||| action == TasksActionView::ChecklistItemAdded(Err(error))
            ||| action == TasksActionView::ChecklistItemUpdated(Err(error))
            ||| action == TasksActionView::ChecklistItemToggled(Err(error))
            ||| action == TasksActionView::ChecklistItemDeleted(Err(error))
            ||| action == TasksActionView::ChecklistItemsFetched(Err(error))
        }),
    ensures
        ({
            let turn = model::message_turn(app, MessageView::Tasks(action), today);
            let before = if action is ChecklistItemToggled || action is ChecklistItemDeleted {
                app
            } else {
                one_fewer(app)
            };
            &&& turn.effects.len() == 0
            &&& turn.app == (AppView {
                details: DetailsView {
                    task: TaskView {
                        checklist_sync_status: ChecklistSyncStatusView::SyncFailed(error),
                        ..app.details.task
                    },
                    ..app.details
                },
                ..before
            })
        }),
{
}

/// `app` with the item at the place `p` chosen: the title of the main window, if there is one, names its
/// list and then the application.
pub open spec fn with_choice(app: AppView, p: int) -> AppView {
    AppView {
        nav: NavView { active: Some(app.nav.items[p].entity), ..app.nav },
        window_title: if app.main_window_id is Some {
            Some(app.nav.items[p].list.name + " - "@ + app.tasks_label)
        } else {
            app.window_title
        },
        ..app
    }
}

/// What the page that shows the tasks is told when the item at the place `p` is chosen.
pub open spec fn told_of_choice(app: AppView, p: int) -> EffectView {
    EffectView::UpdateContent(content::MessageView::SetList(Some(app.nav.items[p].list)))
}

/// To choose an item chooses that item, names its list in the title, and tells the page to show that list.
/// A number that no item has chooses nothing.
#[verifier::spinoff_prover]
pub proof fn chosen_list_is_shown(app: AppView, p: int, entity: u64)
    requires
        app.well_formed(),
    ensures
        0 <= p < app.nav.items.len() ==> app.selected(app.nav.items[p].entity) == (Turn {
            app: with_choice(app, p),
            effects: seq![told_of_choice(app, p)],
        }),
        (forall|i: int| 0 <= i < app.nav.items.len() ==> (#[trigger] app.nav.items[i]).entity != entity)
            ==> app.selected(entity) == (Turn { app, effects: Seq::empty() }),
{
    nav::items_are_found_by_their_numbers(app.nav, p, entity);
}

/// Lists that have come are shown. The numbers are counted anew three seconds later. Where no list was
/// chosen the first one is, and the page is told to show it; a choice that was made stays.
#[verifier::spinoff_prover]
pub proof fn fetched_lists_are_shown(app: AppView, lists: Seq<ListView>, p: int, today: i32)
    requires
        app.well_formed(),
        nav::has_numbers_for(app.nav, lists),
    ensures
        ({
            let turn = model::message_turn(
                app,
                MessageView::Tasks(TasksActionView::ListsFetched(Ok(lists))),
                today,
            );
            let shown = AppView { nav: app.nav.with_lists(lists), ..one_fewer(app) };
            let refresh = EffectView::RefreshCountsAfter(3000);
            &&& is_chosen(app, p) ==> turn == (Turn { app: shown, effects: seq![refresh] })
            &&& app.nav.active is None && shown.nav.items.len() > 0 ==> turn == (Turn {
                app: with_choice(shown, 0),
                effects: seq![refresh, told_of_choice(shown, 0)],
            })
            &&& app.nav.active is None && shown.nav.items.len() == 0 ==> turn == (Turn {
                app: shown,
                effects: seq![refresh],
            })
        }),
{
    let shown = AppView { nav: app.nav.with_lists(lists), ..one_fewer(app) };
    nav::shown_lists_are_well_formed(app.nav, lists);
    nav::shown_lists_are_offered(app.nav, lists);
    if is_chosen(app, p) {
        assert(shown.nav.items[p].entity == app.nav.items[p].entity);
    }
    nav::items_are_found_by_their_numbers(shown.nav, p, 0);
    chosen_list_is_shown(shown, 0, 0);
    assert(seq![EffectView::RefreshCountsAfter(3000)] + seq![told_of_choice(shown, 0)] =~= seq![
        EffectView::RefreshCountsAfter(3000),
        told_of_choice(shown, 0),
    ]);
}

/// A list that the service has added is offered last, under its name and with its icon, without a line
/// above it, and is chosen.
#[verifier::spinoff_prover]
pub proof fn added_list_is_offered_and_chosen(app: AppView, list: ListView, today: i32)
    requires
        app.well_formed(),
        app.nav.next_entity < u64::MAX,
    ensures
        ({
            let turn = model::message_turn(
                app,
                MessageView::Tasks(TasksActionView::AddList(list)),
                today,
            );
            let item = NavItemView {
                entity: app.nav.next_entity,
                text: nav::label(list.number_of_tasks as nat, list.name),
                icon: nav::icon_of(list),
                divider_above: false,
                list,
            };
            let offered = AppView {
                nav: NavView {
                    items: app.nav.items.push(item),
                    next_entity: (app.nav.next_entity + 1) as u64,
                    ..app.nav
                },
                ..app
            };
            let last = app.nav.items.len() as int;
            turn == (Turn {
                app: with_choice(offered, last),
                effects: seq![told_of_choice(offered, last)],
            })
        }),
{
    let offered = AppView { nav: app.nav.inserted(list, false), ..app };
    nav::offered_list_is_well_formed(app.nav, list, false);
    chosen_list_is_shown(offered, app.nav.items.len() as int, 0);
}

/// `app` without the item at the place `p`, after which none is chosen.
pub open spec fn without_choice(app: AppView, p: int) -> AppView {
    AppView {
        nav: NavView { items: app.nav.items.remove(p), active: None, ..app.nav },
        ..app
    }
}

/// To delete a list deletes that of the given item, or the one that is chosen where no item is given. The
/// item that is chosen goes.
#[verifier::spinoff_prover]
pub proof fn list_is_deleted_as_asked_for(
    app: AppView,
    p: int,
    q: int,
    entity: Option<u64>,
    today: i32,
)
    requires
        app.well_formed(),
        is_chosen(app, p),
    ensures
        ({
            let turn = model::message_turn(
                app,
                MessageView::Tasks(TasksActionView::DeleteList(entity)),
                today,
            );
            &&& entity is None ==> only_begins(
                without_choice(app, p),
                turn,
                StorageOperationView::DeleteList(app.nav.items[p].list),
            )
            &&& 0 <= q < app.nav.items.len() && entity == Some(app.nav.items[q].entity) ==> only_begins(
                without_choice(app, p),
                turn,
                StorageOperationView::DeleteList(app.nav.items[q].list),
            )
            &&& entity is Some && (forall|i: int|
                0 <= i < app.nav.items.len() ==> (#[trigger] app.nav.items[i]).entity != entity->0)
                ==> turn == (Turn { app: without_choice(app, p), effects: Seq::empty() })
        }),
{
    let number = if entity is Some {
        entity->0
    } else {
        0
    };
    nav::items_are_found_by_their_numbers(app.nav, p, number);
    nav::items_are_found_by_their_numbers(app.nav, q, number);
    nav::items_change_one_at_a_time(app.nav, p, Seq::empty(), app.nav.items[p].list);
}

/// Where no list is chosen, deleting the list of an item takes no item away, and there is nothing to delete
/// where no item is given.
#[verifier::spinoff_prover]
pub proof fn nothing_goes_where_nothing_is_chosen(app: AppView, q: int, today: i32)
    requires
        app.well_formed(),
        app.nav.active is None,
    ensures
        model::message_turn(app, MessageView::Tasks(TasksActionView::DeleteList(None)), today) == (
        Turn { app, effects: Seq::empty() }),
        0 <= q < app.nav.items.len() ==> only_begins(
            app,
            model::message_turn(
                app,
                MessageView::Tasks(TasksActionView::DeleteList(Some(app.nav.items[q].entity))),
                today,
            ),
            StorageOperationView::DeleteList(app.nav.items[q].list),
        ),
{
    nav::items_are_found_by_their_numbers(app.nav, q, 0);
}

/// To open a task shows its details, with its notes and its priority among the low, the normal and the high
/// one. Its steps are fetched if the service knows it. The drawer shows the details, or closes if it shows
/// them already, and the page is told whether it is open.
#[verifier::spinoff_prover]
pub proof fn opened_task_is_shown_in_the_drawer(app: AppView, task: TaskView)
    ensures
        ({
            let turn = model::content_turn(app, content::OutputView::OpenTaskDetails(task));
            let place: u16 = match task.priority {
                Priority::Low => 0,
                Priority::Normal => 1,
                Priority::High => 2,
            };
            let open = app.context_page != ContextPage::TaskDetails || !app.show_context;
            let is_known = task.id.len() > 0;
            &&& turn.app == (AppView {
                details: DetailsView { task, text_editor_content: task.notes, ..app.details },
                context_page: ContextPage::TaskDetails,
                show_context: open,
                running_operations: if is_known {
                    (app.running_operations + 1) as u32
                } else {
                    app.running_operations
                },
                ..app
            })
            &&& is_known ==> turn.effects == seq![
                EffectView::ActivatePriority(place),
                EffectView::Spawn(StorageOperationView::FetchChecklistItems(task)),
                EffectView::UpdateContent(content::MessageView::ContextMenuOpen(open)),
            ]
            &&& !is_known ==> turn.effects == seq![
                EffectView::ActivatePriority(place),
                EffectView::UpdateContent(content::MessageView::ContextMenuOpen(open)),
            ]
        }),
{
    let turn = model::content_turn(app, content::OutputView::OpenTaskDetails(task));
    let place = task.priority.spec_position();
    let open = app.context_page != ContextPage::TaskDetails || !app.show_context;
    if task.id.len() > 0 {
        assert(turn.effects =~= seq![
            EffectView::ActivatePriority(place),
            EffectView::Spawn(StorageOperationView::FetchChecklistItems(task)),
            EffectView::UpdateContent(content::MessageView::ContextMenuOpen(open)),
        ]);
    } else {
        assert(turn.effects =~= seq![
            EffectView::ActivatePriority(place),
            EffectView::UpdateContent(content::MessageView::ContextMenuOpen(open)),
        ]);
    }
}

/// Where completed tasks are to be hidden, or shown again, the list that is chosen remembers it, and the
/// tasks of the given list are had, which is not counted. Nothing happens where no list is chosen.
#[verifier::spinoff_prover]
pub proof fn hiding_is_remembered_by_the_chosen_list(app: AppView, list: ListView, p: int)
    requires
        app.well_formed(),
    ensures
        ({
            let turn = model::content_turn(app, content::OutputView::ToggleHideCompleted(list));
            let item = app.nav.items[p];
            &&& is_chosen(app, p) ==> only_spawns(
                AppView {
                    nav: NavView {
                        items: app.nav.items.update(
                            p,
                            NavItemView {
                                list: ListView { hide_completed: list.hide_completed, ..item.list },
                                ..item
                            },
                        ),
                        ..app.nav
                    },
                    ..app
                },
                turn,
                StorageOperationView::ToggledTasks(list),
            )
            &&& app.nav.active is None ==> turn == (Turn { app, effects: Seq::empty() })
        }),
{
    nav::items_are_found_by_their_numbers(app.nav, p, 0);
    if is_chosen(app, p) {
        nav::items_change_one_at_a_time(
            app.nav,
            p,
            Seq::empty(),
            ListView { hide_completed: list.hide_completed, ..app.nav.items[p].list },
        );
    }
}

/// Everything can be handled while operations can be counted and items numbered, but to change a dialog
/// where there is none.
#[verifier::spinoff_prover]
pub proof fn messages_can_be_handled(
    app: AppView,
    message: MessageView,
    output: content::OutputView,
    from_details: details::OutputView,
)
    requires
        app.running_operations < u32::MAX,
        app.nav.next_entity < u64::MAX,
        app.dialog_pages.len() > 0,
        message matches MessageView::Tasks(action) && action is ListsFetched
            && action->ListsFetched_0 is Ok ==> app.nav.next_entity
            + message->Tasks_0->ListsFetched_0->Ok_0.len() <= u64::MAX,
    ensures
        model::accepts(app, message),
        model::accepts_content(app, output),
        model::accepts_details(app, from_details),
{
    if let MessageView::Tasks(TasksActionView::ListsFetched(Ok(lists))) = message {
        nav::lemma_new_lists_are_few(app.nav, lists);
    }
}

/// An application that has turned as a turn says is in the state of that turn, has asked for exactly what
/// the turn asks for, and in that order, and still has items with numbers of their own.
pub proof fn turned_application_is_that_of_the_turn(
    before: TasksApp,
    after: TasksApp,
    effects: Vec<Effect>,
    turn: Turn,
    i: int,
)
    requires
        app::turned(before, after, effects, turn),
    ensures
        after@ == turn.app,
        effects@.len() == turn.effects.len(),
        0 <= i < effects@.len() ==> effects@[i]@ == turn.effects[i],
        before@.well_formed() ==> after@.well_formed(),
{
    assert(effects.deep_view()[i] == turn.effects[i]);
}

} // verus!
