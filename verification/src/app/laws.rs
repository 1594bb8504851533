//! What holds of the application whatever happens.

use vstd::prelude::*;

use crate::app::actions::{ApplicationActionView, TasksActionView};
use crate::app::context::ContextPage;
use crate::app::dialog::DialogPageView;
use crate::app::effects::EffectView;
use crate::app::model;
use crate::app::model::{AppView, Turn, WordingView};
use crate::app::nav;
use crate::app::operations;
use crate::app::operations::{
    OperationEndView, OperationOutcomeView, OperationStepView, ReplyView, StorageOperationView,
};
use crate::app::MessageView;
use crate::pages::{content, details};
use crate::storage;
use crate::storage::models::{ChecklistSyncStatusView, TaskView};

verus! {

/// Whether an operation is counted while it is running.
pub open spec fn is_counted(operation: StorageOperationView) -> bool {
    match operation {
        StorageOperationView::Lists
        | StorageOperationView::Tasks(_)
        | StorageOperationView::RefreshTasks(_)
        | StorageOperationView::DeleteList(_)
        | StorageOperationView::CreateTask(_)
        | StorageOperationView::UpdateTask(_)
        | StorageOperationView::DeleteTask(_)
        | StorageOperationView::CreateChecklistItem(_, _)
        | StorageOperationView::FetchChecklistItems(_) => true,
        _ => false,
    }
}

/// Whether an operation can have this outcome.
pub open spec fn can_end(operation: StorageOperationView, outcome: OperationOutcomeView) -> bool {
    match operation {
        StorageOperationView::Lists => outcome is Lists,
        StorageOperationView::Tasks(_) => outcome is Tasks,
        StorageOperationView::RefreshTasks(_) => outcome is Tasks,
        StorageOperationView::ToggledTasks(_) => outcome is ToggledTasks,
        StorageOperationView::ExportTasks(_) => outcome is ExportTasks,
        StorageOperationView::CreateList(_) => outcome is CreateList,
        StorageOperationView::UpdateList(_) => outcome is UpdateList,
        StorageOperationView::DeleteList(_) => outcome is DeleteList,
        StorageOperationView::CreateTask(_) => outcome is CreateTask,
        StorageOperationView::UpdateTask(_) => outcome is UpdateTask,
        StorageOperationView::DeleteTask(_) => outcome is DeleteTask,
        StorageOperationView::CreateChecklistItem(_, _) => outcome is CreateChecklistItem,
        StorageOperationView::UpdateChecklistItem(_, _, _) => outcome is UpdateChecklistItem,
        StorageOperationView::ToggleChecklistItem(_, _) => outcome is ToggleChecklistItem,
        StorageOperationView::DeleteChecklistItem(_, _) => outcome is DeleteChecklistItem,
        StorageOperationView::FetchChecklistItems(_) => outcome is FetchChecklistItems,
    }
}

/// However an operation goes, it ends with an outcome that it can have: before a token is asked for,
/// before the service is, or with the reply of the service.
pub proof fn operation_ends_as_it_can(
    operation: StorageOperationView,
    cached: Seq<TaskView>,
    token: Result<String, String>,
    reply: ReplyView,
    end: OperationEndView,
    today: i32,
)
    ensures
        operation.known(cached, today) matches Some(outcome) ==> can_end(operation, outcome),
        operation.asked(token) matches OperationStepView::Ended(outcome) ==> can_end(
            operation,
            outcome,
        ),
        operations::fits(operation, reply) && operations::ends_with(operation, cached, reply, end)
            ==> can_end(operation, end.outcome),
{
}

/// A reply that is an error leaves the cached tasks as they are, and leads to no fetch.
pub proof fn errors_leave_the_cache(
    operation: StorageOperationView,
    cached: Seq<TaskView>,
    reply: ReplyView,
    end: OperationEndView,
)
    requires
        operations::fits(operation, reply),
        operations::ends_with(operation, cached, reply, end),
        end.outcome.error() is Some,
    ensures
        end.cached == cached,
        end.signal is None,
        end.fetches is None,
{
}

/// Fetches are planned exactly where the lists have come, be it for no list at all.
pub proof fn fetches_follow_the_lists(
    operation: StorageOperationView,
    cached: Seq<TaskView>,
    reply: ReplyView,
    end: OperationEndView,
)
    requires
        operations::fits(operation, reply),
        operations::ends_with(operation, cached, reply, end),
    ensures
        end.fetches is Some <==> (end.outcome matches OperationOutcomeView::Lists(lists) && lists is Ok),
        end.fetches is Some <==> (reply matches ReplyView::Lists(lists) && lists is Ok),
{
}

/// How many counted operations `effects` begin.
pub open spec fn counted_operations(effects: Seq<EffectView>) -> nat
    decreases effects.len(),
{
    if effects.len() == 0 {
        0
    } else {
        let rest = counted_operations(effects.drop_last());
        match effects.last() {
            EffectView::Spawn(operation) if is_counted(operation) => rest + 1,
            _ => rest,
        }
    }
}

/// Counting one operation more and then one fewer changes nothing. The count does not fall below
/// zero.
pub proof fn count_goes_up_and_down(app: AppView)
    ensures
        app.can_start() ==> app.started().completed() == app,
        app.running_operations == 0 ==> app.completed() == app,
        app.completed().running_operations <= app.running_operations,
{
}

/// An operation that was counted is no longer counted once it has ended, well or not. All that is
/// counted then is the operation that may follow.
pub proof fn ended_operation_is_not_counted(
    app: AppView,
    operation: StorageOperationView,
    outcome: OperationOutcomeView,
    wording: WordingView,
    today: i32,
)
    requires
        is_counted(operation),
        can_end(operation, outcome),
        app.can_start(),
    ensures
        ({
            let message = model::outcome_message(outcome, wording);
            let turn = model::message_turn(app.started(), message, today);
            turn.app.running_operations == app.running_operations + counted_operations(turn.effects)
        }),
{
    let message = model::outcome_message(outcome, wording);
    let turn = model::message_turn(app.started(), message, today);
    assert(app.started().completed() == app);
    lemma_few_effects(turn.effects);
}

/// Effects among which at most one, and that the first, begins a counted operation.
proof fn lemma_few_effects(effects: Seq<EffectView>)
    ensures
        effects.len() == 0 ==> counted_operations(effects) == 0,
        effects.len() == 1 ==> counted_operations(effects) == counted_operation(effects[0]),
        effects.len() == 2 ==> counted_operations(effects) == counted_operation(effects[0])
            + counted_operation(effects[1]),
        effects.len() == 3 ==> counted_operations(effects) == counted_operation(effects[0])
            + counted_operation(effects[1]) + counted_operation(effects[2]),
{
    reveal_with_fuel(counted_operations, 4);
}

spec fn counted_operation(effect: EffectView) -> nat {
    match effect {
        EffectView::Spawn(operation) if is_counted(operation) => 1,
        _ => 0,
    }
}

/// Whether `message` tells that an operation has ended which is taken to be counted.
pub open spec fn ends_operation(message: MessageView) -> bool {
    match message {
        MessageView::OperationCompleted | MessageView::OperationFailed => true,
        MessageView::Tasks(action) => {
            ||| action is ListsFetched
            ||| action is TaskCreated
            ||| action is TaskUpdated
            ||| action is TaskDeleted
            ||| action is ListDeleted
            ||| action is TasksFetched
            ||| action is ChecklistItemAdded
            ||| action is ChecklistItemUpdated
            ||| action is ChecklistItemsFetched
        },
        _ => false,
    }
}

/// Handling a message counts each operation that it begins and is to be counted, and one operation
/// fewer if it tells that one has ended. Nothing else changes the count, but a message that does only
/// that.
pub proof fn begun_operation_is_counted(app: AppView, message: MessageView, today: i32)
    requires
        model::accepts(app, message),
        !(message is OperationStarted),
    ensures
        ({
            let turn = model::message_turn(app, message, today);
            let before = if ends_operation(message) {
                app.completed()
            } else {
                app
            };
            turn.app.running_operations == before.running_operations + counted_operations(
                turn.effects,
            )
        }),
{
    match message {
        MessageView::Tasks(action) => lemma_tasks_are_counted(app, action, today),
        MessageView::Application(action) => lemma_application_is_counted(app, action),
        _ => lemma_few_effects(model::message_turn(app, message, today).effects),
    }
}

#[verifier::spinoff_prover]
#[verifier::rlimit(40)]
proof fn lemma_tasks_are_counted(app: AppView, action: TasksActionView, today: i32)
    requires
        model::accepts_tasks(app, action),
    ensures
        ({
            let turn = model::tasks_turn(app, action, today);
            let before = if ends_operation(MessageView::Tasks(action)) {
                app.completed()
            } else {
                app
            };
            turn.app.running_operations == before.running_operations + counted_operations(
                turn.effects,
            )
        }),
{
    lemma_few_effects(model::tasks_turn(app, action, today).effects);
}

#[verifier::spinoff_prover]
#[verifier::rlimit(40)]
proof fn lemma_application_is_counted(app: AppView, action: ApplicationActionView)
    requires
        model::accepts_application(app, action),
    ensures
        model::application_turn(app, action).app.running_operations == app.running_operations
            + counted_operations(model::application_turn(app, action).effects),
{
    lemma_few_effects(model::application_turn(app, action).effects);
}

/// Handling what a page asks for counts each operation that it begins and is to be counted.
pub proof fn operation_of_page_is_counted(
    app: AppView,
    output: content::OutputView,
    from_details: details::OutputView,
    today: i32,
)
    ensures
        model::accepts_content(app, output) ==> model::content_turn(
            app,
            output,
        ).app.running_operations == app.running_operations + counted_operations(
            model::content_turn(app, output).effects,
        ),
        model::accepts_details(app, from_details) ==> model::details_turn(
            app,
            from_details,
            today,
        ).app.running_operations == app.running_operations + counted_operations(
            model::details_turn(app, from_details, today).effects,
        ),
{
    lemma_few_effects(model::content_turn(app, output).effects);
    lemma_few_effects(model::details_turn(app, from_details, today).effects);
}

/// Whether `turn` leaves alone what no message changes: the cached tasks, and what the application was
/// started with.
pub open spec fn keeps_its_ground(app: AppView, turn: Turn) -> bool {
    &&& turn.app.cached == app.cached
    &&& turn.app.has_config_handler == app.has_config_handler
    &&& turn.app.dialog_text_input == app.dialog_text_input
    &&& turn.app.max_operations == app.max_operations
    &&& turn.app.main_window_id == app.main_window_id
    &&& turn.app.tasks_label == app.tasks_label
}

/// No message, and nothing that a page asks for, changes the cached tasks or what the application was
/// started with. The settings change only where they can be written.
pub proof fn messages_leave_the_ground(
    app: AppView,
    message: MessageView,
    output: content::OutputView,
    from_details: details::OutputView,
    today: i32,
)
    ensures
        keeps_its_ground(app, model::message_turn(app, message, today)),
        keeps_its_ground(app, model::content_turn(app, output)),
        keeps_its_ground(app, model::details_turn(app, from_details, today)),
        !app.has_config_handler ==> model::message_turn(app, message, today).app.config
            == app.config,
        model::content_turn(app, output).app.config == app.config,
        model::details_turn(app, from_details, today).app.config == app.config,
{
    match message {
        MessageView::Tasks(action) => lemma_tasks_leave_the_ground(app, action, today),
        MessageView::Application(action) => lemma_application_leaves_the_ground(app, action),
        _ => {},
    }
    lemma_pages_leave_the_ground(app, output, from_details, today);
}

#[verifier::spinoff_prover]
#[verifier::rlimit(40)]
proof fn lemma_tasks_leave_the_ground(app: AppView, action: TasksActionView, today: i32)
    ensures
        keeps_its_ground(app, model::tasks_turn(app, action, today)),
        model::tasks_turn(app, action, today).app.config == app.config,
{
}

#[verifier::spinoff_prover]
#[verifier::rlimit(40)]
proof fn lemma_application_leaves_the_ground(app: AppView, action: ApplicationActionView)
    ensures
        keeps_its_ground(app, model::application_turn(app, action)),
        !app.has_config_handler ==> model::application_turn(app, action).app.config == app.config,
{
}

#[verifier::spinoff_prover]
proof fn lemma_pages_leave_the_ground(
    app: AppView,
    output: content::OutputView,
    from_details: details::OutputView,
    today: i32,
)
    ensures
        keeps_its_ground(app, model::content_turn(app, output)),
        keeps_its_ground(app, model::details_turn(app, from_details, today)),
        model::content_turn(app, output).app.config == app.config,
        model::details_turn(app, from_details, today).app.config == app.config,
{
}

/// An error in place of an answer about lists or tasks changes nothing but the count of operations.
pub proof fn errors_change_nothing(app: AppView, error: Seq<char>, action: TasksActionView, today: i32)
    requires
        ({
            ||| action == TasksActionView::ListsFetched(Err(error))
            ||| action == TasksActionView::TaskCreated(Err(error))
            ||| action == TasksActionView::TaskUpdated(Err(error))
            ||| action == TasksActionView::TaskDeleted(Err(error))
            ||| action == TasksActionView::ListDeleted(Err(error))
            ||| action == TasksActionView::TasksFetched(Err(error))
        }),
    ensures
        model::tasks_turn(app, action, today) == app.completed().turn(seq![]),
{
}

/// An error in place of an answer about the steps of a task leaves the steps as they are. It leaves
/// the mark that they may not be those that the service holds.
pub proof fn errors_leave_a_mark(app: AppView, error: Seq<char>, action: TasksActionView, today: i32)
    requires
        ({
            ||| action == TasksActionView::ChecklistItemAdded(Err(error))
            ||| action == TasksActionView::ChecklistItemUpdated(Err(error))
            ||| action == TasksActionView::ChecklistItemToggled(Err(error))
            ||| action == TasksActionView::ChecklistItemDeleted(Err(error))
            ||| action == TasksActionView::ChecklistItemsFetched(Err(error))
        }),
    ensures
        model::tasks_turn(app, action, today) == failed_sync(
            if ends_operation(MessageView::Tasks(action)) {
                app.completed()
            } else {
                app
            },
            error,
        ).turn(seq![]),
{
}

/// `app` with the mark that the steps of the task whose details are shown may not be those that the
/// service holds.
pub open spec fn failed_sync(app: AppView, error: Seq<char>) -> AppView {
    AppView {
        details: details::DetailsView {
            task: TaskView {
                checklist_sync_status: ChecklistSyncStatusView::SyncFailed(error),
                ..app.details.task
            },
            ..app.details
        },
        ..app
    }
}

/// Opening or closing the drawer twice leaves it as it was. A page that is called for opens the
/// drawer unless the drawer shows it already, and is closed when it is called for again.
pub proof fn drawer_toggles(app: AppView, page: ContextPage)
    ensures
        app.context_drawer_toggled().app.context_drawer_toggled().app == app,
        app.shown_page() != Some(page) ==> app.context_page_toggled(page).app.shown_page() == Some(
            page,
        ),
        app.shown_page() == Some(page) ==> app.context_page_toggled(page).app.shown_page() is None,
{
}

/// Escape closes the dialog that is shown. Only where no dialog is shown does it close the drawer.
pub proof fn escape_closes_one_thing(app: AppView)
    ensures
        app.dialog_pages.len() > 0 ==> app.escaped() == (AppView {
            dialog_pages: app.dialog_pages.drop_first(),
            ..app
        }),
        app.dialog_pages.len() == 0 ==> app.escaped() == (AppView { show_context: false, ..app }),
        app.dialog_pages.len() == 0 ==> app.escaped().escaped() == app.escaped(),
{
}

/// Dialogs are shown in the order in which they were opened: one that is opened comes behind those
/// that are open, and leaves them as they are.
pub proof fn dialogs_are_shown_in_order(app: AppView, page: DialogPageView)
    requires
        !(page is Rename),
    ensures
        app.dialog_opened(page).app.dialog_pages == app.dialog_pages.push(page),
        app.dialog_pages.len() > 0 ==> app.dialog_opened(page).app.dialog_pages[0]
            == app.dialog_pages[0],
        app.dialog_pages.len() == 0 ==> app.dialog_opened(page).app.dialog_closed() == app,
{
    if app.dialog_pages.len() == 0 {
        assert(app.dialog_pages.push(page).drop_first() =~= app.dialog_pages);
    }
}

/// The dialog for another name begins with the name that the list has; completing it without a
/// change leaves the name of the list as it is.
pub proof fn rename_begins_with_the_name(app: AppView, entity: u64, text: Seq<char>)
    requires
        app.well_formed(),
        app.nav.data(entity) is Some,
    ensures
        ({
            let opened = app.dialog_opened(DialogPageView::Rename(Some(entity), text)).app;
            let page = opened.dialog_pages.last();
            &&& page == DialogPageView::Rename(Some(entity), app.nav.data(entity)->0.name)
            &&& app.dialog_completed(page).app.nav.data(entity) == app.nav.data(entity)
        }),
{
    let name = app.nav.data(entity)->0.name;
    let renamed = app.nav.data_set(entity, app.nav.data(entity)->0);
    nav::set_data_is_read_back(app.nav, entity, app.nav.data(entity)->0);
    if let Some(active) = renamed.active {
        nav::text_is_no_data(renamed, active, name, entity);
    }
}

/// After the tasks were counted, the number beside each list is the number of tasks that the list
/// shows from the cache, and none where it shows none.
pub proof fn counts_are_those_of_shown_tasks(app: AppView, today: i32, i: int)
    requires
        0 <= i < app.nav.items.len(),
    ensures
        ({
            let item = app.counted(today).nav.items[i];
            let list = app.nav.items[i].list;
            &&& item.list == list
            &&& match storage::tasks_step(app.cached, list, today as int) {
                storage::TasksStepView::Ready(Ok(tasks)) => item.text == nav::label(
                    tasks.len(),
                    list.name,
                ),
                _ => item.text == list.name,
            }
        }),
{
    storage::count_is_number_of_shown_tasks(app.cached, app.nav.items[i].list, today as int);
}

/// Counting the tasks once more on the same day changes nothing.
pub proof fn counting_again_changes_nothing(app: AppView, today: i32)
    ensures
        app.counted(today).counted(today) == app.counted(today),
{
    assert(app.counted(today).counted(today).nav.items =~= app.counted(today).nav.items);
}

/// A list that was added is the one that is chosen.
pub proof fn added_list_is_chosen(app: AppView, list: storage::models::ListView)
    requires
        app.nav.next_entity < u64::MAX,
    ensures
        app.list_added(list).app.nav.active_data() == Some(list),
        app.list_added(list).app.nav.items.len() == app.nav.items.len() + 1,
{
}

/// Once lists were fetched and at least one is shown, a list is chosen.
pub proof fn some_list_is_chosen(app: AppView, lists: Seq<storage::models::ListView>)
    requires
        app.well_formed(),
        nav::has_numbers_for(app.nav, lists),
    ensures
        ({
            let after = app.lists_fetched(lists).app;
            after.nav.items.len() > 0 ==> after.nav.active_data() is Some
        }),
{
    let shown = app.nav.with_lists(lists);
    if shown.active_data() is None && shown.items.len() > 0 {
        nav::first_item_is_found(shown);
    }
}

} // verus!
