//! What the messages about dialogs, the drawer and the window lead to, and which messages there are.

use vstd::prelude::*;

use crate::app;
use crate::app::actions::{ApplicationActionView, NavMenuAction, TasksActionView};
use crate::app::config::{AppTheme, TasksConfig};
use crate::app::context::ContextPage;
use crate::app::dialog::{DialogActionView, DialogPageView};
use crate::app::effects::EffectView;
use crate::app::error::Error;
use crate::app::model;
use crate::app::model::{AppView, Turn, WordingView};
use crate::app::nav;
use crate::app::nav::{NavItemView, NavView};
use crate::app::operations::{OperationOutcomeView, StorageOperationView};
use crate::app::turns;
use crate::app::{AppEventView, MessageView};
use crate::pages::content::SortType;
use crate::pages::details::DetailsView;
use crate::pages::{content, details};
use crate::storage::models::{ChecklistItemView, ListView, TaskView};

verus! {

/// What is done with the dialogs when `action` is to be done.
pub open spec fn dialog_message_turn(app: AppView, action: DialogActionView, today: i32) -> Turn {
    model::message_turn(
        app,
        MessageView::Application(ApplicationActionView::Dialog(action)),
        today,
    )
}

/// A dialog that is opened comes behind those that are open, as it is, and gets the focus. One that asks for
/// another name of a list begins with the name that the list has: that of the given item, or the one that
/// is chosen. Where there is no such list it is not opened.
#[verifier::spinoff_prover]
pub proof fn dialogs_open_behind_each_other(
    app: AppView,
    page: DialogPageView,
    p: int,
    today: i32,
)
    requires
        app.well_formed(),
    ensures
        ({
            let turn = dialog_message_turn(app, DialogActionView::Open(page), today);
            let opened = |page: DialogPageView|
                AppView { dialog_pages: app.dialog_pages.push(page), ..app };
            &&& turn.effects == seq![EffectView::Focus(app.dialog_text_input)]
            &&& !(page is Rename) ==> turn.app == opened(page)
            &&& page is Rename && 0 <= p < app.nav.items.len() && page->Rename_0 == Some(
                app.nav.items[p].entity,
            ) ==> turn.app == opened(
                DialogPageView::Rename(page->Rename_0, app.nav.items[p].list.name),
            )
            &&& page is Rename && turns::is_chosen(app, p) && page->Rename_0 is None ==> turn.app
                == opened(DialogPageView::Rename(None, app.nav.items[p].list.name))
            &&& page is Rename && page->Rename_0 is None && app.nav.active is None ==> turn.app == app
            &&& page is Rename && page->Rename_0 is Some && (forall|i: int|
                0 <= i < app.nav.items.len() ==> (#[trigger] app.nav.items[i]).entity
                    != page->Rename_0->0) ==> turn.app == app
        }),
{
    let number = if page is Rename && page->Rename_0 is Some {
        page->Rename_0->0
    } else {
        0
    };
    nav::items_are_found_by_their_numbers(app.nav, p, number);
}

/// What is written in a dialog changes the one that is shown, and closing takes that one away. Completing
/// one where none is shown does nothing.
#[verifier::spinoff_prover]
pub proof fn dialog_in_front_is_the_one_that_changes(app: AppView, page: DialogPageView, today: i32)
    ensures
        app.dialog_pages.len() > 0 ==> dialog_message_turn(app, DialogActionView::Update(page), today)
            == (Turn {
            app: AppView { dialog_pages: app.dialog_pages.update(0, page), ..app },
            effects: Seq::empty(),
        }),
        app.dialog_pages.len() > 0 ==> dialog_message_turn(app, DialogActionView::Close, today) == (
        Turn {
            app: AppView { dialog_pages: app.dialog_pages.drop_first(), ..app },
            effects: Seq::empty(),
        }),
        app.dialog_pages.len() == 0 ==> dialog_message_turn(app, DialogActionView::Close, today) == (
        Turn { app, effects: Seq::empty() }),
        app.dialog_pages.len() == 0 ==> dialog_message_turn(app, DialogActionView::Complete, today) == (
        Turn { app, effects: Seq::empty() }),
        dialog_message_turn(app, DialogActionView::Nothing, today) == (Turn {
            app,
            effects: Seq::empty(),
        }),
{
}

/// A dialog that is completed goes, and what it is for is done with what it holds: a regular list of that
/// name, and nothing else, is made; the date is set to the second that was chosen; the text is copied; and
/// the list that was meant is deleted as the message to delete it says.
#[verifier::spinoff_prover]
pub proof fn completed_dialog_does_what_it_is_for(app: AppView, today: i32)
    requires
        app.dialog_pages.len() > 0,
    ensures
        ({
            let turn = dialog_message_turn(app, DialogActionView::Complete, today);
            let closed = AppView { dialog_pages: app.dialog_pages.drop_first(), ..app };
            match app.dialog_pages[0] {
                DialogPageView::New(name) => turns::only_spawns(
                    closed,
                    turn,
                    StorageOperationView::CreateList(
                        ListView {
                            id: Seq::empty(),
                            name,
                            icon: None,
                            number_of_tasks: 0,
                            hide_completed: false,
                            is_virtual: false,
                            virtual_type: None,
                            sort_order: 0,
                            well_known_list_name: None,
                        },
                    ),
                ),
                DialogPageView::Rename(_, _) => true,
                DialogPageView::Delete(entity) => turn == model::tasks_turn(
                    closed,
                    TasksActionView::DeleteList(entity),
                    today,
                ),
                DialogPageView::Calendar(info) => turn == (Turn {
                    app: closed,
                    effects: seq![
                        EffectView::UpdateDetails(
                            details::Message::SetDueDate(
                                ((info.day - 719163) * 86400 + info.second_of_day) as i64,
                            ),
                        ),
                    ],
                }),
                DialogPageView::ReminderCalendar(info) => turn == (Turn {
                    app: closed,
                    effects: seq![
                        EffectView::UpdateDetails(
                            details::Message::SetReminderDate(
                                ((info.day - 719163) * 86400 + info.second_of_day) as i64,
                            ),
                        ),
                    ],
                }),
                DialogPageView::Export(text) => turn == (Turn {
                    app: closed,
                    effects: seq![EffectView::CopyToClipboard(text)],
                }),
            }
        }),
{
}

/// A list that is renamed keeps all but its name: that of the given item, or the one that is chosen. The
/// service is asked to change it, and the page is told to show it. The text of the item that is chosen
/// becomes the name. Without such a list nothing happens.
#[verifier::spinoff_prover]
pub proof fn renamed_list_keeps_all_but_its_name(
    app: AppView,
    entity: Option<u64>,
    name: Seq<char>,
    p: int,
    q: int,
    today: i32,
)
    requires
        app.well_formed(),
        app.dialog_pages.len() > 0,
        app.dialog_pages[0] == DialogPageView::Rename(entity, name),
    ensures
        ({
            let turn = dialog_message_turn(app, DialogActionView::Complete, today);
            let closed = AppView { dialog_pages: app.dialog_pages.drop_first(), ..app };
            let is_meant = 0 <= q < app.nav.items.len() && (if entity is Some {
                entity == Some(app.nav.items[q].entity)
            } else {
                turns::is_chosen(app, q)
            });
            let list = ListView { name, ..app.nav.items[q].list };
            let items = app.nav.items.update(q, NavItemView { list, ..app.nav.items[q] });
            &&& is_meant ==> turn.effects == seq![
                EffectView::Spawn(StorageOperationView::UpdateList(list)),
                EffectView::UpdateContent(content::MessageView::SetList(Some(list))),
            ]
            &&& is_meant && turns::is_chosen(app, p) ==> turn.app == (AppView {
                nav: NavView {
                    items: items.update(p, NavItemView { text: name, ..items[p] }),
                    ..app.nav
                },
                ..closed
            })
            &&& is_meant && app.nav.active is None ==> turn.app == (AppView {
                nav: NavView { items, ..app.nav },
                ..closed
            })
            &&& entity is None && app.nav.active is None ==> turn == (Turn {
                app: closed,
                effects: Seq::empty(),
            })
            &&& entity is Some && (forall|i: int|
                0 <= i < app.nav.items.len() ==> (#[trigger] app.nav.items[i]).entity != entity->0)
                ==> turn == (Turn { app: closed, effects: Seq::empty() })
        }),
{
    let number = if entity is Some {
        entity->0
    } else {
        0
    };
    nav::items_are_found_by_their_numbers(app.nav, q, number);
    if 0 <= q < app.nav.items.len() {
        let list = ListView { name, ..app.nav.items[q].list };
        nav::items_change_one_at_a_time(app.nav, q, name, list);
        let set = app.nav.data_set(app.nav.items[q].entity, list);
        nav::set_list_is_well_formed(app.nav, q, list);
        if turns::is_chosen(app, p) {
            assert(set.items[p].entity == app.nav.items[p].entity);
            nav::items_change_one_at_a_time(set, p, name, list);
        }
    }
}

/// The menu of an item leads to the dialogs for its name and for deleting its list, and to the text of that
/// very list. Where there is no such item there is no text.
#[verifier::spinoff_prover]
pub proof fn menu_of_an_item_is_about_that_item(app: AppView, entity: u64, p: int, today: i32)
    requires
        app.well_formed(),
    ensures
        ({
            let turn = |action: NavMenuAction|
                model::application_turn(app, ApplicationActionView::NavMenuAction(action));
            &&& turn(NavMenuAction::Rename(entity)) == model::dialog_turn(
                app,
                DialogActionView::Open(DialogPageView::Rename(Some(entity), Seq::empty())),
            )
            &&& turn(NavMenuAction::Delete(entity)) == (Turn {
                app: AppView {
                    dialog_pages: app.dialog_pages.push(DialogPageView::Delete(Some(entity))),
                    ..app
                },
                effects: seq![EffectView::Focus(app.dialog_text_input)],
            })
            &&& 0 <= p < app.nav.items.len() && app.nav.items[p].entity == entity
                ==> turns::only_spawns(
                app,
                turn(NavMenuAction::Export(entity)),
                StorageOperationView::ExportTasks(app.nav.items[p].list),
            )
            &&& (forall|i: int|
                0 <= i < app.nav.items.len() ==> (#[trigger] app.nav.items[i]).entity != entity)
                ==> turn(NavMenuAction::Export(entity)) == (Turn { app, effects: Seq::empty() })
        }),
        app::nav_menu(entity).len() == 3,
        app::nav_menu(entity)[0].action == NavMenuAction::Rename(entity),
        app::nav_menu(entity)[0].label == "rename",
        app::nav_menu(entity)[0].icon == "edit-symbolic",
        app::nav_menu(entity)[1].action == NavMenuAction::Export(entity),
        app::nav_menu(entity)[1].label == "export",
        app::nav_menu(entity)[1].icon == "share-symbolic",
        app::nav_menu(entity)[2].action == NavMenuAction::Delete(entity),
        app::nav_menu(entity)[2].label == "delete",
        app::nav_menu(entity)[2].icon == "user-trash-full-symbolic",
{
    nav::items_are_found_by_their_numbers(app.nav, p, entity);
}

/// A page that is called for is shown in the open drawer, or the drawer is opened or closed where it holds
/// that page already. The drawer alone opens if it was closed, and the other way round. The page that shows
/// the tasks is told each time whether the drawer is open now.
#[verifier::spinoff_prover]
pub proof fn drawer_is_opened_and_closed(app: AppView, page: ContextPage, today: i32)
    ensures
        ({
            let called = model::application_turn(app, ApplicationActionView::ToggleContextPage(page));
            let toggled = model::application_turn(app, ApplicationActionView::ToggleContextDrawer);
            let open = app.context_page != page || !app.show_context;
            &&& called == (Turn {
                app: AppView { context_page: page, show_context: open, ..app },
                effects: seq![
                    EffectView::UpdateContent(content::MessageView::ContextMenuOpen(open)),
                ],
            })
            &&& toggled == (Turn {
                app: AppView { show_context: !app.show_context, ..app },
                effects: seq![
                    EffectView::UpdateContent(
                        content::MessageView::ContextMenuOpen(!app.show_context),
                    ),
                ],
            })
            &&& app.show_context ==> app.shown_page() == Some(app.context_page)
            &&& !app.show_context ==> app.shown_page() is None
        }),
{
}

/// Settings are written and taken over where they can be written, and left alone where they cannot. The
/// look is that at the given place, and the page is told whether completed tasks are hidden. The look that is
/// set is always the one of the settings.
#[verifier::spinoff_prover]
pub proof fn settings_are_written_and_taken_over(app: AppView, position: usize, hidden: bool, today: i32)
    ensures
        ({
            let looked = model::application_turn(app, ApplicationActionView::AppTheme(position));
            let hiding = model::application_turn(
                app,
                ApplicationActionView::ToggleHideCompleted(hidden),
            );
            let look = if position == 1 {
                AppTheme::Dark
            } else if position == 2 {
                AppTheme::Light
            } else {
                AppTheme::System
            };
            let config = TasksConfig { hide_completed: hidden, ..app.config };
            &&& app.has_config_handler ==> looked == (Turn {
                app: AppView { config: TasksConfig { app_theme: look, ..app.config }, ..app },
                effects: seq![EffectView::StoreTheme(look)],
            })
            &&& app.has_config_handler ==> hiding == (Turn {
                app: AppView { config, ..app },
                effects: seq![
                    EffectView::StoreHideCompleted(hidden),
                    EffectView::UpdateContent(content::MessageView::SetConfig(config)),
                ],
            })
            &&& !app.has_config_handler ==> looked == (Turn { app, effects: Seq::empty() })
            &&& !app.has_config_handler ==> hiding == (Turn { app, effects: Seq::empty() })
            &&& model::application_turn(app, ApplicationActionView::SystemThemeModeChange) == (Turn {
                app,
                effects: seq![EffectView::SetTheme(app.config.app_theme)],
            })
        }),
{
}

/// The window that is closed is the main one, if there is one. Keys that are held down are remembered, and
/// a key that is pressed is looked up with those that were held down beside it.
#[verifier::spinoff_prover]
pub proof fn window_and_keys_are_followed(app: AppView, modifiers: u32, key: u32)
    ensures
        app.main_window_id is Some ==> model::application_turn(app, ApplicationActionView::WindowClose)
            == (Turn { app, effects: seq![EffectView::CloseWindow(app.main_window_id->0)] }),
        app.main_window_id is None ==> model::application_turn(app, ApplicationActionView::WindowClose)
            == (Turn { app, effects: Seq::empty() }),
        model::application_turn(app, ApplicationActionView::WindowNew) == (Turn {
            app,
            effects: seq![EffectView::OpenWindow],
        }),
        model::application_turn(app, ApplicationActionView::Key(modifiers, key)) == (Turn {
            app,
            effects: seq![EffectView::FindBindings(modifiers, key)],
        }),
        model::application_turn(app, ApplicationActionView::Modifiers(modifiers)) == (Turn {
            app: AppView { modifiers, ..app },
            effects: Seq::empty(),
        }),
{
}

/// The page that shows the tasks is told the order that was chosen: by name or by date, upwards or
/// downwards.
#[verifier::spinoff_prover]
pub proof fn tasks_are_sorted_as_chosen(app: AppView)
    ensures
        ({
            let sorted = |sort: SortType|
                Turn {
                    app,
                    effects: seq![EffectView::UpdateContent(content::MessageView::SetSort(sort))],
                };
            &&& model::application_turn(app, ApplicationActionView::SortByNameAsc) == sorted(
                SortType::NameAsc,
            )
            &&& model::application_turn(app, ApplicationActionView::SortByNameDesc) == sorted(
                SortType::NameDesc,
            )
            &&& model::application_turn(app, ApplicationActionView::SortByDateAsc) == sorted(
                SortType::DateAsc,
            )
            &&& model::application_turn(app, ApplicationActionView::SortByDateDesc) == sorted(
                SortType::DateDesc,
            )
        }),
{
}

/// What is meant for a page is handed to that page as it is, and an address is opened as it is. An operation
/// that has begun is counted, and one that has ended, well or not, is counted no longer.
#[verifier::spinoff_prover]
pub proof fn other_messages_are_passed_on(
    app: AppView,
    to_content: content::MessageView,
    to_details: details::Message,
    url: Seq<char>,
    today: i32,
)
    ensures
        model::message_turn(app, MessageView::Content(to_content), today) == (Turn {
            app,
            effects: seq![EffectView::UpdateContent(to_content)],
        }),
        model::message_turn(app, MessageView::Details(to_details), today) == (Turn {
            app,
            effects: seq![EffectView::UpdateDetails(to_details)],
        }),
        model::message_turn(app, MessageView::Open(url), today) == (Turn {
            app,
            effects: seq![EffectView::OpenUrl(url)],
        }),
        app.running_operations < u32::MAX ==> model::message_turn(
            app,
            MessageView::OperationStarted,
            today,
        ) == (Turn {
            app: AppView { running_operations: (app.running_operations + 1) as u32, ..app },
            effects: Seq::empty(),
        }),
        model::message_turn(app, MessageView::OperationCompleted, today) == (Turn {
            app: turns::one_fewer(app),
            effects: Seq::empty(),
        }),
        model::message_turn(app, MessageView::OperationFailed, today) == (Turn {
            app: turns::one_fewer(app),
            effects: Seq::empty(),
        }),
{
}

/// What a key is bound to is handled in its order, all of it and nothing else, and nothing changes before.
pub proof fn bindings_are_handled_in_order(app: AppView, bound: Seq<MessageView>, i: int)
    ensures
        model::bindings_turn(app, bound).app == app,
        model::bindings_turn(app, bound).effects.len() == bound.len(),
        0 <= i < bound.len() ==> model::bindings_turn(app, bound).effects[i] == EffectView::Dispatch(
            bound[i],
        ),
{
}

/// Keys, settings and the page that shows the tasks are listened to, and nothing else.
pub proof fn events_become_messages(event: AppEventView)
    ensures
        match event {
            AppEventView::KeyPressed(modifiers, key) => model::event_message(event) == Some(
                MessageView::Application(ApplicationActionView::Key(modifiers, key)),
            ),
            AppEventView::ModifiersChanged(modifiers) => model::event_message(event) == Some(
                MessageView::Application(ApplicationActionView::Modifiers(modifiers)),
            ),
            AppEventView::Content(message) => model::event_message(event) == Some(
                MessageView::Content(message),
            ),
            AppEventView::Other => model::event_message(event) is None,
            _ => model::event_message(event) == Some(
                MessageView::Application(ApplicationActionView::SystemThemeModeChange),
            ),
        },
{
}

/// The text that stands for an error, and what is handed on where there is none.
pub open spec fn in_words<T>(result: Result<T, Error>, text: Seq<char>) -> Result<T, Seq<char>> {
    if result is Ok {
        Ok(result->Ok_0)
    } else {
        Err(text)
    }
}

/// What has become of an operation on lists or tasks is handed on by the message of that operation: what it
/// brought as it is, and its error in words. An operation that is not waited for leads to nothing when it
/// failed.
#[verifier::spinoff_prover]
pub proof fn outcomes_about_lists_and_tasks_become_messages(
    list: ListView,
    lists: Result<Seq<ListView>, Error>,
    tasks: Result<Seq<TaskView>, Error>,
    made: Result<ListView, Error>,
    task: Result<TaskView, Error>,
    done: Result<(), Error>,
    wording: WordingView,
)
    ensures
        ({
            let message = |outcome: OperationOutcomeView| model::outcome_message(outcome, wording);
            let nothing = MessageView::Content(content::MessageView::Empty);
            let text = wording.error;
            &&& message(OperationOutcomeView::Lists(lists)) == MessageView::Tasks(
                TasksActionView::ListsFetched(in_words(lists, text)),
            )
            &&& message(OperationOutcomeView::Tasks(tasks)) == MessageView::Tasks(
                TasksActionView::TasksFetched(in_words(tasks, text)),
            )
            &&& message(OperationOutcomeView::DeleteList(done)) == MessageView::Tasks(
                TasksActionView::ListDeleted(in_words(done, text)),
            )
            &&& message(OperationOutcomeView::CreateTask(task)) == MessageView::Tasks(
                TasksActionView::TaskCreated(in_words(task, text)),
            )
            &&& message(OperationOutcomeView::UpdateTask(done)) == MessageView::Tasks(
                TasksActionView::TaskUpdated(in_words(done, text)),
            )
            &&& message(OperationOutcomeView::DeleteTask(done)) == MessageView::Tasks(
                TasksActionView::TaskDeleted(in_words(done, text)),
            )
            &&& tasks is Ok ==> message(OperationOutcomeView::ToggledTasks(tasks))
                == MessageView::Content(content::MessageView::SetTasks(tasks->Ok_0))
            &&& tasks is Err ==> message(OperationOutcomeView::ToggledTasks(tasks)) == nothing
            &&& made is Ok ==> message(OperationOutcomeView::CreateList(made)) == MessageView::Tasks(
                TasksActionView::AddList(made->Ok_0),
            )
            &&& made is Err ==> message(OperationOutcomeView::CreateList(made)) == nothing
            &&& message(OperationOutcomeView::UpdateList(done)) == nothing
            &&& tasks is Err ==> message(OperationOutcomeView::ExportTasks(list, tasks)) == nothing
            &&& tasks is Ok ==> message(OperationOutcomeView::ExportTasks(list, tasks))
                == MessageView::Application(
                ApplicationActionView::Dialog(
                    DialogActionView::Open(
                        DialogPageView::Export(
                            wording.list + "\n"@ + wording.tasks.flatten(),
                        ),
                    ),
                ),
            )
        }),
{
}

/// What has become of an operation on steps is handed on by the message of that operation: what it brought
/// as it is, and its error in words.
#[verifier::spinoff_prover]
pub proof fn outcomes_about_steps_become_messages(
    item: Result<ChecklistItemView, Error>,
    items: Result<Seq<ChecklistItemView>, Error>,
    item_id: Result<Seq<char>, Error>,
    wording: WordingView,
)
    ensures
        ({
            let message = |outcome: OperationOutcomeView| model::outcome_message(outcome, wording);
            let text = wording.error;
            &&& message(OperationOutcomeView::CreateChecklistItem(item)) == MessageView::Tasks(
                TasksActionView::ChecklistItemAdded(in_words(item, text)),
            )
            &&& message(OperationOutcomeView::UpdateChecklistItem(item)) == MessageView::Tasks(
                TasksActionView::ChecklistItemUpdated(in_words(item, text)),
            )
            &&& message(OperationOutcomeView::ToggleChecklistItem(item)) == MessageView::Tasks(
                TasksActionView::ChecklistItemToggled(in_words(item, text)),
            )
            &&& message(OperationOutcomeView::DeleteChecklistItem(item_id)) == MessageView::Tasks(
                TasksActionView::ChecklistItemDeleted(in_words(item_id, text)),
            )
            &&& message(OperationOutcomeView::FetchChecklistItems(items)) == MessageView::Tasks(
                TasksActionView::ChecklistItemsFetched(in_words(items, text)),
            )
        }),
{
}

/// The application starts with what it is given and nothing else: no lists, dialogs or drawer. It fetches
/// the lists first, which is counted, gives the main window, if there is one, its name as title, and folds
/// or unfolds the lists.
#[verifier::spinoff_prover]
pub proof fn application_starts_by_fetching_the_lists(
    cached: Seq<TaskView>,
    shown: DetailsView,
    has_config_handler: bool,
    config: TasksConfig,
    dialog_text_input: u64,
    main_window_id: Option<u64>,
    tasks_label: Seq<char>,
)
    ensures
        ({
            let turn = model::initial_turn(
                cached,
                shown,
                has_config_handler,
                config,
                dialog_text_input,
                main_window_id,
                tasks_label,
            );
            let app = turn.app;
            &&& app.cached == cached
            &&& app.details == shown
            &&& app.has_config_handler == has_config_handler
            &&& app.config == config
            &&& app.dialog_text_input == dialog_text_input
            &&& app.main_window_id == main_window_id
            &&& app.tasks_label == tasks_label
            &&& app.nav.items.len() == 0
            &&& app.nav.active is None
            &&& app.nav.next_entity == 0
            &&& app.dialog_pages.len() == 0
            &&& !app.show_context
            &&& app.context_page == ContextPage::Settings
            &&& app.modifiers == 0
            &&& app.running_operations == 1
            &&& app.max_operations == 1
            &&& main_window_id is Some ==> app.window_title == Some(tasks_label) && turn.effects
                == seq![
                EffectView::Spawn(StorageOperationView::Lists),
                EffectView::SetWindowTitle(main_window_id->0, tasks_label),
                EffectView::ToggleNavBar,
            ]
            &&& main_window_id is None ==> app.window_title is None && turn.effects == seq![
                EffectView::Spawn(StorageOperationView::Lists),
                EffectView::ToggleNavBar,
            ]
        }),
{
    let turn = model::initial_turn(
        cached,
        shown,
        has_config_handler,
        config,
        dialog_text_input,
        main_window_id,
        tasks_label,
    );
    if main_window_id is Some {
        assert(turn.effects =~= seq![
            EffectView::Spawn(StorageOperationView::Lists),
            EffectView::SetWindowTitle(main_window_id->0, tasks_label),
            EffectView::ToggleNavBar,
        ]);
    } else {
        assert(turn.effects =~= seq![
            EffectView::Spawn(StorageOperationView::Lists),
            EffectView::ToggleNavBar,
        ]);
    }
}

} // verus!
