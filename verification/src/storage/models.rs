//! The data that the application shows: lists, tasks and the steps of a task.

use vstd::prelude::*;

verus! {

/// How far a task has come.
#[derive(Clone, Copy, Debug, PartialEq, Eq, Structural)]
pub enum Status {
    NotStarted,
    Completed,
}

/// How urgent a task is.
#[derive(Clone, Copy, Debug, PartialEq, Eq, Structural)]
pub enum Priority {
    Low,
    Normal,
    High,
}

impl Priority {
    /// The place of the priority among the choices that are offered.
    pub open spec fn spec_position(self) -> u16 {
        match self {
            Priority::Low => 0,
            Priority::Normal => 1,
            Priority::High => 2,
        }
    }

    /// The place of the priority among the choices that are offered.
    pub fn position(self) -> (p: u16)
        ensures
            p == self.spec_position(),
    {
        match self {
            Priority::Low => 0,
            Priority::Normal => 1,
            Priority::High => 2,
        }
    }
}

/// The lists that are computed from the tasks of all other lists.
#[derive(Clone, Copy, Debug, PartialEq, Eq, Structural)]
pub enum VirtualListType {
    MyDay,
    Planned,
    All,
}

/// Whether the steps of a task are those that the service holds.
#[derive(Debug)]
pub enum ChecklistSyncStatus {
    NotSynced,
    Synced,
    SyncFailed(String),
}

/// A step of a task.
#[derive(Debug)]
pub struct ChecklistItem {
    pub id: String,
    pub display_name: String,
    pub is_checked: bool,
}

/// A task.
#[derive(Debug)]
pub struct Task {
    pub id: String,
    pub title: String,
    /// The list that holds the task.
    pub list_id: Option<String>,
    pub status: Status,
    pub priority: Priority,
    /// When the task is due, in seconds since the Unix epoch.
    pub due_date: Option<i64>,
    pub notes: String,
    pub checklist_items: Vec<ChecklistItem>,
    pub checklist_sync_status: ChecklistSyncStatus,
}

/// A list of tasks.
#[derive(Debug)]
pub struct List {
    pub id: String,
    pub name: String,
    pub icon: Option<String>,
    pub number_of_tasks: u32,
    pub hide_completed: bool,
    pub is_virtual: bool,
    pub virtual_type: Option<VirtualListType>,
    /// The place of a virtual list among the virtual lists.
    pub sort_order: i32,
    /// The role that the service gives to the list, if any.
    pub well_known_list_name: Option<String>,
}

/// What a [`ChecklistSyncStatus`] says.
pub enum ChecklistSyncStatusView {
    NotSynced,
    Synced,
    SyncFailed(Seq<char>),
}

/// What a [`ChecklistItem`] says.
pub struct ChecklistItemView {
    pub id: Seq<char>,
    pub display_name: Seq<char>,
    pub is_checked: bool,
}

/// What a [`Task`] says.
pub struct TaskView {
    pub id: Seq<char>,
    pub title: Seq<char>,
    pub list_id: Option<Seq<char>>,
    pub status: Status,
    pub priority: Priority,
    pub due_date: Option<i64>,
    pub notes: Seq<char>,
    pub checklist_items: Seq<ChecklistItemView>,
    pub checklist_sync_status: ChecklistSyncStatusView,
}

/// What a [`List`] says.
pub struct ListView {
    pub id: Seq<char>,
    pub name: Seq<char>,
    pub icon: Option<Seq<char>>,
    pub number_of_tasks: u32,
    pub hide_completed: bool,
    pub is_virtual: bool,
    pub virtual_type: Option<VirtualListType>,
    pub sort_order: i32,
    pub well_known_list_name: Option<Seq<char>>,
}

impl DeepView for ChecklistSyncStatus {
    type V = ChecklistSyncStatusView;

    open spec fn deep_view(&self) -> ChecklistSyncStatusView {
        match self {
            ChecklistSyncStatus::NotSynced => ChecklistSyncStatusView::NotSynced,
            ChecklistSyncStatus::Synced => ChecklistSyncStatusView::Synced,
            ChecklistSyncStatus::SyncFailed(error) => ChecklistSyncStatusView::SyncFailed(error@),
        }
    }
}

impl View for ChecklistSyncStatus {
    type V = ChecklistSyncStatusView;

    open spec fn view(&self) -> ChecklistSyncStatusView {
        self.deep_view()
    }
}

impl DeepView for ChecklistItem {
    type V = ChecklistItemView;

    open spec fn deep_view(&self) -> ChecklistItemView {
        ChecklistItemView {
            id: self.id@,
            display_name: self.display_name@,
            is_checked: self.is_checked,
        }
    }
}

impl View for ChecklistItem {
    type V = ChecklistItemView;

    open spec fn view(&self) -> ChecklistItemView {
        self.deep_view()
    }
}

impl DeepView for Task {
    type V = TaskView;

    open spec fn deep_view(&self) -> TaskView {
        TaskView {
            id: self.id@,
            title: self.title@,
            list_id: self.list_id.deep_view(),
            status: self.status,
            priority: self.priority,
            due_date: self.due_date,
            notes: self.notes@,
            checklist_items: self.checklist_items.deep_view(),
            checklist_sync_status: self.checklist_sync_status@,
        }
    }
}

impl View for Task {
    type V = TaskView;

    open spec fn view(&self) -> TaskView {
        self.deep_view()
    }
}

impl DeepView for List {
    type V = ListView;

    open spec fn deep_view(&self) -> ListView {
        ListView {
            id: self.id@,
            name: self.name@,
            icon: self.icon.deep_view(),
            number_of_tasks: self.number_of_tasks,
            hide_completed: self.hide_completed,
            is_virtual: self.is_virtual,
            virtual_type: self.virtual_type,
            sort_order: self.sort_order,
            well_known_list_name: self.well_known_list_name.deep_view(),
        }
    }
}

impl View for List {
    type V = ListView;

    open spec fn view(&self) -> ListView {
        self.deep_view()
    }
}

impl Clone for ChecklistSyncStatus {
    fn clone(&self) -> (r: ChecklistSyncStatus)
        ensures
            r@ == self@,
    {
        match self {
            ChecklistSyncStatus::NotSynced => ChecklistSyncStatus::NotSynced,
            ChecklistSyncStatus::Synced => ChecklistSyncStatus::Synced,
            ChecklistSyncStatus::SyncFailed(error) => ChecklistSyncStatus::SyncFailed(error.clone()),
        }
    }
}

impl Clone for ChecklistItem {
    fn clone(&self) -> (r: ChecklistItem)
        ensures
            r@ == self@,
    {
        ChecklistItem {
            id: self.id.clone(),
            display_name: self.display_name.clone(),
            is_checked: self.is_checked,
        }
    }
}

impl Clone for Task {
    fn clone(&self) -> (r: Task)
        ensures
            r@ == self@,
    {
        let r = Task {
            id: self.id.clone(),
            title: self.title.clone(),
            list_id: self.list_id.clone(),
            status: self.status,
            priority: self.priority,
            due_date: self.due_date,
            notes: self.notes.clone(),
            checklist_items: self.checklist_items.clone(),
            checklist_sync_status: self.checklist_sync_status.clone(),
        };
        assert(r.checklist_items.deep_view() =~= self.checklist_items.deep_view());
        r
    }
}

impl Clone for List {
    fn clone(&self) -> (r: List)
        ensures
            r@ == self@,
    {
        List {
            id: self.id.clone(),
            name: self.name.clone(),
            icon: self.icon.clone(),
            number_of_tasks: self.number_of_tasks,
            hide_completed: self.hide_completed,
            is_virtual: self.is_virtual,
            virtual_type: self.virtual_type,
            sort_order: self.sort_order,
            well_known_list_name: self.well_known_list_name.clone(),
        }
    }
}

impl VirtualListType {
    /// The id of the virtual list of this type.
    pub open spec fn spec_id(self) -> Seq<char> {
        match self {
            VirtualListType::MyDay => "virtual-my-day"@,
            VirtualListType::Planned => "virtual-planned"@,
            VirtualListType::All => "virtual-all"@,
        }
    }

    /// The place of the virtual list of this type among the virtual lists.
    pub open spec fn spec_sort_order(self) -> i32 {
        match self {
            VirtualListType::MyDay => 0,
            VirtualListType::Planned => 1,
            VirtualListType::All => 2,
        }
    }
}

impl ListView {
    /// A regular list that has nothing but a name.
    pub open spec fn named(name: Seq<char>) -> ListView {
        ListView {
            id: Seq::empty(),
            name,
            icon: None,
            number_of_tasks: 0,
            hide_completed: false,
            is_virtual: false,
            virtual_type: None,
            sort_order: 0,
            well_known_list_name: None,
        }
    }

    /// The virtual list of the given type, under the given name.
    pub open spec fn computed(virtual_type: VirtualListType, name: Seq<char>) -> ListView {
        ListView {
            id: virtual_type.spec_id(),
            is_virtual: true,
            virtual_type: Some(virtual_type),
            sort_order: virtual_type.spec_sort_order(),
            ..ListView::named(name)
        }
    }
}

impl List {
    /// A regular list that has nothing but a name.
    pub fn new(name: &str) -> (list: List)
        ensures
            list@ == ListView::named(name@),
    {
        List {
            id: String::new(),
            name: name.to_string(),
            icon: None,
            number_of_tasks: 0,
            hide_completed: false,
            is_virtual: false,
            virtual_type: None,
            sort_order: 0,
            well_known_list_name: None,
        }
    }

    /// The virtual list of the given type, under the given name.
    pub fn new_virtual(virtual_type: VirtualListType, name: &str) -> (list: List)
        ensures
            list@ == ListView::computed(virtual_type, name@),
    {
        let (id, sort_order): (&str, i32) = match virtual_type {
            VirtualListType::MyDay => ("virtual-my-day", 0),
            VirtualListType::Planned => ("virtual-planned", 1),
            VirtualListType::All => ("virtual-all", 2),
        };
        List {
            id: id.to_string(),
            name: name.to_string(),
            icon: None,
            number_of_tasks: 0,
            hide_completed: false,
            is_virtual: true,
            virtual_type: Some(virtual_type),
            sort_order,
            well_known_list_name: None,
        }
    }
}

/// Copies lists.
pub(crate) fn copy_lists(lists: &Vec<List>) -> (r: Vec<List>)
    ensures
        r.deep_view() == lists.deep_view(),
{
    let r = lists.clone();
    assert(r.deep_view() =~= lists.deep_view());
    r
}

/// Copies tasks.
pub(crate) fn copy_tasks(tasks: &Vec<Task>) -> (r: Vec<Task>)
    ensures
        r.deep_view() == tasks.deep_view(),
{
    let r = tasks.clone();
    assert(r.deep_view() =~= tasks.deep_view());
    r
}

/// Copies steps.
pub(crate) fn copy_items(items: &Vec<ChecklistItem>) -> (r: Vec<ChecklistItem>)
    ensures
        r.deep_view() == items.deep_view(),
{
    let r = items.clone();
    assert(r.deep_view() =~= items.deep_view());
    r
}

/// The virtual lists have ids, names and places of their own, and hold nothing else.
pub proof fn virtual_lists_are_known_by_their_ids(name: Seq<char>)
    ensures
        ListView::computed(VirtualListType::MyDay, name) == (ListView {
            id: "virtual-my-day"@,
            name,
            icon: None,
            number_of_tasks: 0,
            hide_completed: false,
            is_virtual: true,
            virtual_type: Some(VirtualListType::MyDay),
            sort_order: 0,
            well_known_list_name: None,
        }),
        ListView::computed(VirtualListType::Planned, name) == (ListView {
            id: "virtual-planned"@,
            virtual_type: Some(VirtualListType::Planned),
            sort_order: 1,
            ..ListView::computed(VirtualListType::MyDay, name)
        }),
        ListView::computed(VirtualListType::All, name) == (ListView {
            id: "virtual-all"@,
            virtual_type: Some(VirtualListType::All),
            sort_order: 2,
            ..ListView::computed(VirtualListType::MyDay, name)
        }),
        ListView::named(name) == (ListView {
            id: Seq::empty(),
            is_virtual: false,
            virtual_type: None,
            ..ListView::computed(VirtualListType::MyDay, name)
        }),
{
}

/// The priorities are offered from the lowest to the highest, which fixes their places.
pub proof fn priorities_are_offered_in_order()
    ensures
        Priority::Low.spec_position() == 0,
        Priority::Low.spec_position() + 1 == Priority::Normal.spec_position(),
        Priority::Normal.spec_position() + 1 == Priority::High.spec_position(),
{
}

} // verus!
