//! Which tasks a list shows.

use vstd::prelude::*;

use crate::clock;
use crate::storage::cache;
use crate::storage::models::{List, ListView, Status, Task, TaskView, VirtualListType};

verus! {

/// Whether the task is still to be done.
pub open spec fn is_open(task: TaskView) -> bool {
    task.status != Status::Completed
}

/// Whether the task has a due date.
pub open spec fn is_planned(task: TaskView) -> bool {
    is_open(task) && task.due_date is Some
}

/// Whether the task is due on the day `today`.
pub open spec fn is_due_on(task: TaskView, today: int) -> bool {
    is_open(task) && (task.due_date matches Some(seconds) && clock::day_of(seconds as int) == Some(
        today,
    ))
}

/// Whether the task belongs to the list with the id `list_id`.
pub open spec fn is_of_list(task: TaskView, list_id: Seq<char>) -> bool {
    task.list_id == Some(list_id)
}

/// The tasks of "My Day" on the day `today`.
pub open spec fn my_day_tasks(tasks: Seq<TaskView>, today: int) -> Seq<TaskView> {
    tasks.filter(|task: TaskView| is_due_on(task, today))
}

/// The tasks of "Planned".
pub open spec fn planned_tasks(tasks: Seq<TaskView>) -> Seq<TaskView> {
    tasks.filter(|task: TaskView| is_planned(task))
}

/// The tasks of "All".
pub open spec fn open_tasks(tasks: Seq<TaskView>) -> Seq<TaskView> {
    tasks.filter(|task: TaskView| is_open(task))
}

/// The tasks of a virtual list of the given type, on the day `today`.
pub open spec fn virtual_tasks(
    virtual_type: VirtualListType,
    tasks: Seq<TaskView>,
    today: int,
) -> Seq<TaskView> {
    match virtual_type {
        VirtualListType::MyDay => my_day_tasks(tasks, today),
        VirtualListType::Planned => planned_tasks(tasks),
        VirtualListType::All => open_tasks(tasks),
    }
}

/// Whether the regular list `list` shows the task.
pub open spec fn is_shown(list: ListView, task: TaskView) -> bool {
    is_of_list(task, list.id) && (list.hide_completed ==> is_open(task))
}

/// The tasks that the regular list `list` shows.
pub open spec fn list_tasks(list: ListView, tasks: Seq<TaskView>) -> Seq<TaskView> {
    tasks.filter(|task: TaskView| is_shown(list, task))
}

/// The number that is shown beside `list` when `tasks` are known, on the day `today`.
pub open spec fn task_count(list: ListView, tasks: Seq<TaskView>, today: int) -> nat {
    if !list.is_virtual {
        list_tasks(list, tasks).len()
    } else {
        match list.virtual_type {
            Some(virtual_type) => virtual_tasks(virtual_type, tasks, today).len(),
            None => 0,
        }
    }
}

/// Tells whether the task belongs to the list with the id `list_id`.
pub fn belongs_to(task: &Task, list_id: &String) -> (b: bool)
    ensures
        b == is_of_list(task@, list_id@),
{
    match &task.list_id {
        Some(id) => *id == *list_id,
        None => false,
    }
}

/// What a task has to meet to be picked.
enum Criterion<'a> {
    DueOn(i32),
    Planned,
    Open,
    ShownIn(&'a List),
}

impl<'a> Criterion<'a> {
    spec fn chosen(self) -> spec_fn(TaskView) -> bool {
        match self {
            Criterion::DueOn(today) => |task: TaskView| is_due_on(task, today as int),
            Criterion::Planned => |task: TaskView| is_planned(task),
            Criterion::Open => |task: TaskView| is_open(task),
            Criterion::ShownIn(list) => |task: TaskView| is_shown(list@, task),
        }
    }

    fn is_met_by(&self, task: &Task) -> (b: bool)
        ensures
            b == (self.chosen())(task@),
    {
        match self {
            Criterion::DueOn(today) => match task.due_date {
                Some(seconds) => task.status != Status::Completed && clock::falls_on(seconds, *today),
                None => false,
            },
            Criterion::Planned => task.status != Status::Completed && task.due_date.is_some(),
            Criterion::Open => task.status != Status::Completed,
            Criterion::ShownIn(list) => belongs_to(task, &list.id) && (!list.hide_completed
                || task.status != Status::Completed),
        }
    }
}

/// Copies the tasks that meet the criterion, in their order.
fn pick(tasks: &[Task], criterion: Criterion) -> (picked: Vec<Task>)
    ensures
        picked.deep_view() == tasks.deep_view().filter(criterion.chosen()),
{
    let mut picked: Vec<Task> = Vec::new();
    let ghost all = tasks.deep_view();
    let ghost chosen = criterion.chosen();
    let mut i: usize = 0;
    proof {
        reveal(Seq::filter);
        assert(all.take(0) =~= Seq::empty());
        assert(picked.deep_view() =~= Seq::empty());
    }
    while i < tasks.len()
        invariant
            i <= tasks@.len(),
            all == tasks.deep_view(),
            chosen == criterion.chosen(),
            picked.deep_view() == all.take(i as int).filter(chosen),
        decreases tasks@.len() - i,
    {
        let ghost before = picked.deep_view();
        proof {
            reveal(Seq::filter);
            assert(all.take(i + 1).drop_last() =~= all.take(i as int));
        }
        if criterion.is_met_by(&tasks[i]) {
            picked.push(tasks[i].clone());
            assert(picked.deep_view() =~= before.push(all[i as int]));
        }
        i += 1;
    }
    assert(all.take(i as int) =~= all);
    picked
}

/// Copies the tasks of "My Day" on the day `today`.
pub fn due_on(tasks: &[Task], today: i32) -> (r: Vec<Task>)
    ensures
        r.deep_view() == my_day_tasks(tasks.deep_view(), today as int),
{
    pick(tasks, Criterion::DueOn(today))
}

/// Copies the tasks of "Planned".
pub fn planned(tasks: &[Task]) -> (r: Vec<Task>)
    ensures
        r.deep_view() == planned_tasks(tasks.deep_view()),
{
    pick(tasks, Criterion::Planned)
}

/// Copies the tasks of "All".
pub fn not_completed(tasks: &[Task]) -> (r: Vec<Task>)
    ensures
        r.deep_view() == open_tasks(tasks.deep_view()),
{
    pick(tasks, Criterion::Open)
}

/// Copies the tasks that the regular list `list` shows.
pub fn shown_in(list: &List, tasks: &[Task]) -> (r: Vec<Task>)
    ensures
        r.deep_view() == list_tasks(list@, tasks.deep_view()),
{
    pick(tasks, Criterion::ShownIn(list))
}

/// Copies the tasks of a virtual list of the given type, on the day `today`.
pub fn of_virtual_type(virtual_type: VirtualListType, tasks: &[Task], today: i32) -> (r: Vec<Task>)
    ensures
        r.deep_view() == virtual_tasks(virtual_type, tasks.deep_view(), today as int),
{
    match virtual_type {
        VirtualListType::MyDay => due_on(tasks, today),
        VirtualListType::Planned => planned(tasks),
        VirtualListType::All => not_completed(tasks),
    }
}

/// The number that is shown beside `list` when `tasks` are known, on the day `today`.
pub fn count(list: &List, tasks: &[Task], today: i32) -> (n: usize)
    ensures
        n == task_count(list@, tasks.deep_view(), today as int),
{
    if list.is_virtual {
        match list.virtual_type {
            Some(virtual_type) => of_virtual_type(virtual_type, tasks, today).len(),
            None => 0,
        }
    } else {
        shown_in(list, tasks).len()
    }
}

/// Picking from what was picked by a weaker criterion gives what picking from all gives.
proof fn lemma_filter_of_filter(
    tasks: Seq<TaskView>,
    weak: spec_fn(TaskView) -> bool,
    strong: spec_fn(TaskView) -> bool,
)
    requires
        forall|task: TaskView| #[trigger] strong(task) ==> weak(task),
    ensures
        tasks.filter(weak).filter(strong) == tasks.filter(strong),
    decreases tasks.len(),
{
    reveal(Seq::filter);
    if tasks.len() > 0 {
        lemma_filter_of_filter(tasks.drop_last(), weak, strong);
        if weak(tasks.last()) {
            assert(tasks.filter(weak).drop_last() =~= tasks.drop_last().filter(weak));
        }
    }
}

/// "My Day" is a part of "Planned", which is a part of "All": each of them can be read from the
/// next, and none of them holds a completed task.
pub proof fn virtual_lists_are_nested(tasks: Seq<TaskView>, today: int)
    ensures
        my_day_tasks(planned_tasks(tasks), today) == my_day_tasks(tasks, today),
        planned_tasks(open_tasks(tasks)) == planned_tasks(tasks),
        open_tasks(open_tasks(tasks)) == open_tasks(tasks),
        my_day_tasks(tasks, today).len() <= planned_tasks(tasks).len() <= open_tasks(tasks).len()
            <= tasks.len(),
        forall|virtual_type: VirtualListType, i: int|
            0 <= i < virtual_tasks(virtual_type, tasks, today).len() ==> is_open(
                #[trigger] virtual_tasks(virtual_type, tasks, today)[i],
            ),
{
    broadcast use vstd::seq_lib::group_filter_ensures;

    let due = |task: TaskView| is_due_on(task, today);
    let planned = |task: TaskView| is_planned(task);
    let open = |task: TaskView| is_open(task);
    lemma_filter_of_filter(tasks, planned, due);
    lemma_filter_of_filter(tasks, open, planned);
    lemma_filter_of_filter(tasks, open, open);
    planned_tasks(tasks).lemma_filter_len(due);
    open_tasks(tasks).lemma_filter_len(planned);
    tasks.lemma_filter_len(open);
    assert forall|virtual_type: VirtualListType, i: int|
        0 <= i < virtual_tasks(virtual_type, tasks, today).len() implies is_open(
        #[trigger] virtual_tasks(virtual_type, tasks, today)[i],
    ) by {
        match virtual_type {
            VirtualListType::MyDay => tasks.lemma_filter_pred(due, i),
            VirtualListType::Planned => tasks.lemma_filter_pred(planned, i),
            VirtualListType::All => tasks.lemma_filter_pred(open, i),
        }
    }
}

/// Whether the task is in the list with the id of `list`, and is still to be done where the list hides
/// completed tasks.
pub open spec fn is_to_be_shown(list: ListView, task: TaskView) -> bool {
    task.list_id == Some(list.id) && (task.status == Status::Completed ==> !list.hide_completed)
}

/// Whether the task is still to be done and is meant for a virtual list of the given type: "All" holds
/// every such task, "Planned" those with a due date, and "My Day" those that are due within the 86400
/// seconds of the day `today`.
pub open spec fn is_meant_for(virtual_type: VirtualListType, task: TaskView, today: int) -> bool {
    &&& task.status == Status::NotStarted
    &&& virtual_type != VirtualListType::All ==> task.due_date is Some
    &&& virtual_type == VirtualListType::MyDay ==> (today - 719163) * 86400 <= task.due_date->0 < (today
        - 719162) * 86400
}

/// A regular list shows its own tasks in the order in which they are known, without the completed ones
/// where it hides them. A virtual list shows the tasks that are meant for it. The number beside a list is
/// the number of these tasks.
pub proof fn lists_show_what_is_meant_for_them(list: ListView, tasks: Seq<TaskView>, today: int)
    requires
        clock::FIRST_DAY <= today <= clock::LAST_DAY,
    ensures
        list_tasks(list, tasks) == tasks.filter(|task: TaskView| is_to_be_shown(list, task)),
        forall|virtual_type: VirtualListType| #[trigger]
            virtual_tasks(virtual_type, tasks, today) == tasks.filter(
                |task: TaskView| is_meant_for(virtual_type, task, today),
            ),
        !list.is_virtual ==> task_count(list, tasks, today) == tasks.filter(
            |task: TaskView| is_to_be_shown(list, task),
        ).len(),
        list.is_virtual && list.virtual_type is Some ==> task_count(list, tasks, today) == tasks.filter(
            |task: TaskView| is_meant_for(list.virtual_type->0, task, today),
        ).len(),
        list.is_virtual && list.virtual_type is None ==> task_count(list, tasks, today) == 0,
{
    cache::lemma_same_filter(
        tasks,
        |task: TaskView| is_shown(list, task),
        |task: TaskView| is_to_be_shown(list, task),
    );
    assert forall|virtual_type: VirtualListType| #[trigger]
        virtual_tasks(virtual_type, tasks, today) == tasks.filter(
            |task: TaskView| is_meant_for(virtual_type, task, today),
        ) by {
        let meant = |task: TaskView| is_meant_for(virtual_type, task, today);
        let chosen = match virtual_type {
            VirtualListType::MyDay => |task: TaskView| is_due_on(task, today),
            VirtualListType::Planned => |task: TaskView| is_planned(task),
            VirtualListType::All => |task: TaskView| is_open(task),
        };
        assert forall|task: TaskView| #[trigger] chosen(task) == meant(task) by {
            if task.due_date is Some {
                clock::day_holds_its_seconds(task.due_date->0 as int, today);
            }
        }
        cache::lemma_same_filter(tasks, chosen, meant);
    }
}

} // verus!
