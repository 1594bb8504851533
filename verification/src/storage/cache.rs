//! The tasks that are known without asking the service.

use vstd::prelude::*;

use crate::storage::filters;
use crate::storage::models::{ListView, Task, TaskView};

verus! {

/// The tasks that are known without asking the service, of all lists together.
#[derive(Debug)]
pub struct TaskCache {
    tasks: Vec<Task>,
}

impl View for TaskCache {
    type V = Seq<TaskView>;

    closed spec fn view(&self) -> Seq<TaskView> {
        self.tasks.deep_view()
    }
}

impl Clone for TaskCache {
    fn clone(&self) -> (r: TaskCache)
        ensures
            r@ == self@,
    {
        TaskCache { tasks: self.get_all_tasks() }
    }
}

/// The id of the list that holds the task; the empty text where no list is known.
pub open spec fn home(task: TaskView) -> Seq<char> {
    match task.list_id {
        Some(list_id) => list_id,
        None => Seq::empty(),
    }
}

/// Whether `a` and `b` stand for one task of one list.
pub open spec fn is_same_task(a: TaskView, b: TaskView) -> bool {
    a.id == b.id && a.list_id == b.list_id
}

/// `tasks` with `task` in the place of its earlier state, or at the end if there was none.
pub open spec fn with_task(tasks: Seq<TaskView>, task: TaskView) -> Seq<TaskView>
    decreases tasks.len(),
{
    if tasks.len() == 0 {
        seq![task]
    } else if is_same_task(tasks[0], task) {
        tasks.update(0, task)
    } else {
        seq![tasks[0]] + with_task(tasks.drop_first(), task)
    }
}

/// Whether the task is the one with the id `task_id` in the list `list_id`.
pub open spec fn is_task(task: TaskView, task_id: Seq<char>, list_id: Seq<char>) -> bool {
    task.id == task_id && home(task) == list_id
}

/// `tasks` without the task `task_id` of the list `list_id`.
pub open spec fn without_task(
    tasks: Seq<TaskView>,
    task_id: Seq<char>,
    list_id: Seq<char>,
) -> Seq<TaskView> {
    tasks.filter(|task: TaskView| !is_task(task, task_id, list_id))
}

/// `tasks` with `list_tasks` as all that the list `list_id` holds.
pub open spec fn with_list(
    tasks: Seq<TaskView>,
    list_id: Seq<char>,
    list_tasks: Seq<TaskView>,
) -> Seq<TaskView> {
    tasks.filter(|task: TaskView| home(task) != list_id) + list_tasks
}

/// Gives the id of the list that holds the task; the empty text where no list is known.
pub fn list_id_of(task: &Task) -> (id: String)
    ensures
        id@ == home(task@),
{
    match &task.list_id {
        Some(list_id) => list_id.clone(),
        None => String::new(),
    }
}

/// What stays when the tasks of the list `list_id` leave: all of them, or only those with the id
/// `task_id`.
spec fn stays(list_id: Seq<char>, task_id: Option<Seq<char>>) -> spec_fn(TaskView) -> bool {
    |task: TaskView| !(home(task) == list_id && (task_id matches Some(id) ==> task.id == id))
}

/// Criteria that agree pick the same tasks.
pub(crate) proof fn lemma_same_filter(
    tasks: Seq<TaskView>,
    f: spec_fn(TaskView) -> bool,
    g: spec_fn(TaskView) -> bool,
)
    requires
        forall|task: TaskView| #[trigger] f(task) == g(task),
    ensures
        tasks.filter(f) == tasks.filter(g),
    decreases tasks.len(),
{
    reveal(Seq::filter);
    if tasks.len() > 0 {
        lemma_same_filter(tasks.drop_last(), f, g);
        assert(f(tasks.last()) == g(tasks.last()));
    }
}

impl TaskCache {
    pub fn new() -> (cache: TaskCache)
        ensures
            cache@ == Seq::<TaskView>::empty(),
    {
        let cache = TaskCache { tasks: Vec::new() };
        assert(cache@ =~= Seq::empty());
        cache
    }

    /// Copies all tasks.
    pub fn get_all_tasks(&self) -> (tasks: Vec<Task>)
        ensures
            tasks.deep_view() == self@,
    {
        let tasks = self.tasks.clone();
        assert(tasks.deep_view() =~= self@);
        tasks
    }

    /// Puts `task` in the place of its earlier state, or at the end if there was none.
    pub fn update_task(&mut self, task: Task)
        ensures
            final(self)@ == with_task(old(self)@, task@),
    {
        let ghost before = self@;
        let mut i: usize = 0;
        assert(before.skip(0) =~= before);
        assert(before.take(0) + with_task(before, task@) =~= with_task(before, task@));
        while i < self.tasks.len()
            invariant
                i <= self.tasks@.len(),
                before == old(self)@,
                self@ == before,
                before.len() == self.tasks@.len(),
                with_task(before, task@) == before.take(i as int) + with_task(
                    before.skip(i as int),
                    task@,
                ),
            decreases self.tasks@.len() - i,
        {
            let current = &self.tasks[i];
            assert(current@ == before[i as int]);
            let same_list = match (&current.list_id, &task.list_id) {
                (Some(a), Some(b)) => *a == *b,
                (None, None) => true,
                _ => false,
            };
            if current.id == task.id && same_list {
                let ghost t = task@;
                assert(is_same_task(before.skip(i as int)[0], t));
                assert(before.take(i as int) + before.skip(i as int).update(0, t) =~= before.update(
                    i as int,
                    t,
                ));
                self.tasks.set(i, task);
                assert(self@ =~= before.update(i as int, t));
                return;
            }
            assert(before.skip(i as int).drop_first() =~= before.skip(i + 1));
            assert(before.take(i as int) + (seq![before[i as int]] + with_task(
                before.skip(i + 1),
                task@,
            )) =~= before.take(i + 1) + with_task(before.skip(i + 1), task@));
            i += 1;
        }
        let ghost t = task@;
        self.tasks.push(task);
        assert(self@ =~= before.take(i as int) + seq![t]);
    }

    /// Takes out the tasks of the list `list_id`: all of them, or only those with the id `task_id`.
    fn remove_from_list(&mut self, list_id: &String, task_id: Option<&String>)
        ensures
            final(self)@ == old(self)@.filter(stays(list_id@, task_id.deep_view())),
    {
        let ghost before = self@;
        let ghost stays = stays(list_id@, task_id.deep_view());
        let ghost mut done: int = 0;
        let mut i: usize = 0;
        proof {
            reveal(Seq::filter);
            assert(before.take(0).filter(stays) =~= Seq::empty());
            assert(self@ =~= before.take(0).filter(stays) + before.skip(0));
        }
        while i < self.tasks.len()
            invariant
                0 <= done <= before.len(),
                i == before.take(done).filter(stays).len(),
                self@ == before.take(done).filter(stays) + before.skip(done),
                stays == self::stays(list_id@, task_id.deep_view()),
            decreases before.len() - done,
        {
            assert(self.tasks@[i as int]@ == self@[i as int]);
            proof {
                reveal(Seq::filter);
                assert(before.take(done + 1).drop_last() =~= before.take(done));
            }
            let current = &self.tasks[i];
            let is_meant = match task_id {
                Some(task_id) => current.id == *task_id,
                None => true,
            };
            if is_meant && list_id_of(current) == *list_id {
                let ghost kept = self@;
                self.tasks.remove(i);
                assert(self@ =~= kept.remove(i as int));
            } else {
                i += 1;
            }
            assert(self@ =~= before.take(done + 1).filter(stays) + before.skip(done + 1));
            proof {
                done = done + 1;
            }
        }
        assert(before.take(done) =~= before);
        assert(self@ =~= before.filter(stays));
    }

    /// Takes out the task `task_id` of the list `list_id`.
    pub fn remove_task(&mut self, task_id: &str, list_id: &str)
        ensures
            final(self)@ == without_task(old(self)@, task_id@, list_id@),
    {
        let ghost before = self@;
        let task = task_id.to_string();
        let list = list_id.to_string();
        self.remove_from_list(&list, Some(&task));
        proof {
            lemma_same_filter(
                before,
                stays(list_id@, Some(task_id@)),
                |task: TaskView| !is_task(task, task_id@, list_id@),
            );
        }
    }

    /// Makes `tasks` all that the list `list_id` holds.
    pub fn update_list_tasks(&mut self, list_id: &str, tasks: Vec<Task>)
        ensures
            final(self)@ == with_list(old(self)@, list_id@, tasks.deep_view()),
    {
        let ghost before = self@;
        let list = list_id.to_string();
        self.remove_from_list(&list, None);
        proof {
            lemma_same_filter(
                before,
                stays(list_id@, None),
                |task: TaskView| home(task) != list_id@,
            );
        }
        let mut tasks = tasks;
        let ghost added = tasks.deep_view();
        let ghost kept = self@;
        self.tasks.append(&mut tasks);
        assert(self@ =~= kept + added);
    }
}

/// After an update the cache holds the task as it was given and every other task as it was, and
/// nothing else; it grows by one task if the given one was not held before.
pub proof fn updated_task_is_held(tasks: Seq<TaskView>, task: TaskView)
    ensures
        with_task(tasks, task).contains(task),
        forall|other: TaskView| #[trigger]
            with_task(tasks, task).contains(other) ==> other == task || tasks.contains(other),
        forall|other: TaskView|
            tasks.contains(other) && !is_same_task(other, task) ==> #[trigger] with_task(
                tasks,
                task,
            ).contains(other),
        with_task(tasks, task).len() == (if exists|i: int|
            0 <= i < tasks.len() && is_same_task(#[trigger] tasks[i], task) {
            tasks.len()
        } else {
            tasks.len() + 1
        }),
    decreases tasks.len(),
{
    let after = with_task(tasks, task);
    if tasks.len() == 0 {
        assert(after[0] == task);
    } else if is_same_task(tasks[0], task) {
        assert(after[0] == task);
        assert forall|other: TaskView|
            tasks.contains(other) && !is_same_task(other, task) implies #[trigger] after.contains(
            other,
        ) by {
            let i = choose|i: int| 0 <= i < tasks.len() && tasks[i] == other;
            assert(after[i] == other);
        }
        assert forall|other: TaskView| #[trigger] after.contains(other) implies other == task
            || tasks.contains(other) by {
            let i = choose|i: int| 0 <= i < after.len() && after[i] == other;
            if i > 0 {
                assert(tasks[i] == other);
            }
        }
    } else {
        let rest = tasks.drop_first();
        updated_task_is_held(rest, task);
        assert forall|other: TaskView| with_task(rest, task).contains(other) implies after.contains(
            other,
        ) by {
            let i = choose|i: int| 0 <= i < with_task(rest, task).len() && with_task(rest, task)[i] == other;
            assert(after[i + 1] == other);
        }
        assert(with_task(rest, task).contains(task));
        assert forall|other: TaskView| #[trigger] after.contains(other) implies other == task
            || tasks.contains(other) by {
            let i = choose|i: int| 0 <= i < after.len() && after[i] == other;
            if i == 0 {
                assert(tasks[0] == other);
            } else {
                assert(with_task(rest, task)[i - 1] == other);
                assert(with_task(rest, task).contains(other));
                if other != task {
                    let j = choose|j: int| 0 <= j < rest.len() && rest[j] == other;
                    assert(tasks[j + 1] == other);
                }
            }
        }
        assert forall|other: TaskView|
            tasks.contains(other) && !is_same_task(other, task) implies #[trigger] after.contains(
            other,
        ) by {
            let i = choose|i: int| 0 <= i < tasks.len() && tasks[i] == other;
            if i == 0 {
                assert(after[0] == other);
            } else {
                assert(rest[i - 1] == other);
                assert(with_task(rest, task).contains(other));
            }
        }
        if exists|i: int| 0 <= i < tasks.len() && is_same_task(#[trigger] tasks[i], task) {
            let i = choose|i: int| 0 <= i < tasks.len() && is_same_task(#[trigger] tasks[i], task);
            assert(is_same_task(rest[i - 1], task));
        } else if exists|i: int| 0 <= i < rest.len() && is_same_task(#[trigger] rest[i], task) {
            let i = choose|i: int| 0 <= i < rest.len() && is_same_task(#[trigger] rest[i], task);
            assert(is_same_task(tasks[i + 1], task));
        }
    }
}

/// After a removal the cache holds every task but the removed one.
pub proof fn removed_task_is_gone(
    tasks: Seq<TaskView>,
    task_id: Seq<char>,
    list_id: Seq<char>,
    task: TaskView,
)
    ensures
        without_task(tasks, task_id, list_id).contains(task) <==> tasks.contains(task) && !is_task(
            task,
            task_id,
            list_id,
        ),
{
    let stays = |task: TaskView| !is_task(task, task_id, list_id);
    if without_task(tasks, task_id, list_id).contains(task) {
        let i = choose|i: int|
            0 <= i < tasks.filter(stays).len() && tasks.filter(stays)[i] == task;
        tasks.lemma_filter_pred(stays, i);
        tasks.lemma_filter_contains_rev(stays, task);
    }
    if tasks.contains(task) && !is_task(task, task_id, list_id) {
        let i = choose|i: int| 0 <= i < tasks.len() && tasks[i] == task;
        tasks.lemma_filter_contains(stays, i);
    }
}

/// Picking what a list shows, from all tasks but those of one list: nothing for that list, and what
/// was picked before for any other.
proof fn lemma_shown_without_list(tasks: Seq<TaskView>, list_id: Seq<char>, list: ListView)
    ensures
        ({
            let others = tasks.filter(|task: TaskView| home(task) != list_id);
            filters::list_tasks(list, others) == (if list.id == list_id {
                Seq::empty()
            } else {
                filters::list_tasks(list, tasks)
            })
        }),
    decreases tasks.len(),
{
    reveal(Seq::filter);
    let stays = |task: TaskView| home(task) != list_id;
    let shown = |task: TaskView| filters::is_shown(list, task);
    if tasks.len() > 0 {
        lemma_shown_without_list(tasks.drop_last(), list_id, list);
        if stays(tasks.last()) {
            assert(tasks.filter(stays).drop_last() =~= tasks.drop_last().filter(stays));
        }
    }
}

/// A list gives back the tasks that were stored for it, as far as it shows them, and the other lists
/// give back what they gave before.
pub proof fn list_is_read_back(
    tasks: Seq<TaskView>,
    list_id: Seq<char>,
    stored: Seq<TaskView>,
    list: ListView,
)
    requires
        forall|i: int| 0 <= i < stored.len() ==> filters::is_of_list(#[trigger] stored[i], list_id),
    ensures
        list.id == list_id ==> filters::list_tasks(list, with_list(tasks, list_id, stored)) == (
        if list.hide_completed {
            filters::open_tasks(stored)
        } else {
            stored
        }),
        list.id != list_id ==> filters::list_tasks(list, with_list(tasks, list_id, stored))
            == filters::list_tasks(list, tasks),
{
    let others = tasks.filter(|task: TaskView| home(task) != list_id);
    let shown = |task: TaskView| filters::is_shown(list, task);
    lemma_shown_without_list(tasks, list_id, list);
    Seq::filter_distributes_over_add(others, stored, shown);
    lemma_shown_of_stored(list_id, stored, list);
    assert(Seq::<TaskView>::empty() + stored.filter(shown) =~= stored.filter(shown));
    assert(filters::list_tasks(list, tasks) + Seq::empty() =~= filters::list_tasks(list, tasks));
}

/// What a list shows of tasks that all belong to the list `list_id`.
proof fn lemma_shown_of_stored(list_id: Seq<char>, stored: Seq<TaskView>, list: ListView)
    requires
        forall|i: int| 0 <= i < stored.len() ==> filters::is_of_list(#[trigger] stored[i], list_id),
    ensures
        filters::list_tasks(list, stored) == (if list.id != list_id {
            Seq::empty()
        } else if list.hide_completed {
            filters::open_tasks(stored)
        } else {
            stored
        }),
    decreases stored.len(),
{
    reveal(Seq::filter);
    if stored.len() > 0 {
        let rest = stored.drop_last();
        assert forall|i: int| 0 <= i < rest.len() implies filters::is_of_list(
            #[trigger] rest[i],
            list_id,
        ) by {
            assert(rest[i] == stored[i]);
        }
        lemma_shown_of_stored(list_id, rest, list);
        assert(filters::is_of_list(stored.last(), list_id));
        assert(rest.push(stored.last()) =~= stored);
    }
}

/// A task that was added or changed shows up in its list, unless the list hides it for being
/// completed.
pub proof fn stored_task_is_shown(tasks: Seq<TaskView>, task: TaskView, list: ListView)
    ensures
        filters::list_tasks(list, with_task(tasks, task)).contains(task) <==> filters::is_shown(
            list,
            task,
        ),
{
    let after = with_task(tasks, task);
    let shown = |task: TaskView| filters::is_shown(list, task);
    updated_task_is_held(tasks, task);
    let i = choose|i: int| 0 <= i < after.len() && after[i] == task;
    if filters::is_shown(list, task) {
        after.lemma_filter_contains(shown, i);
    }
    if after.filter(shown).contains(task) {
        let j = choose|j: int| 0 <= j < after.filter(shown).len() && after.filter(shown)[j] == task;
        after.lemma_filter_pred(shown, j);
    }
}

/// A task that was removed is no longer shown by its list.
pub proof fn removed_task_is_not_shown(
    tasks: Seq<TaskView>,
    task_id: Seq<char>,
    list: ListView,
    i: int,
)
    requires
        0 <= i < filters::list_tasks(list, without_task(tasks, task_id, list.id)).len(),
    ensures
        filters::list_tasks(list, without_task(tasks, task_id, list.id))[i].id != task_id,
{
    let after = without_task(tasks, task_id, list.id);
    let shown = |task: TaskView| filters::is_shown(list, task);
    let task = after.filter(shown)[i];
    after.lemma_filter_pred(shown, i);
    assert(after.filter(shown).contains(task));
    after.lemma_filter_contains_rev(shown, task);
    removed_task_is_gone(tasks, task_id, list.id, task);
}

/// Whether the task is in the list with the id `list_id`; one that is in no list counts as in that with
/// the empty id.
pub open spec fn stands_in(task: TaskView, list_id: Seq<char>) -> bool {
    match task.list_id {
        Some(id) => id == list_id,
        None => list_id.len() == 0,
    }
}

/// A task that is stored takes the place of the first task with its id and list, or comes behind all
/// others where there is none. A task that is taken out leaves the others in their order. The tasks of a
/// list that are stored come behind all tasks of other lists, which keep their order.
pub proof fn cache_changes_only_what_is_meant(
    tasks: Seq<TaskView>,
    task: TaskView,
    k: int,
    task_id: Seq<char>,
    list_id: Seq<char>,
    stored: Seq<TaskView>,
)
    ensures
        0 <= k < tasks.len() && tasks[k].id == task.id && tasks[k].list_id == task.list_id && (forall|
            i: int,
        |
            0 <= i < k ==> (#[trigger] tasks[i]).id != task.id || tasks[i].list_id != task.list_id)
            ==> with_task(tasks, task) == tasks.update(k, task),
        (forall|i: int|
            0 <= i < tasks.len() ==> (#[trigger] tasks[i]).id != task.id || tasks[i].list_id
                != task.list_id) ==> with_task(tasks, task) == tasks.push(task),
        without_task(tasks, task_id, list_id) == tasks.filter(
            |task: TaskView| !(task.id == task_id && stands_in(task, list_id)),
        ),
        with_list(tasks, list_id, stored) == tasks.filter(|task: TaskView| !stands_in(task, list_id))
            + stored,
{
    lemma_stored_in_place(tasks, task, k);
    assert forall|t: TaskView| home(t) == list_id <==> #[trigger] stands_in(t, list_id) by {
        if t.list_id is None && list_id.len() == 0 {
            assert(list_id =~= Seq::empty());
        }
    }
    lemma_same_filter(
        tasks,
        |task: TaskView| !is_task(task, task_id, list_id),
        |task: TaskView| !(task.id == task_id && stands_in(task, list_id)),
    );
    lemma_same_filter(
        tasks,
        |task: TaskView| home(task) != list_id,
        |task: TaskView| !stands_in(task, list_id),
    );
}

proof fn lemma_stored_in_place(tasks: Seq<TaskView>, task: TaskView, k: int)
    ensures
        0 <= k < tasks.len() && tasks[k].id == task.id && tasks[k].list_id == task.list_id && (forall|
            i: int,
        |
            0 <= i < k ==> (#[trigger] tasks[i]).id != task.id || tasks[i].list_id != task.list_id)
            ==> with_task(tasks, task) == tasks.update(k, task),
        (forall|i: int|
            0 <= i < tasks.len() ==> (#[trigger] tasks[i]).id != task.id || tasks[i].list_id
                != task.list_id) ==> with_task(tasks, task) == tasks.push(task),
    decreases tasks.len(),
{
    if tasks.len() == 0 {
        assert(tasks.push(task) =~= seq![task]);
    } else if !is_same_task(tasks[0], task) {
        let rest = tasks.drop_first();
        lemma_stored_in_place(rest, task, k - 1);
        assert forall|i: int| 0 <= i < rest.len() implies #[trigger] rest[i] == tasks[i + 1] by {}
        assert(seq![tasks[0]] + rest.push(task) =~= tasks.push(task));
        if 0 < k < tasks.len() {
            assert(seq![tasks[0]] + rest.update(k - 1, task) =~= tasks.update(k, task));
        }
    }
}

} // verus!
