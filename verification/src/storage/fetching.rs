//! The fetches of the tasks of all lists, which run side by side.

use vstd::prelude::*;

use crate::app::channels::{CacheUpdateSignal, CacheUpdateSignalView};
use crate::storage;
use crate::storage::cache;
use crate::storage::models::{List, ListView, Task, TaskView};
use crate::storage::{LocalStorage, ScheduledFetch};

verus! {

/// The fetches of a plan that have not ended yet.
#[derive(Debug)]
pub struct FetchRun {
    pending: usize,
}

impl View for FetchRun {
    type V = nat;

    closed spec fn view(&self) -> nat {
        self.pending as nat
    }
}

/// How a fetch has ended: the id of its list, and the tasks if it brought any.
pub struct FetchEnd {
    pub list_id: Seq<char>,
    pub tasks: Option<Seq<TaskView>>,
}

/// The signal that follows the last fetch of a plan.
pub open spec fn all_fetched() -> CacheUpdateSignalView {
    CacheUpdateSignalView::ListTasksUpdated("all"@)
}

/// What is told when `pending` fetches are left: nothing, or that all have ended.
pub open spec fn last_signal(pending: int) -> Seq<CacheUpdateSignalView> {
    if pending == 0 {
        seq![all_fetched()]
    } else {
        Seq::empty()
    }
}

/// What is told of a fetch itself: that the tasks of its list have changed, if it brought any.
pub open spec fn own_signal(end: FetchEnd) -> Seq<CacheUpdateSignalView> {
    match end.tasks {
        Some(_) => seq![CacheUpdateSignalView::ListTasksUpdated(end.list_id)],
        None => Seq::empty(),
    }
}

/// The cached tasks after a fetch.
pub open spec fn fetched_into(cached: Seq<TaskView>, end: FetchEnd) -> Seq<TaskView> {
    match end.tasks {
        Some(tasks) => cache::with_list(cached, end.list_id, tasks),
        None => cached,
    }
}

/// How the fetch of the tasks of `list` has ended with `reply`.
pub open spec fn end_of(list: ListView, reply: Result<Vec<Task>, String>) -> FetchEnd {
    FetchEnd {
        list_id: list.id,
        tasks: match reply {
            Ok(tasks) => Some(tasks.deep_view()),
            Err(_) => None,
        },
    }
}

impl FetchRun {
    /// Begins the fetches of a plan. Where there are none, all have ended at once.
    pub fn begin(fetches: &Vec<ScheduledFetch>) -> (r: (FetchRun, Option<CacheUpdateSignal>))
        ensures
            r.0@ == fetches@.len(),
            r.1 is Some <==> fetches@.len() == 0,
            r.1 matches Some(signal) ==> signal@ == all_fetched(),
    {
        let run = FetchRun { pending: fetches.len() };
        let signal = run.signal();
        (run, signal)
    }

    /// What is told when so many fetches are left.
    fn signal(&self) -> (signal: Option<CacheUpdateSignal>)
        ensures
            signal is Some <==> self@ == 0,
            signal matches Some(signal) ==> signal@ == all_fetched(),
    {
        if self.pending == 0 {
            Some(LocalStorage::all_fetches_answered())
        } else {
            None
        }
    }

    /// The number of fetches that are left.
    pub fn pending(&self) -> (n: usize)
        ensures
            n == self@,
    {
        self.pending
    }

    /// Takes the end of a fetch, whether it brought tasks or not.
    pub fn fetch_ended(&mut self) -> (r: Option<CacheUpdateSignal>)
        requires
            old(self)@ > 0,
        ensures
            final(self)@ == old(self)@ - 1,
            r is Some <==> final(self)@ == 0,
            r matches Some(signal) ==> signal@ == all_fetched(),
    {
        self.pending = self.pending - 1;
        self.signal()
    }

    /// Takes what a fetch has brought, and gives what is told of it, in this order.
    pub fn fetch_answered(
        &mut self,
        storage: &mut LocalStorage,
        list: &List,
        reply: Result<Vec<Task>, String>,
    ) -> (signals: Vec<CacheUpdateSignal>)
        requires
            old(self)@ > 0,
        ensures
            final(self)@ == old(self)@ - 1,
            final(storage).task_cache@ == fetched_into(
                old(storage).task_cache@,
                end_of(list@, reply),
            ),
            signals.deep_view() == own_signal(end_of(list@, reply)) + last_signal(
                final(self)@ as int,
            ),
    {
        let ghost end = end_of(list@, reply);
        let mut signals: Vec<CacheUpdateSignal> = Vec::new();
        if let Ok(signal) = storage.parallel_fetch_answered(list, reply) {
            signals.push(signal);
        }
        assert(signals.deep_view() =~= own_signal(end));
        let ghost own = signals.deep_view();
        if let Some(signal) = self.fetch_ended() {
            signals.push(signal);
            assert(signals.deep_view() =~= own + seq![all_fetched()]);
        } else {
            assert(signals.deep_view() =~= own + Seq::empty());
        }
        signals
    }
}

/// All that is told of a plan of `planned` fetches, of which those in `ends` have ended, in this
/// order.
pub open spec fn run_signals(planned: nat, ends: Seq<FetchEnd>) -> Seq<CacheUpdateSignalView>
    decreases ends.len(),
{
    if ends.len() == 0 {
        last_signal(planned as int)
    } else {
        run_signals(planned, ends.drop_last()) + own_signal(ends.last()) + last_signal(
            planned - ends.len(),
        )
    }
}

/// The cached tasks after the fetches in `ends`, in this order.
pub open spec fn run_cached(cached: Seq<TaskView>, ends: Seq<FetchEnd>) -> Seq<TaskView>
    decreases ends.len(),
{
    if ends.len() == 0 {
        cached
    } else {
        fetched_into(run_cached(cached, ends.drop_last()), ends.last())
    }
}

/// The fetches that brought tasks.
pub open spec fn successes(ends: Seq<FetchEnd>) -> Seq<FetchEnd> {
    ends.filter(|end: FetchEnd| end.tasks is Some)
}

/// What is told of the fetches themselves: one signal for each that brought tasks.
pub open spec fn own_signals(ends: Seq<FetchEnd>) -> Seq<CacheUpdateSignalView> {
    successes(ends).map_values(
        |end: FetchEnd| CacheUpdateSignalView::ListTasksUpdated(end.list_id),
    )
}

proof fn lemma_successes(ends: Seq<FetchEnd>)
    requires
        ends.len() > 0,
    ensures
        successes(ends) == (if ends.last().tasks is Some {
            successes(ends.drop_last()).push(ends.last())
        } else {
            successes(ends.drop_last())
        }),
        own_signals(ends) == own_signals(ends.drop_last()) + own_signal(ends.last()),
{
    reveal(Seq::filter);
    assert(own_signals(ends) =~= own_signals(ends.drop_last()) + own_signal(ends.last()));
}

/// In whatever order the fetches of a plan end, and whether they bring tasks or not: each that brought
/// tasks is told of once, and when the last has ended, last of all and once, that all have. Where
/// nothing is planned that is told at once.
pub proof fn run_ends_with_one_signal(planned: nat, ends: Seq<FetchEnd>)
    requires
        ends.len() <= planned,
    ensures
        ends.len() < planned ==> run_signals(planned, ends) == own_signals(ends),
        ends.len() == planned ==> run_signals(planned, ends) == own_signals(ends).push(
            all_fetched(),
        ),
    decreases ends.len(),
{
    if ends.len() == 0 {
        reveal(Seq::filter);
        assert(own_signals(ends) =~= Seq::empty());
        assert(run_signals(planned, ends) =~= own_signals(ends) + last_signal(planned as int));
        assert(own_signals(ends).push(all_fetched()) =~= seq![all_fetched()]);
    } else {
        run_ends_with_one_signal(planned, ends.drop_last());
        lemma_successes(ends);
        assert(own_signals(ends) + Seq::empty() =~= own_signals(ends));
        assert(own_signals(ends) + seq![all_fetched()] =~= own_signals(ends).push(all_fetched()));
    }
}

/// The lists whose fetches brought tasks, with these tasks.
pub open spec fn brought(ends: Seq<FetchEnd>) -> Seq<(Seq<char>, Seq<TaskView>)> {
    successes(ends).map_values(|end: FetchEnd| (end.list_id, end.tasks->0))
}

/// Each fetch that brought tasks puts them into the cache. A fetch that did not changes nothing, and
/// keeps no other from doing so.
pub proof fn run_caches_what_was_brought(cached: Seq<TaskView>, ends: Seq<FetchEnd>)
    ensures
        run_cached(cached, ends) == storage::filled(cached, brought(ends)),
    decreases ends.len(),
{
    if ends.len() == 0 {
        reveal(Seq::filter);
        assert(brought(ends) =~= Seq::empty());
    } else {
        run_caches_what_was_brought(cached, ends.drop_last());
        lemma_successes(ends);
        if ends.last().tasks is Some {
            assert(brought(ends).drop_last() =~= brought(ends.drop_last()));
        }
    }
}

/// The fetches of a plan are, place by place, those of the regular lists. No fetch is for a virtual
/// list, and every list that is not virtual is fetched.
pub proof fn plan_fetches_regular_lists(lists: Seq<ListView>, list: ListView)
    ensures
        storage::fetch_schedule(lists).len() == storage::regular_lists(lists).len(),
        forall|k: int|
            0 <= k < storage::fetch_schedule(lists).len() ==> (#[trigger] storage::fetch_schedule(
                lists,
            )[k]).1 == storage::regular_lists(lists)[k] && !storage::fetch_schedule(
                lists,
            )[k].1.is_virtual,
        storage::regular_lists(lists).contains(list) <==> lists.contains(list) && !list.is_virtual,
{
    let regular = |list: ListView| !list.is_virtual;
    assert forall|k: int| 0 <= k < storage::fetch_schedule(lists).len() implies (
    #[trigger] storage::fetch_schedule(lists)[k]).1 == storage::regular_lists(lists)[k]
        && !storage::fetch_schedule(lists)[k].1.is_virtual by {
        lists.lemma_filter_pred(regular, k);
    }
    if storage::regular_lists(lists).contains(list) {
        let k = choose|k: int|
            0 <= k < lists.filter(regular).len() && lists.filter(regular)[k] == list;
        lists.lemma_filter_pred(regular, k);
        lists.lemma_filter_contains_rev(regular, list);
    }
    if lists.contains(list) && !list.is_virtual {
        let k = choose|k: int| 0 <= k < lists.len() && lists[k] == list;
        lists.lemma_filter_contains(regular, k);
    }
}

/// A fetch that brought tasks makes them all that the cache holds of its list, behind the tasks of other
/// lists, and is told of under the id of that list. One that brought none changes nothing and is not told
/// of. That all have ended is told under the name "all", and only when none is left.
pub proof fn fetch_is_told_of_by_its_list(
    cached: Seq<TaskView>,
    list: ListView,
    tasks: Vec<Task>,
    error: String,
    pending: int,
)
    ensures
        ({
            let brought = end_of(list, Ok(tasks));
            let failed = end_of(list, Err(error));
            &&& own_signal(brought) == seq![CacheUpdateSignalView::ListTasksUpdated(list.id)]
            &&& fetched_into(cached, brought) == cached.filter(
                |task: TaskView| !cache::stands_in(task, list.id),
            ) + tasks.deep_view()
            &&& own_signal(failed).len() == 0
            &&& fetched_into(cached, failed) == cached
            &&& last_signal(0) == seq![CacheUpdateSignalView::ListTasksUpdated("all"@)]
            &&& pending != 0 ==> last_signal(pending).len() == 0
        }),
{
    cache::cache_changes_only_what_is_meant(
        cached,
        arbitrary(),
        0,
        Seq::empty(),
        list.id,
        tasks.deep_view(),
    );
}

} // verus!
