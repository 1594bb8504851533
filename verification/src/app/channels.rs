//! What the storage tells the rest of the application.

use vstd::prelude::*;

verus! {

/// Tells that the cached tasks have changed.
#[derive(Debug)]
pub enum CacheUpdateSignal {
    /// The tasks of the list with this id.
    ListTasksUpdated(String),
    /// The task with the first id, in the list with the second.
    TaskUpdated(String, String),
    /// The task with the first id, in the list with the second.
    TaskAdded(String, String),
    /// The task with the first id, in the list with the second.
    TaskRemoved(String, String),
}

/// What a [`CacheUpdateSignal`] says.
pub enum CacheUpdateSignalView {
    ListTasksUpdated(Seq<char>),
    TaskUpdated(Seq<char>, Seq<char>),
    TaskAdded(Seq<char>, Seq<char>),
    TaskRemoved(Seq<char>, Seq<char>),
}

impl DeepView for CacheUpdateSignal {
    type V = CacheUpdateSignalView;

    open spec fn deep_view(&self) -> CacheUpdateSignalView {
        match self {
            CacheUpdateSignal::ListTasksUpdated(list_id) => {
                CacheUpdateSignalView::ListTasksUpdated(list_id@)
            },
            CacheUpdateSignal::TaskUpdated(task_id, list_id) => {
                CacheUpdateSignalView::TaskUpdated(task_id@, list_id@)
            },
            CacheUpdateSignal::TaskAdded(task_id, list_id) => {
                CacheUpdateSignalView::TaskAdded(task_id@, list_id@)
            },
            CacheUpdateSignal::TaskRemoved(task_id, list_id) => {
                CacheUpdateSignalView::TaskRemoved(task_id@, list_id@)
            },
        }
    }
}

impl View for CacheUpdateSignal {
    type V = CacheUpdateSignalView;

    open spec fn view(&self) -> CacheUpdateSignalView {
        self.deep_view()
    }
}

impl Clone for CacheUpdateSignal {
    fn clone(&self) -> (r: CacheUpdateSignal)
        ensures
            r@ == self@,
    {
        match self {
            CacheUpdateSignal::ListTasksUpdated(list_id) => CacheUpdateSignal::ListTasksUpdated(
                list_id.clone(),
            ),
            CacheUpdateSignal::TaskUpdated(task_id, list_id) => CacheUpdateSignal::TaskUpdated(
                task_id.clone(),
                list_id.clone(),
            ),
            CacheUpdateSignal::TaskAdded(task_id, list_id) => CacheUpdateSignal::TaskAdded(
                task_id.clone(),
                list_id.clone(),
            ),
            CacheUpdateSignal::TaskRemoved(task_id, list_id) => CacheUpdateSignal::TaskRemoved(
                task_id.clone(),
                list_id.clone(),
            ),
        }
    }
}

} // verus!
