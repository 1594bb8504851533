//! What can go wrong.

use vstd::prelude::*;

verus! {

/// Why an operation on lists or tasks failed.
#[derive(Clone, Copy, Debug, PartialEq, Eq, Structural)]
pub enum TasksError {
    TaskNotFound,
    ListNotFound,
    ExistingTask,
    ExistingList,
    ApiError,
}

/// Why an operation failed.
#[derive(Clone, Copy, Debug, PartialEq, Eq, Structural)]
pub enum Error {
    Tasks(TasksError),
}

/// Why the lists are not available.
#[derive(Debug)]
pub enum LocalStorageError {
    LocalStorageDirectoryCreationFailed(String),
    AuthenticationFailed(String),
}

/// What a [`LocalStorageError`] says.
pub enum LocalStorageErrorView {
    LocalStorageDirectoryCreationFailed(Seq<char>),
    AuthenticationFailed(Seq<char>),
}

impl View for LocalStorageError {
    type V = LocalStorageErrorView;

    open spec fn view(&self) -> LocalStorageErrorView {
        match self {
            LocalStorageError::LocalStorageDirectoryCreationFailed(reason) => {
                LocalStorageErrorView::LocalStorageDirectoryCreationFailed(reason@)
            },
            LocalStorageError::AuthenticationFailed(reason) => {
                LocalStorageErrorView::AuthenticationFailed(reason@)
            },
        }
    }
}

} // verus!
