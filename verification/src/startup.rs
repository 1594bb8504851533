//! What is done before the application is shown.

use vstd::prelude::*;

use crate::app::error::{LocalStorageError, LocalStorageErrorView};
use crate::storage::LocalStorage;
use crate::text;

verus! {

/// What has come of the last step before the application is shown.
#[derive(Debug)]
pub enum StartupEvent {
    /// Authentication was set up, or not.
    AuthReady(Result<(), String>),
    /// There is an access token, which may be a new one, or there is none.
    Token(Result<(), String>),
    /// The user has signed in, or not.
    Authorized(Result<(), String>),
    /// The storage was set up, or not.
    Storage(Result<LocalStorage, LocalStorageError>),
}

/// The next step before the application is shown.
#[derive(Debug)]
pub enum StartupStep {
    /// Ask for an access token.
    CheckToken,
    /// Let the user sign in.
    Authorize,
    /// Set up the storage.
    OpenStorage,
    /// Show the application.
    RunApp(LocalStorage),
    /// Show an error instead.
    ShowError(LocalStorageError),
}

/// Whether `step` is the step that follows `event`.
pub open spec fn follows(event: StartupEvent, step: StartupStep) -> bool {
    match event {
        StartupEvent::AuthReady(Ok(_)) => step is CheckToken,
        StartupEvent::AuthReady(Err(reason)) => step matches StartupStep::ShowError(error) && error@
            == LocalStorageErrorView::AuthenticationFailed(reason@),
        StartupEvent::Token(Ok(_)) => step is OpenStorage,
        StartupEvent::Token(Err(_)) => step is Authorize,
        StartupEvent::Authorized(Ok(_)) => step is OpenStorage,
        StartupEvent::Authorized(Err(reason)) => step matches StartupStep::ShowError(error) && error@
            == LocalStorageErrorView::AuthenticationFailed("Authentication failed: "@ + reason@),
        StartupEvent::Storage(Ok(storage)) => step == StartupStep::RunApp(storage),
        StartupEvent::Storage(Err(error)) => step == StartupStep::ShowError(error),
    }
}

/// The step that follows an event.
pub fn next_step(event: StartupEvent) -> (step: StartupStep)
    ensures
        follows(event, step),
{
    match event {
        StartupEvent::AuthReady(Ok(_)) => StartupStep::CheckToken,
        StartupEvent::AuthReady(Err(reason)) => StartupStep::ShowError(
            LocalStorageError::AuthenticationFailed(reason),
        ),
        StartupEvent::Token(Ok(_)) => StartupStep::OpenStorage,
        StartupEvent::Token(Err(_)) => StartupStep::Authorize,
        StartupEvent::Authorized(Ok(_)) => StartupStep::OpenStorage,
        StartupEvent::Authorized(Err(reason)) => StartupStep::ShowError(
            LocalStorageError::AuthenticationFailed(
                text::join("Authentication failed: ", reason.as_str()),
            ),
        ),
        StartupEvent::Storage(Ok(storage)) => StartupStep::RunApp(storage),
        StartupEvent::Storage(Err(error)) => StartupStep::ShowError(error),
    }
}

/// The application is shown only with a storage, which is set up only with a token or once the user
/// has signed in.
pub proof fn application_needs_sign_in(event: StartupEvent, step: StartupStep)
    requires
        follows(event, step),
    ensures
        step is RunApp ==> (event matches StartupEvent::Storage(storage) && storage is Ok),
        step is OpenStorage ==> (event matches StartupEvent::Token(token) && token is Ok) || (
        event matches StartupEvent::Authorized(signed_in) && signed_in is Ok),
        step is Authorize ==> (event matches StartupEvent::Token(token) && token is Err),
{
}

/// Each step follows from what has come of the one before it: a token is asked for once authentication is
/// set up, the user signs in where there is no token, the storage is set up with a token or after signing
/// in, and the application is shown with that storage. Every failure but that of the token is shown.
pub proof fn steps_follow_each_other(event: StartupEvent, step: StartupStep)
    requires
        follows(event, step),
    ensures
        event matches StartupEvent::AuthReady(ready) && ready is Ok ==> step is CheckToken,
        event matches StartupEvent::Token(token) && token is Err ==> step is Authorize,
        event matches StartupEvent::Token(token) && token is Ok ==> step is OpenStorage,
        event matches StartupEvent::Authorized(signed_in) && signed_in is Ok ==> step is OpenStorage,
        event matches StartupEvent::Storage(opened) && opened is Ok ==> step == StartupStep::RunApp(
            event->Storage_0->Ok_0,
        ),
        event matches StartupEvent::Storage(opened) && opened is Err ==> step
            == StartupStep::ShowError(event->Storage_0->Err_0),
        event matches StartupEvent::AuthReady(ready) && ready is Err ==> step is ShowError
            && step->ShowError_0@ == LocalStorageErrorView::AuthenticationFailed(
            event->AuthReady_0->Err_0@,
        ),
        event matches StartupEvent::Authorized(signed_in) && signed_in is Err ==> step is ShowError
            && step->ShowError_0@ == LocalStorageErrorView::AuthenticationFailed(
            "Authentication failed: "@ + event->Authorized_0->Err_0@,
        ),
{
}

} // verus!
