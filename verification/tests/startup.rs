use ms_todo_app::app::error::LocalStorageError;
use ms_todo_app::startup::{next_step, StartupEvent, StartupStep};
use ms_todo_app::storage::LocalStorage;

fn reason(step: StartupStep) -> String {
    match step {
        StartupStep::ShowError(LocalStorageError::AuthenticationFailed(reason)) => reason,
        _ => panic!("no error is shown"),
    }
}

#[test]
fn a_token_leads_to_the_application() {
    assert!(matches!(
        next_step(StartupEvent::AuthReady(Ok(()))),
        StartupStep::CheckToken
    ));
    assert!(matches!(
        next_step(StartupEvent::Token(Ok(()))),
        StartupStep::OpenStorage
    ));
    let storage = LocalStorage::new("com.example", Ok(()));
    assert!(matches!(
        next_step(StartupEvent::Storage(storage)),
        StartupStep::RunApp(_)
    ));
}

#[test]
fn without_a_token_the_user_signs_in() {
    assert!(matches!(
        next_step(StartupEvent::Token(Err("expired".to_string()))),
        StartupStep::Authorize
    ));
    assert!(matches!(
        next_step(StartupEvent::Authorized(Ok(()))),
        StartupStep::OpenStorage
    ));
}

#[test]
fn errors_are_shown() {
    let no_auth = next_step(StartupEvent::AuthReady(Err("no keyring".to_string())));
    assert_eq!(reason(no_auth), "no keyring");
    let not_signed_in = next_step(StartupEvent::Authorized(Err("denied".to_string())));
    assert_eq!(reason(not_signed_in), "Authentication failed: denied");
    let no_storage = LocalStorage::new("com.example", Err("full".to_string()));
    match next_step(StartupEvent::Storage(no_storage)) {
        StartupStep::ShowError(LocalStorageError::LocalStorageDirectoryCreationFailed(reason)) => {
            assert_eq!(reason, "full")
        }
        _ => panic!("no error is shown"),
    }
}
