use newsletter::authentication::AuthError;
use newsletter::idempotency::UserId;
use newsletter::password::{
    change_password, check_password_length, ChangeAction, ChangeEvent, ChangeState, FormData,
};

fn form(current: &str, new: &str, check: &str) -> FormData {
    FormData {
        current_password: current.into(),
        new_password: new.into(),
        new_password_check: check.into(),
    }
}

fn assert_redirect(action: &ChangeAction, flash: &str) {
    match action {
        ChangeAction::Redirect { flash: shown, response } => {
            assert_eq!(shown, flash);
            assert_eq!(response.status(), 303);
            assert_eq!(response.headers()[0].name, "location");
            assert_eq!(response.headers()[0].value, b"/admin/password");
        }
        other => panic!("not a redirect: {:?}", other),
    }
}

/// Takes a request up to the check of the current password.
fn up_to_validation(new_password: &str) -> ChangeState {
    let (state, action) = change_password(
        ChangeState::Received { user_id: UserId(1), form: form("current", new_password, new_password) },
        ChangeEvent::Begin,
    );
    assert!(matches!(action, ChangeAction::GetUsername { user_id } if user_id == UserId(1)));
    let (state, action) = change_password(state, ChangeEvent::Username(Ok("admin".into())));
    match action {
        ChangeAction::Validate { credentials } => {
            assert_eq!(credentials.username, "admin");
            assert_eq!(credentials.password, "current");
        }
        other => panic!("not a check: {:?}", other),
    }
    state
}

#[test]
fn new_passwords_must_match() {
    let (state, action) = change_password(
        ChangeState::Received {
            user_id: UserId(1),
            form: form("current", "a new password 1", "a new password 2"),
        },
        ChangeEvent::Begin,
    );
    assert!(matches!(state, ChangeState::Finished));
    assert_redirect(
        &action,
        "You entered two different new passwords - the field values must match.",
    );
}

#[test]
fn the_current_password_is_incorrect() {
    let state = up_to_validation("a new password 1");
    let (state, action) = change_password(
        state,
        ChangeEvent::Validated(Err(AuthError::InvalidCredentials("Invalid password.".into()))),
    );
    assert!(matches!(state, ChangeState::Finished));
    assert_redirect(&action, "The current password is incorrect.");
}

#[test]
fn short_passwords_are_rejected() {
    let state = up_to_validation(&"x".repeat(10));
    let (_, action) = change_password(state, ChangeEvent::Validated(Ok(UserId(1))));
    assert_redirect(&action, "The new password should be between 12 and 129 characters.");
}

#[test]
fn long_passwords_are_rejected() {
    let state = up_to_validation(&"x".repeat(130));
    let (_, action) = change_password(state, ChangeEvent::Validated(Ok(UserId(1))));
    assert_redirect(&action, "The new password should be between 12 and 129 characters.");
}

#[test]
fn changing_password_works() {
    let new_password = "x".repeat(12);
    let state = up_to_validation(&new_password);
    let (state, action) = change_password(state, ChangeEvent::Validated(Ok(UserId(1))));
    match action {
        ChangeAction::Change { user_id, new_password: stored } => {
            assert_eq!(user_id, UserId(1));
            assert_eq!(stored, new_password);
        }
        other => panic!("not a change: {:?}", other),
    }
    let (state, action) = change_password(state, ChangeEvent::Changed(Ok(())));
    assert!(matches!(state, ChangeState::Finished));
    assert_redirect(&action, "Your password has been changed.");
}

#[test]
fn password_length_is_judged_at_both_bounds() {
    assert!(!check_password_length(0));
    assert!(!check_password_length(11));
    assert!(check_password_length(12));
    assert!(check_password_length(129));
    assert!(!check_password_length(130));
}

#[test]
fn password_length_is_counted_in_grapheme_clusters() {
    // 12 clusters of two characters each are long enough; 6 clusters of 12 characters are not.
    let state = up_to_validation(&"e\u{301}".repeat(12));
    let (_, action) = change_password(state, ChangeEvent::Validated(Ok(UserId(1))));
    assert!(matches!(action, ChangeAction::Change { .. }));
    let state = up_to_validation(&"e\u{301}".repeat(6));
    let (_, action) = change_password(state, ChangeEvent::Validated(Ok(UserId(1))));
    assert!(matches!(action, ChangeAction::Redirect { .. }));
}

#[test]
fn the_password_is_compared_before_anything_is_looked_up() {
    // Too short and different: the difference is what is reported.
    let (_, action) = change_password(
        ChangeState::Received { user_id: UserId(1), form: form("current", "a", "b") },
        ChangeEvent::Begin,
    );
    assert_redirect(
        &action,
        "You entered two different new passwords - the field values must match.",
    );
}

#[test]
fn failures_of_the_storage_end_the_change() {
    let (state, _) = change_password(
        ChangeState::Received { user_id: UserId(1), form: form("c", "n", "n") },
        ChangeEvent::Begin,
    );
    let (state, action) = change_password(state, ChangeEvent::Username(Err("no such user".into())));
    assert!(matches!(state, ChangeState::Finished));
    assert!(matches!(action, ChangeAction::Fail(c) if c == "no such user"));

    let state = up_to_validation(&"x".repeat(12));
    let (_, action) = change_password(
        state,
        ChangeEvent::Validated(Err(AuthError::UnexpectedError("pool timed out".into()))),
    );
    assert!(matches!(action, ChangeAction::Fail(c) if c == "pool timed out"));

    let state = up_to_validation(&"x".repeat(12));
    let (state, _) = change_password(state, ChangeEvent::Validated(Ok(UserId(1))));
    let (_, action) = change_password(state, ChangeEvent::Changed(Err("disk full".into())));
    assert!(matches!(action, ChangeAction::Fail(c) if c == "disk full"));
}

#[test]
fn an_event_out_of_turn_ends_the_change() {
    let (state, action) = change_password(
        ChangeState::Received { user_id: UserId(1), form: form("c", "n", "n") },
        ChangeEvent::Changed(Ok(())),
    );
    assert!(matches!(state, ChangeState::Finished));
    assert!(matches!(action, ChangeAction::Fail(c) if c == "The event does not answer the action that is out"));
    let (_, action) = change_password(ChangeState::Finished, ChangeEvent::Begin);
    assert!(matches!(action, ChangeAction::Fail(_)));
}
