use gpt_chat::auth::{
    check_sign_up, open_session, session_user_id, sign_up_outcome, Credential, LogIn, LogInError,
    SignUp, SignUpError, NO_USER, SESSION_COOKIE,
};

fn log_in(password: &str) -> LogIn {
    LogIn { email: "test@test.com".to_string(), password: password.to_string() }
}

fn sign_up(password: &str, confirmation: &str) -> SignUp {
    SignUp {
        email: "test@test.com".to_string(),
        password: password.to_string(),
        password_confirmation: confirmation.to_string(),
    }
}

#[test]
fn matching_password_opens_a_session() {
    let stored = Credential { user_id: 17, password: "test".to_string() };
    assert_eq!(open_session(Some(stored), &log_in("test")), Ok("17".to_string()));
}

#[test]
fn wrong_password_is_refused() {
    let stored = Credential { user_id: 17, password: "test".to_string() };
    assert_eq!(open_session(Some(stored), &log_in("Test")), Err(LogInError::InvalidCredentials));
    let empty = Credential { user_id: 17, password: "test".to_string() };
    assert_eq!(open_session(Some(empty), &log_in("")), Err(LogInError::InvalidCredentials));
}

#[test]
fn unknown_user_is_refused() {
    assert_eq!(open_session(None, &log_in("test")), Err(LogInError::InvalidCredentials));
}

#[test]
fn log_in_errors_have_their_response() {
    assert_eq!(LogInError::InvalidCredentials.status_code(), 400);
    assert_eq!(LogInError::InvalidCredentials.message(), "Invalid Username or Password");
    let store = LogInError::DatabaseError("locked".to_string());
    assert_eq!(store.status_code(), 500);
    assert_eq!(store.message(), "locked");
}

#[test]
fn session_cookie_names_the_user() {
    assert_eq!(SESSION_COOKIE, "rust-gpt-session");
    assert_eq!(session_user_id(Some("17")), 17);
    assert_eq!(session_user_id(Some("-5")), -5);
    assert_eq!(session_user_id(Some("+8")), 8);
    assert_eq!(session_user_id(Some("9223372036854775807")), i64::MAX);
}

#[test]
fn unreadable_session_is_no_user() {
    assert_eq!(NO_USER, -1);
    assert_eq!(session_user_id(None), -1);
    assert_eq!(session_user_id(Some("")), -1);
    assert_eq!(session_user_id(Some("abc")), -1);
    assert_eq!(session_user_id(Some(" 7")), -1);
    assert_eq!(session_user_id(Some("7.0")), -1);
    assert_eq!(session_user_id(Some("9223372036854775808")), -1);
}

#[test]
fn sign_up_needs_the_same_password_twice() {
    assert_eq!(check_sign_up(&sign_up("secret", "secret")), Ok(()));
    assert_eq!(check_sign_up(&sign_up("", "")), Ok(()));
    assert_eq!(check_sign_up(&sign_up("secret", "Secret")), Err(SignUpError::PasswordMismatch));
    assert_eq!(check_sign_up(&sign_up("secret", "")), Err(SignUpError::PasswordMismatch));
}

#[test]
fn sign_up_reports_a_refusal_of_the_store() {
    assert_eq!(sign_up_outcome(true), Ok(()));
    assert_eq!(sign_up_outcome(false), Err(SignUpError::DatabaseError("Dat".to_string())));
}

#[test]
fn sign_up_errors_have_their_response() {
    assert_eq!(SignUpError::PasswordMismatch.status_code(), 400);
    assert_eq!(SignUpError::PasswordMismatch.message(), "Passwords do not match.");
    let store = SignUpError::DatabaseError("Dat".to_string());
    assert_eq!(store.status_code(), 500);
    assert_eq!(store.message(), "Dat");
}
