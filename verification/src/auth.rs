//! The rules of logging in, signing up and logging out.

use vstd::prelude::*;
use crate::text::{decimal, decimal_text, lemma_decimal_reads_back, parse_i64, parsed_i64};

verus! {

/// The cookie that carries the session.
pub const SESSION_COOKIE: &'static str = "rust-gpt-session";

/// The path for which the session cookie holds.
pub const SESSION_PATH: &'static str = "/";

/// Where a user lands after logging in or out.
pub const HOME_PATH: &'static str = "/";

/// Where a user lands after signing up.
pub const LOGIN_PATH: &'static str = "/login";

/// What a refused login says.
pub const INVALID_CREDENTIALS_MESSAGE: &'static str = "Invalid Username or Password";

/// What a refused sign-up says.
pub const PASSWORD_MISMATCH_MESSAGE: &'static str = "Passwords do not match.";

/// What a sign-up says that the store refused.
pub const SIGN_UP_STORE_MESSAGE: &'static str = "Dat";

/// The user number of a request without a valid session.
pub const NO_USER: i64 = -1;

/// Why a login failed.
#[derive(Debug, Clone, PartialEq, Eq)]
pub enum LogInError {
    InvalidCredentials,
    DatabaseError(String),
}

/// The mathematical value of a [`LogInError`].
pub enum LogInErrorView {
    InvalidCredentials,
    DatabaseError(Seq<char>),
}

impl View for LogInError {
    type V = LogInErrorView;

    open spec fn view(&self) -> LogInErrorView {
        match self {
            LogInError::InvalidCredentials => LogInErrorView::InvalidCredentials,
            LogInError::DatabaseError(m) => LogInErrorView::DatabaseError(m@),
        }
    }
}

impl LogInErrorView {
    /// The HTTP status of the response: 400 for refused credentials, 500
    /// for a fault of the store.
    pub open spec fn status(self) -> u16 {
        match self {
            LogInErrorView::InvalidCredentials => 400,
            LogInErrorView::DatabaseError(_) => 500,
        }
    }

    /// The body of the response.
    pub open spec fn message(self) -> Seq<char> {
        match self {
            LogInErrorView::InvalidCredentials => INVALID_CREDENTIALS_MESSAGE@,
            LogInErrorView::DatabaseError(m) => m,
        }
    }
}

impl LogInError {
    /// The HTTP status of the response.
    pub fn status_code(&self) -> (code: u16)
        ensures
            code == self@.status(),
    {
        match self {
            LogInError::InvalidCredentials => 400,
            LogInError::DatabaseError(_) => 500,
        }
    }

    /// The body of the response.
    pub fn message(&self) -> (message: String)
        ensures
            message@ == self@.message(),
    {
        match self {
            LogInError::InvalidCredentials => INVALID_CREDENTIALS_MESSAGE.to_owned(),
            LogInError::DatabaseError(m) => m.clone(),
        }
    }
}

/// The login form.
#[derive(Debug, Clone)]
pub struct LogIn {
    pub email: String,
    pub password: String,
}

/// What the store holds of the user with the e-mail address of a login.
#[derive(Debug, Clone)]
pub struct Credential {
    pub user_id: i64,
    pub password: String,
}

/// The value of the session cookie of a login, or why the login is
/// refused: it is granted exactly when the store knows the user and the
/// passwords are the same.
pub open spec fn session_of(stored: Option<Credential>, password: Seq<char>) -> Result<
    Seq<char>,
    LogInErrorView,
> {
    match stored {
        Some(credential) => if credential.password@ == password {
            Ok(decimal_text(credential.user_id as int))
        } else {
            Err(LogInErrorView::InvalidCredentials)
        },
        None => Err(LogInErrorView::InvalidCredentials),
    }
}

/// The view of the outcome of a login.
pub open spec fn session_view(r: Result<String, LogInError>) -> Result<Seq<char>, LogInErrorView> {
    match r {
        Ok(value) => Ok(value@),
        Err(e) => Err(e@),
    }
}

/// Decides a login, given what the store holds of the user, and yields the
/// value of the session cookie.
pub fn open_session(stored: Option<Credential>, log_in: &LogIn) -> (r: Result<String, LogInError>)
    ensures
        session_view(r) == session_of(stored, log_in.password@),
{
    match stored {
        Some(credential) => {
            if credential.password == log_in.password {
                Ok(decimal(credential.user_id))
            } else {
                Err(LogInError::InvalidCredentials)
            }
        },
        None => Err(LogInError::InvalidCredentials),
    }
}

/// The user number that a session cookie stands for: the number that its
/// value reads as, and [`NO_USER`] where there is no cookie or its value is
/// no number.
pub open spec fn session_user_of(cookie: Option<Seq<char>>) -> i64 {
    match cookie {
        Some(value) => match parsed_i64(value) {
            Some(id) => id,
            None => NO_USER,
        },
        None => NO_USER,
    }
}

/// The view of an optional text.
pub open spec fn optional_text(value: Option<&str>) -> Option<Seq<char>> {
    match value {
        Some(s) => Some(s@),
        None => None,
    }
}

/// Reads the user number from the session cookie of a request.
pub fn session_user_id(cookie: Option<&str>) -> (id: i64)
    ensures
        id == session_user_of(optional_text(cookie)),
{
    match cookie {
        Some(value) => match parse_i64(value) {
            Some(id) => id,
            None => NO_USER,
        },
        None => NO_USER,
    }
}

/// The session cookie that a login writes is read back as the user who
/// logged in.
pub proof fn lemma_session_names_its_user(stored: Credential, password: Seq<char>)
    requires
        stored.password@ == password,
    ensures
        session_of(Some(stored), password) matches Ok(value) && session_user_of(Some(value))
            == stored.user_id,
{
    lemma_decimal_reads_back(stored.user_id);
}

/// Why a sign-up failed.
#[derive(Debug, Clone, PartialEq, Eq)]
pub enum SignUpError {
    PasswordMismatch,
    DatabaseError(String),
}

/// The mathematical value of a [`SignUpError`].
pub enum SignUpErrorView {
    PasswordMismatch,
    DatabaseError(Seq<char>),
}

impl View for SignUpError {
    type V = SignUpErrorView;

    open spec fn view(&self) -> SignUpErrorView {
        match self {
            SignUpError::PasswordMismatch => SignUpErrorView::PasswordMismatch,
            SignUpError::DatabaseError(m) => SignUpErrorView::DatabaseError(m@),
        }
    }
}

impl SignUpErrorView {
    /// The HTTP status of the response: 400 for passwords that differ, 500
    /// for a fault of the store.
    pub open spec fn status(self) -> u16 {
        match self {
            SignUpErrorView::PasswordMismatch => 400,
            SignUpErrorView::DatabaseError(_) => 500,
        }
    }

    /// The body of the response.
    pub open spec fn message(self) -> Seq<char> {
        match self {
            SignUpErrorView::PasswordMismatch => PASSWORD_MISMATCH_MESSAGE@,
            SignUpErrorView::DatabaseError(m) => m,
        }
    }
}

impl SignUpError {
    /// The HTTP status of the response.
    pub fn status_code(&self) -> (code: u16)
        ensures
            code == self@.status(),
    {
        match self {
            SignUpError::PasswordMismatch => 400,
            SignUpError::DatabaseError(_) => 500,
        }
    }

    /// The body of the response.
    pub fn message(&self) -> (message: String)
        ensures
            message@ == self@.message(),
    {
        match self {
            SignUpError::PasswordMismatch => PASSWORD_MISMATCH_MESSAGE.to_owned(),
            SignUpError::DatabaseError(m) => m.clone(),
        }
    }
}

/// The sign-up form.
#[derive(Debug, Clone)]
pub struct SignUp {
    pub email: String,
    pub password: String,
    pub password_confirmation: String,
}

/// The view of the outcome of a step of a sign-up.
pub open spec fn sign_up_view(r: Result<(), SignUpError>) -> Result<(), SignUpErrorView> {
    match r {
        Ok(_) => Ok(()),
        Err(e) => Err(e@),
    }
}

/// Checks a sign-up form before anything is stored: the password and its
/// confirmation must be the same.
pub fn check_sign_up(sign_up: &SignUp) -> (r: Result<(), SignUpError>)
    ensures
        sign_up_view(r) == (if sign_up.password@ == sign_up.password_confirmation@ {
            Ok::<(), SignUpErrorView>(())
        } else {
            Err(SignUpErrorView::PasswordMismatch)
        }),
{
    if sign_up.password == sign_up.password_confirmation {
        Ok(())
    } else {
        Err(SignUpError::PasswordMismatch)
    }
}

/// The outcome of a sign-up once the store has been asked to keep the user.
pub fn sign_up_outcome(stored: bool) -> (r: Result<(), SignUpError>)
    ensures
        sign_up_view(r) == (if stored {
            Ok::<(), SignUpErrorView>(())
        } else {
            Err(SignUpErrorView::DatabaseError(SIGN_UP_STORE_MESSAGE@))
        }),
{
    if stored {
        Ok(())
    } else {
        Err(SignUpError::DatabaseError(SIGN_UP_STORE_MESSAGE.to_owned()))
    }
}

} // verus!
