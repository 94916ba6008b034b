//! The gates that a request passes before it reaches a handler.

use vstd::prelude::*;
use vstd::string::StringExecFns;
use crate::header::{header_value, header_value_of, is_header_char, is_header_text};
use crate::text::{decimal, decimal_text, digit_value, lemma_nat_text_reads_back, option_view};

verus! {

/// The endpoint that is asked whether the provider accepts a credential.
pub const PROBE_URL: &'static str = "https://api.openai.com/v1/engines";

/// The page that shows an error, before its parameters.
pub const ERROR_PATH: &'static str = "/error?code=";

/// What introduces the message among the parameters of the error page.
pub const ERROR_MESSAGE_PARAMETER: &'static str = "&message=";

/// What a visitor reads who is not logged in.
pub const LOGIN_REQUIRED_MESSAGE: &'static str = "You need to log in to view this page";

/// What a user reads whose credential the provider refused.
pub const KEY_REFUSED_MESSAGE: &'static str = "You API key is not set or invalid. Go to Settings.";

/// What a user reads when the provider could not be asked.
pub const KEY_UNCHECKED_MESSAGE: &'static str = "You API key is not set or invalid. Go to Settings";

/// The status of a request that needs a login.
pub const LOGIN_REQUIRED_STATUS: u16 = 401;

/// The status of a request without a usable credential.
pub const KEY_REQUIRED_STATUS: u16 = 403;

/// The least status that is shown as an error page.
pub const FIRST_ERROR_STATUS: u16 = 400;

/// The location of the error page for a status and a message.
pub open spec fn error_location_of(code: u16, message: Seq<char>) -> Seq<char> {
    ERROR_PATH@ + decimal_text(code as int) + ERROR_MESSAGE_PARAMETER@ + message
}

/// The location to which a rejected request is redirected.
pub fn error_location(code: u16, message: &str) -> (location: String)
    ensures
        location@ == error_location_of(code, message@),
{
    let mut location = ERROR_PATH.to_owned();
    location.append(decimal(code as i64).as_str());
    location.append(ERROR_MESSAGE_PARAMETER);
    location.append(message);
    location
}

/// The value of the redirect header for a location, where the location can
/// stand in a header.
pub fn redirect_header(location: &str) -> (value: Option<String>)
    ensures
        option_view(value) == header_value_of(location@),
{
    header_value(location.to_owned())
}

/// The decision of a gate.
#[derive(Debug, Clone, PartialEq, Eq)]
pub enum Gate {
    /// The request goes on to the handler.
    Pass,
    /// The request is redirected to this location.
    Redirect(String),
}

/// The mathematical value of a [`Gate`].
pub enum GateView {
    Pass,
    Redirect(Seq<char>),
}

impl View for Gate {
    type V = GateView;

    open spec fn view(&self) -> GateView {
        match self {
            Gate::Pass => GateView::Pass,
            Gate::Redirect(location) => GateView::Redirect(location@),
        }
    }
}

/// What having a user or not means for the request.
pub open spec fn login_gate_of(logged_in: bool) -> GateView {
    if logged_in {
        GateView::Pass
    } else {
        GateView::Redirect(error_location_of(LOGIN_REQUIRED_STATUS, LOGIN_REQUIRED_MESSAGE@))
    }
}

/// Lets a request pass that has a user, and sends any other to the error
/// page.
pub fn require_login(logged_in: bool) -> (gate: Gate)
    ensures
        gate@ == login_gate_of(logged_in),
{
    if logged_in {
        Gate::Pass
    } else {
        Gate::Redirect(error_location(LOGIN_REQUIRED_STATUS, LOGIN_REQUIRED_MESSAGE))
    }
}

/// What came of asking the provider whether it accepts a credential.
#[derive(Debug, Clone, Copy, PartialEq, Eq, Structural)]
pub enum Probe {
    /// The provider answered with success.
    Accepted,
    /// The provider answered, and not with success.
    Refused,
    /// The provider could not be reached.
    Unreachable,
}

/// What a probe means for the request.
pub open spec fn key_gate_of(probe: Probe) -> GateView {
    match probe {
        Probe::Accepted => GateView::Pass,
        Probe::Refused => GateView::Redirect(
            error_location_of(KEY_REQUIRED_STATUS, KEY_REFUSED_MESSAGE@),
        ),
        Probe::Unreachable => GateView::Redirect(
            error_location_of(KEY_REQUIRED_STATUS, KEY_UNCHECKED_MESSAGE@),
        ),
    }
}

/// Lets a request pass whose credential the provider accepts, and sends any
/// other to the error page.
pub fn require_api_key(probe: Probe) -> (gate: Gate)
    ensures
        gate@ == key_gate_of(probe),
{
    match probe {
        Probe::Accepted => Gate::Pass,
        Probe::Refused => Gate::Redirect(error_location(KEY_REQUIRED_STATUS, KEY_REFUSED_MESSAGE)),
        Probe::Unreachable => Gate::Redirect(
            error_location(KEY_REQUIRED_STATUS, KEY_UNCHECKED_MESSAGE),
        ),
    }
}

/// Whether a response with this status is replaced by the error page.
pub fn is_error_status(status: u16) -> (r: bool)
    ensures
        r == (status >= FIRST_ERROR_STATUS),
{
    status >= FIRST_ERROR_STATUS
}

/// The parameters of the error page.
#[derive(Debug, Clone)]
pub struct ErrorParams {
    pub code: u16,
    pub message: String,
}

/// The location of the error page can stand in a header whenever its
/// message can.
pub proof fn lemma_error_location_is_header_text(code: u16, message: Seq<char>)
    requires
        is_header_text(message),
    ensures
        is_header_text(error_location_of(code, message)),
{
    reveal_strlit("/error?code=");
    reveal_strlit("&message=");
    lemma_nat_text_reads_back(code as nat);
    let digits = decimal_text(code as int);
    assert forall|i: int| 0 <= i < digits.len() implies is_header_char(#[trigger] digits[i]) by {
        assert(digit_value(digits[i]) is Some);
    }
}

/// Every location to which a gate redirects can stand in a header.
pub proof fn lemma_gates_redirect_to_header_texts(logged_in: bool, probe: Probe)
    ensures
        login_gate_of(logged_in) matches GateView::Redirect(location) ==> is_header_text(location),
        key_gate_of(probe) matches GateView::Redirect(location) ==> is_header_text(location),
{
    reveal_strlit("You need to log in to view this page");
    reveal_strlit("You API key is not set or invalid. Go to Settings.");
    reveal_strlit("You API key is not set or invalid. Go to Settings");
    lemma_error_location_is_header_text(LOGIN_REQUIRED_STATUS, LOGIN_REQUIRED_MESSAGE@);
    lemma_error_location_is_header_text(KEY_REQUIRED_STATUS, KEY_REFUSED_MESSAGE@);
    lemma_error_location_is_header_text(KEY_REQUIRED_STATUS, KEY_UNCHECKED_MESSAGE@);
}

} // verus!
