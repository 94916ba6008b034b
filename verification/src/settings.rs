//! The settings of a user.

use vstd::prelude::*;

verus! {

/// Where the settings page lives.
pub const SETTINGS_PATH: &'static str = "/settings";

/// The form that sets the credential of a user.
#[derive(Debug, Clone)]
pub struct OpenAiAPIKey {
    pub api_key: String,
}

} // verus!
