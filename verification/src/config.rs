//! What the process is told at startup.

use vstd::prelude::*;

verus! {

/// The variable that holds the presence application's identifier.
pub const APPLICATION_ID_VAR: &'static str = "DISCORD_APPLICATION_ID";

/// The variable that holds the media server's base address.
pub const URL_VAR: &'static str = "JELLYFIN_URL";

/// The variable that holds the media server's key.
pub const API_KEY_VAR: &'static str = "JELLYFIN_API_KEY";

/// The variable that holds the name of the user to watch.
pub const USERNAME_VAR: &'static str = "JELLYFIN_USERNAME";

/// The settings, each one empty where it was not given.
#[derive(Debug, PartialEq, Eq)]
pub struct Config {
    /// The presence application's identifier.
    pub application_id: String,
    /// The media server's base address.
    pub url: String,
    /// The media server's key.
    pub api_key: String,
    /// The name of the user to watch.
    pub username: String,
}

/// The characters of a setting: its own where it was given, none otherwise.
pub open spec fn setting_of(given: Option<String>) -> Seq<char> {
    match given {
        Some(text) => text@,
        None => Seq::empty(),
    }
}

/// Reads one setting: see [`setting_of`].
pub fn setting(given: Option<String>) -> (text: String)
    ensures
        text@ == setting_of(given),
{
    match given {
        Some(text) => text,
        None => String::new(),
    }
}

impl Config {
    /// Gathers the settings from what was found for each variable.
    pub fn from_values(
        application_id: Option<String>,
        url: Option<String>,
        api_key: Option<String>,
        username: Option<String>,
    ) -> (config: Config)
        ensures
            config.application_id@ == setting_of(application_id),
            config.url@ == setting_of(url),
            config.api_key@ == setting_of(api_key),
            config.username@ == setting_of(username),
    {
        Config {
            application_id: setting(application_id),
            url: setting(url),
            api_key: setting(api_key),
            username: setting(username),
        }
    }
}

} // verus!
