//! User settings, the shapes the front end receives, and their defaults.
use crate::text::concat;
use vstd::prelude::*;

verus! {

/// The user's preferences.
#[derive(Debug, Clone)]
pub struct AppSettings {
    pub theme: String,
    pub scan_interval_mins: u32,
    pub working_hours_start: u8,
    pub working_hours_end: u8,
    pub health_nudges: bool,
    pub notifications: bool,
    pub news_topics: Vec<String>,
    pub user_name: String,
    pub avatar_url: Option<String>,
}

/// The preferences of a new user: dark theme, hourly scans, working hours
/// 9 to 18, nudges and notifications on, technology and AI news, named `User`.
pub open spec fn is_default_settings(s: AppSettings) -> bool {
    &&& s.theme@ == "dark"@
    &&& s.scan_interval_mins == 60
    &&& s.working_hours_start == 9
    &&& s.working_hours_end == 18
    &&& s.health_nudges
    &&& s.notifications
    &&& s.news_topics@.len() == 2
    &&& s.news_topics@[0]@ == "technology"@
    &&& s.news_topics@[1]@ == "ai"@
    &&& s.user_name@ == "User"@
    &&& s.avatar_url is None
}

impl Default for AppSettings {
    fn default() -> (res: AppSettings)
        ensures
            is_default_settings(res),
    {
        let mut news_topics: Vec<String> = Vec::new();
        news_topics.push(String::from_str("technology"));
        news_topics.push(String::from_str("ai"));
        AppSettings {
            theme: String::from_str("dark"),
            scan_interval_mins: 60,
            working_hours_start: 9,
            working_hours_end: 18,
            health_nudges: true,
            notifications: true,
            news_topics,
            user_name: String::from_str("User"),
            avatar_url: None,
        }
    }
}

/// The settings key under which the serialized preferences are stored.
pub fn app_settings_key() -> (res: String)
    ensures
        res@ == "app_settings"@,
{
    String::from_str("app_settings")
}

/// The settings key of the theme.
pub fn theme_key() -> (res: String)
    ensures
        res@ == "theme"@,
{
    String::from_str("theme")
}

/// The theme to show: the stored one, or `dark`.
pub fn theme_or_default(stored: Option<String>) -> (res: String)
    ensures
        match stored {
            Some(t) => res == t,
            None => res@ == "dark"@,
        },
{
    match stored {
        Some(t) => t,
        None => String::from_str("dark"),
    }
}

/// The settings key that records when a health action was last taken:
/// `last_<action>`.
pub fn health_action_key(action: &str) -> (res: String)
    ensures
        res@ == "last_"@ + action@,
{
    concat("last_", action)
}

/// An error reported to the front end.
#[derive(Debug, Clone)]
pub struct ApiError {
    pub message: String,
}

impl ApiError {
    /// The error with the given message.
    pub fn from_message(message: String) -> (res: ApiError)
        ensures
            res.message == message,
    {
        ApiError { message }
    }
}

/// A model installed in the local language-model server.
#[derive(Debug, Clone)]
pub struct ModelInfo {
    pub name: String,
    pub size: u64,
    pub digest: String,
}

/// Whether the local model server is up and the model is installed.
#[derive(Debug, Clone)]
pub struct OllamaStatus {
    pub available: bool,
    pub model_ready: bool,
    pub model_name: String,
}

/// The model Meridian uses.
pub open spec fn default_model_spec() -> Seq<char> {
    "phi3:mini"@
}

/// The model Meridian uses.
pub fn default_model() -> (res: String)
    ensures
        res@ == default_model_spec(),
{
    String::from_str("phi3:mini")
}

/// The address of the local model server.
pub fn ollama_base() -> (res: String)
    ensures
        res@ == "http://127.0.0.1:11434"@,
{
    String::from_str("http://127.0.0.1:11434")
}

/// The status reported to the front end: the model counts as ready only when
/// the server is available and reported it installed.
pub fn ollama_status(available: bool, model_installed: bool) -> (res: OllamaStatus)
    ensures
        res.available == available,
        res.model_ready == (available && model_installed),
        res.model_name@ == default_model_spec(),
{
    OllamaStatus { available, model_ready: available && model_installed, model_name: default_model() }
}

/// The model to pull: the requested one, or the default model.
pub fn model_to_pull(requested: Option<String>) -> (res: String)
    ensures
        match requested {
            Some(m) => res == m,
            None => res@ == default_model_spec(),
        },
{
    match requested {
        Some(m) => m,
        None => default_model(),
    }
}

/// How many summaries the history shows: the requested number, or 7.
pub fn history_limit(requested: Option<u32>) -> (res: u32)
    ensures
        res == match requested {
            Some(n) => n,
            None => 7,
        },
{
    match requested {
        Some(n) => n,
        None => 7,
    }
}

/// Whether a task list includes completed tasks: as requested, or not.
pub fn include_completed(requested: Option<bool>) -> (res: bool)
    ensures
        res == (requested == Some(true)),
{
    match requested {
        Some(b) => b,
        None => false,
    }
}

} // verus!
