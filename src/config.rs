use vstd::prelude::*;
use vstd::string::StringExecFns;

verus! {

/// Base URL of the messaging platform when none is given.
pub const DEFAULT_SLACK_BASE_URL: &'static str = "https://slack.com";

/// Schedule when none is given: every ten seconds, 8:00 to 18:59, Monday to Friday.
pub const DEFAULT_CRON_SCHEDULE: &'static str = "*/10 * 8-18 * * 1-5";

/// Application settings.
#[derive(Debug, Clone, PartialEq, Eq)]
pub struct Config {
    pub spotify_token: String,
    pub slack_base_url: String,
    pub slack_token: String,
    pub slack_cookie: String,
    pub cron_schedule: String,
}

/// A required setting that was not given.
#[derive(Debug, Clone, Copy, PartialEq, Eq)]
pub enum ConfigError {
    MissingSpotifyToken,
    MissingSlackToken,
    MissingSlackCookie,
}

impl ConfigError {
    /// The message for this error, naming the missing variable.
    pub fn message(&self) -> (r: String)
        ensures
            *self is MissingSpotifyToken ==> r@ == "SPOTIFY_TOKEN not set"@,
            *self is MissingSlackToken ==> r@ == "SLACK_TOKEN not set"@,
            *self is MissingSlackCookie ==> r@ == "SLACK_COOKIE not set"@,
    {
        match self {
            ConfigError::MissingSpotifyToken => String::from_str("SPOTIFY_TOKEN not set"),
            ConfigError::MissingSlackToken => String::from_str("SLACK_TOKEN not set"),
            ConfigError::MissingSlackCookie => String::from_str("SLACK_COOKIE not set"),
        }
    }
}

/// The given value, or `default` when there is none.
pub open spec fn or_default(v: Option<String>, default: Seq<char>) -> Seq<char> {
    match v {
        Some(s) => s@,
        None => default,
    }
}

fn value_or(v: Option<String>, default: &str) -> (r: String)
    ensures
        r@ == or_default(v, default@),
{
    match v {
        Some(s) => s,
        None => String::from_str(default),
    }
}

impl Config {
    /// Settings from the values of the variables SPOTIFY_TOKEN, SLACK_BASE_URL,
    /// SLACK_TOKEN, SLACK_COOKIE and CRON_SCHEDULE (`None` where one is unset).
    /// The tokens and the cookie are required, checked in that order; the base URL
    /// and the schedule have defaults.
    pub fn from_values(
        spotify_token: Option<String>,
        slack_base_url: Option<String>,
        slack_token: Option<String>,
        slack_cookie: Option<String>,
        cron_schedule: Option<String>,
    ) -> (r: Result<Config, ConfigError>)
        ensures
            spotify_token is None ==> r == Err::<Config, ConfigError>(
                ConfigError::MissingSpotifyToken,
            ),
            spotify_token is Some && slack_token is None ==> r == Err::<Config, ConfigError>(
                ConfigError::MissingSlackToken,
            ),
            spotify_token is Some && slack_token is Some && slack_cookie is None ==> r == Err::<
                Config,
                ConfigError,
            >(ConfigError::MissingSlackCookie),
            r is Ok <==> (spotify_token is Some && slack_token is Some && slack_cookie is Some),
            r matches Ok(c) ==> {
                &&& c.spotify_token@ == spotify_token.unwrap()@
                &&& c.slack_base_url@ == or_default(slack_base_url, "https://slack.com"@)
                &&& c.slack_token@ == slack_token.unwrap()@
                &&& c.slack_cookie@ == slack_cookie.unwrap()@
                &&& c.cron_schedule@ == or_default(cron_schedule, "*/10 * 8-18 * * 1-5"@)
            },
    {
        proof {
            reveal_strlit("https://slack.com");
            reveal_strlit("*/10 * 8-18 * * 1-5");
        }
        let spotify_token = match spotify_token {
            Some(v) => v,
            None => return Err(ConfigError::MissingSpotifyToken),
        };
        let slack_base_url = value_or(slack_base_url, DEFAULT_SLACK_BASE_URL);
        let slack_token = match slack_token {
            Some(v) => v,
            None => return Err(ConfigError::MissingSlackToken),
        };
        let slack_cookie = match slack_cookie {
            Some(v) => v,
            None => return Err(ConfigError::MissingSlackCookie),
        };
        let cron_schedule = value_or(cron_schedule, DEFAULT_CRON_SCHEDULE);
        Ok(Config { spotify_token, slack_base_url, slack_token, slack_cookie, cron_schedule })
    }
}

} // verus!
