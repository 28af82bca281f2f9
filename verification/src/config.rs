//! The server's settings: the Traggo GraphQL endpoint, the device token and
//! the request timeout, read from environment variables.
use vstd::prelude::*;

use crate::error::{config_error, AppError, ErrorModel};
use crate::text::{is_blank, parse_u64, parsed_u64, str_is_blank};

verus! {

/// The request timeout, in seconds, when none is configured.
pub const DEFAULT_TIMEOUT_SECONDS: u64 = 30;

/// Settings of the server.
#[derive(Clone, Debug)]
pub struct Config {
    /// The GraphQL endpoint, as the URL parser serializes it.
    pub traggo_url: String,
    /// The Traggo device token sent with every request.
    pub traggo_token: String,
    /// The HTTP request timeout, in seconds; never zero.
    pub timeout_seconds: u64,
}

/// What parsing a URL gives: its serialization, or the parser's error
/// message.
pub uninterp spec fn url_parse(text: Seq<char>) -> Result<Seq<char>, Seq<char>>;

/// `reqwest::Url::parse`, with the parsed URL rendered by `to_string` and
/// the error by its `Display`; the outcome is named by `url_parse`.
#[verifier::external_body]
fn parse_url(text: &str) -> (r: Result<String, String>)
    ensures
        match url_parse(text@) {
            Ok(u) => r matches Ok(x) && x@ == u,
            Err(e) => r matches Err(x) && x@ == e,
        },
{
    match reqwest::Url::parse(text) {
        Ok(url) => Ok(url.to_string()),
        Err(err) => Err(err.to_string()),
    }
}

/// The view of an optional string.
pub open spec fn opt_view(v: Option<String>) -> Option<Seq<char>> {
    match v {
        Some(s) => Some(s@),
        None => None,
    }
}

/// The error that rejects the given settings, checked in the order the
/// variables are documented, or `None` when they are accepted.
pub open spec fn settings_error(
    url: Option<Seq<char>>,
    token: Option<Seq<char>>,
    timeout: Option<Seq<char>>,
) -> Option<ErrorModel> {
    if url is None {
        Some(config_error("TRAGGO_URL"@ + " is required"@))
    } else if token is None {
        Some(config_error("TRAGGO_TOKEN"@ + " is required"@))
    } else if timeout is Some && parsed_u64(timeout->0) is None {
        Some(config_error("TRAGGO_TIMEOUT_SECONDS must be a positive integer"@))
    } else if timeout is Some && parsed_u64(timeout->0) == Some(0u64) {
        Some(config_error("TRAGGO_TIMEOUT_SECONDS must be greater than zero"@))
    } else if is_blank(token->0) {
        Some(config_error("TRAGGO_TOKEN must not be empty"@))
    } else if url_parse(url->0) is Err {
        Some(config_error("TRAGGO_URL is invalid: "@ + url_parse(url->0)->Err_0))
    } else {
        None
    }
}

/// The timeout the settings give: the configured number of seconds, or the
/// default.
pub open spec fn settings_timeout(timeout: Option<Seq<char>>) -> u64 {
    match timeout {
        Some(t) => parsed_u64(t)->0,
        None => DEFAULT_TIMEOUT_SECONDS,
    }
}

/// Whether `r` is what the settings give: the error that rejects them, or
/// the configuration they describe.
pub open spec fn settings_outcome(
    r: Result<Config, AppError>,
    url: Option<Seq<char>>,
    token: Option<Seq<char>>,
    timeout: Option<Seq<char>>,
) -> bool {
    match settings_error(url, token, timeout) {
        Some(e) => r matches Err(x) && x@ == e,
        None => r matches Ok(c) && c.traggo_url@ == url_parse(url->0)->Ok_0 && c.traggo_token@
            == token->0 && c.timeout_seconds == settings_timeout(timeout),
    }
}

/// The value of a variable that must be set.
fn required_env(value: Option<String>, key: &str) -> (r: Result<String, AppError>)
    ensures
        match value {
            Some(v) => r == Ok::<String, AppError>(v),
            None => r matches Err(e) && e@ == config_error(key@ + " is required"@),
        },
{
    match value {
        Some(v) => Ok(v),
        None => Err(AppError::Config(String::from_str(key).concat(" is required"))),
    }
}

impl Config {
    /// The configuration described by the values of `TRAGGO_URL`,
    /// `TRAGGO_TOKEN` and `TRAGGO_TIMEOUT_SECONDS`.
    pub fn from_values(url: Option<String>, token: Option<String>, timeout: Option<String>) -> (r:
        Result<Config, AppError>)
        ensures
            settings_outcome(r, opt_view(url), opt_view(token), opt_view(timeout)),
    {
        let traggo_url = required_env(url, "TRAGGO_URL")?;
        let traggo_token = required_env(token, "TRAGGO_TOKEN")?;
        let timeout_seconds = match timeout {
            Some(raw) => {
                let seconds = match parse_u64(raw.as_str()) {
                    Some(s) => s,
                    None => {
                        return Err(
                            AppError::Config(
                                String::from_str("TRAGGO_TIMEOUT_SECONDS must be a positive integer"),
                            ),
                        );
                    },
                };
                if seconds == 0 {
                    return Err(
                        AppError::Config(
                            String::from_str("TRAGGO_TIMEOUT_SECONDS must be greater than zero"),
                        ),
                    );
                }
                seconds
            },
            None => DEFAULT_TIMEOUT_SECONDS,
        };
        if str_is_blank(traggo_token.as_str()) {
            return Err(AppError::Config(String::from_str("TRAGGO_TOKEN must not be empty")));
        }
        let parsed = match parse_url(traggo_url.as_str()) {
            Ok(u) => u,
            Err(e) => {
                return Err(
                    AppError::Config(String::from_str("TRAGGO_URL is invalid: ").concat(e.as_str())),
                );
            },
        };
        Ok(Config { traggo_url: parsed, traggo_token, timeout_seconds })
    }

    /// The configuration read through `get`, which gives the value of an
    /// environment variable by name. The variables are read in order, and
    /// reading stops at the first required one that is missing.
    pub fn from_env_vars<F: Fn(&str) -> Option<String>>(get: F) -> (r: Result<Config, AppError>)
        requires
            forall|key: &str| get.requires((key,)),
        ensures
            exists|url: Option<String>|
                {
                    &&& get.ensures(("TRAGGO_URL",), url)
                    &&& url is None ==> settings_outcome(r, None, None, None)
                    &&& url is Some ==> exists|token: Option<String>|
                        {
                            &&& get.ensures(("TRAGGO_TOKEN",), token)
                            &&& token is None ==> settings_outcome(r, opt_view(url), None, None)
                            &&& token is Some ==> exists|timeout: Option<String>|
                                {
                                    &&& get.ensures(("TRAGGO_TIMEOUT_SECONDS",), timeout)
                                    &&& settings_outcome(
                                        r,
                                        opt_view(url),
                                        opt_view(token),
                                        opt_view(timeout),
                                    )
                                }
                        }
                },
    {
        let url = get("TRAGGO_URL");
        if url.is_none() {
            return Config::from_values(url, None, None);
        }
        let token = get("TRAGGO_TOKEN");
        if token.is_none() {
            return Config::from_values(url, token, None);
        }
        let timeout = get("TRAGGO_TIMEOUT_SECONDS");
        Config::from_values(url, token, timeout)
    }
}

} // verus!
