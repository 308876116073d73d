//! The kinds of failure the client knows, and what it tells the user.

use crate::text::{decimal, decimal_string};
use vstd::prelude::*;

verus! {

/// A failure of the client. Failures that another component reports carry
/// its description as text.
#[derive(Debug)]
pub enum BizrayError {
    /// The server refused the credentials.
    AuthError(String),
    /// The server refused the request.
    ApiError(String),
    /// The request did not reach the server or no answer came back.
    NetworkError(String),
    /// The configuration could not be loaded.
    ConfigError(String),
    /// The user's input was refused before anything was sent.
    ValidationError(String),
    /// A file could not be read or written.
    IoError(String),
    /// An answer was no valid JSON.
    JsonError(String),
    /// The configuration file was no valid TOML.
    TomlError(String),
    /// The server failed.
    HttpError { status: u16, message: String },
    /// The session token is no longer accepted.
    TokenExpired,
    /// The user may not do this.
    PermissionDenied(String),
    /// There is no such record.
    NotFound(String),
    /// Too many requests in a short time.
    RateLimitExceeded,
    /// Anything else.
    Unknown(String),
}

/// The text of an answer with a status outside 400 to 599.
pub open spec fn unknown_status_text(status: u16, message: Seq<char>) -> Seq<char> {
    "HTTP "@ + decimal(status as nat) + ": "@ + message
}

impl BizrayError {
    /// What [`BizrayError::user_message`] returns.
    pub open spec fn user_text(&self) -> Seq<char> {
        match self {
            BizrayError::AuthError(msg) => "Authentication failed: "@ + msg@,
            BizrayError::ApiError(msg) => "API error: "@ + msg@,
            BizrayError::NetworkError(_) => "Network error. Please check your connection."@,
            BizrayError::ConfigError(_) => "Configuration error. Please check your config file."@,
            BizrayError::ValidationError(msg) => "Invalid input: "@ + msg@,
            BizrayError::TokenExpired => "Your session has expired. Please log in again."@,
            BizrayError::PermissionDenied(msg) => "Access denied: "@ + msg@,
            BizrayError::NotFound(msg) => "Not found: "@ + msg@,
            BizrayError::RateLimitExceeded => "Too many requests. Please wait a moment and try again."@,
            BizrayError::HttpError { status, message } => "Server error ("@ + decimal(
                *status as nat,
            ) + "): "@ + message@,
            BizrayError::IoError(msg) => "File error: "@ + msg@,
            BizrayError::JsonError(_) => "Data format error. Please try again."@,
            BizrayError::TomlError(_) => "Config file format error."@,
            BizrayError::Unknown(msg) => "Error: "@ + msg@,
        }
    }

    /// Whether trying again may help.
    pub open spec fn recoverable(&self) -> bool {
        match self {
            BizrayError::NetworkError(_) => true,
            BizrayError::RateLimitExceeded => true,
            BizrayError::HttpError { status, .. } => 500 <= *status <= 599,
            _ => false,
        }
    }

    /// Whether the user has to log in again.
    pub open spec fn needs_login(&self) -> bool {
        self is TokenExpired || self is AuthError
    }

    /// Whether `err` is the failure that an answer with the given status and
    /// message stands for.
    pub open spec fn http_failure(status: u16, message: String, err: BizrayError) -> bool {
        if status == 401 {
            err is TokenExpired
        } else if status == 403 {
            err == BizrayError::PermissionDenied(message)
        } else if status == 404 {
            err == BizrayError::NotFound(message)
        } else if status == 429 {
            err is RateLimitExceeded
        } else if 400 <= status <= 499 {
            err == BizrayError::ApiError(message)
        } else if 500 <= status <= 599 {
            err == (BizrayError::HttpError { status, message })
        } else {
            err is Unknown && err->Unknown_0@ == unknown_status_text(status, message@)
        }
    }

    /// The failure that an answer with the given status and message stands
    /// for: 401 is an expired token, 403 a refusal, 404 a missing record, 429
    /// a rate limit, any other status from 400 to 499 a refused request, 500
    /// to 599 a server failure, and anything else unknown.
    pub fn from_http_response(status: u16, message: String) -> (err: Self)
        ensures
            BizrayError::http_failure(status, message, err),
    {
        if status == 401 {
            BizrayError::TokenExpired
        } else if status == 403 {
            BizrayError::PermissionDenied(message)
        } else if status == 404 {
            BizrayError::NotFound(message)
        } else if status == 429 {
            BizrayError::RateLimitExceeded
        } else if 400 <= status && status <= 499 {
            BizrayError::ApiError(message)
        } else if 500 <= status && status <= 599 {
            BizrayError::HttpError { status, message }
        } else {
            let mut text = "HTTP ".to_owned();
            text.append(decimal_string(status as u64).as_str());
            text.append(": ");
            text.append(message.as_str());
            BizrayError::Unknown(text)
        }
    }

    /// The sentence shown to the user for this failure.
    pub fn user_message(&self) -> (text: String)
        ensures
            text@ == self.user_text(),
    {
        match self {
            BizrayError::AuthError(msg) => "Authentication failed: ".to_owned().concat(
                msg.as_str(),
            ),
            BizrayError::ApiError(msg) => "API error: ".to_owned().concat(msg.as_str()),
            BizrayError::NetworkError(_) => "Network error. Please check your connection.".to_owned(),
            BizrayError::ConfigError(_) => "Configuration error. Please check your config file.".to_owned(),
            BizrayError::ValidationError(msg) => "Invalid input: ".to_owned().concat(msg.as_str()),
            BizrayError::TokenExpired => "Your session has expired. Please log in again.".to_owned(),
            BizrayError::PermissionDenied(msg) => "Access denied: ".to_owned().concat(msg.as_str()),
            BizrayError::NotFound(msg) => "Not found: ".to_owned().concat(msg.as_str()),
            BizrayError::RateLimitExceeded => "Too many requests. Please wait a moment and try again.".to_owned(),
            BizrayError::HttpError { status, message } => {
                let mut text = "Server error (".to_owned();
                text.append(decimal_string(*status as u64).as_str());
                text.append("): ");
                text.append(message.as_str());
                text
            },
            BizrayError::IoError(msg) => "File error: ".to_owned().concat(msg.as_str()),
            BizrayError::JsonError(_) => "Data format error. Please try again.".to_owned(),
            BizrayError::TomlError(_) => "Config file format error.".to_owned(),
            BizrayError::Unknown(msg) => "Error: ".to_owned().concat(msg.as_str()),
        }
    }

    /// Whether trying again may help: a network failure, a rate limit, or a
    /// server failure with a status from 500 to 599.
    pub fn is_recoverable(&self) -> (yes: bool)
        ensures
            yes == self.recoverable(),
    {
        match self {
            BizrayError::NetworkError(_) => true,
            BizrayError::RateLimitExceeded => true,
            BizrayError::HttpError { status, .. } => 500 <= *status && *status <= 599,
            _ => false,
        }
    }

    /// Whether the user has to log in again: the token expired or the
    /// credentials were refused.
    pub fn requires_reauth(&self) -> (yes: bool)
        ensures
            yes == self.needs_login(),
    {
        match self {
            BizrayError::TokenExpired => true,
            BizrayError::AuthError(_) => true,
            _ => false,
        }
    }
}

} // verus!
