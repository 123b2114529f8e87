//! The server's errors and the protocol error codes they are reported with.

use vstd::prelude::*;

verus! {

/// An error of the server; each variant holds the text of its cause.
#[derive(Debug, PartialEq, Eq)]
pub enum AppError {
    SpotifyApi(String),
    Auth(String),
    Token(String),
    Http(String),
    Json(String),
    Io(String),
    Other(String),
}

/// An error as reported to the protocol's client.
#[derive(Debug, PartialEq, Eq)]
pub struct ErrorReply {
    pub code: i32,
    pub message: String,
}

/// The protocol error code of an error: `-32001` for authentication and
/// token errors, `-32002` for errors of the Web API, `-32003` for HTTP
/// errors, `-32000` for the rest.
pub open spec fn error_code_of(err: AppError) -> int {
    match err {
        AppError::Auth(_) | AppError::Token(_) => -32001,
        AppError::SpotifyApi(_) => -32002,
        AppError::Http(_) => -32003,
        _ => -32000,
    }
}

/// How an error is displayed.
pub open spec fn error_message_of(err: AppError) -> Seq<char> {
    match err {
        AppError::SpotifyApi(m) => "Spotify API error: "@ + m@,
        AppError::Auth(m) => "Authentication error: "@ + m@,
        AppError::Token(m) => "Token error: "@ + m@,
        AppError::Http(m) => "HTTP error: "@ + m@,
        AppError::Json(m) => "JSON error: "@ + m@,
        AppError::Io(m) => "IO error: "@ + m@,
        AppError::Other(m) => m@,
    }
}

fn prefixed(prefix: &str, m: &String) -> (res: String)
    ensures
        res@ == prefix@ + m@,
{
    let mut res = String::from_str(prefix);
    res.append(m.as_str());
    res
}

impl AppError {
    /// The protocol error code of this error.
    pub fn error_code(&self) -> (res: i32)
        ensures
            res as int == error_code_of(*self),
    {
        match self {
            AppError::Auth(_) | AppError::Token(_) => -32001,
            AppError::SpotifyApi(_) => -32002,
            AppError::Http(_) => -32003,
            _ => -32000,
        }
    }

    /// How this error is displayed.
    pub fn message(&self) -> (res: String)
        ensures
            res@ == error_message_of(*self),
    {
        match self {
            AppError::SpotifyApi(m) => prefixed("Spotify API error: ", m),
            AppError::Auth(m) => prefixed("Authentication error: ", m),
            AppError::Token(m) => prefixed("Token error: ", m),
            AppError::Http(m) => prefixed("HTTP error: ", m),
            AppError::Json(m) => prefixed("JSON error: ", m),
            AppError::Io(m) => prefixed("IO error: ", m),
            AppError::Other(m) => m.clone(),
        }
    }

    /// The error as reported to the protocol's client: its code and how it
    /// is displayed.
    pub fn to_reply(&self) -> (res: ErrorReply)
        ensures
            res.code as int == error_code_of(*self),
            res.message@ == error_message_of(*self),
    {
        ErrorReply { code: self.error_code(), message: self.message() }
    }
}

} // verus!
