//! What the client makes of the status of an answer from the Web API.

use vstd::prelude::*;

use crate::requests::ResponseKind;
use crate::text::{decimal, decimal_string};

verus! {

/// How an answer is handled, by its status.
#[derive(Debug, Clone, Copy, PartialEq, Eq, Structural)]
pub enum StatusOutcome {
    /// `204 No Content` to a request whose answer may be empty: nothing to read.
    NoContent,
    /// A success (`200` to `299`): the answer is read as the request expects.
    Success,
    /// Any other status: the request failed.
    Failure,
}

/// How an answer with the given status to a request of the given kind is
/// handled.
pub open spec fn outcome_of(status: u16, response: ResponseKind) -> StatusOutcome {
    if response == ResponseKind::OptionalJson && status == 204 {
        StatusOutcome::NoContent
    } else if 200 <= status < 300 {
        StatusOutcome::Success
    } else {
        StatusOutcome::Failure
    }
}

/// Classifies an answer by its status.
pub fn classify_status(status: u16, response: ResponseKind) -> (res: StatusOutcome)
    ensures
        res == outcome_of(status, response),
{
    if response == ResponseKind::OptionalJson && status == 204 {
        StatusOutcome::NoContent
    } else if 200 <= status && status < 300 {
        StatusOutcome::Success
    } else {
        StatusOutcome::Failure
    }
}

/// The reason phrase that the `http` crate registers for a status code.
pub uninterp spec fn canonical_reason(code: u16) -> Option<Seq<char>>;

/// Calls `http::StatusCode::canonical_reason` (through `reqwest`) on the
/// status code: the registered reason phrase, if any. The contract claims
/// only that the result is that phrase; the phrase table is not restated.
/// The code must be a valid status code (`100` to `999`), as
/// `StatusCode::from_u16` requires.
#[verifier::external_body]
fn reason_phrase(code: u16) -> (res: Option<&'static str>)
    requires
        100 <= code <= 999,
    ensures
        match res {
            Some(r) => canonical_reason(code) == Some(r@),
            None => canonical_reason(code) is None,
        },
{
    match reqwest::StatusCode::from_u16(code) {
        Ok(status) => status.canonical_reason(),
        Err(_) => None,
    }
}

/// How a status is displayed: the code, then the reason phrase or
/// `<unknown status code>`.
pub open spec fn status_display(code: u16) -> Seq<char> {
    decimal(code as nat) + " "@ + match canonical_reason(code) {
        Some(r) => r,
        None => "<unknown status code>"@,
    }
}

/// The message of a failed request: the status and the answer's text.
pub open spec fn api_error_report(code: u16, body: Seq<char>) -> Seq<char> {
    "Spotify API error ("@ + status_display(code) + "): "@ + body
}

/// Displays a status code with the given reason phrase, or with
/// `<unknown status code>` when there is none.
pub fn format_status(code: u16, reason: Option<&str>) -> (res: String)
    ensures
        res@ == decimal(code as nat) + " "@ + match reason {
            Some(r) => r@,
            None => "<unknown status code>"@,
        },
{
    let mut res = decimal_string(code as u64);
    res.append(" ");
    match reason {
        Some(r) => res.append(r),
        None => res.append("<unknown status code>"),
    }
    res
}

/// Displays a status code as `http` does.
pub fn status_text(code: u16) -> (res: String)
    requires
        100 <= code <= 999,
    ensures
        res@ == status_display(code),
{
    format_status(code, reason_phrase(code))
}

/// The message of a request that failed with the given status.
pub fn api_error_text(code: u16, body: &str) -> (res: String)
    requires
        100 <= code <= 999,
    ensures
        res@ == api_error_report(code, body@),
{
    let mut res = String::from_str("Spotify API error (");
    let status = status_text(code);
    res.append(status.as_str());
    res.append("): ");
    res.append(body);
    res
}

} // verus!
