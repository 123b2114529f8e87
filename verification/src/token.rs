//! The OAuth token the server holds, when it counts as expired, and how a
//! new one is made from the authorization server's answer.

use std::time::SystemTime;

use vstd::prelude::*;

verus! {

/// An instant: whole seconds since the Unix epoch and the nanoseconds after
/// them.
#[derive(Debug, Clone, Copy, PartialEq, Eq, Structural)]
pub struct Timestamp {
    pub secs: i64,
    pub nanos: u32,
}

/// The last second that `chrono` can represent (the end of year 262142).
pub open spec fn max_timestamp() -> int {
    8_210_266_876_799
}

/// The first second that `chrono` can represent (the start of year -262143).
pub open spec fn min_timestamp() -> int {
    -8_334_601_315_200
}

/// The largest number of seconds that a `chrono` duration can be made of
/// (`i64::MAX / 1000`).
pub open spec fn max_delta_secs() -> int {
    9_223_372_036_854_775
}

/// Whether instant `a` is not earlier than instant `b`.
pub open spec fn not_before(a: Timestamp, b: Timestamp) -> bool {
    a.secs > b.secs || (a.secs == b.secs && a.nanos >= b.nanos)
}

/// A saved OAuth token.
#[derive(Debug, PartialEq, Eq)]
pub struct TokenData {
    pub access_token: String,
    pub refresh_token: String,
    pub expires_at: Timestamp,
}

/// A token counts as expired from one minute before its expiry on:
/// `now >= expires_at - 60 s`.
pub open spec fn expired_at(token: TokenData, now: Timestamp) -> bool {
    now.secs > token.expires_at.secs - 60 || (now.secs == token.expires_at.secs - 60
        && now.nanos >= token.expires_at.nanos)
}

#[verifier::external_type_specification]
#[verifier::external_body]
pub struct ExSystemTime(SystemTime);

/// Calls `std::time::SystemTime::now`: the system clock's reading. Nothing
/// is claimed of which instant it is.
#[verifier::external_body]
fn system_now() -> (res: SystemTime) {
    SystemTime::now()
}

/// Calls `SystemTime::duration_since` with the Unix epoch: the whole
/// seconds and the nanoseconds after them since the epoch, or `None` when
/// the time is before the epoch. The contract claims what `Duration`
/// documents: the nanoseconds are below one second.
#[verifier::external_body]
fn since_unix_epoch(t: &SystemTime) -> (res: Option<(u64, u32)>)
    ensures
        res matches Some(d) ==> d.1 < 1_000_000_000,
{
    match t.duration_since(std::time::UNIX_EPOCH) {
        Ok(d) => Some((d.as_secs(), d.subsec_nanos())),
        Err(_) => None,
    }
}

/// Calls `chrono::DateTime::<Utc>::from_timestamp` and reads the instant
/// back with `timestamp` and `timestamp_subsec_nanos`. The source makes the
/// date from the days and the time of day from the rest, and fails only when
/// the seconds are out of range or the nanoseconds invalid; read back, the
/// instant is the one given. The contract claims that: a result is the
/// instant given, every instant from the epoch to the last representable
/// second with nanoseconds below one second gives one, and no instant past
/// that second does.
#[verifier::external_body]
fn utc_from_timestamp(secs: i64, nanos: u32) -> (res: Option<Timestamp>)
    ensures
        res matches Some(t) ==> t == (Timestamp { secs, nanos }),
        0 <= secs <= max_timestamp() && nanos < 1_000_000_000 ==> res is Some,
        secs > max_timestamp() ==> res is None,
{
    match chrono::DateTime::from_timestamp(secs, nanos) {
        Some(t) => Some(Timestamp { secs: t.timestamp(), nanos: t.timestamp_subsec_nanos() }),
        None => None,
    }
}

/// Whether a clock reading is one that `chrono::Utc::now` returns: not
/// before the epoch, not past the last representable second, and with
/// nanoseconds below one second.
pub open spec fn valid_reading(t: Timestamp) -> bool {
    0 <= t.secs <= max_timestamp() && t.nanos < 1_000_000_000
}

/// The instant that a time since the Unix epoch makes, as `chrono::Utc::now`
/// makes it: `None` for a time before the epoch, and for seconds past the
/// last instant that `chrono` can represent.
pub open spec fn reading_of(since: Option<(u64, u32)>) -> Option<Timestamp> {
    match since {
        None => None,
        Some(d) => if d.0 <= max_timestamp() {
            Some(Timestamp { secs: d.0 as i64, nanos: d.1 })
        } else {
            None
        },
    }
}

/// Makes an instant from a time since the Unix epoch (`None` when the time
/// is before it).
pub fn reading_from(since: Option<(u64, u32)>) -> (res: Option<Timestamp>)
    requires
        since matches Some(d) ==> d.1 < 1_000_000_000,
    ensures
        res == reading_of(since),
{
    match since {
        None => None,
        Some((secs, nanos)) => {
            if secs > 9_223_372_036_854_775_807 {
                None
            } else {
                utc_from_timestamp(secs as i64, nanos)
            }
        },
    }
}

/// The current instant, read as `chrono::Utc::now` reads it: the system
/// clock's time since the Unix epoch made into a `chrono` instant. `None`
/// for a clock before the epoch or past the last instant that `chrono` can
/// represent.
pub fn current_time() -> (res: Option<Timestamp>)
    ensures
        res matches Some(t) ==> valid_reading(t),
{
    let clock = system_now();
    reading_from(since_unix_epoch(&clock))
}

impl TokenData {
    /// Whether the token counts as expired at `now`.
    pub fn is_expired_at(&self, now: Timestamp) -> (res: bool)
        ensures
            res == expired_at(*self, now),
    {
        let limit: i128 = self.expires_at.secs as i128 - 60;
        let at: i128 = now.secs as i128;
        at > limit || (at == limit && now.nanos >= self.expires_at.nanos)
    }

    /// Whether the token counts as expired now, by the system clock; `None`
    /// when the clock cannot be read (see `current_time`).
    pub fn is_expired(&self) -> (res: Option<bool>)
        ensures
            res matches Some(b) ==> exists|now: Timestamp|
                valid_reading(now) && b == expired_at(*self, now),
    {
        match current_time() {
            Some(now) => Some(self.is_expired_at(now)),
            None => None,
        }
    }
}

/// The number of seconds a new token lives, as the server hands it to
/// `chrono`: what the authorization server said (an hour when it said
/// nothing), converted to `i64` with `as`, which wraps values of 2^63 and
/// above to negative ones.
pub open spec fn lifetime(expires_in: Option<u64>) -> int {
    let given: int = match expires_in {
        Some(s) => s as int,
        None => 3600,
    };
    if given <= i64::MAX {
        given
    } else {
        given - 0x1_0000_0000_0000_0000
    }
}

/// Whether a token of the given lifetime, made at `now`, expires at an
/// instant that can be represented: the lifetime makes a `chrono` duration
/// (at most `i64::MAX / 1000` seconds either way) and the expiry lies
/// between the first and the last representable second. Elsewhere no
/// expiry can be represented.
pub open spec fn expiry_fits(now: Timestamp, expires_in: Option<u64>) -> bool {
    &&& -max_delta_secs() <= lifetime(expires_in) <= max_delta_secs()
    &&& min_timestamp() <= now.secs + lifetime(expires_in) <= max_timestamp()
}

/// The expiry of a token of the given lifetime made at `now`.
pub open spec fn expiry(now: Timestamp, expires_in: Option<u64>) -> Timestamp {
    Timestamp { secs: (now.secs + lifetime(expires_in)) as i64, nanos: now.nanos }
}

/// The expiry of a token of the given lifetime made at `now`, or `None`
/// when it cannot be represented.
fn expiry_after(now: Timestamp, expires_in: Option<u64>) -> (res: Option<Timestamp>)
    ensures
        res is Some <==> expiry_fits(now, expires_in),
        res matches Some(t) ==> t == expiry(now, expires_in),
{
    let given: u64 = match expires_in {
        Some(s) => s,
        None => 3600,
    };
    let secs: i64 = if given <= 9_223_372_036_854_775_807 {
        given as i64
    } else {
        let below: u64 = 18_446_744_073_709_551_615 - given;
        -(below as i64) - 1
    };
    assert(secs == lifetime(expires_in));
    let at: i128 = now.secs as i128 + secs as i128;
    if secs < -9_223_372_036_854_775 || secs > 9_223_372_036_854_775 || at < -8_334_601_315_200
        || at > 8_210_266_876_799 {
        None
    } else {
        Some(Timestamp { secs: at as i64, nanos: now.nanos })
    }
}

/// Why no token could be made from an answer of the authorization server.
#[derive(Debug, Clone, Copy, PartialEq, Eq, Structural)]
pub enum TokenError {
    /// The answer to an authorization carried no refresh token.
    NoRefreshToken,
    /// The expiry is not an instant that can be represented.
    ExpiryOutOfRange,
    /// The system clock could not be read (see `current_time`).
    ClockUnavailable,
}

/// The token that a refresh at `now` gives: the new access token, the new
/// refresh token when one was sent and the old one otherwise, and the
/// expiry after the lifetime; an error exactly when that expiry cannot be
/// represented.
pub fn refreshed_token_at(
    access_token: String,
    new_refresh_token: Option<String>,
    old_refresh_token: &str,
    expires_in: Option<u64>,
    now: Timestamp,
) -> (res: Result<TokenData, TokenError>)
    ensures
        res is Err <==> !expiry_fits(now, expires_in),
        res matches Err(e) ==> e == TokenError::ExpiryOutOfRange,
        res matches Ok(token) ==> {
            &&& token.access_token == access_token
            &&& token.refresh_token@ == match new_refresh_token {
                Some(r) => r@,
                None => old_refresh_token@,
            }
            &&& token.expires_at == expiry(now, expires_in)
        },
{
    let expires_at = match expiry_after(now, expires_in) {
        Some(t) => t,
        None => return Err(TokenError::ExpiryOutOfRange),
    };
    let refresh_token = match new_refresh_token {
        Some(r) => r,
        None => String::from_str(old_refresh_token),
    };
    Ok(TokenData { access_token, refresh_token, expires_at })
}

/// The token that a refresh gives, made now by the system clock.
pub fn refreshed_token(
    access_token: String,
    new_refresh_token: Option<String>,
    old_refresh_token: &str,
    expires_in: Option<u64>,
) -> (res: Result<TokenData, TokenError>)
    ensures
        res matches Ok(token) ==> {
            &&& token.access_token == access_token
            &&& token.refresh_token@ == match new_refresh_token {
                Some(r) => r@,
                None => old_refresh_token@,
            }
            &&& exists|now: Timestamp|
                valid_reading(now) && expiry_fits(now, expires_in) && token.expires_at == expiry(
                    now,
                    expires_in,
                )
        },
        res matches Err(e) ==> e == TokenError::ExpiryOutOfRange || e
            == TokenError::ClockUnavailable,
        res matches Err(TokenError::ExpiryOutOfRange) ==> exists|now: Timestamp|
            valid_reading(now) && !expiry_fits(now, expires_in),
        min_timestamp() <= lifetime(expires_in) <= 0 ==> !(res matches Err(
            TokenError::ExpiryOutOfRange,
        )),
{
    match current_time() {
        None => Err(TokenError::ClockUnavailable),
        Some(now) => refreshed_token_at(
            access_token,
            new_refresh_token,
            old_refresh_token,
            expires_in,
            now,
        ),
    }
}

/// The token that an authorization at `now` gives: an error when the
/// answer carried no refresh token, else an error exactly when the expiry
/// cannot be represented.
pub fn authorized_token_at(
    access_token: String,
    refresh_token: Option<String>,
    expires_in: Option<u64>,
    now: Timestamp,
) -> (res: Result<TokenData, TokenError>)
    ensures
        res == Err::<TokenData, TokenError>(TokenError::NoRefreshToken) <==> refresh_token is None,
        res == Err::<TokenData, TokenError>(TokenError::ExpiryOutOfRange) <==> (refresh_token is Some
            && !expiry_fits(now, expires_in)),
        res is Ok <==> (refresh_token is Some && expiry_fits(now, expires_in)),
        res matches Err(e) ==> e == TokenError::NoRefreshToken || e
            == TokenError::ExpiryOutOfRange,
        res matches Ok(token) ==> {
            &&& refresh_token is Some
            &&& token.access_token == access_token
            &&& token.refresh_token == refresh_token->0
            &&& token.expires_at == expiry(now, expires_in)
        },
{
    match refresh_token {
        Some(r) => {
            let expires_at = match expiry_after(now, expires_in) {
                Some(t) => t,
                None => return Err(TokenError::ExpiryOutOfRange),
            };
            Ok(TokenData { access_token, refresh_token: r, expires_at })
        },
        None => Err(TokenError::NoRefreshToken),
    }
}

/// The token that an authorization gives, made now by the system clock.
/// Without a refresh token the clock is not read.
pub fn authorized_token(
    access_token: String,
    refresh_token: Option<String>,
    expires_in: Option<u64>,
) -> (res: Result<TokenData, TokenError>)
    ensures
        res == Err::<TokenData, TokenError>(TokenError::NoRefreshToken) <==> refresh_token is None,
        res matches Ok(token) ==> {
            &&& refresh_token is Some
            &&& token.access_token == access_token
            &&& token.refresh_token == refresh_token->0
            &&& exists|now: Timestamp|
                valid_reading(now) && expiry_fits(now, expires_in) && token.expires_at == expiry(
                    now,
                    expires_in,
                )
        },
        res matches Err(TokenError::ExpiryOutOfRange) ==> refresh_token is Some && exists|
            now: Timestamp,
        | valid_reading(now) && !expiry_fits(now, expires_in),
        refresh_token is Some && min_timestamp() <= lifetime(expires_in) <= 0 ==> !(res matches Err(
            TokenError::ExpiryOutOfRange,
        )),
{
    if refresh_token.is_none() {
        return Err(TokenError::NoRefreshToken);
    }
    match current_time() {
        None => Err(TokenError::ClockUnavailable),
        Some(now) => authorized_token_at(access_token, refresh_token, expires_in, now),
    }
}

/// What the client does before a request to have a valid access token.
#[derive(Debug, PartialEq, Eq)]
pub enum AccessStep {
    /// The token is still valid: send this access token.
    UseCurrent(String),
    /// The token has expired: refresh it with this refresh token.
    Refresh(String),
}

/// Whether a step is the one to take with `token` at `now`.
pub open spec fn is_access_step(step: AccessStep, token: TokenData, now: Timestamp) -> bool {
    match step {
        AccessStep::UseCurrent(a) => !expired_at(token, now) && a@ == token.access_token@,
        AccessStep::Refresh(r) => expired_at(token, now) && r@ == token.refresh_token@,
    }
}

/// Decides at `now` whether the held token can be used or must be refreshed.
pub fn access_step_at(token: &TokenData, now: Timestamp) -> (res: AccessStep)
    ensures
        is_access_step(res, *token, now),
{
    if token.is_expired_at(now) {
        AccessStep::Refresh(token.refresh_token.clone())
    } else {
        AccessStep::UseCurrent(token.access_token.clone())
    }
}

/// Decides, by the system clock, whether the held token can be used or must
/// be refreshed; `None` when the clock cannot be read.
pub fn access_step(token: &TokenData) -> (res: Option<AccessStep>)
    ensures
        res matches Some(step) ==> exists|now: Timestamp|
            valid_reading(now) && is_access_step(step, *token, now),
{
    match current_time() {
        Some(now) => Some(access_step_at(token, now)),
        None => None,
    }
}

/// What the server does at start-up with the token it finds saved.
#[derive(Debug, Clone, Copy, PartialEq, Eq, Structural)]
pub enum StartupStep {
    /// The saved token is still valid: use it.
    UseSaved,
    /// The saved token has expired: refresh it and save the new one.
    RefreshSaved,
    /// No token is saved: run the authorization flow and save its token.
    Authorize,
}

/// The step to take at `now` with the saved token, if any.
pub open spec fn startup_decision(saved: Option<TokenData>, now: Timestamp) -> StartupStep {
    match saved {
        None => StartupStep::Authorize,
        Some(t) => if expired_at(t, now) {
            StartupStep::RefreshSaved
        } else {
            StartupStep::UseSaved
        },
    }
}

/// Decides at `now` what to do with the saved token, if any.
pub fn startup_step_at(saved: &Option<TokenData>, now: Timestamp) -> (res: StartupStep)
    ensures
        res == startup_decision(*saved, now),
{
    match saved {
        None => StartupStep::Authorize,
        Some(t) => if t.is_expired_at(now) {
            StartupStep::RefreshSaved
        } else {
            StartupStep::UseSaved
        },
    }
}

/// Decides, by the system clock, what to do with the saved token, if any.
/// Without a saved token the clock is not read; `None` when it is read and
/// cannot be.
pub fn startup_step(saved: &Option<TokenData>) -> (res: Option<StartupStep>)
    ensures
        saved is None ==> res == Some(StartupStep::Authorize),
        res matches Some(step) ==> exists|now: Timestamp|
            valid_reading(now) && step == startup_decision(*saved, now),
{
    match saved {
        None => {
            let ghost epoch = Timestamp { secs: 0, nanos: 0 };
            assert(valid_reading(epoch) && startup_decision(*saved, epoch)
                == StartupStep::Authorize);
            Some(StartupStep::Authorize)
        },
        Some(_) => match current_time() {
            Some(now) => Some(startup_step_at(saved, now)),
            None => None,
        },
    }
}

/// Once a token counts as expired, it counts as expired at every later
/// instant.
pub proof fn lemma_expiry_is_permanent(token: TokenData, earlier: Timestamp, later: Timestamp)
    requires
        not_before(later, earlier),
        expired_at(token, earlier),
    ensures
        expired_at(token, later),
{
}

/// A token made by a refresh at `now` counts as expired at that instant
/// exactly when it lives for a minute or less; a longer-lived one is then
/// used as it is, without another refresh.
pub proof fn lemma_fresh_token_is_used(token: TokenData, expires_in: Option<u64>, now: Timestamp)
    requires
        expiry_fits(now, expires_in),
        token.expires_at == expiry(now, expires_in),
    ensures
        expired_at(token, now) <==> lifetime(expires_in) <= 60,
{
}

} // verus!
