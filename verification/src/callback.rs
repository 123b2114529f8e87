//! The authorization callback: the browser is sent back to a local address
//! with the authorization code and the CSRF state in the query; the server
//! reads them from the first line of the HTTP request.

use vstd::prelude::*;

use crate::text::views;

verus! {

/// The characters that Rust's `char::is_whitespace` accepts: those with the
/// Unicode `White_Space` property.
pub open spec fn is_white_space(c: char) -> bool {
    let u: u32 = c as u32;
    (0x9 <= u <= 0xD) || u == 0x20 || u == 0x85 || u == 0xA0 || u == 0x1680 || (0x2000 <= u
        <= 0x200A) || u == 0x2028 || u == 0x2029 || u == 0x202F || u == 0x205F || u == 0x3000
}

/// Reading a line from left to right: the words finished so far and the
/// word being read.
pub open spec fn scan_words(s: Seq<char>) -> (Seq<Seq<char>>, Seq<char>)
    decreases s.len(),
{
    if s.len() == 0 {
        (Seq::empty(), Seq::empty())
    } else {
        let before = scan_words(s.drop_last());
        let c = s.last();
        if is_white_space(c) {
            (
                if before.1.len() > 0 {
                    before.0.push(before.1)
                } else {
                    before.0
                },
                Seq::empty(),
            )
        } else {
            (before.0, before.1.push(c))
        }
    }
}

/// The words of a line: its maximal runs of characters other than white
/// space, in order (as `str::split_whitespace` gives them).
pub open spec fn words(s: Seq<char>) -> Seq<Seq<char>> {
    let scanned = scan_words(s);
    if scanned.1.len() > 0 {
        scanned.0.push(scanned.1)
    } else {
        scanned.0
    }
}

/// Whether a character is white space.
pub fn is_whitespace_char(c: char) -> (res: bool)
    ensures
        res == is_white_space(c),
{
    let u: u32 = c as u32;
    (0x9 <= u && u <= 0xD) || u == 0x20 || u == 0x85 || u == 0xA0 || u == 0x1680 || (0x2000 <= u
        && u <= 0x200A) || u == 0x2028 || u == 0x2029 || u == 0x202F || u == 0x205F || u == 0x3000
}

/// The words of a line.
pub fn split_words(line: &str) -> (res: Vec<String>)
    ensures
        views(res@) == words(line@),
{
    let n = line.unicode_len();
    let mut done: Vec<String> = Vec::new();
    let mut start: usize = 0;
    let mut i: usize = 0;
    while i < n
        invariant
            n == line@.len(),
            start <= i <= n,
            views(done@) == scan_words(line@.take(i as int)).0,
            scan_words(line@.take(i as int)).1 == line@.subrange(start as int, i as int),
        decreases n - i,
    {
        let c = line.get_char(i);
        assert(line@.take(i + 1).drop_last() =~= line@.take(i as int));
        if is_whitespace_char(c) {
            if start < i {
                let word = line.substring_char(start, i);
                let ghost before = done@;
                done.push(String::from_str(word));
                assert(views(done@) =~= views(before).push(word@));
            }
            start = i + 1;
            assert(line@.subrange(start as int, i + 1) =~= Seq::<char>::empty());
        } else {
            assert(line@.subrange(start as int, i + 1) =~= line@.subrange(start as int, i as int).push(
                c,
            ));
        }
        i = i + 1;
    }
    assert(line@.take(n as int) =~= line@);
    if start < n {
        let word = line.substring_char(start, n);
        let ghost before = done@;
        done.push(String::from_str(word));
        assert(views(done@) =~= views(before).push(word@));
    }
    done
}

/// The target of an HTTP request: the second word of its request line.
pub fn request_target(request_line: &str) -> (res: Option<String>)
    ensures
        match res {
            Some(t) => words(request_line@).len() >= 2 && t@ == words(request_line@)[1],
            None => words(request_line@).len() < 2,
        },
{
    let mut parts = split_words(request_line);
    if parts.len() < 2 {
        None
    } else {
        let ghost all = views(parts@);
        let target = parts.swap_remove(1);
        proof {
            assert(all[1] == target@);
        }
        Some(target)
    }
}

/// The address that the callback's target is read as.
pub open spec fn callback_address(target: Seq<char>) -> Seq<char> {
    "http://127.0.0.1:8888"@ + target
}

/// What `url` makes of an address: the decoded key-value pairs of its
/// query, in order, or the text of the parse error.
pub uninterp spec fn parsed_query(url: Seq<char>) -> Result<Seq<(Seq<char>, Seq<char>)>, Seq<char>>;

/// The views of key-value pairs.
pub open spec fn pair_views(pairs: Seq<(String, String)>) -> Seq<(Seq<char>, Seq<char>)> {
    pairs.map_values(|p: (String, String)| (p.0@, p.1@))
}

/// Calls `reqwest::Url::parse` on the address and, when it parses, collects
/// its `query_pairs` (keys and values percent- and plus-decoded) in order;
/// otherwise returns the parse error's text. The contract claims only that
/// the result is `parsed_query` of the address.
#[verifier::external_body]
fn query_pairs(url: &str) -> (res: Result<Vec<(String, String)>, String>)
    ensures
        match res {
            Ok(pairs) => parsed_query(url@) == Ok::<Seq<(Seq<char>, Seq<char>)>, Seq<char>>(
                pair_views(pairs@),
            ),
            Err(e) => parsed_query(url@) == Err::<Seq<(Seq<char>, Seq<char>)>, Seq<char>>(e@),
        },
{
    match reqwest::Url::parse(url) {
        Ok(parsed) => Ok(
            parsed.query_pairs().map(|(k, v)| (k.into_owned(), v.into_owned())).collect(),
        ),
        Err(e) => Err(e.to_string()),
    }
}

/// Why a callback was refused.
#[derive(Debug, PartialEq, Eq)]
pub enum CallbackError {
    /// The request line has no target.
    InvalidRequest,
    /// The target does not make a valid address; the parse error's text.
    BadUrl(String),
    /// The query has no `code`.
    NoCode,
    /// The query has no `state`.
    NoState,
    /// The `state` differs from the one the authorization was started with.
    StateMismatch,
}

/// The value of the first pair at or after position `i` whose key is `key`.
pub open spec fn first_value_from(pairs: Seq<(Seq<char>, Seq<char>)>, key: Seq<char>, i: int) -> Option<
    Seq<char>,
>
    decreases pairs.len() - i,
{
    if i < 0 || i >= pairs.len() {
        None
    } else if pairs[i].0 == key {
        Some(pairs[i].1)
    } else {
        first_value_from(pairs, key, i + 1)
    }
}

/// The value of the first pair whose key is `key`.
pub open spec fn first_value(pairs: Seq<(Seq<char>, Seq<char>)>, key: Seq<char>) -> Option<Seq<char>> {
    first_value_from(pairs, key, 0)
}

/// What a callback with the given query pairs yields: the code, when there
/// is a code and a state and the state is the expected one.
pub open spec fn callback_outcome(pairs: Seq<(Seq<char>, Seq<char>)>, expected_state: Seq<char>) -> Result<
    Seq<char>,
    CallbackError,
> {
    match first_value(pairs, "code"@) {
        None => Err(CallbackError::NoCode),
        Some(code) => match first_value(pairs, "state"@) {
            None => Err(CallbackError::NoState),
            Some(state) => if state == expected_state {
                Ok(code)
            } else {
                Err(CallbackError::StateMismatch)
            },
        },
    }
}

/// The views of a callback result.
pub open spec fn outcome_view(res: Result<String, CallbackError>) -> Result<Seq<char>, CallbackError> {
    match res {
        Ok(code) => Ok(code@),
        Err(e) => Err(e),
    }
}

fn find_value(pairs: &Vec<(String, String)>, key: &str) -> (res: Option<String>)
    ensures
        match res {
            Some(v) => first_value(pair_views(pairs@), key@) == Some(v@),
            None => first_value(pair_views(pairs@), key@) is None,
        },
{
    let ghost all = pair_views(pairs@);
    let wanted = String::from_str(key);
    let mut i: usize = 0;
    while i < pairs.len()
        invariant
            i <= pairs.len(),
            wanted@ == key@,
            all == pair_views(pairs@),
            first_value_from(all, key@, 0) == first_value_from(all, key@, i as int),
        decreases pairs.len() - i,
    {
        if pairs[i].0 == wanted {
            return Some(pairs[i].1.clone());
        }
        i = i + 1;
    }
    None
}

/// The code of a callback with the given query pairs, checked against the
/// state that the authorization was started with.
pub fn code_from_pairs(pairs: &Vec<(String, String)>, expected_state: &str) -> (res: Result<
    String,
    CallbackError,
>)
    ensures
        outcome_view(res) == callback_outcome(pair_views(pairs@), expected_state@),
{
    let code = match find_value(pairs, "code") {
        Some(c) => c,
        None => return Err(CallbackError::NoCode),
    };
    let state = match find_value(pairs, "state") {
        Some(s) => s,
        None => return Err(CallbackError::NoState),
    };
    let expected = String::from_str(expected_state);
    if state == expected {
        Ok(code)
    } else {
        Err(CallbackError::StateMismatch)
    }
}

/// Reads the authorization code from the request line of the callback.
pub fn callback_code(request_line: &str, expected_state: &str) -> (res: Result<String, CallbackError>)
    ensures
        words(request_line@).len() < 2 ==> res matches Err(CallbackError::InvalidRequest),
        words(request_line@).len() >= 2 ==> match parsed_query(
            callback_address(words(request_line@)[1]),
        ) {
            Err(msg) => res matches Err(CallbackError::BadUrl(m)) && m@ == msg,
            Ok(pairs) => outcome_view(res) == callback_outcome(pairs, expected_state@),
        },
{
    let target = match request_target(request_line) {
        Some(t) => t,
        None => return Err(CallbackError::InvalidRequest),
    };
    let mut address = String::from_str("http://127.0.0.1:8888");
    address.append(target.as_str());
    match query_pairs(address.as_str()) {
        Ok(pairs) => code_from_pairs(&pairs, expected_state),
        Err(msg) => Err(CallbackError::BadUrl(msg)),
    }
}

impl CallbackError {
    /// How the refusal is displayed.
    pub fn message(&self) -> (res: String)
        ensures
            res@ == match *self {
                CallbackError::InvalidRequest => "Invalid HTTP request"@,
                CallbackError::BadUrl(m) => m@,
                CallbackError::NoCode => "No code parameter in callback"@,
                CallbackError::NoState => "No state parameter in callback"@,
                CallbackError::StateMismatch => "CSRF state mismatch"@,
            },
    {
        match self {
            CallbackError::InvalidRequest => String::from_str("Invalid HTTP request"),
            CallbackError::BadUrl(m) => m.clone(),
            CallbackError::NoCode => String::from_str("No code parameter in callback"),
            CallbackError::NoState => String::from_str("No state parameter in callback"),
            CallbackError::StateMismatch => String::from_str("CSRF state mismatch"),
        }
    }
}

/// A callback yields a code only when its first `state` is the expected one
/// and it has a `code`; the code is then the value of its first `code`.
pub proof fn lemma_code_requires_state(pairs: Seq<(Seq<char>, Seq<char>)>, expected_state: Seq<char>)
    ensures
        callback_outcome(pairs, expected_state) is Ok <==> (first_value(pairs, "code"@) is Some
            && first_value(pairs, "state"@) == Some(expected_state)),
        callback_outcome(pairs, expected_state) matches Ok(code) ==> first_value(pairs, "code"@)
            == Some(code),
{
}

} // verus!
