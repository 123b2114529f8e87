use spotify_mcp::callback::{
    callback_code, code_from_pairs, is_whitespace_char, request_target, split_words, CallbackError,
};

#[test]
fn words_of_a_line() {
    assert_eq!(split_words(""), Vec::<String>::new());
    assert_eq!(split_words("   "), Vec::<String>::new());
    assert_eq!(split_words("GET /callback HTTP/1.1\r\n"), vec!["GET", "/callback", "HTTP/1.1"]);
    assert_eq!(split_words("  a\t\tb\u{3000}c  "), vec!["a", "b", "c"]);
    assert!(is_whitespace_char('\u{a0}'));
    assert!(!is_whitespace_char('x'));
}

#[test]
fn request_targets() {
    assert_eq!(request_target("GET /x?a=1 HTTP/1.1"), Some("/x?a=1".to_string()));
    assert_eq!(request_target("GET"), None);
}

#[test]
fn good_callback() {
    assert_eq!(
        callback_code("GET /callback?code=abc%20d+e&state=xyz HTTP/1.1\r\n", "xyz"),
        Ok("abc d e".to_string())
    );
    assert_eq!(
        callback_code("GET /callback?state=xyz&code=1&code=2 HTTP/1.1", "xyz"),
        Ok("1".to_string())
    );
}

#[test]
fn refused_callbacks() {
    assert_eq!(callback_code("", "s"), Err(CallbackError::InvalidRequest));
    assert_eq!(callback_code("GET /callback?state=s HTTP/1.1", "s"), Err(CallbackError::NoCode));
    assert_eq!(callback_code("GET /callback?code=c HTTP/1.1", "s"), Err(CallbackError::NoState));
    assert_eq!(callback_code("GET /callback?code=c&state=t HTTP/1.1", "s"), Err(CallbackError::StateMismatch));
    assert!(matches!(callback_code("GET x HTTP/1.1", "s"), Err(CallbackError::BadUrl(_))));
    assert_eq!(CallbackError::StateMismatch.message(), "CSRF state mismatch");
    assert_eq!(CallbackError::NoCode.message(), "No code parameter in callback");
    assert_eq!(CallbackError::NoState.message(), "No state parameter in callback");
    assert_eq!(CallbackError::InvalidRequest.message(), "Invalid HTTP request");
}

#[test]
fn pairs_decide() {
    let pairs = vec![("state".to_string(), "s".to_string()), ("code".to_string(), "c".to_string())];
    assert_eq!(code_from_pairs(&pairs, "s"), Ok("c".to_string()));
    assert_eq!(code_from_pairs(&pairs, "t"), Err(CallbackError::StateMismatch));
    assert_eq!(code_from_pairs(&vec![], "t"), Err(CallbackError::NoCode));
}
