use spotify_mcp::error::{AppError, ErrorReply};
use spotify_mcp::requests::ResponseKind;
use spotify_mcp::response::{api_error_text, classify_status, format_status, status_text, StatusOutcome};

#[test]
fn statuses() {
    assert_eq!(classify_status(204, ResponseKind::OptionalJson), StatusOutcome::NoContent);
    assert_eq!(classify_status(204, ResponseKind::Json), StatusOutcome::Success);
    assert_eq!(classify_status(200, ResponseKind::OptionalJson), StatusOutcome::Success);
    assert_eq!(classify_status(299, ResponseKind::Empty), StatusOutcome::Success);
    assert_eq!(classify_status(300, ResponseKind::Empty), StatusOutcome::Failure);
    assert_eq!(classify_status(404, ResponseKind::OptionalJson), StatusOutcome::Failure);
    assert_eq!(classify_status(199, ResponseKind::Json), StatusOutcome::Failure);
}

#[test]
fn status_texts() {
    assert_eq!(status_text(404), "404 Not Found");
    assert_eq!(status_text(200), "200 OK");
    assert_eq!(status_text(799), "799 <unknown status code>");
    assert_eq!(format_status(418, Some("I'm a teapot")), "418 I'm a teapot");
    assert_eq!(format_status(599, None), "599 <unknown status code>");
    assert_eq!(
        api_error_text(401, "{\"error\":\"expired\"}"),
        "Spotify API error (401 Unauthorized): {\"error\":\"expired\"}"
    );
}

#[test]
fn error_codes_and_messages() {
    let cases = vec![
        (AppError::SpotifyApi("x".to_string()), -32002, "Spotify API error: x"),
        (AppError::Auth("x".to_string()), -32001, "Authentication error: x"),
        (AppError::Token("x".to_string()), -32001, "Token error: x"),
        (AppError::Http("x".to_string()), -32003, "HTTP error: x"),
        (AppError::Json("x".to_string()), -32000, "JSON error: x"),
        (AppError::Io("x".to_string()), -32000, "IO error: x"),
        (AppError::Other("x".to_string()), -32000, "x"),
    ];
    for (err, code, message) in cases {
        assert_eq!(err.error_code(), code);
        assert_eq!(err.message(), message);
        assert_eq!(err.to_reply(), ErrorReply { code, message: message.to_string() });
    }
}
