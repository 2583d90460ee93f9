use spotify_cli::callback::{parse_callback, CallbackError};

#[test]
fn callback_gives_code() {
    let line = "GET /callback?code=AQB%2Fx+y&state=s123 HTTP/1.1\r\n";
    assert_eq!(parse_callback(line, "s123"), Ok("AQB/x y".to_string()));
}

#[test]
fn callback_order_and_repeats() {
    assert_eq!(parse_callback("GET /cb?state=s&code=c HTTP/1.1", "s"), Ok("c".to_string()));
    assert_eq!(parse_callback("GET /cb?code=a&code=b&state=s HTTP/1.1", "s"), Ok("b".to_string()));
    assert_eq!(parse_callback("GET /cb?code=a=b&state=s HTTP/1.1", "s"), Ok("a=b".to_string()));
    assert_eq!(parse_callback("  GET \t /cb?code=c&state=s", "s"), Ok("c".to_string()));
}

#[test]
fn callback_state_mismatch() {
    assert_eq!(parse_callback("GET /cb?code=c&state=evil HTTP/1.1", "s"), Err(CallbackError::StateMismatch));
    assert_eq!(parse_callback("GET /cb?code=c HTTP/1.1", "s"), Err(CallbackError::StateMismatch));
    // The state is compared as sent, not decoded.
    assert_eq!(parse_callback("GET /cb?code=c&state=a%20b HTTP/1.1", "a b"), Err(CallbackError::StateMismatch));
    // Only the part between the first and a second '?' is the query.
    assert_eq!(parse_callback("GET /cb?code=c?state=s HTTP/1.1", "s"), Err(CallbackError::StateMismatch));
}

#[test]
fn callback_missing_code() {
    assert_eq!(parse_callback("GET /cb?state=s&error=access_denied HTTP/1.1", "s"), Err(CallbackError::MissingCode));
    assert_eq!(parse_callback("GET /cb?state=s&code HTTP/1.1", "s"), Err(CallbackError::MissingCode));
}

#[test]
fn callback_invalid_request() {
    assert_eq!(parse_callback("", "s"), Err(CallbackError::InvalidRequest));
    assert_eq!(parse_callback("GET", "s"), Err(CallbackError::InvalidRequest));
    assert_eq!(parse_callback("   \r\n", "s"), Err(CallbackError::InvalidRequest));
}

#[test]
fn callback_messages() {
    assert_eq!(CallbackError::InvalidRequest.message(), "Invalid HTTP request");
    assert_eq!(CallbackError::StateMismatch.message(), "State mismatch \u{2014} possible CSRF attack");
    assert_eq!(CallbackError::MissingCode.message(), "No code in callback");
}

#[test]
fn encoded_code_round_trips() {
    let raw = "AQ/+= x&y?z";
    let line = format!("GET /callback?code={}&state=st HTTP/1.1\r\n", spotify_cli::url::urlencoding_encode(raw));
    assert_eq!(parse_callback(&line, "st"), Ok(raw.to_string()));
}
