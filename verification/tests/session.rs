use merzah::session::{
    request_session_token, secure_cookie, session_cookie, session_expiry_after, session_lookup,
    sign_out_failure, trim_start_repeats, validate_session_token, SessionError, UnixTime,
};

#[test]
fn well_formed_token_is_accepted() {
    let token = "abcdefghijklmnopqrstuvwxyz0123456789-_ABCDEFG";
    assert!(validate_session_token(token).is_ok());
    assert!(validate_session_token(&"a".repeat(40)).is_ok());
    assert!(validate_session_token(&"Z".repeat(50)).is_ok());
}

#[test]
fn empty_token_is_invalid() {
    assert!(matches!(validate_session_token(""), Err(SessionError::InvalidToken)));
}

#[test]
fn token_length_is_bounded() {
    assert!(matches!(validate_session_token(&"a".repeat(39)), Err(SessionError::InvalidToken)));
    assert!(matches!(validate_session_token(&"a".repeat(51)), Err(SessionError::InvalidToken)));
}

#[test]
fn token_characters_are_restricted() {
    let mut token = "a".repeat(44);
    token.push('!');
    assert!(matches!(validate_session_token(&token), Err(SessionError::InvalidToken)));
    let spaced = format!("{} {}", "a".repeat(20), "b".repeat(20));
    assert!(matches!(validate_session_token(&spaced), Err(SessionError::InvalidToken)));
}

#[test]
fn token_length_counts_bytes() {
    // 'é' is alphanumeric and takes two bytes: 20 of them make 40 bytes.
    assert!(validate_session_token(&"é".repeat(20)).is_ok());
    // 26 of them make 52 bytes, though only 26 characters.
    assert!(validate_session_token(&"é".repeat(26)).is_err());
}

#[test]
fn session_cookie_lasts_one_hour() {
    assert_eq!(
        session_cookie("tok123"),
        "__Host-session=tok123; Path=/; Secure; HttpOnly; SameSite=Lax; Max-Age=3600"
    );
}

#[test]
fn secure_cookie_renders_attributes() {
    assert_eq!(
        secure_cookie("state", "xyz", 0),
        "state=xyz; Path=/; Secure; HttpOnly; SameSite=Lax; Max-Age=0"
    );
}

#[test]
fn session_lookup_outcomes() {
    let t = |secs: i64, nanos: u32| UnixTime { secs, nanos };
    assert!(matches!(session_lookup(None, t(100, 0)), Err(SessionError::SessionNotFound)));
    assert!(session_lookup(Some((t(101, 0), "later".to_string())), t(100, 0)).is_ok());
    assert!(session_lookup(Some((t(100, 500), "later".to_string())), t(100, 200)).is_ok());
    match session_lookup(Some((t(100, 0), "2024-05-01T10:00:00Z".to_string())), t(100, 0)) {
        Err(SessionError::SessionExpired(at)) => assert_eq!(at, "2024-05-01T10:00:00Z"),
        other => panic!("unexpected {:?}", other),
    }
    assert!(matches!(session_lookup(Some((t(100, 200), "x".to_string())), t(100, 500)), Err(SessionError::SessionExpired(_))));
    assert!(matches!(session_lookup(Some((t(5, 0), "x".to_string())), t(100, 0)), Err(SessionError::SessionExpired(_))));
}

#[test]
fn session_expiry_is_one_hour_on() {
    assert_eq!(session_expiry_after(UnixTime { secs: 1_700_000_000, nanos: 7 }), UnixTime { secs: 1_700_003_600, nanos: 7 });
    assert_eq!(session_expiry_after(UnixTime { secs: -3600, nanos: 0 }), UnixTime { secs: 0, nanos: 0 });
}

#[test]
fn sign_out_token_comes_from_cookie_or_bearer_header() {
    assert_eq!(request_session_token(Some("abc".to_string()), Some("Bearer xyz")), Some("abc".to_string()));
    assert_eq!(request_session_token(None, Some("Bearer xyz")), Some("xyz".to_string()));
    assert_eq!(request_session_token(None, Some("Bearer Bearer xyz")), Some("xyz".to_string()));
    assert_eq!(request_session_token(None, Some("Basic xyz")), None);
    assert_eq!(request_session_token(None, Some("bearer xyz")), None);
    assert_eq!(request_session_token(None, None), None);
    assert_eq!(trim_start_repeats("aaab", "a"), "b");
    assert_eq!(trim_start_repeats("abab", "ab"), "");
    assert_eq!(trim_start_repeats("ba", "a"), "ba");
}

#[test]
fn sign_out_failures_are_answered() {
    assert_eq!(sign_out_failure(&SessionError::SessionExpired("t".to_string())), (true, "Your session has expired".to_string()));
    assert_eq!(sign_out_failure(&SessionError::SessionNotFound), (true, "Session not found".to_string()));
    assert_eq!(sign_out_failure(&SessionError::InvalidToken), (true, "Invalid session token".to_string()));
    assert_eq!(sign_out_failure(&SessionError::UserNotFound), (true, "User not found for this session".to_string()));
    assert_eq!(
        sign_out_failure(&SessionError::DatabaseError("connection reset".to_string())),
        (false, "Database error occurred: connection reset".to_string())
    );
}

#[test]
fn ascii_tokens_of_letters_digits_dash_underscore() {
    assert!(validate_session_token(&"a".repeat(40)).is_ok());
    assert!(validate_session_token(&"A-_9".repeat(10)).is_ok());
    assert!(validate_session_token(&("a".repeat(39) + ".")).is_err());
    assert!(validate_session_token(&("a".repeat(39) + " ")).is_err());
}
