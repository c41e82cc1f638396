//! Session tokens and the cookies that carry them.

use vstd::prelude::*;

use crate::text::{decimal, is_ascii_text, push_decimal, starts_with, text_starts_with};

verus! {

/// How long a session lasts, in hours.
pub const SESSION_DURATION_IN_HOURS: u64 = 1;

/// Why a session could not be used.
#[derive(Clone, Debug)]
pub enum SessionError {
    /// The token is malformed.
    InvalidToken,
    /// No session holds the token.
    SessionNotFound,
    /// The session expired at the given time.
    SessionExpired(String),
    /// The session's user no longer exists.
    UserNotFound,
    /// The session store failed.
    DatabaseError(String),
}

/// Whether `c` is alphabetic or numeric in Unicode (`char::is_alphanumeric`).
pub uninterp spec fn unicode_alphanumeric(c: char) -> bool;

/// Tells whether a character is alphanumeric with std's `char::is_alphanumeric`.
///
/// Trusted: std's documentation defines the answer by the Unicode `Alphabetic`
/// and `Numeric` properties; among ASCII characters these are exactly the
/// letters and the digits. The answer for other characters is left unsaid.
#[verifier::external_body]
fn char_is_alphanumeric(c: char) -> (alphanumeric: bool)
    ensures
        alphanumeric == unicode_alphanumeric(c),
        (c as u32) < 128 ==> (alphanumeric <==> (48 <= (c as u32) <= 57 || 65 <= (c as u32) <= 90
            || 97 <= (c as u32) <= 122)),
{
    c.is_alphanumeric()
}

/// A character a session token may hold: alphanumeric, `-` or `_`.
pub open spec fn token_char_allowed(c: char) -> bool {
    unicode_alphanumeric(c) || c == '-' || c == '_'
}

/// A well-formed session token: non-empty, 40 to 50 bytes long (`str::len`, the
/// length of its UTF-8 encoding), and made of allowed characters only.
pub open spec fn is_valid_session_token(token: &str) -> bool {
    &&& token@.len() > 0
    &&& 40 <= token.len() <= 50
    &&& forall|i: int| 0 <= i < token@.len() ==> token_char_allowed(#[trigger] token@[i])
}

/// An ASCII character a session token may hold: a letter, a digit, `-` or `_`.
pub open spec fn ascii_token_char(c: char) -> bool {
    ('0' <= c <= '9') || ('A' <= c <= 'Z') || ('a' <= c <= 'z') || c == '-' || c == '_'
}

/// Checks the shape of a session token before it is looked up. A token of
/// ASCII characters passes when it is 40 to 50 characters long and made of
/// letters, digits, `-` and `_`.
pub fn validate_session_token(token: &str) -> (checked: Result<(), SessionError>)
    ensures
        checked is Ok <==> is_valid_session_token(token),
        checked matches Err(e) ==> e is InvalidToken,
        is_ascii_text(token@) ==> (checked is Ok <==> (token@.len() > 0 && 40 <= token.len() <= 50
            && forall|i: int| 0 <= i < token@.len() ==> ascii_token_char(#[trigger] token@[i]))),
{
    if token.is_empty() {
        return Err(SessionError::InvalidToken);
    }
    if token.len() < 40 || token.len() > 50 {
        return Err(SessionError::InvalidToken);
    }
    let n = token.unicode_len();
    let mut i: usize = 0;
    while i < n
        invariant
            n == token@.len(),
            i <= n,
            forall|j: int| 0 <= j < i ==> token_char_allowed(#[trigger] token@[j]),
            forall|j: int|
                0 <= j < i && (token@[j] as u32) < 128 ==> ascii_token_char(#[trigger] token@[j]),
        decreases n - i,
    {
        let c = token.get_char(i);
        if !(char_is_alphanumeric(c) || c == '-' || c == '_') {
            assert((c as u32) < 128 ==> !ascii_token_char(c));
            return Err(SessionError::InvalidToken);
        }
        i = i + 1;
    }
    Ok(())
}

/// The cookie attributes every cookie of the site carries.
pub open spec fn cookie_attributes() -> Seq<char> {
    "; Path=/; Secure; HttpOnly; SameSite=Lax; Max-Age="@
}

/// `name=value; Path=/; Secure; HttpOnly; SameSite=Lax; Max-Age=<max_age>`.
pub open spec fn secure_cookie_text(name: Seq<char>, value: Seq<char>, max_age: nat) -> Seq<char> {
    name + "="@ + value + cookie_attributes() + decimal(max_age)
}

/// A `Set-Cookie` value that is sent only over HTTPS, hidden from scripts, and
/// kept for `max_age` seconds.
pub fn secure_cookie(name: &str, value: &str, max_age: u64) -> (cookie: String)
    ensures
        cookie@ == secure_cookie_text(name@, value@, max_age as nat),
{
    let mut cookie = name.to_string();
    cookie.append("=");
    cookie.append(value);
    cookie.append("; Path=/; Secure; HttpOnly; SameSite=Lax; Max-Age=");
    push_decimal(&mut cookie, max_age);
    cookie
}

/// The session cookie for `session_token`, kept for the session's lifetime.
pub fn session_cookie(session_token: &str) -> (cookie: String)
    ensures
        cookie@ == secure_cookie_text(
            "__Host-session"@,
            session_token@,
            (SESSION_DURATION_IN_HOURS * 60 * 60) as nat,
        ),
{
    secure_cookie("__Host-session", session_token, SESSION_DURATION_IN_HOURS * 60 * 60)
}

/// Seconds a session lives.
pub open spec fn session_seconds() -> int {
    SESSION_DURATION_IN_HOURS * 3600
}

/// A point in time: whole seconds since the Unix epoch and nanoseconds into
/// the second.
#[derive(Clone, Copy, Debug, PartialEq, Eq, Structural)]
pub struct UnixTime {
    pub secs: i64,
    pub nanos: u32,
}

/// `a` is at or before `b`.
pub open spec fn at_or_before(a: UnixTime, b: UnixTime) -> bool {
    a.secs < b.secs || (a.secs == b.secs && a.nanos <= b.nanos)
}

/// When a session that starts, or is extended, at `from` expires: one session
/// duration later.
pub fn session_expiry_after(from: UnixTime) -> (expiry: UnixTime)
    requires
        from.secs <= i64::MAX - 3600,
    ensures
        expiry.secs == from.secs + session_seconds(),
        expiry.nanos == from.nanos,
{
    UnixTime { secs: from.secs + (SESSION_DURATION_IN_HOURS * 3600) as i64, nanos: from.nanos }
}

/// What looking a session up finds, given the expiry of the session holding the
/// token (with its text for the error) and the time now: `SessionNotFound` when
/// no session holds the token, `SessionExpired` when it expires at or before
/// `now`.
pub fn session_lookup(found: Option<(UnixTime, String)>, now: UnixTime) -> (checked: Result<
    (),
    SessionError,
>)
    ensures
        found is None ==> (checked matches Err(e) && e is SessionNotFound),
        found matches Some(session) ==> (checked is Ok <==> !at_or_before(session.0, now)),
        found matches Some(session) ==> (at_or_before(session.0, now) ==> (checked matches Err(
            SessionError::SessionExpired(at),
        ) && at == session.1)),
{
    match found {
        None => Err(SessionError::SessionNotFound),
        Some((expires_at, text)) => {
            if expires_at.secs < now.secs || (expires_at.secs == now.secs && expires_at.nanos
                <= now.nanos) {
                Err(SessionError::SessionExpired(text))
            } else {
                Ok(())
            }
        },
    }
}

/// `text` with every leading repetition of `prefix` removed
/// (`str::trim_start_matches` with a non-empty string pattern).
pub open spec fn trim_prefix_repeats(text: Seq<char>, prefix: Seq<char>) -> Seq<char>
    decreases text.len(),
{
    if prefix.len() > 0 && starts_with(text, prefix) {
        trim_prefix_repeats(text.skip(prefix.len() as int), prefix)
    } else {
        text
    }
}

/// Removes every leading repetition of `prefix` from `text`.
pub fn trim_start_repeats(text: &str, prefix: &str) -> (trimmed: String)
    requires
        prefix@.len() > 0,
    ensures
        trimmed@ == trim_prefix_repeats(text@, prefix@),
{
    let n = text.unicode_len();
    let p = prefix.unicode_len();
    let mut start: usize = 0;
    assert(text@.skip(0) =~= text@);
    while p <= n - start && text_starts_with(text.substring_char(start, n), prefix)
        invariant
            n == text@.len(),
            p == prefix@.len(),
            p > 0,
            start <= n,
            trim_prefix_repeats(text@.skip(start as int), prefix@) == trim_prefix_repeats(text@, prefix@),
        decreases n - start,
    {
        assert(text@.subrange(start as int, n as int) =~= text@.skip(start as int));
        assert(text@.skip(start as int).skip(p as int) =~= text@.skip(start + p));
        start = start + p;
    }
    assert(text@.subrange(start as int, n as int) =~= text@.skip(start as int));
    proof {
        if p > n - start {
            assert(!starts_with(text@.skip(start as int), prefix@));
        }
    }
    text.substring_char(start, n).to_string()
}

/// The session token a sign-out request carries: the session cookie's value,
/// or else the token of an `Authorization: Bearer <token>` header (with every
/// leading `Bearer ` removed); `None` when neither is there.
pub fn request_session_token(cookie: Option<String>, authorization: Option<&str>) -> (token: Option<
    String,
>)
    ensures
        cookie matches Some(c) ==> token == Some(c),
        cookie is None ==> match authorization {
            Some(h) => if starts_with(h@, "Bearer "@) {
                token matches Some(t) && t@ == trim_prefix_repeats(h@, "Bearer "@)
            } else {
                token is None
            },
            None => token is None,
        },
{
    match cookie {
        Some(c) => Some(c),
        None => match authorization {
            Some(h) => {
                proof {
                    reveal_strlit("Bearer ");
                }
                if text_starts_with(h, "Bearer ") {
                    Some(trim_start_repeats(h, "Bearer "))
                } else {
                    None
                }
            },
            None => None,
        },
    }
}

/// The answer to a sign-out whose session could not be deleted: whether it is
/// an authorization failure (otherwise a server error), and the message.
pub fn sign_out_failure(error: &SessionError) -> (answer: (bool, String))
    ensures
        match error {
            SessionError::SessionExpired(_) => answer.0 && answer.1@ == "Your session has expired"@,
            SessionError::SessionNotFound => answer.0 && answer.1@ == "Session not found"@,
            SessionError::InvalidToken => answer.0 && answer.1@ == "Invalid session token"@,
            SessionError::UserNotFound => answer.0 && answer.1@ == "User not found for this session"@,
            SessionError::DatabaseError(m) => !answer.0 && answer.1@ == "Database error occurred: "@
                + m@,
        },
{
    match error {
        SessionError::SessionExpired(_) => (true, "Your session has expired".to_string()),
        SessionError::SessionNotFound => (true, "Session not found".to_string()),
        SessionError::InvalidToken => (true, "Invalid session token".to_string()),
        SessionError::UserNotFound => (true, "User not found for this session".to_string()),
        SessionError::DatabaseError(m) => {
            let mut message = "Database error occurred: ".to_string();
            message.append(m.as_str());
            (false, message)
        },
    }
}

} // verus!
