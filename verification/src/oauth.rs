//! OAuth sign-in: the anti-forgery state, provider settings, authorization
//! URLs, and turning provider profiles into the platform's user data.

use base64::{engine::general_purpose, Engine as _};
use rand::{thread_rng, Rng};
use vstd::prelude::*;

use crate::session::{secure_cookie, secure_cookie_text};
use crate::text::{option_text, same_text};

verus! {

/// Why an OAuth sign-in step failed.
#[derive(Clone, Debug)]
pub enum OAuthError {
    MissingEnvVar(String),
    UrlBuildError(String),
    HttpError(String),
    ParseError(String),
    UserNotFound,
    DatabaseError(String),
    InvalidResponse,
}

pub type OAuthResult<T> = Result<T, OAuthError>;

/// Why the anti-forgery state could not be made or checked.
#[derive(Clone, Copy, Debug, PartialEq, Eq, Structural)]
pub enum StateError {
    GenerationError,
    ValidationFailed,
}

pub type StateResult<T> = Result<T, StateError>;

/// The state a provider hands back is accepted against the one kept in the
/// browser's cookie: both are present and they are the same.
pub open spec fn state_accepted(state: Seq<char>, stored_state: Seq<char>) -> bool {
    state.len() > 0 && stored_state.len() > 0 && state == stored_state
}

/// The state returned by the provider matches the one stored in the browser's
/// cookie, and neither is empty.
pub fn validate_state(state: &str, stored_state: &str) -> (valid: bool)
    ensures
        valid == state_accepted(state@, stored_state@),
{
    !state.is_empty() && !stored_state.is_empty() && same_text(state, stored_state)
}

/// The character of the URL-safe base64 alphabet for a six-bit value:
/// `A`..=`Z`, `a`..=`z`, `0`..=`9`, then `-` and `_`.
pub open spec fn url_safe_digit(v: int) -> char {
    if v < 26 {
        (65 + v) as char
    } else if v < 52 {
        (97 + v - 26) as char
    } else if v < 62 {
        (48 + v - 52) as char
    } else if v == 62 {
        '-'
    } else {
        '_'
    }
}

/// A character of the URL-safe base64 alphabet.
pub open spec fn is_url_safe_char(c: char) -> bool {
    ('A' <= c <= 'Z') || ('a' <= c <= 'z') || ('0' <= c <= '9') || c == '-' || c == '_'
}

/// `bytes` in URL-safe base64 without padding (RFC 4648, section 5): each group
/// of three bytes becomes four characters of six bits each, and a trailing
/// group of one or two bytes becomes two or three characters.
pub open spec fn base64_url_no_pad(bytes: Seq<u8>) -> Seq<char>
    decreases bytes.len(),
{
    if bytes.len() == 0 {
        Seq::empty()
    } else if bytes.len() == 1 {
        seq![url_safe_digit((bytes[0] as int) / 4), url_safe_digit(((bytes[0] as int) % 4) * 16)]
    } else if bytes.len() == 2 {
        seq![
            url_safe_digit((bytes[0] as int) / 4),
            url_safe_digit(((bytes[0] as int) % 4) * 16 + (bytes[1] as int) / 16),
            url_safe_digit(((bytes[1] as int) % 16) * 4),
        ]
    } else {
        seq![
            url_safe_digit((bytes[0] as int) / 4),
            url_safe_digit(((bytes[0] as int) % 4) * 16 + (bytes[1] as int) / 16),
            url_safe_digit(((bytes[1] as int) % 16) * 4 + (bytes[2] as int) / 64),
            url_safe_digit((bytes[2] as int) % 64),
        ] + base64_url_no_pad(bytes.skip(3))
    }
}

/// The encoding has four characters per three bytes, plus two or three for a
/// trailing one or two bytes, all from the URL-safe alphabet.
pub proof fn lemma_base64_shape(bytes: Seq<u8>)
    ensures
        base64_url_no_pad(bytes).len() == (4 * bytes.len() + 2) / 3,
        forall|i: int|
            0 <= i < base64_url_no_pad(bytes).len() ==> is_url_safe_char(
                #[trigger] base64_url_no_pad(bytes)[i],
            ),
    decreases bytes.len(),
{
    if bytes.len() >= 3 {
        lemma_base64_shape(bytes.skip(3));
        let head = seq![
            url_safe_digit((bytes[0] as int) / 4),
            url_safe_digit(((bytes[0] as int) % 4) * 16 + (bytes[1] as int) / 16),
            url_safe_digit(((bytes[1] as int) % 16) * 4 + (bytes[2] as int) / 64),
            url_safe_digit((bytes[2] as int) % 64),
        ];
        let rest = base64_url_no_pad(bytes.skip(3));
        assert forall|i: int| 0 <= i < (head + rest).len() implies is_url_safe_char(
            #[trigger] (head + rest)[i],
        ) by {
            if i >= 4 {
                assert((head + rest)[i] == rest[i - 4]);
            }
        }
    }
}

/// Encodes bytes with the base64 crate's `general_purpose::URL_SAFE_NO_PAD.encode`.
///
/// Trusted: the engine encodes with the URL-safe alphabet of RFC 4648 and
/// writes no padding, which is what `base64_url_no_pad` states. The `requires`
/// keeps the encoded length from overflowing, where the crate panics.
#[verifier::external_body]
fn base64_encode_url_no_pad(bytes: &[u8]) -> (text: String)
    requires
        bytes@.len() <= usize::MAX / 2,
    ensures
        text@ == base64_url_no_pad(bytes@),
{
    general_purpose::URL_SAFE_NO_PAD.encode(bytes)
}

/// Fills 32 bytes with rand's `thread_rng().fill`.
///
/// Trusted for nothing but its type: the bytes are random and no clause speaks
/// of them.
#[verifier::external_body]
fn random_state_bytes() -> (bytes: [u8; 32]) {
    let mut bytes = [0u8; 32];
    thread_rng().fill(&mut bytes);
    bytes
}

/// Encodes anti-forgery bytes as URL-safe base64 without padding; fails only for
/// no bytes at all.
pub fn encode_state(bytes: &[u8]) -> (state: StateResult<String>)
    requires
        bytes@.len() <= usize::MAX / 2,
    ensures
        state is Ok <==> bytes@.len() > 0,
        state matches Ok(s) ==> s@ == base64_url_no_pad(bytes@) && s@.len() == (4 * bytes@.len()
            + 2) / 3 && (forall|i: int| 0 <= i < s@.len() ==> is_url_safe_char(#[trigger] s@[i])),
        state matches Err(e) ==> e == StateError::GenerationError,
{
    let encoded = base64_encode_url_no_pad(bytes);
    proof {
        lemma_base64_shape(bytes@);
    }
    if encoded.as_str().is_empty() {
        return Err(StateError::GenerationError);
    }
    Ok(encoded)
}

/// A fresh anti-forgery state: 32 random bytes in URL-safe base64, which is
/// never empty, so this never fails.
pub fn generate_state() -> (state: StateResult<String>)
    ensures
        state matches Ok(s) && s@.len() == 43 && (exists|drawn: Seq<u8>|
            drawn.len() == 32 && s@ == base64_url_no_pad(drawn)) && (forall|i: int|
            0 <= i < s@.len() ==> is_url_safe_char(#[trigger] s@[i])),
{
    let bytes = random_state_bytes();
    assert(bytes@.len() == 32);
    let state = encode_state(&bytes);
    assert(state matches Ok(s) && s@ == base64_url_no_pad(bytes@));
    state
}

/// A sign-in round trip checks out: the state `generate_state` issues (43
/// characters) is accepted when the provider hands it back unchanged, and any
/// other answer is refused, an empty one included.
pub proof fn law_issued_state_round_trips(issued: Seq<char>, returned: Seq<char>)
    requires
        issued.len() == 43,
    ensures
        state_accepted(returned, issued) <==> returned == issued,
{
}

/// The tokens an OAuth provider returns for an authorization code.
#[derive(Clone, Debug)]
pub struct TokenResponse {
    pub access_token: String,
    pub expires_in: i64,
    pub token_type: String,
    pub scope: String,
    pub refresh_token: Option<String>,
}

/// A user's profile as an OAuth provider reports it.
#[derive(Clone, Debug)]
pub struct ProviderUser {
    pub id: String,
    pub email: String,
    pub name: Option<String>,
    pub picture: Option<String>,
}

/// The tokens Google returns for an authorization code.
#[derive(Clone, Debug)]
pub struct GoogleTokenResponse {
    pub access_token: String,
    pub expires_in: i64,
    pub token_type: String,
    pub scope: String,
}

/// A user's profile as Google reports it.
#[derive(Clone, Debug)]
pub struct GoogleUser {
    pub id: String,
    pub email: String,
    pub name: Option<String>,
    pub picture: Option<String>,
}

/// What `reqwest::Url::parse_with_params(base, params)` renders, when `base`
/// parses as an absolute URL.
pub uninterp spec fn url_with_params(
    base: Seq<char>,
    params: Seq<(Seq<char>, Seq<char>)>,
) -> Option<Seq<char>>;

/// The texts of a list of key-value pairs.
pub open spec fn pair_texts(params: Seq<(String, String)>) -> Seq<(Seq<char>, Seq<char>)> {
    params.map_values(|p: (String, String)| (p.0@, p.1@))
}

/// Builds a URL with `reqwest::Url::parse_with_params` and renders it with
/// `to_string`; on a parse failure answers the error's message.
///
/// Trusted: the rendered URL depends on the base and the pairs alone; the error
/// message is left unsaid.
#[verifier::external_body]
fn reqwest_url_with_params(base: &str, params: &Vec<(String, String)>) -> (url: Result<
    String,
    String,
>)
    ensures
        url is Ok <==> url_with_params(base@, pair_texts(params@)) is Some,
        url matches Ok(u) ==> url_with_params(base@, pair_texts(params@)) == Some(u@),
{
    match reqwest::Url::parse_with_params(base, params) {
        Ok(url) => Ok(url.to_string()),
        Err(e) => Err(e.to_string()),
    }
}

/// The query parameters of an authorization request.
pub open spec fn authorization_params(
    client_id: Seq<char>,
    redirect_uri: Seq<char>,
    scopes: Seq<char>,
    state: Seq<char>,
) -> Seq<(Seq<char>, Seq<char>)> {
    seq![
        ("client_id"@, client_id),
        ("redirect_uri"@, redirect_uri),
        ("response_type"@, "code"@),
        ("scope"@, scopes),
        ("state"@, state),
    ]
}

/// The provider's authorization URL carrying the client id, the redirect URI,
/// `response_type=code`, the scopes and the anti-forgery state as query
/// parameters; `UrlBuildError` when the endpoint is not an absolute URL.
pub fn authorization_url(
    endpoint: &str,
    client_id: String,
    redirect_uri: String,
    scopes: &str,
    state: &str,
) -> (url: OAuthResult<String>)
    ensures
        url is Ok <==> url_with_params(
            endpoint@,
            authorization_params(client_id@, redirect_uri@, scopes@, state@),
        ) is Some,
        url matches Ok(u) ==> url_with_params(
            endpoint@,
            authorization_params(client_id@, redirect_uri@, scopes@, state@),
        ) == Some(u@),
        url matches Err(e) ==> e is UrlBuildError,
{
    let ghost expected = authorization_params(client_id@, redirect_uri@, scopes@, state@);
    let params = vec![
        ("client_id".to_string(), client_id),
        ("redirect_uri".to_string(), redirect_uri),
        ("response_type".to_string(), "code".to_string()),
        ("scope".to_string(), scopes.to_string()),
        ("state".to_string(), state.to_string()),
    ];
    assert(pair_texts(params@) =~= expected);
    match reqwest_url_with_params(endpoint, &params) {
        Ok(url) => Ok(url),
        Err(message) => Err(OAuthError::UrlBuildError(message)),
    }
}

/// Google's authorization URL asking for the `openid email profile` scopes.
pub fn google_authorization_url(client_id: String, redirect_uri: String, state: &str) -> (url:
    OAuthResult<String>)
    ensures
        url is Ok <==> url_with_params(
            "https://accounts.google.com/o/oauth2/v2/auth"@,
            authorization_params(client_id@, redirect_uri@, "openid email profile"@, state@),
        ) is Some,
        url matches Ok(u) ==> url_with_params(
            "https://accounts.google.com/o/oauth2/v2/auth"@,
            authorization_params(client_id@, redirect_uri@, "openid email profile"@, state@),
        ) == Some(u@),
        url matches Err(e) ==> e is UrlBuildError,
{
    authorization_url(
        "https://accounts.google.com/o/oauth2/v2/auth",
        client_id,
        redirect_uri,
        "openid email profile",
        state,
    )
}

/// Sign-in with Discord.
#[derive(Clone, Copy, Debug)]
pub struct DiscordProvider;

impl DiscordProvider {
    pub fn new() -> (provider: Self) {
        DiscordProvider
    }

    pub fn provider_name(&self) -> (name: &'static str)
        ensures
            name@ == "discord"@,
    {
        "discord"
    }

    pub fn identifier_type(&self) -> (kind: &'static str)
        ensures
            kind@ == "discord"@,
    {
        "discord"
    }

    /// Discord has no tenants.
    pub fn tenant_id(&self) -> (tenant: OAuthResult<String>)
        ensures
            tenant matches Ok(t) && t@ == Seq::<char>::empty(),
    {
        Ok(String::new())
    }

    pub fn authorization_endpoint(&self) -> (url: String)
        ensures
            url@ == "https://discord.com/oauth2/authorize"@,
    {
        "https://discord.com/oauth2/authorize".to_string()
    }

    pub fn token_endpoint(&self) -> (url: String)
        ensures
            url@ == "https://discord.com/api/oauth2/token"@,
    {
        "https://discord.com/api/oauth2/token".to_string()
    }

    pub fn userinfo_endpoint(&self) -> (url: String)
        ensures
            url@ == "https://discord.com/api/users/@me"@,
    {
        "https://discord.com/api/users/@me".to_string()
    }

    pub fn scopes(&self) -> (scopes: String)
        ensures
            scopes@ == "identify email"@,
    {
        "identify email".to_string()
    }
}

/// Sign-in with Microsoft, for one tenant.
#[derive(Clone, Debug)]
pub struct MicrosoftProvider {
    pub tenant_id: String,
}

impl MicrosoftProvider {
    /// A provider for the configured tenant (`MICROSOFT_TENANT_ID`), or for the
    /// `common` endpoint when none is configured.
    pub fn new(configured_tenant: Option<String>) -> (provider: Self)
        ensures
            provider.tenant_id@ == (match configured_tenant {
                Some(t) => t@,
                None => "common"@,
            }),
    {
        let tenant_id = match configured_tenant {
            Some(t) => t,
            None => "common".to_string(),
        };
        MicrosoftProvider { tenant_id }
    }

    pub fn provider_name(&self) -> (name: &'static str)
        ensures
            name@ == "microsoft"@,
    {
        "microsoft"
    }

    pub fn identifier_type(&self) -> (kind: &'static str)
        ensures
            kind@ == "microsoft"@,
    {
        "microsoft"
    }

    pub fn tenant_id(&self) -> (tenant: OAuthResult<String>)
        ensures
            tenant matches Ok(t) && t@ == self.tenant_id@,
    {
        Ok(self.tenant_id.clone())
    }

    pub fn authorization_endpoint(&self) -> (url: String)
        ensures
            url@ == "https://login.microsoftonline.com/common/oauth2/v2.0/authorize"@,
    {
        "https://login.microsoftonline.com/common/oauth2/v2.0/authorize".to_string()
    }

    pub fn token_endpoint(&self) -> (url: String)
        ensures
            url@ == "https://login.microsoftonline.com/common/oauth2/v2.0/token"@,
    {
        "https://login.microsoftonline.com/common/oauth2/v2.0/token".to_string()
    }

    pub fn userinfo_endpoint(&self) -> (url: String)
        ensures
            url@ == "https://graph.microsoft.com/oidc/userinfo"@,
    {
        "https://graph.microsoft.com/oidc/userinfo".to_string()
    }

    pub fn scopes(&self) -> (scopes: String)
        ensures
            scopes@ == "openid profile email"@,
    {
        "openid profile email".to_string()
    }
}

/// A user's profile as Discord reports it.
#[derive(Clone, Debug)]
pub struct DiscordUser {
    pub id: String,
    pub username: String,
    pub email: String,
    pub avatar: Option<String>,
}

/// A user's profile as Microsoft reports it.
#[derive(Clone, Debug)]
pub struct MicrosoftUser {
    pub sub: String,
    pub name: Option<String>,
    pub given_name: Option<String>,
    pub family_name: Option<String>,
    pub email: Option<String>,
    pub picture: Option<String>,
}

/// The address of a Discord avatar image.
pub open spec fn discord_avatar_text(user_id: Seq<char>, avatar: Seq<char>) -> Seq<char> {
    "https://cdn.discordapp.com/avatars/"@ + user_id + "/"@ + avatar + ".png"@
}

/// The platform's view of a Discord profile: the username as name and the
/// avatar's image address as picture.
pub fn discord_profile(user: DiscordUser) -> (profile: ProviderUser)
    ensures
        profile.id == user.id,
        profile.email == user.email,
        profile.name == Some(user.username),
        match user.avatar {
            Some(a) => profile.picture matches Some(p) && p@ == discord_avatar_text(user.id@, a@),
            None => profile.picture is None,
        },
{
    let picture = match &user.avatar {
        Some(avatar) => {
            let mut url = "https://cdn.discordapp.com/avatars/".to_string();
            url.append(user.id.as_str());
            url.append("/");
            url.append(avatar.as_str());
            url.append(".png");
            Some(url)
        },
        None => None,
    };
    ProviderUser { id: user.id, email: user.email, name: Some(user.username), picture }
}

/// The name Microsoft gives, or else the given and family names joined by a
/// space, or whichever of them is present.
pub open spec fn microsoft_name_text(
    name: Option<Seq<char>>,
    given: Option<Seq<char>>,
    family: Option<Seq<char>>,
) -> Option<Seq<char>> {
    match name {
        Some(n) => Some(n),
        None => match (given, family) {
            (Some(g), Some(f)) => Some(g + " "@ + f),
            (Some(g), None) => Some(g),
            (None, Some(f)) => Some(f),
            (None, None) => None,
        },
    }
}


/// The platform's view of a Microsoft profile; `InvalidResponse` when the
/// profile has no e-mail address.
pub fn microsoft_profile(user: MicrosoftUser) -> (profile: OAuthResult<ProviderUser>)
    ensures
        profile is Ok <==> user.email is Some,
        profile matches Err(e) ==> e is InvalidResponse,
        profile matches Ok(p) ==> {
            &&& p.id == user.sub
            &&& Some(p.email) == user.email
            &&& option_text(p.name) == microsoft_name_text(
                option_text(user.name),
                option_text(user.given_name),
                option_text(user.family_name),
            )
            &&& p.picture == user.picture
        },
{
    let email = match user.email {
        Some(e) => e,
        None => return Err(OAuthError::InvalidResponse),
    };
    let name = match user.name {
        Some(n) => Some(n),
        None => match (user.given_name, user.family_name) {
            (Some(given), Some(family)) => {
                let mut full = given;
                full.append(" ");
                full.append(family.as_str());
                Some(full)
            },
            (Some(given), None) => Some(given),
            (None, Some(family)) => Some(family),
            (None, None) => None,
        },
    };
    Ok(ProviderUser { id: user.sub, email, name, picture: user.picture })
}

/// Position of the first `@` in `text` at or after `from`, or the length when
/// there is none.
pub open spec fn first_at_from(text: Seq<char>, from: int) -> int
    decreases text.len() - from,
{
    if from >= text.len() {
        text.len() as int
    } else if text[from] == '@' {
        from
    } else {
        first_at_from(text, from + 1)
    }
}

/// The part of an e-mail address before its first `@` (the whole text when it
/// has none).
pub open spec fn email_local_part(email: Seq<char>) -> Seq<char> {
    email.take(first_at_from(email, 0))
}

/// The display name of a new user: the profile's name, or else the part of the
/// e-mail address before the first `@`.
pub fn profile_display_name(name: Option<String>, email: &str) -> (display_name: String)
    ensures
        display_name@ == (match name {
            Some(n) => n@,
            None => email_local_part(email@),
        }),
{
    match name {
        Some(n) => n,
        None => {
            let n = email.unicode_len();
            let mut i: usize = 0;
            while i < n && email.get_char(i) != '@'
                invariant
                    n == email@.len(),
                    i <= n,
                    first_at_from(email@, i as int) == first_at_from(email@, 0),
                decreases n - i,
            {
                i = i + 1;
            }
            email.substring_char(0, i).to_string()
        },
    }
}

/// The placeholder password of an account created through OAuth:
/// `oauth_<identifier type>_<token>`.
pub fn placeholder_password(identifier_type: &str, token: &str) -> (password: String)
    ensures
        password@ == "oauth_"@ + identifier_type@ + "_"@ + token@,
{
    let mut password = "oauth_".to_string();
    password.append(identifier_type);
    password.append("_");
    password.append(token);
    password
}

/// The stages of an OAuth sign-in. Sending the user to the provider draws the
/// state, builds the provider's URL and sets the state cookie; the provider's
/// callback reads the request, checks the state, exchanges the code, reads the
/// profile, finds or creates the user and opens a session.
#[derive(Clone, Copy, Debug, PartialEq, Eq, Structural)]
pub enum SignInStage {
    GenerateState,
    BuildUrl,
    SetStateCookie,
    ReadRequest,
    CheckState,
    ExchangeCode,
    ReadProfile,
    FindUser,
    CreateSession,
}

/// How a failed stage is answered.
#[derive(Clone, Debug)]
pub enum SignInAnswer {
    /// An error response with this HTTP status and message.
    Refused(u16, String),
    /// A server-function error with this message.
    ServerError(String),
}

/// What follows a stage.
#[derive(Clone, Debug)]
pub enum SignInAction {
    /// Go on with this stage.
    Next(SignInStage),
    /// The flow is through: answer with the URL, or set the session cookies.
    Done,
    /// Stop with this answer.
    Fail(SignInAnswer),
}

/// The stage after a successful one; `None` after the last of its flow.
pub open spec fn stage_after(stage: SignInStage) -> Option<SignInStage> {
    match stage {
        SignInStage::GenerateState => Some(SignInStage::BuildUrl),
        SignInStage::BuildUrl => Some(SignInStage::SetStateCookie),
        SignInStage::SetStateCookie => None,
        SignInStage::ReadRequest => Some(SignInStage::CheckState),
        SignInStage::CheckState => Some(SignInStage::ExchangeCode),
        SignInStage::ExchangeCode => Some(SignInStage::ReadProfile),
        SignInStage::ReadProfile => Some(SignInStage::FindUser),
        SignInStage::FindUser => Some(SignInStage::CreateSession),
        SignInStage::CreateSession => None,
    }
}

/// How a failed stage is answered, `detail` being the failure's message:
/// `(Some(status), message)` for an error response, `(None, message)` for a
/// server-function error.
pub open spec fn stage_failure(stage: SignInStage, detail: Seq<char>) -> (Option<u16>, Seq<char>) {
    match stage {
        SignInStage::GenerateState => (Some(500u16), "Failed to generate authentication state"@),
        SignInStage::BuildUrl => (Some(500u16), "Failed to create authorization URL: "@ + detail),
        SignInStage::SetStateCookie => (Some(500u16), "Failed to set cookie"@),
        SignInStage::ReadRequest => (Some(500u16), "Internal server error"@),
        SignInStage::CheckState => (Some(400u16), "Invalid authentication state"@),
        SignInStage::ExchangeCode => (
            Some(400u16),
            "Failed to exchange authorization code: "@ + detail,
        ),
        SignInStage::ReadProfile => (Some(400u16), "Failed to get user information: "@ + detail),
        SignInStage::FindUser => (None, "Failed to authenticate user: "@ + detail),
        SignInStage::CreateSession => (None, "Failed to create session"@),
    }
}

/// The text of an answer, with its status for an error response.
pub open spec fn answer_text(answer: SignInAnswer) -> (Option<u16>, Seq<char>) {
    match answer {
        SignInAnswer::Refused(status, message) => (Some(status), message@),
        SignInAnswer::ServerError(message) => (None, message@),
    }
}

/// The provider's code is exchanged only after the state checked out: the only
/// stage that leads to the exchange is the state check, and the profile is
/// read, the user found and the session opened only after the exchange.
pub proof fn law_code_exchanged_only_after_state_check(stage: SignInStage)
    ensures
        stage_after(stage) == Some(SignInStage::ExchangeCode) ==> stage == SignInStage::CheckState,
        stage_after(stage) == Some(SignInStage::ReadProfile) ==> stage == SignInStage::ExchangeCode,
        stage_after(stage) == Some(SignInStage::FindUser) ==> stage == SignInStage::ReadProfile,
        stage_after(stage) == Some(SignInStage::CreateSession) ==> stage == SignInStage::FindUser,
{
}

/// `prefix` followed by `detail`.
fn joined(prefix: &str, detail: &str) -> (text: String)
    ensures
        text@ == prefix@ + detail@,
{
    let mut text = prefix.to_string();
    text.append(detail);
    text
}

/// Decides what follows a stage of a sign-in: the next stage, the end of the
/// flow, or the answer to its failure (`outcome` holds the failure's message).
pub fn sign_in_step(stage: SignInStage, outcome: Result<(), String>) -> (action: SignInAction)
    ensures
        outcome is Ok ==> match stage_after(stage) {
            Some(next) => action matches SignInAction::Next(n) && n == next,
            None => action is Done,
        },
        outcome matches Err(detail) ==> (action matches SignInAction::Fail(answer) && answer_text(
            answer,
        ) == stage_failure(stage, detail@)),
{
    let detail = match outcome {
        Ok(()) => {
            return match stage {
                SignInStage::GenerateState => SignInAction::Next(SignInStage::BuildUrl),
                SignInStage::BuildUrl => SignInAction::Next(SignInStage::SetStateCookie),
                SignInStage::SetStateCookie => SignInAction::Done,
                SignInStage::ReadRequest => SignInAction::Next(SignInStage::CheckState),
                SignInStage::CheckState => SignInAction::Next(SignInStage::ExchangeCode),
                SignInStage::ExchangeCode => SignInAction::Next(SignInStage::ReadProfile),
                SignInStage::ReadProfile => SignInAction::Next(SignInStage::FindUser),
                SignInStage::FindUser => SignInAction::Next(SignInStage::CreateSession),
                SignInStage::CreateSession => SignInAction::Done,
            };
        },
        Err(d) => d,
    };
    let answer = match stage {
        SignInStage::GenerateState => SignInAnswer::Refused(
            500,
            "Failed to generate authentication state".to_string(),
        ),
        SignInStage::BuildUrl => SignInAnswer::Refused(
            500,
            joined("Failed to create authorization URL: ", detail.as_str()),
        ),
        SignInStage::SetStateCookie => SignInAnswer::Refused(500, "Failed to set cookie".to_string()),
        SignInStage::ReadRequest => SignInAnswer::Refused(500, "Internal server error".to_string()),
        SignInStage::CheckState => SignInAnswer::Refused(
            400,
            "Invalid authentication state".to_string(),
        ),
        SignInStage::ExchangeCode => SignInAnswer::Refused(
            400,
            joined("Failed to exchange authorization code: ", detail.as_str()),
        ),
        SignInStage::ReadProfile => SignInAnswer::Refused(
            400,
            joined("Failed to get user information: ", detail.as_str()),
        ),
        SignInStage::FindUser => SignInAnswer::ServerError(
            joined("Failed to authenticate user: ", detail.as_str()),
        ),
        SignInStage::CreateSession => SignInAnswer::ServerError(
            "Failed to create session".to_string(),
        ),
    };
    SignInAction::Fail(answer)
}

/// The two steps of an OAuth sign-in: sending the user to the provider, and
/// handling the provider's callback.
#[derive(Clone, Copy, Debug)]
pub struct OAuthCallback;

impl OAuthCallback {
    /// The cookie that keeps the anti-forgery state for ten minutes.
    pub fn state_cookie(cookie_name: &str, state: &str) -> (cookie: String)
        ensures
            cookie@ == secure_cookie_text(cookie_name@, state@, 600),
    {
        secure_cookie(cookie_name, state, 10 * 60)
    }

    /// The session cookie set after a successful sign-in, kept for a day.
    pub fn session_cookie(session_token: &str) -> (cookie: String)
        ensures
            cookie@ == secure_cookie_text("__Host-session"@, session_token@, 86400),
    {
        secure_cookie("__Host-session", session_token, 24 * 60 * 60)
    }

    /// The cookie that clears the anti-forgery state.
    pub fn clear_state_cookie(cookie_name: &str) -> (cookie: String)
        ensures
            cookie@ == secure_cookie_text(cookie_name@, Seq::<char>::empty(), 0),
    {
        proof {
            reveal_strlit("");
        }
        secure_cookie(cookie_name, "", 0)
    }

    /// The answer to a successful sign-in.
    pub fn success_message(provider_name: &str) -> (message: String)
        ensures
            message@ == "Successfully authenticated with "@ + provider_name@,
    {
        let mut message = "Successfully authenticated with ".to_string();
        message.append(provider_name);
        message
    }
}

} // verus!
