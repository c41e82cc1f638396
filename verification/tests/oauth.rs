use merzah::oauth::{
    authorization_url, discord_profile, encode_state, generate_state, google_authorization_url,
    microsoft_profile, placeholder_password, profile_display_name, validate_state, DiscordProvider,
    DiscordUser, MicrosoftProvider, MicrosoftUser, OAuthCallback, OAuthError, SignInAction,
    SignInAnswer, SignInStage, StateError, sign_in_step,
};

#[test]
fn state_must_match_and_be_present() {
    assert!(validate_state("abc", "abc"));
    assert!(!validate_state("abc", "abd"));
    assert!(!validate_state("", ""));
    assert!(!validate_state("abc", ""));
    assert!(!validate_state("", "abc"));
}

#[test]
fn state_is_url_safe_base64_without_padding() {
    assert_eq!(encode_state(&[0xfb, 0xff]).unwrap(), "-_8");
    assert_eq!(encode_state(b"hello").unwrap(), "aGVsbG8");
    assert_eq!(encode_state(b"Man").unwrap(), "TWFu");
    assert_eq!(encode_state(b"M").unwrap(), "TQ");
    assert_eq!(encode_state(&[0, 16, 131]).unwrap(), "ABCD");
    assert_eq!(encode_state(&[]), Err(StateError::GenerationError));
}

#[test]
fn generated_state_has_43_characters() {
    let a = generate_state().unwrap();
    let b = generate_state().unwrap();
    assert_eq!(a.len(), 43);
    assert!(a.chars().all(|c| c.is_ascii_alphanumeric() || c == '-' || c == '_'));
    assert_ne!(a, b);
}

#[test]
fn authorization_url_carries_parameters() {
    let url = authorization_url(
        "https://discord.com/oauth2/authorize",
        "client 1".to_string(),
        "https://app.example/cb".to_string(),
        "identify email",
        "st&ate",
    )
    .unwrap();
    assert_eq!(
        url,
        "https://discord.com/oauth2/authorize?client_id=client+1&redirect_uri=https%3A%2F%2Fapp.example%2Fcb&response_type=code&scope=identify+email&state=st%26ate"
    );
}

#[test]
fn authorization_url_rejects_relative_endpoint() {
    let url = authorization_url("/authorize", "id".to_string(), "uri".to_string(), "s", "x");
    assert!(matches!(url, Err(OAuthError::UrlBuildError(_))));
}

#[test]
fn google_authorization_url_asks_for_profile() {
    let url = google_authorization_url("cid".to_string(), "https://a.b/c".to_string(), "s1").unwrap();
    assert!(url.starts_with("https://accounts.google.com/o/oauth2/v2/auth?client_id=cid"));
    assert!(url.contains("scope=openid+email+profile"));
    assert!(url.ends_with("state=s1"));
}

#[test]
fn discord_profile_builds_avatar_address() {
    let user = DiscordUser {
        id: "42".to_string(),
        username: "zaid".to_string(),
        email: "z@example.com".to_string(),
        avatar: Some("abc".to_string()),
    };
    let profile = discord_profile(user);
    assert_eq!(profile.name.as_deref(), Some("zaid"));
    assert_eq!(profile.picture.as_deref(), Some("https://cdn.discordapp.com/avatars/42/abc.png"));
    let plain = DiscordUser { id: "7".to_string(), username: "u".to_string(), email: "e".to_string(), avatar: None };
    assert!(discord_profile(plain).picture.is_none());
}

fn ms(name: Option<&str>, given: Option<&str>, family: Option<&str>, email: Option<&str>) -> MicrosoftUser {
    MicrosoftUser {
        sub: "sub-1".to_string(),
        name: name.map(str::to_string),
        given_name: given.map(str::to_string),
        family_name: family.map(str::to_string),
        email: email.map(str::to_string),
        picture: None,
    }
}

#[test]
fn microsoft_profile_composes_name() {
    let p = microsoft_profile(ms(Some("Full Name"), Some("A"), Some("B"), Some("e@x"))).unwrap();
    assert_eq!(p.name.as_deref(), Some("Full Name"));
    let p = microsoft_profile(ms(None, Some("Amina"), Some("Khan"), Some("e@x"))).unwrap();
    assert_eq!(p.name.as_deref(), Some("Amina Khan"));
    let p = microsoft_profile(ms(None, Some("Amina"), None, Some("e@x"))).unwrap();
    assert_eq!(p.name.as_deref(), Some("Amina"));
    let p = microsoft_profile(ms(None, None, Some("Khan"), Some("e@x"))).unwrap();
    assert_eq!(p.name.as_deref(), Some("Khan"));
    let p = microsoft_profile(ms(None, None, None, Some("e@x"))).unwrap();
    assert_eq!(p.name, None);
    assert_eq!(p.id, "sub-1");
    assert_eq!(p.email, "e@x");
}

#[test]
fn microsoft_profile_needs_email() {
    assert!(matches!(microsoft_profile(ms(Some("n"), None, None, None)), Err(OAuthError::InvalidResponse)));
}

#[test]
fn display_name_falls_back_to_email_local_part() {
    assert_eq!(profile_display_name(Some("Bilal".to_string()), "b@x.org"), "Bilal");
    assert_eq!(profile_display_name(None, "bilal.a@x.org"), "bilal.a");
    assert_eq!(profile_display_name(None, "no-at-sign"), "no-at-sign");
    assert_eq!(profile_display_name(None, "@x.org"), "");
}

#[test]
fn placeholder_password_names_provider() {
    assert_eq!(placeholder_password("google", "t0k"), "oauth_google_t0k");
}

#[test]
fn providers_report_their_settings() {
    let d = DiscordProvider::new();
    assert_eq!(d.provider_name(), "discord");
    assert_eq!(d.identifier_type(), "discord");
    assert_eq!(d.tenant_id().unwrap(), "");
    assert_eq!(d.authorization_endpoint(), "https://discord.com/oauth2/authorize");
    assert_eq!(d.token_endpoint(), "https://discord.com/api/oauth2/token");
    assert_eq!(d.userinfo_endpoint(), "https://discord.com/api/users/@me");
    assert_eq!(d.scopes(), "identify email");
    let m = MicrosoftProvider::new(None);
    assert_eq!(m.tenant_id().unwrap(), "common");
    assert_eq!(MicrosoftProvider::new(Some("contoso".to_string())).tenant_id().unwrap(), "contoso");
    assert_eq!(m.provider_name(), "microsoft");
    assert_eq!(m.scopes(), "openid profile email");
    assert_eq!(m.userinfo_endpoint(), "https://graph.microsoft.com/oidc/userinfo");
}

#[test]
fn callback_cookies_and_message() {
    assert_eq!(
        OAuthCallback::state_cookie("ms_state", "s1"),
        "ms_state=s1; Path=/; Secure; HttpOnly; SameSite=Lax; Max-Age=600"
    );
    assert_eq!(
        OAuthCallback::session_cookie("t"),
        "__Host-session=t; Path=/; Secure; HttpOnly; SameSite=Lax; Max-Age=86400"
    );
    assert_eq!(
        OAuthCallback::clear_state_cookie("ms_state"),
        "ms_state=; Path=/; Secure; HttpOnly; SameSite=Lax; Max-Age=0"
    );
    assert_eq!(OAuthCallback::success_message("discord"), "Successfully authenticated with discord");
}

#[test]
fn issued_state_round_trips() {
    let issued = generate_state().unwrap();
    assert_eq!(issued.len(), 43);
    assert!(validate_state(&issued, &issued.clone()));
    let mut tampered = issued.clone();
    tampered.push('x');
    assert!(!validate_state(&tampered, &issued));
    assert!(!validate_state("", &issued));
}

fn failure_text(action: SignInAction) -> (Option<u16>, String) {
    match action {
        SignInAction::Fail(SignInAnswer::Refused(status, message)) => (Some(status), message),
        SignInAction::Fail(SignInAnswer::ServerError(message)) => (None, message),
        other => panic!("expected a failure, got {:?}", other),
    }
}

#[test]
fn sign_in_stages_follow_in_order() {
    assert!(matches!(sign_in_step(SignInStage::GenerateState, Ok(())), SignInAction::Next(SignInStage::BuildUrl)));
    assert!(matches!(sign_in_step(SignInStage::BuildUrl, Ok(())), SignInAction::Next(SignInStage::SetStateCookie)));
    assert!(matches!(sign_in_step(SignInStage::SetStateCookie, Ok(())), SignInAction::Done));
    assert!(matches!(sign_in_step(SignInStage::ReadRequest, Ok(())), SignInAction::Next(SignInStage::CheckState)));
    assert!(matches!(sign_in_step(SignInStage::CheckState, Ok(())), SignInAction::Next(SignInStage::ExchangeCode)));
    assert!(matches!(sign_in_step(SignInStage::ExchangeCode, Ok(())), SignInAction::Next(SignInStage::ReadProfile)));
    assert!(matches!(sign_in_step(SignInStage::ReadProfile, Ok(())), SignInAction::Next(SignInStage::FindUser)));
    assert!(matches!(sign_in_step(SignInStage::FindUser, Ok(())), SignInAction::Next(SignInStage::CreateSession)));
    assert!(matches!(sign_in_step(SignInStage::CreateSession, Ok(())), SignInAction::Done));
}

#[test]
fn sign_in_failures_are_answered_per_stage() {
    let fail = |stage, detail: &str| failure_text(sign_in_step(stage, Err(detail.to_string())));
    assert_eq!(fail(SignInStage::CheckState, ""), (Some(400), "Invalid authentication state".to_string()));
    assert_eq!(
        fail(SignInStage::ExchangeCode, "Invalid response from OAuth provider"),
        (Some(400), "Failed to exchange authorization code: Invalid response from OAuth provider".to_string())
    );
    assert_eq!(fail(SignInStage::ReadProfile, "x"), (Some(400), "Failed to get user information: x".to_string()));
    assert_eq!(fail(SignInStage::FindUser, "db down"), (None, "Failed to authenticate user: db down".to_string()));
    assert_eq!(fail(SignInStage::CreateSession, "y"), (None, "Failed to create session".to_string()));
    assert_eq!(fail(SignInStage::GenerateState, ""), (Some(500), "Failed to generate authentication state".to_string()));
    assert_eq!(fail(SignInStage::BuildUrl, "bad"), (Some(500), "Failed to create authorization URL: bad".to_string()));
    assert_eq!(fail(SignInStage::SetStateCookie, ""), (Some(500), "Failed to set cookie".to_string()));
    assert_eq!(fail(SignInStage::ReadRequest, ""), (Some(500), "Internal server error".to_string()));
}
