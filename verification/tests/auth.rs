//! Sign-in, session state and route guards.
use mediagenerator::auth::claims::{EntraClaims, EntraIdTokenClaims};
use mediagenerator::auth::config::OidcConfig;
use mediagenerator::auth::error::AuthError;
use mediagenerator::auth::middleware::{
    forbidden, internal_error, login_url, require_auth, require_role, unauthenticated, wants_json,
    Guard, Rejection, RolePolicy, SessionLookup,
};
use mediagenerator::auth::oidc::{
    accept_callback, accept_login, check_access_token, constant_time_eq, is_stale,
    ExchangeOutcome, OidcProvider, TokenHash,
};
use mediagenerator::auth::session::{
    put_login_flow, take_login_flow, take_login_flow_at, LoginFlow, SessionUser, Stamped,
};
use mediagenerator::clock::Timestamp;
use mediagenerator::domain::error::ErrorCode;
use mediagenerator::domain::i18n::nb;

fn now() -> Timestamp {
    let nanos = time::OffsetDateTime::now_utc().unix_timestamp_nanos();
    Timestamp::from_unix_nanos(nanos).expect("near")
}

fn later(from: &Timestamp, nanos: i128) -> Timestamp {
    Timestamp::from_unix_nanos(from.unix_nanos() + nanos).expect("near")
}

fn user(display_name: &str, roles: &[&str], groups: &[&str]) -> SessionUser {
    SessionUser {
        oid: "oid".to_owned(),
        email: None,
        upn: None,
        display_name: display_name.to_owned(),
        roles: roles.iter().map(|r| (*r).to_owned()).collect(),
        groups: groups.iter().map(|g| (*g).to_owned()).collect(),
        authenticated_at: now(),
    }
}

fn config() -> OidcConfig {
    OidcConfig {
        tenant_id: "9f08805a-b141-4a2d-923f-80d0576d602a".to_owned(),
        client_id: "client".to_owned(),
        client_secret: None,
        redirect_uri: "http://localhost:8080/auth/callback".to_owned(),
        post_logout_redirect_uri: "http://localhost:8080/".to_owned(),
        required_app_role: None,
    }
}

fn flow() -> LoginFlow {
    LoginFlow {
        pkce_verifier: "v".to_owned(),
        state: "s".to_owned(),
        nonce: "n".to_owned(),
        return_to: "/".to_owned(),
    }
}

fn claims() -> EntraIdTokenClaims {
    EntraIdTokenClaims {
        subject: "sub".to_owned(),
        email: None,
        name: None,
        preferred_username: None,
        additional: EntraClaims::default(),
    }
}

#[test]
fn a_blank_role_disables_the_check() {
    for blank in [None, Some(""), Some("   ")] {
        let policy = RolePolicy::new(blank);
        assert_eq!(policy.required(), None);
        assert!(policy.permits(&user("Hans Kristiansen", &[], &[])));
    }
}

#[test]
fn a_configured_role_is_enforced() {
    let policy = RolePolicy::new(Some("Mediagenerator.User"));
    assert!(policy.permits(&user("Hans Kristiansen", &["Mediagenerator.User"], &[])));
    assert!(!policy.permits(&user("Hans Kristiansen", &["Something.Else"], &[])));
    assert!(!policy.permits(&user("Hans Kristiansen", &[], &[])));
}

#[test]
fn login_url_keeps_the_path_and_query() {
    assert_eq!(
        login_url(Some("/historikk?side=2")),
        "/auth/login?return_to=%2Fhistorikk%3Fside%3D2"
    );
}

#[test]
fn login_url_omits_return_to_for_the_front_page() {
    assert_eq!(login_url(Some("/")), "/auth/login");
    assert_eq!(login_url(None), "/auth/login");
}

#[test]
fn login_urls_do_not_leave_the_site() {
    assert_eq!(
        login_url(Some("//ond.example/å")),
        "/auth/login?return_to=%2F%2Fond.example%2F%C3%A5"
    );
}

#[test]
fn api_paths_are_answered_with_json() {
    assert!(wants_json("/api/jobs/1"));
    assert!(!wants_json("/historikk"));
    // A path that merely starts with the same letters must not match.
    assert!(!wants_json("/apifoo"));
}

#[test]
fn rejections_suit_the_client() {
    match unauthenticated("/api/jobs/1", Some("/api/jobs/1"), true) {
        Rejection::Json {
            status,
            code,
            message,
        } => {
            assert_eq!(status, 401);
            assert_eq!(code, "unauthenticated");
            assert_eq!(message, nb::ERR_UNAUTHENTICATED);
        }
        other => panic!("unexpected {other:?}"),
    }
    match unauthenticated("/historikk", Some("/historikk"), true) {
        Rejection::HxRedirect { location } => {
            assert_eq!(location, "/auth/login?return_to=%2Fhistorikk");
        }
        other => panic!("unexpected {other:?}"),
    }
    match unauthenticated("/", Some("/"), false) {
        Rejection::Redirect { location } => assert_eq!(location, "/auth/login"),
        other => panic!("unexpected {other:?}"),
    }
    assert!(matches!(
        forbidden("/api/x", false),
        Rejection::Json { status: 403, .. }
    ));
    assert!(matches!(
        forbidden("/x", true),
        Rejection::Json { status: 403, .. }
    ));
    match forbidden("/x", false) {
        Rejection::Text { status, message } => {
            assert_eq!(status, 403);
            assert_eq!(message, nb::ERR_FORBIDDEN);
        }
        other => panic!("unexpected {other:?}"),
    }
    assert!(matches!(
        internal_error(),
        Rejection::Json {
            status: 500,
            code: "internal",
            ..
        }
    ));
}

#[test]
fn the_sign_in_guard_passes_users_on() {
    let someone = user("H K", &[], &[]);
    match require_auth(SessionLookup::User(someone.clone()), "/", Some("/"), false) {
        Guard::Pass(passed) => assert_eq!(passed, someone),
        Guard::Reject(_) => panic!("should pass"),
    }
    assert!(matches!(
        require_auth(SessionLookup::Nobody, "/x", Some("/x"), false),
        Guard::Reject(Rejection::Redirect { .. })
    ));
    assert!(matches!(
        require_auth(SessionLookup::NoSession, "/x", Some("/x"), false),
        Guard::Reject(Rejection::Json { status: 500, .. })
    ));
    assert!(matches!(
        require_auth(SessionLookup::Unreadable, "/x", Some("/x"), false),
        Guard::Reject(Rejection::Json { status: 500, .. })
    ));
}

#[test]
fn the_role_guard_checks_the_role() {
    let off = RolePolicy::new(None);
    let on = RolePolicy::new(Some(" Mediagenerator.User "));
    let member = user("H K", &[], &["Mediagenerator.User"]);
    let stranger = user("H K", &[], &[]);
    assert!(require_role(&off, None, "/x", false).is_none());
    assert!(require_role(&on, Some(&member), "/x", false).is_none());
    assert!(matches!(
        require_role(&on, Some(&stranger), "/x", false),
        Some(Rejection::Text { status: 403, .. })
    ));
    assert!(matches!(
        require_role(&on, None, "/x", false),
        Some(Rejection::Json { status: 500, .. })
    ));
}

#[test]
fn constant_time_eq_matches_equality() {
    assert!(constant_time_eq(b"abc", b"abc"));
    assert!(!constant_time_eq(b"abc", b"abd"));
    assert!(!constant_time_eq(b"abc", b"ab"));
    assert!(constant_time_eq(b"", b""));
}

#[test]
fn issuer_url_follows_the_entra_v2_pattern() {
    assert_eq!(
        config().issuer_url(),
        "https://login.microsoftonline.com/9f08805a-b141-4a2d-923f-80d0576d602a/v2.0"
    );
}

#[test]
fn settings_have_to_be_absolute_urls() {
    assert!(config().validate().is_ok());
    let mut broken = config();
    broken.redirect_uri = "/auth/callback".to_owned();
    assert_eq!(
        broken.validate(),
        Err(AuthError::InvalidUrl(
            "OIDC_REDIRECT_URI must be an absolute http(s) URL".to_owned()
        ))
    );
    let mut broken = config();
    broken.post_logout_redirect_uri = "ftp://x".to_owned();
    assert_eq!(
        broken.validate(),
        Err(AuthError::InvalidUrl(
            "APP_BASE_URL must be an absolute http(s) URL".to_owned()
        ))
    );
    assert!(OidcProvider::new(broken).is_err());
}

#[test]
fn a_blank_role_setting_is_no_setting() {
    let mut with_role = config();
    assert_eq!(with_role.required_app_role(), None);
    with_role.required_app_role = Some("  ".to_owned());
    assert_eq!(with_role.required_app_role(), None);
    with_role.required_app_role = Some(" Rolle ".to_owned());
    assert_eq!(with_role.required_app_role(), Some("Rolle"));
}

#[test]
fn initials_take_the_first_letter_of_the_first_two_words() {
    assert_eq!(user("Hans Kristiansen", &[], &[]).initials(), "HK");
    assert_eq!(user("Hans Petter Kristiansen", &[], &[]).initials(), "HP");
    assert_eq!(user("Hans", &[], &[]).initials(), "H");
}

#[test]
fn initials_fall_back_when_the_name_has_no_letters() {
    assert_eq!(user("  ", &[], &[]).initials(), "?");
    assert_eq!(user("123", &[], &[]).initials(), "?");
}

#[test]
fn initials_are_upper_case_and_at_most_two() {
    assert_eq!(user("åse  1 øyvind", &[], &[]).initials(), "ÅØ");
    assert_eq!(user("ßa ßb", &[], &[]).initials(), "SS");
    assert_eq!(user("ßa b", &[], &[]).initials(), "SS");
}

#[test]
fn a_role_may_come_from_app_roles_or_from_groups() {
    assert!(user("H K", &["Mediagenerator.User"], &[]).has_role("Mediagenerator.User"));
    assert!(user("H K", &[], &["Mediagenerator.User"]).has_role("Mediagenerator.User"));
    assert!(!user("H K", &["Other.Role"], &[]).has_role("Mediagenerator.User"));
}

#[test]
fn a_session_user_is_read_out_of_the_claims() {
    let before = now();
    let mut full = claims();
    full.email = Some("a@b.no".to_owned());
    full.name = Some("Kari Nordmann".to_owned());
    full.additional.oid = Some("oid-1".to_owned());
    full.additional.upn = Some("kari@b.no".to_owned());
    full.additional.roles = vec!["R".to_owned()];
    full.additional.groups = vec!["G".to_owned()];
    let read = SessionUser::from_claims(&full).expect("an identity");
    assert_eq!(read.oid, "oid-1");
    assert_eq!(read.email.as_deref(), Some("a@b.no"));
    assert_eq!(read.upn.as_deref(), Some("kari@b.no"));
    assert_eq!(read.display_name, "Kari Nordmann");
    assert_eq!(read.roles, vec!["R".to_owned()]);
    assert_eq!(read.groups, vec!["G".to_owned()]);
    let age = read.authenticated_at.nanos_since(&before);
    assert!((0..60_000_000_000).contains(&age));
}

#[test]
fn missing_claims_fall_back() {
    let bare = SessionUser::from_claims(&claims()).expect("an identity");
    assert_eq!(bare.oid, "sub");
    assert_eq!(bare.email, None);
    assert_eq!(bare.display_name, nb::UNKNOWN_USER);

    let mut some = claims();
    some.additional.upn = Some("upn@b.no".to_owned());
    let read = SessionUser::from_claims(&some).expect("an identity");
    assert_eq!(read.email.as_deref(), Some("upn@b.no"));
    assert_eq!(read.display_name, "upn@b.no");
    some.preferred_username = Some("kalle".to_owned());
    let read = SessionUser::from_claims(&some).expect("an identity");
    assert_eq!(read.display_name, "kalle");
}

#[test]
fn claims_without_an_identity_are_refused() {
    let mut nobody = claims();
    nobody.subject = String::new();
    assert_eq!(
        SessionUser::from_claims(&nobody),
        Err(AuthError::MissingIdentity)
    );
    let mut blank = claims();
    blank.additional.oid = Some(String::new());
    assert_eq!(
        SessionUser::from_claims(&blank),
        Err(AuthError::MissingIdentity)
    );
}

#[test]
fn a_fresh_flow_comes_back_and_a_missing_one_does_not() {
    let stamped = put_login_flow(flow());
    assert_eq!(
        take_login_flow(Some(stamped)).expect("fresh").nonce,
        "n".to_owned()
    );
    assert!(matches!(
        take_login_flow(None),
        Err(AuthError::NoFlowInProgress)
    ));
}

#[test]
fn a_flow_expires_after_a_quarter_of_an_hour() {
    let created_at = now();
    let stored = || {
        Some(Stamped {
            value: flow(),
            created_at,
        })
    };
    let second: i128 = 1_000_000_000;
    assert!(take_login_flow_at(stored(), &later(&created_at, 900 * second)).is_ok());
    assert!(take_login_flow_at(stored(), &later(&created_at, 901 * second - 1)).is_ok());
    assert!(matches!(
        take_login_flow_at(stored(), &later(&created_at, 901 * second)),
        Err(AuthError::FlowExpired)
    ));
    assert!(take_login_flow_at(stored(), &later(&created_at, -5 * second)).is_ok());
}

#[test]
fn metadata_is_reused_for_twelve_hours() {
    assert!(!is_stale(43_199_999_999_999));
    assert!(is_stale(43_200_000_000_000));
}

#[test]
fn a_sign_in_starts_with_a_signed_off_url() {
    let provider = OidcProvider::new(config()).expect("a provider");
    assert_eq!(provider.config().client_id, "client");
    let (url, flow) = provider
        .begin_login("https://idp.example/authorize", "/historikk".to_owned())
        .expect("a login");
    assert_eq!(flow.return_to, "/historikk");
    assert_ne!(flow.state, flow.nonce);
    assert_eq!(flow.pkce_verifier.len(), 43);
    let parsed = url::Url::parse(&url).expect("a URL");
    let value = |name: &str| {
        parsed
            .query_pairs()
            .find(|(key, _)| key == name)
            .map(|(_, value)| value.into_owned())
    };
    assert!(url.starts_with("https://idp.example/authorize?"));
    assert_eq!(value("response_type").as_deref(), Some("code"));
    assert_eq!(value("client_id").as_deref(), Some("client"));
    assert_eq!(value("state"), Some(flow.state.clone()));
    assert_eq!(value("nonce"), Some(flow.nonce.clone()));
    assert_eq!(value("scope").as_deref(), Some("openid profile email"));
    assert_eq!(value("code_challenge_method").as_deref(), Some("S256"));
    assert_eq!(
        value("redirect_uri").as_deref(),
        Some("http://localhost:8080/auth/callback")
    );
    assert!(!url.contains(&flow.pkce_verifier));
}

#[test]
fn a_sign_in_needs_real_urls() {
    let provider = OidcProvider::new(config()).expect("a provider");
    assert!(matches!(
        provider.begin_login("ikke en adresse", "/".to_owned()),
        Err(AuthError::InvalidUrl(_))
    ));
}

#[test]
fn a_callback_with_the_wrong_state_is_refused() {
    let provider = OidcProvider::new(config()).expect("a provider");
    let exchange = provider
        .complete_login(&flow(), "kode".to_owned(), "s")
        .expect("the state matches");
    assert_eq!(exchange.code, "kode");
    assert_eq!(exchange.pkce_verifier, "v");
    assert_eq!(exchange.nonce, "n");
    assert!(matches!(
        provider.complete_login(&flow(), "kode".to_owned(), "t"),
        Err(AuthError::StateMismatch)
    ));
}

#[test]
fn claims_are_only_released_after_every_check() {
    let verified = |access_token| ExchangeOutcome::Verified {
        claims: claims(),
        id_token: "raw".to_owned(),
        access_token,
    };
    let computed = |expected: &str, actual: &str| TokenHash::Computed {
        expected: expected.to_owned(),
        actual: actual.to_owned(),
    };
    let (read, raw) = accept_login(verified(TokenHash::NotClaimed)).expect("verified");
    assert_eq!(read.subject, "sub");
    assert_eq!(raw, "raw");
    assert!(accept_login(verified(computed("h", "h"))).is_ok());
    assert!(matches!(
        accept_login(verified(computed("h", "g"))),
        Err(AuthError::AccessTokenMismatch)
    ));
    assert!(matches!(
        accept_login(verified(TokenHash::Failed("x".to_owned()))),
        Err(AuthError::InvalidIdToken(_))
    ));
    assert!(matches!(
        accept_login(ExchangeOutcome::Failed("x".to_owned())),
        Err(AuthError::TokenExchange(_))
    ));
    assert!(matches!(
        accept_login(ExchangeOutcome::NoIdToken),
        Err(AuthError::MissingIdToken)
    ));
    assert!(matches!(
        accept_login(ExchangeOutcome::Invalid("x".to_owned())),
        Err(AuthError::InvalidIdToken(_))
    ));
}

#[test]
fn signing_out_goes_through_the_provider_when_it_can() {
    let provider = OidcProvider::new(config()).expect("a provider");
    assert_eq!(
        provider.logout_url(None, Some("hint")).expect("local"),
        "http://localhost:8080/"
    );
    assert_eq!(
        provider
            .logout_url(Some("https://idp.example/end"), None)
            .expect("a URL"),
        "https://idp.example/end?client_id=client&post_logout_redirect_uri=http%3A%2F%2Flocalhost%3A8080%2F"
    );
    assert_eq!(
        provider
            .logout_url(Some("https://idp.example/end"), Some("a b"))
            .expect("a URL"),
        "https://idp.example/end?client_id=client&post_logout_redirect_uri=http%3A%2F%2Flocalhost%3A8080%2F&id_token_hint=a+b"
    );
}

#[test]
fn signing_out_needs_a_real_post_logout_url() {
    let mut broken = config();
    broken.post_logout_redirect_uri = "http://".to_owned();
    let provider = OidcProvider::new(broken).expect("a provider");
    assert!(matches!(
        provider.logout_url(None, None),
        Err(AuthError::InvalidUrl(_))
    ));
}

#[test]
fn auth_errors_have_codes_and_coarse_messages() {
    assert_eq!(AuthError::MissingRole.code(), ErrorCode::Forbidden);
    assert_eq!(
        AuthError::Discovery(String::new()).code(),
        ErrorCode::Upstream
    );
    assert_eq!(
        AuthError::TokenExchange(String::new()).code(),
        ErrorCode::Upstream
    );
    assert_eq!(AuthError::Session(String::new()).code(), ErrorCode::Internal);
    assert_eq!(
        AuthError::InvalidUrl(String::new()).code(),
        ErrorCode::Internal
    );
    for error in [
        AuthError::StateMismatch,
        AuthError::NoFlowInProgress,
        AuthError::FlowExpired,
        AuthError::MissingIdToken,
        AuthError::InvalidIdToken("d".to_owned()),
        AuthError::AccessTokenMismatch,
        AuthError::MissingIdentity,
        AuthError::Provider("p".to_owned()),
    ] {
        assert_eq!(error.code(), ErrorCode::Unauthenticated);
        assert_eq!(error.user_message(), nb::ERR_LOGIN_FAILED);
    }
    assert!(AuthError::FlowExpired.is_retryable());
    assert!(!AuthError::MissingRole.is_retryable());
    assert_eq!(
        AuthError::Provider("access_denied".to_owned()).log_text(),
        "identity provider returned error: access_denied"
    );
    assert_eq!(
        AuthError::InvalidUrl("x".to_owned()).log_text(),
        "invalid URL: x"
    );
}

#[test]
fn every_rejection_has_its_status() {
    assert_eq!(unauthenticated("/api/jobs", None, true).status(), 401);
    assert_eq!(unauthenticated("/historikk", Some("/historikk"), true).status(), 204);
    assert_eq!(unauthenticated("/historikk", Some("/historikk"), false).status(), 303);
    assert_eq!(forbidden("/api/jobs", false).status(), 403);
    assert_eq!(forbidden("/historikk", false).status(), 403);
    assert_eq!(internal_error().status(), 500);
}

#[test]
fn an_access_token_is_checked_against_the_hash_that_is_claimed() {
    // A well-known token and its hash, for an RSA key and SHA-256.
    let token = "jHkWEdUXMU1BwAsC4vtUsZwnNvTIxEl0z9K3vx5KF0Y";
    let key = openidconnect::core::CoreJsonWebKey::new_rsa(vec![1], vec![1, 0, 1], None);
    let rs256 = openidconnect::core::CoreJwsSigningAlgorithm::RsaSsaPkcs1V15Sha256;
    match check_access_token("krav".to_owned(), token, &rs256, &key) {
        TokenHash::Computed { expected, actual } => {
            assert_eq!(expected, "krav");
            assert_eq!(actual, "77QmUPtjPfzWtF2AnpK9RQ");
        }
        _ => panic!("the hash can be computed"),
    }
    let none = openidconnect::core::CoreJwsSigningAlgorithm::None;
    assert!(matches!(
        check_access_token("krav".to_owned(), token, &none, &key),
        TokenHash::Failed(_)
    ));
}

#[test]
fn a_callback_with_another_state_releases_nothing() {
    let flow = LoginFlow {
        pkce_verifier: "v".to_owned(),
        state: "tilstand".to_owned(),
        nonce: "n".to_owned(),
        return_to: "/".to_owned(),
    };
    assert_eq!(
        accept_callback(&flow, "noe annet", ExchangeOutcome::NoIdToken).err(),
        Some(AuthError::StateMismatch)
    );
    assert_eq!(
        accept_callback(&flow, "tilstand", ExchangeOutcome::NoIdToken).err(),
        Some(AuthError::MissingIdToken)
    );
}
