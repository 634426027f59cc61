//! OpenID Connect relying party for Microsoft Entra ID.
//!
//! The Authorization Code Flow with PKCE:
//!
//! 1. [`OidcProvider::begin_login`] builds the authorization URL and returns the
//!    PKCE verifier, CSRF state and nonce that the caller must keep server-side.
//! 2. The user authenticates at Entra ID and is redirected back with a code.
//! 3. [`OidcProvider::complete_login`] verifies `state` and says what to exchange;
//!    [`accept_callback`] decides on what the exchange and the checks of the ID token
//!    came to.
//!
//! Discovery metadata and the signing keys are fetched once and reused for
//! [`METADATA_TTL_SECONDS`]. Entra ID rotates its signing keys, so they must not be
//! kept for good.
use openidconnect::{
    AccessToken, AccessTokenHash, AuthUrl, ClientId, CsrfToken, EndSessionUrl, IssuerUrl, JsonWebKeySet, LogoutRequest, Nonce,
    PkceCodeChallenge, PostLogoutRedirectUrl, RedirectUrl, Scope,
};
use vstd::prelude::*;
use vstd::string::*;

use crate::auth::claims::EntraIdTokenClaims;
use crate::auth::config;
use crate::auth::config::OidcConfig;
use crate::auth::error::{AuthError, AuthErrorView};
use crate::auth::session::LoginFlow;
use crate::http;
use crate::http::make_client;
use crate::text::chars;
use crate::text::chars::text_eq;

verus! {

/// How long discovery metadata and signing keys are reused before being fetched
/// again, in seconds.
pub const METADATA_TTL_SECONDS: u64 = 43_200;

/// Timeout for every outbound call to the identity provider, in seconds.
pub const HTTP_TIMEOUT_SECONDS: u64 = 15;

/// Scopes requested in addition to `openid`, which is always there.
///
/// `profile` yields the display name and `email` the address; both are optional
/// claims on the Entra ID app registration.
pub const SCOPES: [&'static str; 2] = ["profile", "email"];

/// Whether metadata that was fetched `elapsed_nanos` nanoseconds ago is due to be
/// fetched again.
pub fn is_stale(elapsed_nanos: u128) -> (r: bool)
    ensures
        r == (elapsed_nanos >= METADATA_TTL_SECONDS * 1_000_000_000),
{
    elapsed_nanos >= 43_200_000_000_000
}

/// Compares two byte strings without leaking their contents through timing.
///
/// Used for the `state` parameter, which is a secret shared between the session
/// and the redirect. A short-circuiting comparison would reveal the matching
/// prefix length to an attacker able to measure response times.
pub fn constant_time_eq(left: &[u8], right: &[u8]) -> (r: bool)
    ensures
        r == (left@ == right@),
{
    if left.len() != right.len() {
        return false;
    }
    let mut difference: u8 = 0;
    let mut i: usize = 0;
    while i < left.len()
        invariant
            i <= left@.len(),
            left@.len() == right@.len(),
            difference == 0 <==> forall|j: int| 0 <= j < i ==> left@[j] == right@[j],
        decreases left@.len() - i,
    {
        let a: u8 = left[i];
        let b: u8 = right[i];
        assert((difference | (a ^ b)) == 0u8 <==> (difference == 0u8 && a == b)) by (bit_vector);
        difference = difference | (a ^ b);
        i = i + 1;
    }
    proof {
        if difference == 0 {
            assert(left@ =~= right@);
        }
    }
    difference == 0
}

/// How a URL reads once it has been parsed, or the error in words.
pub uninterp spec fn parsed_url(s: Seq<char>) -> Result<Seq<char>, Seq<char>>;

/// `url::Url::parse`: how the URL reads afterwards, or the printed error, depends
/// on the text alone.
#[verifier::external_body]
fn parse_url(s: &str) -> (r: Result<String, String>)
    ensures
        match r {
            Ok(url) => parsed_url(s@) is Ok && parsed_url(s@)->Ok_0 == url@,
            Err(detail) => parsed_url(s@) is Err && parsed_url(s@)->Err_0 == detail@,
        },
{
    match url::Url::parse(s) {
        Ok(url) => Ok(url.into()),
        Err(error) => Err(error.to_string()),
    }
}

/// The error, in words, of the first of three texts that is no URL.
pub open spec fn first_fault(issuer: Seq<char>, endpoint: Seq<char>, redirect_uri: Seq<char>) -> Option<
    Seq<char>,
> {
    match parsed_url(issuer) {
        Err(detail) => Some(detail),
        Ok(_) => match parsed_url(endpoint) {
            Err(detail) => Some(detail),
            Ok(_) => match parsed_url(redirect_uri) {
                Err(detail) => Some(detail),
                Ok(_) => None,
            },
        },
    }
}

/// A sign-in that has been started at the identity provider.
pub struct Authorization {
    /// Where to send the browser.
    pub url: String,
    /// PKCE code verifier.
    pub pkce_verifier: String,
    /// CSRF state.
    pub state: String,
    /// Nonce.
    pub nonce: String,
}

/// The authorization URL for a client, given the three secrets of the sign-in.
pub uninterp spec fn authorization_url(
    endpoint: Seq<char>,
    client_id: Seq<char>,
    redirect_uri: Seq<char>,
    scopes: Seq<Seq<char>>,
    pkce_verifier: Seq<char>,
    state: Seq<char>,
    nonce: Seq<char>,
) -> Seq<char>;

/// `openidconnect`'s `Client::authorize_url` for the authorization code flow, with
/// a PKCE challenge from `PkceCodeChallenge::new_random_sha256` and with
/// `CsrfToken::new_random` and `Nonce::new_random`. The three secrets are left to
/// chance; the URL is settled by them, the endpoint, the client, the redirect and
/// the scopes. `IssuerUrl::new`, `AuthUrl::new` and `RedirectUrl::new` parse their
/// text as a URL, so the texts have to be URLs.
#[verifier::external_body]
fn authorize(
    issuer: String,
    endpoint: &str,
    client_id: &str,
    redirect_uri: &str,
    scopes: Vec<String>,
) -> (r: Authorization)
    requires
        first_fault(issuer@, endpoint@, redirect_uri@) is None,
    ensures
        r.url@ == authorization_url(
            endpoint@,
            client_id@,
            redirect_uri@,
            chars::texts(scopes@),
            r.pkce_verifier@,
            r.state@,
            r.nonce@,
        ),
{
    let (challenge, verifier) = PkceCodeChallenge::new_random_sha256();
    let issuer = IssuerUrl::new(issuer).unwrap();
    let flow = openidconnect::core::CoreAuthenticationFlow::AuthorizationCode;
    let client = openidconnect::core::CoreClient::new(ClientId::new(client_id.to_owned()), issuer, JsonWebKeySet::default());
    let (url, state, nonce) = client
        .set_auth_uri(AuthUrl::new(endpoint.to_owned()).unwrap())
        .set_redirect_uri(RedirectUrl::new(redirect_uri.to_owned()).unwrap())
        .authorize_url(flow, CsrfToken::new_random, Nonce::new_random)
        .add_scopes(scopes.into_iter().map(Scope::new))
        .set_pkce_challenge(challenge)
        .url();
    Authorization { url: url.into(), pkce_verifier: verifier.into_secret(), state: state.into_secret(), nonce: nonce.secret().clone() }
}

/// The URL that ends a session at the identity provider, or the error in words.
pub uninterp spec fn end_session_url(
    endpoint: Seq<char>,
    client_id: Seq<char>,
    post_logout: Seq<char>,
) -> Result<Seq<char>, Seq<char>>;

/// `openidconnect::LogoutRequest::http_get_url` with a client and a post-logout
/// redirect: the URL, or the printed error of a URL that could not be parsed,
/// depends on the three texts alone.
#[verifier::external_body]
fn end_session(endpoint: &str, client_id: &str, post_logout: &str) -> (r: Result<String, String>)
    ensures
        match r {
            Ok(url) => end_session_url(endpoint@, client_id@, post_logout@) is Ok
                && end_session_url(endpoint@, client_id@, post_logout@)->Ok_0 == url@,
            Err(detail) => end_session_url(endpoint@, client_id@, post_logout@) is Err
                && end_session_url(endpoint@, client_id@, post_logout@)->Err_0 == detail@,
        },
{
    let endpoint = EndSessionUrl::new(endpoint.to_owned()).map_err(|error| error.to_string())?;
    let post_logout = PostLogoutRedirectUrl::new(post_logout.to_owned()).map_err(|error| error.to_string())?;
    let request = LogoutRequest::from(endpoint)
        .set_client_id(ClientId::new(client_id.to_owned()))
        .set_post_logout_redirect_uri(post_logout);
    Ok(request.http_get_url().into())
}

/// A URL with a pair added to its query, or the error in words.
pub uninterp spec fn url_with_pair(
    url: Seq<char>,
    name: Seq<char>,
    value: Seq<char>,
) -> Result<Seq<char>, Seq<char>>;

/// `append_pair` on `url::Url::query_pairs_mut`: the URL, or the printed error of
/// one that could not be parsed, depends on the three texts alone.
#[verifier::external_body]
fn append_pair(url: &str, name: &str, value: &str) -> (r: Result<String, String>)
    ensures
        match r {
            Ok(longer) => url_with_pair(url@, name@, value@) is Ok && url_with_pair(
                url@,
                name@,
                value@,
            )->Ok_0 == longer@,
            Err(detail) => url_with_pair(url@, name@, value@) is Err && url_with_pair(
                url@,
                name@,
                value@,
            )->Err_0 == detail@,
        },
{
    let mut parsed = url::Url::parse(url).map_err(|error| error.to_string())?;
    parsed.query_pairs_mut().append_pair(name, value);
    Ok(parsed.into())
}

/// A signature algorithm.
#[verifier::external_type_specification]
#[verifier::external_body]
pub struct ExSigningAlgorithm(openidconnect::core::CoreJwsSigningAlgorithm);

/// A key that signatures are verified with.
#[verifier::external_type_specification]
#[verifier::external_body]
pub struct ExJsonWebKey(openidconnect::core::CoreJsonWebKey);

/// The hash of an access token that goes with an algorithm and a key, or the error in
/// words.
pub uninterp spec fn token_hash(
    access_token: Seq<char>,
    algorithm: openidconnect::core::CoreJwsSigningAlgorithm,
    key: openidconnect::core::CoreJsonWebKey,
) -> Result<Seq<char>, Seq<char>>;

/// `openidconnect::AccessTokenHash::from_token`: the hash, or the printed error of an
/// algorithm that the key does not go with, depends on the token, the algorithm and
/// the key alone.
#[verifier::external_body]
fn hash_token(
    access_token: &str,
    algorithm: &openidconnect::core::CoreJwsSigningAlgorithm,
    key: &openidconnect::core::CoreJsonWebKey,
) -> (r: Result<String, String>)
    ensures
        match r {
            Ok(hash) => token_hash(access_token@, *algorithm, *key) is Ok && token_hash(
                access_token@,
                *algorithm,
                *key,
            )->Ok_0 == hash@,
            Err(detail) => token_hash(access_token@, *algorithm, *key) is Err && token_hash(
                access_token@,
                *algorithm,
                *key,
            )->Err_0 == detail@,
        },
{
    let token = AccessToken::new(access_token.to_owned());
    match AccessTokenHash::from_token(&token, algorithm, key) {
        Ok(hash) => Ok(hash.as_str().to_owned()),
        Err(error) => Err(error.to_string()),
    }
}

/// Splits a started sign-in into what the browser gets and what the session keeps.
pub fn login_started(started: Authorization, return_to: String) -> (r: (String, LoginFlow))
    ensures
        r.0 == started.url,
        r.1 == (LoginFlow {
            pkce_verifier: started.pkce_verifier,
            state: started.state,
            nonce: started.nonce,
            return_to,
        }),
{
    (
        started.url,
        LoginFlow {
            pkce_verifier: started.pkce_verifier,
            state: started.state,
            nonce: started.nonce,
            return_to,
        },
    )
}

/// Finds the first of three texts that is no URL.
fn find_fault(issuer: &str, endpoint: &str, redirect_uri: &str) -> (r: Option<String>)
    ensures
        match first_fault(issuer@, endpoint@, redirect_uri@) {
            Some(detail) => r matches Some(s) && s@ == detail,
            None => r is None,
        },
{
    match parse_url(issuer) {
        Err(detail) => Some(detail),
        Ok(_) => match parse_url(endpoint) {
            Err(detail) => Some(detail),
            Ok(_) => match parse_url(redirect_uri) {
                Err(detail) => Some(detail),
                Ok(_) => None,
            },
        },
    }
}

/// The scopes that are requested.
pub open spec fn requested_scopes() -> Seq<Seq<char>> {
    seq![SCOPES@[0]@, SCOPES@[1]@]
}

/// What is handed to the identity provider once the state has been verified.
#[derive(Debug)]
pub struct CodeExchange {
    /// The authorization code to exchange.
    pub code: String,
    /// The PKCE verifier that goes with it.
    pub pkce_verifier: String,
    /// The nonce that the ID token has to carry.
    pub nonce: String,
}

/// What came of the exchange of a code and of the checks of the ID token, in the
/// order in which they are made.
pub enum ExchangeOutcome {
    /// The exchange failed, in words.
    Failed(String),
    /// The answer holds no ID token.
    NoIdToken,
    /// The ID token did not verify, in words.
    Invalid(String),
    /// The ID token verified.
    Verified {
        /// Its claims.
        claims: EntraIdTokenClaims,
        /// The raw token.
        id_token: String,
        /// What came of the check of the access token.
        access_token: TokenHash,
    },
}

/// What came of the check of the access token against the ID token.
pub enum TokenHash {
    /// The ID token claims no hash.
    NotClaimed,
    /// The hash could not be computed, in words.
    Failed(String),
    /// The hash that the ID token claims, and the one that the access token has.
    Computed {
        /// Claimed by the ID token.
        expected: String,
        /// Of the access token.
        actual: String,
    },
}

/// Hashes an access token for the check against the hash that the ID token claims.
///
/// The check guards against an access token from a different response being
/// substituted for this one.
pub fn check_access_token(
    expected: String,
    access_token: &str,
    algorithm: &openidconnect::core::CoreJwsSigningAlgorithm,
    key: &openidconnect::core::CoreJsonWebKey,
) -> (r: TokenHash)
    ensures
        match token_hash(access_token@, *algorithm, *key) {
            Ok(hash) => r matches TokenHash::Computed { expected: claimed, actual } && claimed
                == expected && actual@ == hash,
            Err(detail) => r matches TokenHash::Failed(d) && d@ == detail,
        },
{
    match hash_token(access_token, algorithm, key) {
        Ok(actual) => TokenHash::Computed { expected, actual },
        Err(detail) => TokenHash::Failed(detail),
    }
}

/// What a sign-in comes to once the state has matched.
pub open spec fn login_result(outcome: ExchangeOutcome) -> Result<
    (EntraIdTokenClaims, String),
    AuthErrorView,
> {
    match outcome {
        ExchangeOutcome::Failed(detail) => Err(AuthErrorView::TokenExchange(detail@)),
        ExchangeOutcome::NoIdToken => Err(AuthErrorView::MissingIdToken),
        ExchangeOutcome::Invalid(detail) => Err(AuthErrorView::InvalidIdToken(detail@)),
        ExchangeOutcome::Verified { claims, id_token, access_token } => match access_token {
            TokenHash::NotClaimed => Ok((claims, id_token)),
            TokenHash::Failed(detail) => Err(AuthErrorView::InvalidIdToken(detail@)),
            TokenHash::Computed { expected, actual } => if expected@ == actual@ {
                Ok((claims, id_token))
            } else {
                Err(AuthErrorView::AccessTokenMismatch)
            },
        },
    }
}

/// What a callback comes to: `state` is what it echoed, `expected` what the session
/// holds.
pub open spec fn callback_result(
    expected: Seq<char>,
    state: Seq<char>,
    outcome: ExchangeOutcome,
) -> Result<(EntraIdTokenClaims, String), AuthErrorView> {
    if expected == state {
        login_result(outcome)
    } else {
        Err(AuthErrorView::StateMismatch)
    }
}

/// Decides on a sign-in whose state has matched: returns the verified claims plus
/// the raw token.
///
/// The raw ID token is returned so it can be passed back as `id_token_hint` on
/// sign-out; it must be treated as a credential. The hash guards against an access
/// token from a different response being substituted for this one.
///
/// # Errors
///
/// Returns an error when the code exchange failed, or the ID token failed any
/// verification step.
pub fn accept_login(outcome: ExchangeOutcome) -> (r: Result<
    (EntraIdTokenClaims, String),
    AuthError,
>)
    ensures
        match login_result(outcome) {
            Ok(login) => r == Ok::<(EntraIdTokenClaims, String), AuthError>(login),
            Err(e) => r matches Err(error) && error@ == e,
        },
{
    match outcome {
        ExchangeOutcome::Failed(detail) => Err(AuthError::TokenExchange(detail)),
        ExchangeOutcome::NoIdToken => Err(AuthError::MissingIdToken),
        ExchangeOutcome::Invalid(detail) => Err(AuthError::InvalidIdToken(detail)),
        ExchangeOutcome::Verified { claims, id_token, access_token } => match access_token {
            TokenHash::NotClaimed => Ok((claims, id_token)),
            TokenHash::Failed(detail) => Err(AuthError::InvalidIdToken(detail)),
            TokenHash::Computed { expected, actual } => if text_eq(
                expected.as_str(),
                actual.as_str(),
            ) {
                Ok((claims, id_token))
            } else {
                Err(AuthError::AccessTokenMismatch)
            },
        },
    }
}

/// Decides on a callback: `state` is what it echoed, `outcome` what came of the
/// exchange of its code. Claims are released only when the state is the one that the
/// session holds, whatever the exchange came to.
///
/// # Errors
///
/// Returns [`AuthError::StateMismatch`] when `state` does not match, and otherwise
/// what [`accept_login`] returns.
pub fn accept_callback(flow: &LoginFlow, state: &str, outcome: ExchangeOutcome) -> (r: Result<
    (EntraIdTokenClaims, String),
    AuthError,
>)
    ensures
        match callback_result(flow.state@, state@, outcome) {
            Ok(login) => r == Ok::<(EntraIdTokenClaims, String), AuthError>(login),
            Err(e) => r matches Err(error) && error@ == e,
        },
{
    if states_match(flow, state) {
        accept_login(outcome)
    } else {
        Err(AuthError::StateMismatch)
    }
}

/// Whether a callback echoed the state that the session holds.
fn states_match(flow: &LoginFlow, state: &str) -> (r: bool)
    ensures
        r == (flow.state@ == state@),
{
    proof {
        chars::lemma_bytes_determine_text(flow.state@, state@);
    }
    constant_time_eq(flow.state.as_str().as_bytes(), state.as_bytes())
}

/// Claims are released only when the state matched, the code was exchanged, the ID
/// token verified and the access token is the one that it speaks of.
pub proof fn law_claims_are_released_after_every_check(
    expected: Seq<char>,
    state: Seq<char>,
    outcome: ExchangeOutcome,
)
    requires
        callback_result(expected, state, outcome) is Ok,
    ensures
        expected == state,
        outcome is Verified,
        callback_result(expected, state, outcome)->Ok_0 == (
            outcome->claims,
            outcome->Verified_id_token,
        ),
        outcome->access_token !is Failed,
        outcome->access_token matches TokenHash::Computed { expected: claimed, actual }
            ==> claimed@ == actual@,
{
}

/// What signing out comes to: `local` is the parsed post-logout URL, `ended` the
/// URL that ends the session at the provider and `hinted` that URL with the hint,
/// each as far as it is there.
pub open spec fn logout_result(
    local: Result<Seq<char>, Seq<char>>,
    ended: Option<Result<Seq<char>, Seq<char>>>,
    hinted: Option<Result<Seq<char>, Seq<char>>>,
) -> Result<Seq<char>, AuthErrorView> {
    match local {
        Err(detail) => Err(AuthErrorView::InvalidUrl(detail)),
        Ok(url) => match ended {
            None => Ok(url),
            Some(Err(detail)) => Err(AuthErrorView::InvalidUrl(detail)),
            Some(Ok(end)) => match hinted {
                None => Ok(end),
                Some(Err(detail)) => Err(AuthErrorView::InvalidUrl(detail)),
                Some(Ok(longer)) => Ok(longer),
            },
        },
    }
}

/// The URL that a browser is sent to on sign-out.
pub open spec fn logout_target(
    client_id: Seq<char>,
    post_logout: Seq<char>,
    endpoint: Option<Seq<char>>,
    hint: Option<Seq<char>>,
) -> Result<Seq<char>, AuthErrorView> {
    let ended = match endpoint {
        Some(e) => Some(end_session_url(e, client_id, post_logout)),
        None => None,
    };
    let hinted = match (ended, hint) {
        (Some(Ok(end)), Some(h)) => Some(url_with_pair(end, "id_token_hint"@, h)),
        _ => None,
    };
    logout_result(parsed_url(post_logout), ended, hinted)
}

/// What an optional outcome holds.
pub open spec fn outcome_view(r: Result<String, String>) -> Result<Seq<char>, Seq<char>> {
    match r {
        Ok(s) => Ok(s@),
        Err(d) => Err(d@),
    }
}

/// Settles where a browser is sent on sign-out.
///
/// # Errors
///
/// Returns [`AuthError::InvalidUrl`] when a URL that is needed is none.
pub fn settle_logout(
    local: Result<String, String>,
    ended: Option<Result<String, String>>,
    hinted: Option<Result<String, String>>,
) -> (r: Result<String, AuthError>)
    ensures
        match logout_result(
            outcome_view(local),
            match ended {
                Some(e) => Some(outcome_view(e)),
                None => None,
            },
            match hinted {
                Some(h) => Some(outcome_view(h)),
                None => None,
            },
        ) {
            Ok(url) => r matches Ok(s) && s@ == url,
            Err(e) => r matches Err(error) && error@ == e,
        },
{
    match local {
        Err(detail) => Err(AuthError::InvalidUrl(detail)),
        Ok(url) => match ended {
            None => Ok(url),
            Some(Err(detail)) => Err(AuthError::InvalidUrl(detail)),
            Some(Ok(end)) => match hinted {
                None => Ok(end),
                Some(Err(detail)) => Err(AuthError::InvalidUrl(detail)),
                Some(Ok(longer)) => Ok(longer),
            },
        },
    }
}

/// A provider that advertises no end-session endpoint leaves the sign-out local:
/// the browser goes straight to the post-logout page.
pub proof fn law_sign_out_falls_back_to_local(
    client_id: Seq<char>,
    post_logout: Seq<char>,
    hint: Option<Seq<char>>,
)
    requires
        parsed_url(post_logout) is Ok,
    ensures
        logout_target(client_id, post_logout, None, hint) == Ok::<Seq<char>, AuthErrorView>(
            parsed_url(post_logout)->Ok_0,
        ),
{
}

/// Relying party that performs sign-in and sign-out against Entra ID.
pub struct OidcProvider {
    /// Settings.
    config: OidcConfig,
    /// The client that calls are made with.
    http: reqwest::Client,
}

/// What building a provider comes to, given what came of building its HTTP client.
pub open spec fn provider_result(
    config: OidcConfig,
    http: Result<reqwest::Client, String>,
) -> Result<(OidcConfig, reqwest::Client), AuthErrorView> {
    match config::config_fault(config.redirect_uri@, config.post_logout_redirect_uri@) {
        Some(e) => Err(e),
        None => match http {
            Ok(client) => Ok((config, client)),
            Err(detail) => Err(AuthErrorView::Discovery(detail@)),
        },
    }
}

impl View for OidcProvider {
    type V = (OidcConfig, reqwest::Client);

    closed spec fn view(&self) -> (OidcConfig, reqwest::Client) {
        (self.config, self.http)
    }
}

impl OidcProvider {
    /// Builds a provider from configuration and what came of building its HTTP
    /// client.
    ///
    /// # Errors
    ///
    /// Returns an error when the configuration is invalid or the HTTP client could
    /// not be constructed.
    pub fn with_client(config: OidcConfig, http: Result<reqwest::Client, String>) -> (r: Result<
        OidcProvider,
        AuthError,
    >)
        ensures
            match provider_result(config, http) {
                Ok(parts) => r matches Ok(provider) && provider@ == parts,
                Err(e) => r matches Err(error) && error@ == e,
            },
    {
        match config.validate() {
            Err(error) => Err(error),
            Ok(_) => match http {
                Ok(http) => Ok(OidcProvider { config, http }),
                Err(detail) => Err(AuthError::Discovery(detail)),
            },
        }
    }

    /// Builds a provider from configuration.
    ///
    /// No network call is made here; discovery happens on first use so that a
    /// brief Entra ID outage cannot prevent the process from starting. The client
    /// follows no redirects.
    ///
    /// # Errors
    ///
    /// Returns an error when the configuration is invalid or the HTTP client
    /// cannot be constructed.
    pub fn new(config: OidcConfig) -> (r: Result<OidcProvider, AuthError>)
        ensures
            exists|http: Result<reqwest::Client, String>|
                #[trigger] http::client_made(HTTP_TIMEOUT_SECONDS, http) && match provider_result(
                    config,
                    http,
                ) {
                    Ok(parts) => r matches Ok(provider) && provider@ == parts,
                    Err(e) => r matches Err(error) && error@ == e,
                },
            r matches Ok(provider) ==> http::call_seconds(provider@.1) == HTTP_TIMEOUT_SECONDS
                && http::redirects_followed(provider@.1) == 0,
    {
        let http = make_client(HTTP_TIMEOUT_SECONDS);
        OidcProvider::with_client(config, http)
    }

    /// Returns the configuration this provider was built from.
    pub fn config(&self) -> (r: &OidcConfig)
        ensures
            *r == self@.0,
    {
        &self.config
    }

    /// Returns the client that calls are made with.
    pub fn http(&self) -> (r: &reqwest::Client)
        ensures
            *r == self@.1,
    {
        &self.http
    }

    /// Starts a sign-in at the provider's authorization endpoint and returns where
    /// to send the browser.
    ///
    /// The returned [`LoginFlow`] holds the PKCE verifier, the CSRF state and the
    /// nonce. It must be stored server-side in the session and never put in a URL
    /// or a cookie the client can read.
    ///
    /// # Errors
    ///
    /// Returns [`AuthError::InvalidUrl`] when a URL of the configuration or of the
    /// provider is none.
    pub fn begin_login(&self, authorization_endpoint: &str, return_to: String) -> (r: Result<
        (String, LoginFlow),
        AuthError,
    >)
        ensures
            match first_fault(
                config::issuer(self@.0.tenant_id@),
                authorization_endpoint@,
                self@.0.redirect_uri@,
            ) {
                None => r matches Ok(login) && login.1.return_to == return_to && login.0@
                    == authorization_url(
                    authorization_endpoint@,
                    self@.0.client_id@,
                    self@.0.redirect_uri@,
                    requested_scopes(),
                    login.1.pkce_verifier@,
                    login.1.state@,
                    login.1.nonce@,
                ),
                Some(detail) => r matches Err(error) && error@ == AuthErrorView::InvalidUrl(detail),
            },
    {
        let issuer: String = self.config.issuer_url();
        let redirect_uri: &str = self.config.redirect_uri.as_str();
        if let Some(detail) = find_fault(issuer.as_str(), authorization_endpoint, redirect_uri) {
            return Err(AuthError::InvalidUrl(detail));
        }
        let mut scopes: Vec<String> = Vec::new();
        scopes.push(SCOPES[0].to_owned());
        scopes.push(SCOPES[1].to_owned());
        assert(chars::texts(scopes@) =~= requested_scopes());
        let started: Authorization = authorize(
            issuer,
            authorization_endpoint,
            self.config.client_id.as_str(),
            redirect_uri,
            scopes,
        );
        Ok(login_started(started, return_to))
    }

    /// Goes on with a sign-in: verifies `state` and says what to exchange. What
    /// comes of the exchange goes to [`accept_callback`].
    ///
    /// # Errors
    ///
    /// Returns [`AuthError::StateMismatch`] when `state` is not the one that the
    /// session holds.
    pub fn complete_login(&self, flow: &LoginFlow, code: String, state: &str) -> (r: Result<
        CodeExchange,
        AuthError,
    >)
        ensures
            if flow.state@ == state@ {
                r matches Ok(exchange) && exchange.code == code && exchange.pkce_verifier
                    == flow.pkce_verifier && exchange.nonce == flow.nonce
            } else {
                r matches Err(error) && error@ == AuthErrorView::StateMismatch
            },
    {
        if !states_match(flow, state) {
            return Err(AuthError::StateMismatch);
        }
        Ok(
            CodeExchange {
                code,
                pkce_verifier: flow.pkce_verifier.clone(),
                nonce: flow.nonce.clone(),
            },
        )
    }

    /// Returns the URL that ends the session at Entra ID.
    ///
    /// Falls back to the local post-logout URL when the provider advertises no
    /// end-session endpoint: the local session is already gone at that point, so
    /// the user is signed out of this application either way.
    ///
    /// # Errors
    ///
    /// Returns [`AuthError::InvalidUrl`] when the post-logout URL is none.
    pub fn logout_url(&self, end_session_endpoint: Option<&str>, id_token_hint: Option<&str>) -> (r:
        Result<String, AuthError>)
        ensures
            match logout_target(
                self@.0.client_id@,
                self@.0.post_logout_redirect_uri@,
                match end_session_endpoint {
                    Some(e) => Some(e@),
                    None => None,
                },
                match id_token_hint {
                    Some(h) => Some(h@),
                    None => None,
                },
            ) {
                Ok(url) => r matches Ok(s) && s@ == url,
                Err(e) => r matches Err(error) && error@ == e,
            },
    {
        let post_logout: &str = self.config.post_logout_redirect_uri.as_str();
        let local: Result<String, String> = parse_url(post_logout);
        let ended: Option<Result<String, String>> = match end_session_endpoint {
            Some(endpoint) => Some(
                end_session(endpoint, self.config.client_id.as_str(), post_logout),
            ),
            None => None,
        };
        let hinted: Option<Result<String, String>> = match (&ended, id_token_hint) {
            (Some(Ok(end)), Some(hint)) => Some(append_pair(end.as_str(), "id_token_hint", hint)),
            _ => None,
        };
        settle_logout(local, ended, hinted)
    }
}

/// A callback whose state matched, whose code was exchanged and whose ID token verified
/// releases the claims and the token, when the ID token claims no hash of the access
/// token or exactly the one that it has.
pub proof fn law_checked_logins_succeed(
    state: Seq<char>,
    claims: EntraIdTokenClaims,
    id_token: String,
    expected: String,
    actual: String,
)
    ensures
        callback_result(
            state,
            state,
            ExchangeOutcome::Verified { claims, id_token, access_token: TokenHash::NotClaimed },
        ) == Ok::<(EntraIdTokenClaims, String), AuthErrorView>((claims, id_token)),
        expected@ == actual@ ==> callback_result(
            state,
            state,
            ExchangeOutcome::Verified {
                claims,
                id_token,
                access_token: TokenHash::Computed { expected, actual },
            },
        ) == Ok::<(EntraIdTokenClaims, String), AuthErrorView>((claims, id_token)),
        expected@ != actual@ ==> callback_result(
            state,
            state,
            ExchangeOutcome::Verified {
                claims,
                id_token,
                access_token: TokenHash::Computed { expected, actual },
            },
        ) == Err::<(EntraIdTokenClaims, String), AuthErrorView>(
            AuthErrorView::AccessTokenMismatch,
        ),
{
}

/// Every check that fails is reported as what it is: a state that does not match before
/// anything else, then the exchange, then the token, then its hash.
pub proof fn law_failed_checks_are_told_apart(
    expected: Seq<char>,
    state: Seq<char>,
    outcome: ExchangeOutcome,
    detail: String,
    claims: EntraIdTokenClaims,
    id_token: String,
)
    ensures
        expected != state ==> callback_result(expected, state, outcome) == Err::<
            (EntraIdTokenClaims, String),
            AuthErrorView,
        >(AuthErrorView::StateMismatch),
        callback_result(state, state, ExchangeOutcome::Failed(detail)) == Err::<
            (EntraIdTokenClaims, String),
            AuthErrorView,
        >(AuthErrorView::TokenExchange(detail@)),
        callback_result(state, state, ExchangeOutcome::NoIdToken) == Err::<
            (EntraIdTokenClaims, String),
            AuthErrorView,
        >(AuthErrorView::MissingIdToken),
        callback_result(state, state, ExchangeOutcome::Invalid(detail)) == Err::<
            (EntraIdTokenClaims, String),
            AuthErrorView,
        >(AuthErrorView::InvalidIdToken(detail@)),
        callback_result(
            state,
            state,
            ExchangeOutcome::Verified {
                claims,
                id_token,
                access_token: TokenHash::Failed(detail),
            },
        ) == Err::<(EntraIdTokenClaims, String), AuthErrorView>(
            AuthErrorView::InvalidIdToken(detail@),
        ),
{
}

/// Where the provider advertises an end-session endpoint, signing out goes there, for
/// this client and this post-logout page, and carries the ID token as a hint exactly when
/// there is one. An address that is none is reported with the error of the first that is
/// needed.
pub proof fn law_sign_out_ends_the_session_there(
    client_id: Seq<char>,
    post_logout: Seq<char>,
    endpoint: Seq<char>,
    hint: Seq<char>,
    local: Seq<char>,
    end: Seq<char>,
    hinted: Seq<char>,
    detail: Seq<char>,
    advertised: Option<Seq<char>>,
    given: Option<Seq<char>>,
)
    ensures
        parsed_url(post_logout) == Err::<Seq<char>, Seq<char>>(detail) ==> logout_target(
            client_id,
            post_logout,
            advertised,
            given,
        ) == Err::<Seq<char>, AuthErrorView>(AuthErrorView::InvalidUrl(detail)),
        parsed_url(post_logout) == Ok::<Seq<char>, Seq<char>>(local) ==> {
            &&& end_session_url(endpoint, client_id, post_logout) == Err::<Seq<char>, Seq<char>>(
                detail,
            ) ==> logout_target(client_id, post_logout, Some(endpoint), given) == Err::<
                Seq<char>,
                AuthErrorView,
            >(AuthErrorView::InvalidUrl(detail))
            &&& end_session_url(endpoint, client_id, post_logout) == Ok::<Seq<char>, Seq<char>>(
                end,
            ) ==> {
                &&& logout_target(client_id, post_logout, Some(endpoint), None) == Ok::<
                    Seq<char>,
                    AuthErrorView,
                >(end)
                &&& url_with_pair(end, "id_token_hint"@, hint) == Ok::<Seq<char>, Seq<char>>(
                    hinted,
                ) ==> logout_target(client_id, post_logout, Some(endpoint), Some(hint)) == Ok::<
                    Seq<char>,
                    AuthErrorView,
                >(hinted)
                &&& url_with_pair(end, "id_token_hint"@, hint) == Err::<Seq<char>, Seq<char>>(
                    detail,
                ) ==> logout_target(client_id, post_logout, Some(endpoint), Some(hint)) == Err::<
                    Seq<char>,
                    AuthErrorView,
                >(AuthErrorView::InvalidUrl(detail))
            }
        },
{
}

/// A sign-in cannot be started when one of its three addresses is none, and the error is
/// that of the first in the order issuer, endpoint, redirect.
pub proof fn law_the_first_fault_is_reported(
    issuer: Seq<char>,
    endpoint: Seq<char>,
    redirect_uri: Seq<char>,
)
    ensures
        first_fault(issuer, endpoint, redirect_uri) is None <==> parsed_url(issuer) is Ok
            && parsed_url(endpoint) is Ok && parsed_url(redirect_uri) is Ok,
        parsed_url(issuer) matches Err(detail) ==> first_fault(issuer, endpoint, redirect_uri)
            == Some(detail),
        parsed_url(issuer) is Ok && parsed_url(endpoint) is Err ==> first_fault(
            issuer,
            endpoint,
            redirect_uri,
        ) == Some(parsed_url(endpoint)->Err_0),
        parsed_url(issuer) is Ok && parsed_url(endpoint) is Ok && parsed_url(redirect_uri) is Err
            ==> first_fault(issuer, endpoint, redirect_uri) == Some(
            parsed_url(redirect_uri)->Err_0,
        ),
{
}

/// A provider is built exactly when its addresses are absolute and its client could be
/// built, and keeps the configuration and the client that it was given. A fault of the
/// configuration is reported before one of the client.
pub proof fn law_providers_keep_what_they_were_given(
    config: OidcConfig,
    http: Result<reqwest::Client, String>,
)
    ensures
        provider_result(config, http) is Ok <==> config::absolute(config.redirect_uri@)
            && config::absolute(config.post_logout_redirect_uri@) && http is Ok,
        provider_result(config, http) matches Ok(parts) ==> parts == (config, http->Ok_0),
        !config::absolute(config.redirect_uri@) || !config::absolute(
            config.post_logout_redirect_uri@,
        ) ==> (provider_result(config, http) matches Err(error) && error is InvalidUrl),
        config::absolute(config.redirect_uri@) && config::absolute(
            config.post_logout_redirect_uri@,
        ) && http is Err ==> provider_result(config, http) == Err::<
            (OidcConfig, reqwest::Client),
            AuthErrorView,
        >(AuthErrorView::Discovery(http->Err_0@)),
{
}

/// The state, the PKCE verifier, the nonce and the way back are kept from the start of a
/// sign-in to its completion: a callback that echoes the state is completed with the code
/// that it brought and with the verifier and the nonce that the sign-in was started with.
/// The browser is sent to the advertised endpoint, for this client and the scopes `profile`
/// and `email`.
pub proof fn law_logins_complete_as_they_began(
    provider: OidcProvider,
    endpoint: &str,
    return_to: String,
    code: String,
    state: &str,
    login: (String, LoginFlow),
    began: Result<(String, LoginFlow), AuthError>,
    completed: Result<CodeExchange, AuthError>,
)
    requires
        call_ensures(OidcProvider::begin_login, (&provider, endpoint, return_to), began),
        began == Ok::<(String, LoginFlow), AuthError>(login),
        call_ensures(OidcProvider::complete_login, (&provider, &login.1, code, state), completed),
    ensures
        login.1.return_to == return_to,
        login.0@ == authorization_url(
            endpoint@,
            provider@.0.client_id@,
            provider@.0.redirect_uri@,
            seq!["profile"@, "email"@],
            login.1.pkce_verifier@,
            login.1.state@,
            login.1.nonce@,
        ),
        completed is Ok <==> state@ == login.1.state@,
        completed matches Ok(exchange) ==> {
            &&& exchange.code == code
            &&& exchange.pkce_verifier == login.1.pkce_verifier
            &&& exchange.nonce == login.1.nonce
        },
        completed matches Err(error) ==> error is StateMismatch,
{
    assert(requested_scopes() =~= seq!["profile"@, "email"@]);
}

/// A sign-in is started exactly when the issuer of the tenant, the endpoint and the
/// redirect are addresses.
pub proof fn law_logins_begin_at_addresses(
    provider: OidcProvider,
    endpoint: &str,
    return_to: String,
    r: Result<(String, LoginFlow), AuthError>,
)
    requires
        call_ensures(OidcProvider::begin_login, (&provider, endpoint, return_to), r),
    ensures
        r is Ok <==> parsed_url(
            "https://login.microsoftonline.com/"@ + provider@.0.tenant_id@ + "/v2.0"@,
        ) is Ok && parsed_url(endpoint@) is Ok && parsed_url(provider@.0.redirect_uri@) is Ok,
        r matches Err(error) ==> error is InvalidUrl,
{
}

/// A callback releases the claims and the token exactly when its state is the one that the
/// session holds, the ID token verified, and its hash of the access token, where it claims
/// one, is the right one.
pub proof fn law_callbacks_release_checked_claims(
    flow: LoginFlow,
    state: &str,
    outcome: ExchangeOutcome,
    r: Result<(EntraIdTokenClaims, String), AuthError>,
)
    requires
        call_ensures(accept_callback, (&flow, state, outcome), r),
    ensures
        r is Ok <==> {
            &&& flow.state@ == state@
            &&& outcome matches ExchangeOutcome::Verified { access_token, .. }
            &&& match access_token {
                TokenHash::NotClaimed => true,
                TokenHash::Failed(_) => false,
                TokenHash::Computed { expected, actual } => expected@ == actual@,
            }
        },
        r matches Ok(login) ==> (outcome matches ExchangeOutcome::Verified {
            claims,
            id_token,
            ..
        } && login == (claims, id_token)),
        flow.state@ != state@ ==> (r matches Err(error) && error is StateMismatch),
{
}

/// The hash of an access token is set against the one that was claimed, and neither is
/// changed; where it cannot be computed, that is what comes of the check.
pub proof fn law_hashes_are_set_against_each_other(
    expected: String,
    access_token: &str,
    algorithm: openidconnect::core::CoreJwsSigningAlgorithm,
    key: openidconnect::core::CoreJsonWebKey,
    r: TokenHash,
)
    requires
        call_ensures(check_access_token, (expected, access_token, &algorithm, &key), r),
    ensures
        token_hash(access_token@, algorithm, key) matches Ok(hash) ==> (
        r matches TokenHash::Computed { expected: claimed, actual } && claimed == expected
            && actual@ == hash),
        token_hash(access_token@, algorithm, key) is Err ==> r is Failed,
        !(r is NotClaimed),
{
}

/// Where no session can be ended at the provider, signing out goes to the post-logout page,
/// whatever came of the hint; where it can, a hint that was added is kept.
pub proof fn law_sign_outs_are_settled(
    local: Seq<char>,
    end: Seq<char>,
    longer: Seq<char>,
    hinted: Option<Result<Seq<char>, Seq<char>>>,
)
    ensures
        logout_result(Ok(local), None, hinted) == Ok::<Seq<char>, AuthErrorView>(local),
        logout_result(Ok(local), Some(Ok(end)), None) == Ok::<Seq<char>, AuthErrorView>(end),
        logout_result(Ok(local), Some(Ok(end)), Some(Ok(longer))) == Ok::<
            Seq<char>,
            AuthErrorView,
        >(longer),
{
}

/// Where a browser is sent on sign-out: straight to the post-logout page where the provider
/// advertises no end-session endpoint, and otherwise to that endpoint, with the hint where
/// there is one.
pub proof fn law_sign_outs_go_where_the_provider_says(
    provider: OidcProvider,
    endpoint: Option<&str>,
    hint: Option<&str>,
    r: Result<String, AuthError>,
)
    requires
        call_ensures(OidcProvider::logout_url, (&provider, endpoint, hint), r),
        parsed_url(provider@.0.post_logout_redirect_uri@) is Ok,
    ensures
        ({
            let page = provider@.0.post_logout_redirect_uri@;
            &&& endpoint is None ==> (r matches Ok(url) && url@ == parsed_url(page)->Ok_0)
            &&& endpoint matches Some(e) ==> {
                let ended = end_session_url(e@, provider@.0.client_id@, page);
                &&& ended is Err ==> r is Err
                &&& ended is Ok && hint is None ==> (r matches Ok(url) && url@ == ended->Ok_0)
                &&& ended is Ok && hint is Some ==> {
                    let hinted = url_with_pair(ended->Ok_0, "id_token_hint"@, hint->0@);
                    &&& hinted is Err ==> r is Err
                    &&& hinted is Ok ==> (r matches Ok(url) && url@ == hinted->Ok_0)
                }
            }
        }),
        r matches Err(error) ==> error is InvalidUrl,
{
}

/// A provider is built exactly when its addresses are absolute and its client could be
/// built, and then gives out what it was given. A client that is built here gives each call
/// fifteen seconds and follows no redirect.
pub proof fn law_providers_give_out_what_they_hold(
    config: OidcConfig,
    http: Result<reqwest::Client, String>,
    given: Result<OidcProvider, AuthError>,
    made: Result<OidcProvider, AuthError>,
)
    requires
        call_ensures(OidcProvider::with_client, (config, http), given),
        call_ensures(OidcProvider::new, (config,), made),
    ensures
        given is Ok <==> config::absolute(config.redirect_uri@) && config::absolute(
            config.post_logout_redirect_uri@,
        ) && http is Ok,
        given matches Ok(provider) ==> provider@ == (config, http->Ok_0),
        made matches Ok(provider) ==> {
            &&& provider@.0 == config
            &&& http::call_seconds(provider@.1) == 15
            &&& http::redirects_followed(provider@.1) == 0
        },
        made is Err && config::absolute(config.redirect_uri@) && config::absolute(
            config.post_logout_redirect_uri@,
        ) ==> exists|detail: String| #[trigger]
            http::client_made(15, Err(detail)) && made->Err_0@ == AuthErrorView::Discovery(
                detail@,
            ),
{
    law_providers_keep_what_they_were_given(config, http);
}

} // verus!
