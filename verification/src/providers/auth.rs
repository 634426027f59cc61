//! Credentials for the Azure OpenAI data plane.
//!
//! Preferred: an Entra ID token for the data-plane scope, from a Managed Identity
//! in Azure or the developer's own session locally. The order is spelled out in
//! [`Credentials::new`].
//!
//! Fallback: an API key, for local development only.
use std::sync::Arc;

use azure_identity::ClientSecretCredential;
use vstd::prelude::*;
use vstd::string::*;

use crate::azure;
use crate::azure::{
    developer_tools_credential, make_managed_identity, make_secret_credential, EntraCredential,
};
use crate::http;
use crate::http::is_header_value;
use crate::providers::config::ProviderConfig;
use crate::providers::error::{ProviderError, ProviderErrorView};
use crate::text::chars::concat_text;

verus! {

/// Scope the data-plane token is requested for.
pub const SCOPE: &'static str = "https://cognitiveservices.azure.com/.default";

/// Header carrying the API key, when one is used.
pub const API_KEY_HEADER: &'static str = "api-key";

/// Header carrying an Entra ID token.
pub const AUTHORIZATION_HEADER: &'static str = "authorization";

/// How the client proves who it is.
pub enum Credentials {
    /// Entra ID token, refreshed by the credential as needed.
    Entra(EntraCredential),
    /// Static API key. Development only.
    ApiKey(String),
}

impl Clone for Credentials {
    fn clone(&self) -> (r: Credentials)
        ensures
            r == *self,
    {
        match self {
            Credentials::Entra(c) => Credentials::Entra(c.clone()),
            Credentials::ApiKey(key) => Credentials::ApiKey(key.clone()),
        }
    }
}

/// Which credential is tried.
#[derive(Debug, Clone, Copy, PartialEq, Eq, Structural)]
pub enum Source {
    /// An application with a client secret.
    ClientSecret,
    /// A Managed Identity.
    ManagedIdentity,
    /// The developer's own session.
    DeveloperTools,
}

/// The credential that is tried, from most to least specific.
pub open spec fn preferred_source(config: ProviderConfig, in_azure: bool) -> Source {
    if config.client_secret is Some {
        Source::ClientSecret
    } else if in_azure {
        Source::ManagedIdentity
    } else {
        Source::DeveloperTools
    }
}

/// What an optional string holds.
pub open spec fn key_text(key: Option<String>) -> Option<Seq<char>> {
    match key {
        Some(k) => Some(k@),
        None => None,
    }
}

/// What the credentials come to when the credential that was tried could not be
/// built: only the developer's own session gives way to the API key.
pub open spec fn without_entra(source: Source, detail: Seq<char>, api_key: Option<Seq<char>>) -> Result<
    Seq<char>,
    ProviderErrorView,
> {
    match source {
        Source::ClientSecret => Err(
            ProviderErrorView::Internal("invalid client credentials: "@ + detail),
        ),
        Source::ManagedIdentity => Err(
            ProviderErrorView::Internal("managed identity unavailable: "@ + detail),
        ),
        Source::DeveloperTools => match api_key {
            Some(key) => Ok(key),
            None => Err(
                ProviderErrorView::Internal(
                    "no Entra credential available and no API key configured"@,
                ),
            ),
        },
    }
}

/// What the credentials are, given the credential that was tried and what came
/// of building it.
pub open spec fn credentials_from(
    source: Source,
    built: Result<EntraCredential, String>,
    api_key: Option<String>,
    outcome: Result<Credentials, ProviderError>,
) -> bool {
    match built {
        Ok(credential) => outcome == Ok::<Credentials, ProviderError>(
            Credentials::Entra(credential),
        ),
        Err(detail) => match without_entra(source, detail@, key_text(api_key)) {
            Ok(key) => outcome matches Ok(Credentials::ApiKey(k)) && k@ == key,
            Err(e) => outcome matches Err(error) && error@ == e,
        },
    }
}

/// A credential came from the source that is to be tried, and was made with what
/// is configured. None is made with an empty tenant, client or secret, and that of
/// the developer's own session can always be built.
pub open spec fn built_for(
    config: ProviderConfig,
    in_azure: bool,
    built: Result<EntraCredential, String>,
) -> bool {
    let source = preferred_source(config, in_azure);
    match built {
        Ok(EntraCredential::ClientSecret(c)) => {
            &&& source == Source::ClientSecret
            &&& azure::made_with(*c) == (
                config.tenant_id@,
                config.client_id@,
                config.client_secret->0@,
            )
            &&& config.tenant_id@.len() > 0
            &&& config.client_id@.len() > 0
            &&& config.client_secret->0@.len() > 0
        },
        Ok(EntraCredential::ManagedIdentity(_)) => source == Source::ManagedIdentity,
        Ok(EntraCredential::DeveloperTools(_)) => source == Source::DeveloperTools,
        Err(_) => source != Source::DeveloperTools,
    }
}

/// Building the credential that is to be tried came to `built`: the outcome is the one
/// that the source gave, with what is configured.
pub open spec fn tried(
    config: ProviderConfig,
    in_azure: bool,
    built: Result<EntraCredential, String>,
) -> bool {
    match preferred_source(config, in_azure) {
        Source::ClientSecret => exists|
            tenant_id: &str,
            made: Result<Arc<ClientSecretCredential>, String>,
        |
            tenant_id@ == config.tenant_id@ && #[trigger] azure::secret_credential_made(
                tenant_id,
                config.client_id,
                config.client_secret->0,
                made,
            ) && built == match made {
                Ok(credential) => Ok(EntraCredential::ClientSecret(credential)),
                Err(detail) => Err(detail),
            },
        Source::ManagedIdentity => azure::identity_tried(built),
        Source::DeveloperTools => built matches Ok(EntraCredential::DeveloperTools(_)),
    }
}

/// Picks the credential to try.
///
/// The choice between a managed identity and the developer's session is made on
/// the environment, not by trying each in turn: the managed identity credential can
/// be built where there is no managed identity, and then only acquiring a token
/// fails, after a long timeout.
pub fn choose_source(config: &ProviderConfig, in_azure: bool) -> (r: Source)
    ensures
        r == preferred_source(*config, in_azure),
{
    if config.client_secret.is_some() {
        Source::ClientSecret
    } else if in_azure {
        Source::ManagedIdentity
    } else {
        Source::DeveloperTools
    }
}

/// Settles the credentials once the credential that was tried has been built, or
/// has not.
pub fn settle_credentials(
    source: Source,
    built: Result<EntraCredential, String>,
    api_key: &Option<String>,
) -> (r: Result<Credentials, ProviderError>)
    ensures
        credentials_from(source, built, *api_key, r),
{
    match built {
        Ok(credential) => Ok(Credentials::Entra(credential)),
        Err(detail) => match source {
            Source::ClientSecret => Err(
                ProviderError::Internal(
                    concat_text("invalid client credentials: ", detail.as_str()),
                ),
            ),
            Source::ManagedIdentity => Err(
                ProviderError::Internal(
                    concat_text("managed identity unavailable: ", detail.as_str()),
                ),
            ),
            Source::DeveloperTools => match api_key {
                Some(key) => Ok(Credentials::ApiKey(key.clone())),
                None => Err(
                    ProviderError::Internal(
                        "no Entra credential available and no API key configured".to_owned(),
                    ),
                ),
            },
        },
    }
}

impl Credentials {
    /// Chooses a credential from configuration.
    ///
    /// The order, from most to least specific:
    ///
    /// 1. a client secret, when one is configured,
    /// 2. a Managed Identity, which is how this runs in Azure,
    /// 3. the developer tools credential, which picks up the developer's session,
    /// 4. an API key, for local development only.
    ///
    /// `in_azure` says whether the process runs somewhere that offers a managed
    /// identity. The developer tools credential can always be built, so outside
    /// Azure, and without a client secret, it is the one.
    ///
    /// # Errors
    ///
    /// Returns an error when none of the four is available.
    pub fn new(config: &ProviderConfig, in_azure: bool) -> (r: Result<Credentials, ProviderError>)
        ensures
            exists|built: Result<EntraCredential, String>|
                tried(*config, in_azure, built) && built_for(*config, in_azure, built)
                    && #[trigger] credentials_from(
                    preferred_source(*config, in_azure),
                    built,
                    config.api_key,
                    r,
                ),
            config.client_secret is None && !in_azure ==> (r matches Ok(
                Credentials::Entra(EntraCredential::DeveloperTools(_)),
            )),
    {
        let source: Source = choose_source(config, in_azure);
        let built: Result<EntraCredential, String> = match &config.client_secret {
            Some(secret) => match make_secret_credential(
                config.tenant_id.as_str(),
                config.client_id.clone(),
                secret.clone(),
            ) {
                Ok(credential) => Ok(EntraCredential::ClientSecret(credential)),
                Err(detail) => Err(detail),
            },
            None => if in_azure {
                match make_managed_identity() {
                    Ok(credential) => Ok(EntraCredential::ManagedIdentity(credential)),
                    Err(detail) => Err(detail),
                }
            } else {
                match developer_tools_credential() {
                    Ok(credential) => Ok(EntraCredential::DeveloperTools(credential)),
                    Err(detail) => Err(detail),
                }
            },
        };
        assert(tried(*config, in_azure, built));
        let outcome = settle_credentials(source, built, &config.api_key);
        assert(credentials_from(source, built, config.api_key, outcome));
        outcome
    }
}

/// The API key is a last resort: it is used only when no client secret is
/// configured, the process is not in Azure, and the developer's session could
/// not be had.
pub proof fn law_api_key_is_the_last_resort(
    config: ProviderConfig,
    in_azure: bool,
    built: Result<EntraCredential, String>,
    outcome: Result<Credentials, ProviderError>,
)
    requires
        credentials_from(preferred_source(config, in_azure), built, config.api_key, outcome),
        outcome matches Ok(Credentials::ApiKey(_)),
    ensures
        config.client_secret is None,
        !in_azure,
        built is Err,
        config.api_key is Some,
        outcome->Ok_0->ApiKey_0@ == config.api_key->0@,
{
}

/// One header of a request. Its value is a secret.
pub struct AuthHeader {
    /// Name of the header.
    pub name: &'static str,
    /// Value of the header.
    pub value: String,
}

/// The header that carries an Entra ID token.
///
/// # Errors
///
/// Returns an error when the token cannot stand in a header.
pub fn bearer_header(token: &str) -> (r: Result<AuthHeader, ProviderError>)
    ensures
        if http::header_text("Bearer "@ + token@) {
            r matches Ok(header) && header.name@ == AUTHORIZATION_HEADER@ && header.value@
                == "Bearer "@ + token@
        } else {
            r matches Err(error) && error@ == ProviderErrorView::Internal(
                "token is not a valid header value"@,
            )
        },
{
    let value: String = concat_text("Bearer ", token);
    if is_header_value(value.as_str()) {
        Ok(AuthHeader { name: AUTHORIZATION_HEADER, value })
    } else {
        Err(ProviderError::Internal("token is not a valid header value".to_owned()))
    }
}

/// The header that carries an API key.
///
/// # Errors
///
/// Returns an error when the key cannot stand in a header.
pub fn api_key_header(key: &str) -> (r: Result<AuthHeader, ProviderError>)
    ensures
        if http::header_text(key@) {
            r matches Ok(header) && header.name@ == API_KEY_HEADER@ && header.value@ == key@
        } else {
            r matches Err(error) && error@ == ProviderErrorView::Internal(
                "API key is not a valid header value"@,
            )
        },
{
    if is_header_value(key) {
        Ok(AuthHeader { name: API_KEY_HEADER, value: key.to_owned() })
    } else {
        Err(ProviderError::Internal("API key is not a valid header value".to_owned()))
    }
}

/// What came of asking a credential for a token: the token, or the reason in
/// words.
pub open spec fn token_header(token: Result<Seq<char>, Seq<char>>) -> Result<
    Seq<char>,
    ProviderErrorView,
> {
    match token {
        Ok(t) => if http::header_text("Bearer "@ + t) {
            Ok("Bearer "@ + t)
        } else {
            Err(ProviderErrorView::Internal("token is not a valid header value"@))
        },
        Err(detail) => Err(
            ProviderErrorView::Internal("could not acquire a token: "@ + detail),
        ),
    }
}

impl Credentials {
    /// Returns the authentication header for one request. `token` is what came
    /// of asking the Entra credential for a token; an API key needs none.
    ///
    /// # Errors
    ///
    /// Returns an error when a token could not be acquired, or the secret cannot
    /// stand in a header.
    pub fn headers(&self, token: Result<&str, &str>) -> (r: Result<AuthHeader, ProviderError>)
        ensures
            match *self {
                Credentials::Entra(_) => match token_header(
                    match token {
                        Ok(t) => Ok(t@),
                        Err(detail) => Err(detail@),
                    },
                ) {
                    Ok(value) => r matches Ok(header) && header.name@ == AUTHORIZATION_HEADER@
                        && header.value@ == value,
                    Err(e) => r matches Err(error) && error@ == e,
                },
                Credentials::ApiKey(key) => if http::header_text(key@) {
                    r matches Ok(header) && header.name@ == API_KEY_HEADER@ && header.value@ == key@
                } else {
                    r matches Err(error) && error@ == ProviderErrorView::Internal(
                        "API key is not a valid header value"@,
                    )
                },
            },
    {
        match self {
            Credentials::Entra(_) => match token {
                Ok(t) => bearer_header(t),
                Err(detail) => Err(
                    ProviderError::Internal(concat_text("could not acquire a token: ", detail)),
                ),
            },
            Credentials::ApiKey(key) => api_key_header(key.as_str()),
        }
    }
}

/// Which credential is tried: the client secret wherever one is configured, in Azure or
/// not; without one a Managed Identity in Azure and the developer's own session
/// elsewhere.
pub proof fn law_the_most_specific_credential_is_tried(config: ProviderConfig, in_azure: bool)
    ensures
        config.client_secret is Some ==> preferred_source(config, in_azure)
            == Source::ClientSecret,
        config.client_secret is None && in_azure ==> preferred_source(config, in_azure)
            == Source::ManagedIdentity,
        config.client_secret is None && !in_azure ==> preferred_source(config, in_azure)
            == Source::DeveloperTools,
{
}

/// A credential that was built is the one that is used, whatever else is configured. One
/// that was not is an error that says which, but for the developer's own session, which
/// gives way to the API key where there is one.
pub proof fn law_a_built_credential_is_used(
    source: Source,
    credential: EntraCredential,
    detail: String,
    api_key: Option<String>,
    outcome: Result<Credentials, ProviderError>,
)
    ensures
        credentials_from(source, Ok(credential), api_key, outcome) ==> outcome == Ok::<
            Credentials,
            ProviderError,
        >(Credentials::Entra(credential)),
        credentials_from(source, Err(detail), api_key, outcome) ==> match source {
            Source::ClientSecret => outcome matches Err(error) && error@
                == ProviderErrorView::Internal("invalid client credentials: "@ + detail@),
            Source::ManagedIdentity => outcome matches Err(error) && error@
                == ProviderErrorView::Internal("managed identity unavailable: "@ + detail@),
            Source::DeveloperTools => match api_key {
                Some(key) => outcome matches Ok(Credentials::ApiKey(k)) && k@ == key@,
                None => outcome matches Err(error) && error@ is Internal,
            },
        },
{
}

/// A call carries exactly one header that proves who makes it: the token of an Entra
/// credential as a bearer, or the API key under its own name. A secret that cannot stand in
/// a header, and a token that could not be had, are internal errors.
pub proof fn law_calls_carry_one_proof(
    credentials: Credentials,
    token: Result<&str, &str>,
    r: Result<AuthHeader, ProviderError>,
)
    requires
        call_ensures(Credentials::headers, (&credentials, token), r),
    ensures
        credentials matches Credentials::ApiKey(key) ==> {
            &&& r is Ok <==> http::header_text(key@)
            &&& r matches Ok(header) ==> header.name@ == "api-key"@ && header.value@ == key@
        },
        credentials is Entra ==> {
            &&& r is Ok <==> token is Ok && http::header_text("Bearer "@ + token->Ok_0@)
            &&& r matches Ok(header) ==> header.name@ == "authorization"@ && header.value@
                == "Bearer "@ + token->Ok_0@
            &&& token matches Err(detail) ==> (r matches Err(error) && error@
                == ProviderErrorView::Internal("could not acquire a token: "@ + detail@))
        },
        r matches Err(error) ==> error is Internal,
{
}

/// Which credentials come of a configuration: with a client secret those of the application
/// with just what is configured, in Azure those of the Managed Identity, and elsewhere the
/// developer's own; or the error of the one that was tried, as it was given.
pub proof fn law_credentials_come_of_the_configuration(
    config: ProviderConfig,
    in_azure: bool,
    r: Result<Credentials, ProviderError>,
)
    requires
        call_ensures(Credentials::new, (&config, in_azure), r),
    ensures
        config.client_secret is Some && r is Ok ==> (r matches Ok(Credentials::Entra(
            EntraCredential::ClientSecret(c),
        )) && azure::made_with(*c) == (
            config.tenant_id@,
            config.client_id@,
            config.client_secret->0@,
        )),
        config.client_secret is None && in_azure && r is Ok ==> (r matches Ok(Credentials::Entra(
            EntraCredential::ManagedIdentity(_),
        ))),
        config.client_secret is None && !in_azure ==> (r matches Ok(Credentials::Entra(
            EntraCredential::DeveloperTools(_),
        ))),
        r matches Err(error) ==> exists|detail: String| #[trigger]
            tried(config, in_azure, Err(detail)) && error@ == ProviderErrorView::Internal(
                (if config.client_secret is Some {
                    "invalid client credentials: "@
                } else {
                    "managed identity unavailable: "@
                }) + detail@,
            ),
{
    let built = choose|built: Result<EntraCredential, String>|
        tried(config, in_azure, built) && built_for(config, in_azure, built)
            && #[trigger] credentials_from(
            preferred_source(config, in_azure),
            built,
            config.api_key,
            r,
        );
    if let Err(detail) = built {
        assert(tried(config, in_azure, Err(detail)));
    }
}

} // verus!
