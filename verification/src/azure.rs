//! Azure credentials that give Entra ID tokens.
use std::sync::Arc;

use azure_core::credentials::Secret;
use azure_identity::{ClientSecretCredential, DeveloperToolsCredential, ManagedIdentityCredential};
use vstd::prelude::*;
use vstd::string::*;

verus! {

/// A credential that proves an application's identity with a secret.
#[verifier::external_type_specification]
#[verifier::external_body]
pub struct ExClientSecretCredential(ClientSecretCredential);

/// The credential of a Managed Identity.
#[verifier::external_type_specification]
#[verifier::external_body]
pub struct ExManagedIdentityCredential(ManagedIdentityCredential);

/// The credential of a developer's own session.
#[verifier::external_type_specification]
#[verifier::external_body]
pub struct ExDeveloperToolsCredential(DeveloperToolsCredential);

/// The tenant, the client and the secret that a credential was made with.
pub uninterp spec fn made_with(credential: ClientSecretCredential) -> (Seq<char>, Seq<char>, Seq<char>);

/// `azure_identity::ClientSecretCredential::new`: the credential is made with the
/// three values, none of which may be empty. Which other values it refuses, and
/// whether the environment names a usable authority, is left unsaid; an error comes
/// back as its text, of which nothing is claimed.
#[verifier::external_body]
pub(crate) fn client_secret_credential(tenant_id: &str, client_id: String, secret: String) -> (r: Result<
    Arc<ClientSecretCredential>,
    String,
>)
    ensures
        r matches Ok(credential) ==> made_with(*credential) == (tenant_id@, client_id@, secret@),
        r is Ok ==> tenant_id@.len() > 0 && client_id@.len() > 0 && secret@.len() > 0,
{
    ClientSecretCredential::new(tenant_id, client_id, Secret::new(secret), None).map_err(
        |error| error.to_string(),
    )
}

/// `azure_identity::ManagedIdentityCredential::new`. Whether it succeeds rests
/// on the environment, so nothing is claimed of the result; an error comes back
/// as its text.
#[verifier::external_body]
pub(crate) fn managed_identity_credential() -> (r: Result<Arc<ManagedIdentityCredential>, String>) {
    ManagedIdentityCredential::new(None).map_err(|error| error.to_string())
}

/// `azure_identity::DeveloperToolsCredential::new` without options: it builds the
/// credentials of the two command line tools, which fail only on a tenant or a
/// subscription that is not valid, and none is given. So it always succeeds; whether
/// a tool is there shows only when a token is asked for.
#[verifier::external_body]
pub(crate) fn developer_tools_credential() -> (r: Result<Arc<DeveloperToolsCredential>, String>)
    ensures
        r is Ok,
{
    DeveloperToolsCredential::new(None).map_err(|error| error.to_string())
}

/// Building a credential from a tenant, a client and a secret came to this, in this
/// environment.
pub closed spec fn secret_credential_made(
    tenant_id: &str,
    client_id: String,
    secret: String,
    built: Result<Arc<ClientSecretCredential>, String>,
) -> bool {
    call_ensures(client_secret_credential, (tenant_id, client_id, secret), built)
}

/// Building the credential of a Managed Identity came to this, in this environment.
pub closed spec fn managed_identity_made(
    built: Result<Arc<ManagedIdentityCredential>, String>,
) -> bool {
    call_ensures(managed_identity_credential, (), built)
}

/// What one call of `build` gave.
fn secret_built_by<
    F: Fn(&str, String, String) -> Result<Arc<ClientSecretCredential>, String>,
>(build: F, tenant_id: &str, client_id: String, secret: String) -> (r: Result<
    Arc<ClientSecretCredential>,
    String,
>)
    requires
        call_requires(build, (tenant_id, client_id, secret)),
    ensures
        call_ensures(build, (tenant_id, client_id, secret), r),
{
    build(tenant_id, client_id, secret)
}

/// What one call of `build` gave.
fn identity_built_by<F: Fn() -> Result<Arc<ManagedIdentityCredential>, String>>(build: F) -> (r:
    Result<Arc<ManagedIdentityCredential>, String>)
    requires
        call_requires(build, ()),
    ensures
        call_ensures(build, (), r),
{
    build()
}

/// Builds a credential from a tenant, a client and a secret.
pub(crate) fn make_secret_credential(tenant_id: &str, client_id: String, secret: String) -> (r:
    Result<Arc<ClientSecretCredential>, String>)
    ensures
        secret_credential_made(tenant_id, client_id, secret, r),
        r matches Ok(credential) ==> made_with(*credential) == (tenant_id@, client_id@, secret@),
        r is Ok ==> tenant_id@.len() > 0 && client_id@.len() > 0 && secret@.len() > 0,
{
    secret_built_by(client_secret_credential, tenant_id, client_id, secret)
}

/// Builds the credential of a Managed Identity.
pub(crate) fn make_managed_identity() -> (r: Result<Arc<ManagedIdentityCredential>, String>)
    ensures
        managed_identity_made(r),
{
    identity_built_by(managed_identity_credential)
}

/// Where an Entra ID token comes from.
pub enum EntraCredential {
    /// An application with a client secret.
    ClientSecret(Arc<ClientSecretCredential>),
    /// A Managed Identity.
    ManagedIdentity(Arc<ManagedIdentityCredential>),
    /// The developer's own session.
    DeveloperTools(Arc<DeveloperToolsCredential>),
}

impl Clone for EntraCredential {
    fn clone(&self) -> (r: EntraCredential)
        ensures
            r == *self,
    {
        match self {
            EntraCredential::ClientSecret(c) => EntraCredential::ClientSecret(c.clone()),
            EntraCredential::ManagedIdentity(c) => EntraCredential::ManagedIdentity(c.clone()),
            EntraCredential::DeveloperTools(c) => EntraCredential::DeveloperTools(c.clone()),
        }
    }
}

/// Building the credential of a Managed Identity came to `built`.
pub open spec fn identity_tried(built: Result<EntraCredential, String>) -> bool {
    exists|made: Result<Arc<ManagedIdentityCredential>, String>|
        #[trigger] managed_identity_made(made) && built == match made {
            Ok(credential) => Ok(EntraCredential::ManagedIdentity(credential)),
            Err(detail) => Err(detail),
        }
}

/// A credential counts as made exactly when its constructor can have given it.
pub(crate) proof fn law_credentials_come_from_their_constructors(
    tenant_id: &str,
    client_id: String,
    secret: String,
    of_secret: Result<Arc<ClientSecretCredential>, String>,
    of_identity: Result<Arc<ManagedIdentityCredential>, String>,
)
    ensures
        secret_credential_made(tenant_id, client_id, secret, of_secret) <==> call_ensures(
            client_secret_credential,
            (tenant_id, client_id, secret),
            of_secret,
        ),
        managed_identity_made(of_identity) <==> call_ensures(
            managed_identity_credential,
            (),
            of_identity,
        ),
{
}

} // verus!
