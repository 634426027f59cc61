//! What is read out of an Entra ID token.
use vstd::prelude::*;

verus! {

/// Claims Microsoft Entra ID adds beyond the standard OpenID Connect set.
///
/// All fields are optional: which ones Entra ID actually emits depends on the app
/// registration's token configuration and on whether the user has been assigned
/// an app role.
#[derive(Debug, Clone, Default)]
pub struct EntraClaims {
    /// Immutable object ID of the user in the directory.
    ///
    /// Unlike `sub`, which is pairwise per application, `oid` identifies the same
    /// user across every application in the tenant. This is what the
    /// `users.entra_oid` column stores.
    pub oid: Option<String>,
    /// App roles assigned to the user for this application.
    ///
    /// Present only when the user or one of their groups is assigned a role.
    pub roles: Vec<String>,
    /// Group object IDs, when the app registration emits a groups claim.
    pub groups: Vec<String>,
    /// User principal name, typically the work e-mail address.
    pub upn: Option<String>,
    /// Tenant ID the token was issued for.
    pub tid: Option<String>,
}

/// Verified claims of an Entra ID token, as far as they are read.
#[derive(Debug, Clone)]
pub struct EntraIdTokenClaims {
    /// The `sub` claim.
    pub subject: String,
    /// The `email` claim.
    pub email: Option<String>,
    /// The `name` claim that is not tied to a language.
    pub name: Option<String>,
    /// The `preferred_username` claim.
    pub preferred_username: Option<String>,
    /// What Entra ID adds.
    pub additional: EntraClaims,
}

} // verus!
