//! Configuration needed to talk to Microsoft Entra ID.
use vstd::prelude::*;
use vstd::string::*;

use crate::auth::error::{AuthError, AuthErrorView};
use crate::text::chars::{concat_text, starts_with};
use crate::text::unicode;
use crate::text::unicode::trim_text;

verus! {

/// Settings for the OpenID Connect relying party.
#[derive(Debug, Clone)]
pub struct OidcConfig {
    /// Entra ID directory (tenant) ID.
    pub tenant_id: String,
    /// Application (client) ID from the app registration.
    pub client_id: String,
    /// Client secret. `None` when authenticating with a Managed Identity.
    pub client_secret: Option<String>,
    /// Redirect URI, identical to the one registered in Entra ID.
    pub redirect_uri: String,
    /// Where to send the browser after a successful sign-out.
    pub post_logout_redirect_uri: String,
    /// App role required to use the application. `None` disables the check.
    pub required_app_role: Option<String>,
}

/// The issuer URL of a tenant.
pub open spec fn issuer(tenant_id: Seq<char>) -> Seq<char> {
    "https://login.microsoftonline.com/"@ + tenant_id + "/v2.0"@
}

/// A URL that says its scheme is HTTP or HTTPS.
pub open spec fn absolute(url: Seq<char>) -> bool {
    "https://"@.is_prefix_of(url) || "http://"@.is_prefix_of(url)
}

/// The error for a setting that is not an absolute URL.
pub open spec fn not_absolute(name: Seq<char>) -> AuthErrorView {
    AuthErrorView::InvalidUrl(name + " must be an absolute http(s) URL"@)
}

/// What is wrong with the settings, if anything.
pub open spec fn config_fault(redirect_uri: Seq<char>, post_logout: Seq<char>) -> Option<
    AuthErrorView,
> {
    if !absolute(redirect_uri) {
        Some(not_absolute("OIDC_REDIRECT_URI"@))
    } else if !absolute(post_logout) {
        Some(not_absolute("APP_BASE_URL"@))
    } else {
        None
    }
}

/// A role that is not blank, trimmed.
pub open spec fn role_setting(role: Option<Seq<char>>) -> Option<Seq<char>> {
    match role {
        Some(r) => if unicode::trimmed(r).len() > 0 {
            Some(unicode::trimmed(r))
        } else {
            None
        },
        None => None,
    }
}

/// A role that is not blank, trimmed.
pub(crate) fn configured_role<'a>(role: Option<&'a str>) -> (r: Option<&'a str>)
    ensures
        match role_setting(
            match role {
                Some(s) => Some(s@),
                None => None,
            },
        ) {
            Some(wanted) => r matches Some(s) && s@ == wanted,
            None => r is None,
        },
{
    match role {
        Some(s) => {
            let trimmed: &'a str = trim_text(s);
            if trimmed.unicode_len() > 0 {
                Some(trimmed)
            } else {
                None
            }
        },
        None => None,
    }
}

fn is_absolute(url: &str) -> (r: bool)
    ensures
        r == absolute(url@),
{
    starts_with(url, "https://") || starts_with(url, "http://")
}

impl OidcConfig {
    /// Returns the issuer URL for this tenant.
    ///
    /// Discovery appends `/.well-known/openid-configuration`, which gives the
    /// documented Entra ID v2.0 discovery URL.
    pub fn issuer_url(&self) -> (r: String)
        ensures
            r@ == issuer(self.tenant_id@),
    {
        let mut out = concat_text(
            "https://login.microsoftonline.com/",
            self.tenant_id.as_str(),
        );
        out.append("/v2.0");
        out
    }

    /// Validates the settings that must hold before any network call is made.
    ///
    /// # Errors
    ///
    /// Returns [`AuthError::InvalidUrl`] when a URL is not absolute.
    pub fn validate(&self) -> (r: Result<(), AuthError>)
        ensures
            match config_fault(self.redirect_uri@, self.post_logout_redirect_uri@) {
                Some(e) => r matches Err(error) && error@ == e,
                None => r is Ok,
            },
    {
        if !is_absolute(self.redirect_uri.as_str()) {
            return Err(
                AuthError::InvalidUrl(
                    concat_text("OIDC_REDIRECT_URI", " must be an absolute http(s) URL"),
                ),
            );
        }
        if !is_absolute(self.post_logout_redirect_uri.as_str()) {
            return Err(
                AuthError::InvalidUrl(
                    concat_text("APP_BASE_URL", " must be an absolute http(s) URL"),
                ),
            );
        }
        Ok(())
    }

    /// Returns the required app role, treating blank as "not configured".
    pub fn required_app_role(&self) -> (r: Option<&str>)
        ensures
            match role_setting(
                match self.required_app_role {
                    Some(s) => Some(s@),
                    None => None,
                },
            ) {
                Some(wanted) => r matches Some(s) && s@ == wanted,
                None => r is None,
            },
    {
        match &self.required_app_role {
            Some(role) => configured_role(Some(role.as_str())),
            None => None,
        }
    }
}

/// A configuration is sound exactly when both of its addresses are absolute: they begin
/// with `https://` or `http://`. The fault names the first one that is not.
pub proof fn law_addresses_have_to_be_absolute(
    redirect_uri: Seq<char>,
    post_logout: Seq<char>,
    rest: Seq<char>,
)
    ensures
        absolute("https://"@ + rest),
        absolute("http://"@ + rest),
        absolute(redirect_uri) ==> (redirect_uri.len() >= 7 && redirect_uri.subrange(0, 7)
            == "http://"@) || (redirect_uri.len() >= 8 && redirect_uri.subrange(0, 8)
            == "https://"@),
        config_fault(redirect_uri, post_logout) is None <==> absolute(redirect_uri) && absolute(
            post_logout,
        ),
        !absolute(redirect_uri) ==> config_fault(redirect_uri, post_logout) == Some(
            AuthErrorView::InvalidUrl(
                "OIDC_REDIRECT_URI"@ + " must be an absolute http(s) URL"@,
            ),
        ),
        absolute(redirect_uri) && !absolute(post_logout) ==> config_fault(
            redirect_uri,
            post_logout,
        ) == Some(
            AuthErrorView::InvalidUrl("APP_BASE_URL"@ + " must be an absolute http(s) URL"@),
        ),
{
    reveal_strlit("https://");
    reveal_strlit("http://");
    assert(("https://"@ + rest).subrange(0, 8) =~= "https://"@);
    assert(("http://"@ + rest).subrange(0, 7) =~= "http://"@);
    if "https://"@.is_prefix_of(redirect_uri) {
        assert(redirect_uri.subrange(0, 8) =~= "https://"@);
    }
    if "http://"@.is_prefix_of(redirect_uri) {
        assert(redirect_uri.subrange(0, 7) =~= "http://"@);
    }
}

/// Every tenant has an issuer of its own, at Microsoft's login service.
pub proof fn law_issuers_are_per_tenant(tenant_id: Seq<char>, other: Seq<char>)
    ensures
        issuer(tenant_id) == "https://login.microsoftonline.com/"@ + tenant_id + "/v2.0"@,
        issuer(tenant_id) == issuer(other) ==> tenant_id == other,
{
    reveal_strlit("https://login.microsoftonline.com/");
    reveal_strlit("/v2.0");
    let a = issuer(tenant_id);
    let n = "https://login.microsoftonline.com/"@.len() as int;
    if a == issuer(other) {
        assert(a.len() == n + tenant_id.len() + 5);
        assert(issuer(other).len() == n + other.len() + 5);
        assert(a.subrange(n, n + tenant_id.len()) =~= tenant_id);
        assert(issuer(other).subrange(n, n + other.len()) =~= other);
    }
}

/// A configuration is valid exactly when both of its addresses begin with `https://` or
/// `http://`, its issuer is that of its tenant, and the role that it asks for is the one
/// that is configured, without the white space around it, unless that is blank.
pub proof fn law_configurations_are_read(
    config: OidcConfig,
    valid: Result<(), AuthError>,
    from: String,
    role: Option<&str>,
)
    requires
        call_ensures(OidcConfig::validate, (&config,), valid),
        call_ensures(OidcConfig::issuer_url, (&config,), from),
        call_ensures(OidcConfig::required_app_role, (&config,), role),
    ensures
        valid is Ok <==> ("https://"@.is_prefix_of(config.redirect_uri@)
            || "http://"@.is_prefix_of(config.redirect_uri@)) && ("https://"@.is_prefix_of(
            config.post_logout_redirect_uri@,
        ) || "http://"@.is_prefix_of(config.post_logout_redirect_uri@)),
        valid matches Err(error) ==> error is InvalidUrl,
        from@ == "https://login.microsoftonline.com/"@ + config.tenant_id@ + "/v2.0"@,
        role is Some <==> config.required_app_role is Some && !unicode::blank(
            config.required_app_role->0@,
        ),
        role matches Some(wanted) ==> wanted@ == unicode::trimmed(config.required_app_role->0@),
{
    if let Some(text) = config.required_app_role {
        unicode::law_blank_texts_trim_to_nothing(text@);
    }
}

} // verus!
