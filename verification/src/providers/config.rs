//! Settings for the generation clients.
use vstd::prelude::*;
use vstd::string::*;

use crate::text::unicode;
use crate::text::unicode::{strip_leading, trim_text};

verus! {

/// Everything the three providers need to reach Azure.
#[derive(Debug)]
pub struct ProviderConfig {
    /// Azure OpenAI endpoint, without a trailing slash.
    ///
    /// The `*.openai.azure.com` form, not the Foundry project endpoint: the
    /// image, speech and video operations live on the Azure OpenAI data plane.
    pub endpoint: String,
    /// Value of the `api-version` query parameter.
    pub api_version: String,
    /// Deployment name for image generation.
    pub image_deployment: String,
    /// Deployment name for text-to-speech.
    pub audio_deployment: String,
    /// Deployment name for video generation.
    pub video_deployment: String,
    /// Entra ID tenant, for the client-credentials flow.
    pub tenant_id: String,
    /// Application id, for the client-credentials flow.
    pub client_id: String,
    /// Client secret. Absent when running on a Managed Identity.
    pub client_secret: Option<String>,
    /// API key, accepted only outside production.
    pub api_key: Option<String>,
}

impl Clone for ProviderConfig {
    fn clone(&self) -> (r: ProviderConfig)
        ensures
            r == *self,
    {
        ProviderConfig {
            endpoint: self.endpoint.clone(),
            api_version: self.api_version.clone(),
            image_deployment: self.image_deployment.clone(),
            audio_deployment: self.audio_deployment.clone(),
            video_deployment: self.video_deployment.clone(),
            tenant_id: self.tenant_id.clone(),
            client_id: self.client_id.clone(),
            client_secret: clone_text(&self.client_secret),
            api_key: clone_text(&self.api_key),
        }
    }
}

/// A copy of an optional string.
fn clone_text(s: &Option<String>) -> (r: Option<String>)
    ensures
        r == *s,
{
    match s {
        Some(t) => Some(t.clone()),
        None => None,
    }
}

/// The URL of a v1 data-plane operation: the endpoint, `/openai/v1/`, the path
/// without its leading slashes, and `api-version` unless that is blank.
pub open spec fn operation_url(
    endpoint: Seq<char>,
    api_version: Seq<char>,
    path: Seq<char>,
) -> Seq<char> {
    let base = endpoint + "/openai/v1/"@ + unicode::without_leading(path, '/');
    if unicode::trimmed(api_version).len() == 0 {
        base
    } else {
        base + "?api-version="@ + api_version
    }
}

impl ProviderConfig {
    /// Builds the URL for a v1 data-plane operation.
    ///
    /// `api-version` is optional on the v1 API, so an empty setting means "send
    /// none" rather than "send an empty one".
    pub fn url(&self, path: &str) -> (r: String)
        ensures
            r@ == operation_url(self.endpoint@, self.api_version@, path@),
    {
        let mut out = self.endpoint.clone();
        out.append("/openai/v1/");
        out.append(strip_leading(path, '/'));
        let version: &str = trim_text(self.api_version.as_str());
        if version.unicode_len() > 0 {
            out.append("?api-version=");
            out.append(self.api_version.as_str());
        }
        out
    }
}

/// Leading slashes on a path make no difference.
pub proof fn law_leading_slashes_are_tolerated(
    endpoint: Seq<char>,
    api_version: Seq<char>,
    path: Seq<char>,
)
    ensures
        operation_url(endpoint, api_version, seq!['/'] + path) == operation_url(
            endpoint,
            api_version,
            path,
        ),
{
    assert((seq!['/'] + path).skip(1) =~= path);
}

/// An operation lives below `/openai/v1/` at the endpoint, and the version is asked for
/// exactly when there is one that is not blank.
pub proof fn law_operations_live_below_the_endpoint(
    endpoint: Seq<char>,
    api_version: Seq<char>,
    path: Seq<char>,
)
    requires
        path.len() > 0 ==> path[0] != '/',
    ensures
        unicode::blank(api_version) ==> operation_url(endpoint, api_version, path) == endpoint
            + "/openai/v1/"@ + path,
        !unicode::blank(api_version) ==> operation_url(endpoint, api_version, path) == endpoint
            + "/openai/v1/"@ + path + "?api-version="@ + api_version,
{
    unicode::law_blank_texts_trim_to_nothing(api_version);
}

/// The URL of an operation is its path below `/openai/v1/` at the endpoint, however many
/// slashes the path begins with, and asks for the version exactly when there is one that is
/// not blank.
pub proof fn law_urls_are_built(config: ProviderConfig, path: &str, r: String)
    requires
        call_ensures(ProviderConfig::url, (&config, path), r),
        path@.len() > 0 ==> path@[0] != '/',
    ensures
        r@ == config.endpoint@ + "/openai/v1/"@ + path@ + (if unicode::blank(
            config.api_version@,
        ) {
            Seq::empty()
        } else {
            "?api-version="@ + config.api_version@
        }),
{
    law_operations_live_below_the_endpoint(config.endpoint@, config.api_version@, path@);
    let base = config.endpoint@ + "/openai/v1/"@ + path@;
    assert(base + Seq::<char>::empty() =~= base);
    assert(base + "?api-version="@ + config.api_version@ =~= base + ("?api-version="@
        + config.api_version@));
}

} // verus!
