//! Image, speech and video generation with Azure AI Foundry.
//!
//! Azure OpenAI exposes a v1 API where the path is `{endpoint}/openai/v1/...` and
//! the deployment name travels in the request body as `model`. What is decided
//! here is which call to make, whether to try it again and what its answer means;
//! the calls themselves are made by whoever uses this module.
pub mod audio;
pub mod auth;
pub mod call;
pub mod client;
pub mod config;
pub mod error;
pub mod image;
pub mod media;
pub mod size;
pub mod video;

use vstd::prelude::*;

use crate::azure::EntraCredential;
use crate::domain::media::MediaType;
use crate::http;
use crate::providers::audio::AudioProvider;
use crate::providers::client::build_http_client;
use crate::providers::image::ImageProvider;
use crate::providers::video::VideoProvider;

pub use auth::Credentials;
pub use config::ProviderConfig;
pub use error::ProviderError;
pub use media::{GeneratedMedia, GenerationRequest, JobStatus, ProviderJob, ReferenceImage};

verus! {

/// The three providers, ready to use.
pub struct Providers {
    /// Still images.
    pub image: ImageProvider,
    /// Speech.
    pub audio: AudioProvider,
    /// Video.
    pub video: VideoProvider,
}

/// The provider for one kind of media.
pub enum Provider<'a> {
    /// Still images.
    Image(&'a ImageProvider),
    /// Speech.
    Audio(&'a AudioProvider),
    /// Video.
    Video(&'a VideoProvider),
}

impl Providers {
    /// All three providers share one configuration, one client and one credential.
    pub open spec fn share(
        self,
        config: ProviderConfig,
        http: reqwest::Client,
        credentials: Credentials,
    ) -> bool {
        &&& self.image == ImageProvider { config, http, credentials }
        &&& self.audio == AudioProvider { config, http, credentials }
        &&& self.video == VideoProvider { config, http, credentials }
    }

    /// Builds all three from one configuration, one client and one credential.
    pub fn sharing(config: ProviderConfig, http: reqwest::Client, credentials: Credentials) -> (r:
        Providers)
        ensures
            r.share(config, http, credentials),
    {
        Providers {
            image: ImageProvider::new(config.clone(), http.clone(), credentials.clone()),
            audio: AudioProvider::new(config.clone(), http.clone(), credentials.clone()),
            video: VideoProvider::new(config, http, credentials),
        }
    }

    /// Builds all three from one configuration. `in_azure` says whether the
    /// process runs somewhere that offers a managed identity.
    ///
    /// # Errors
    ///
    /// Returns an error when the HTTP client or the credential cannot be built.
    pub fn new(config: ProviderConfig, in_azure: bool) -> (r: Result<Providers, ProviderError>)
        ensures
            match r {
                Ok(providers) => {
                    &&& providers.share(
                        config,
                        providers.image.http,
                        providers.image.credentials,
                    )
                    &&& http::client_made(
                        client::REQUEST_TIMEOUT_SECONDS,
                        Ok(providers.image.http),
                    )
                    &&& http::call_seconds(providers.image.http)
                        == client::REQUEST_TIMEOUT_SECONDS
                    &&& http::redirects_followed(providers.image.http) == 0
                    &&& exists|built: Result<EntraCredential, String>|
                        auth::tried(config, in_azure, built) && auth::built_for(
                            config,
                            in_azure,
                            built,
                        ) && #[trigger] auth::credentials_from(
                            auth::preferred_source(config, in_azure),
                            built,
                            config.api_key,
                            Ok::<Credentials, ProviderError>(providers.image.credentials),
                        )
                },
                Err(error) => {
                    ||| exists|detail: String|
                        #[trigger] http::client_made(
                            client::REQUEST_TIMEOUT_SECONDS,
                            Err(detail),
                        ) && error@ == client::client_outcome(
                            Err::<reqwest::Client, String>(detail),
                        )->Err_0
                    ||| exists|built: Result<EntraCredential, String>|
                        auth::tried(config, in_azure, built) && auth::built_for(
                            config,
                            in_azure,
                            built,
                        ) && #[trigger] auth::credentials_from(
                            auth::preferred_source(config, in_azure),
                            built,
                            config.api_key,
                            Err::<Credentials, ProviderError>(error),
                        )
                },
            },
            config.client_secret is None && !in_azure ==> match r {
                Ok(providers) => providers.image.credentials matches Credentials::Entra(
                    EntraCredential::DeveloperTools(_),
                ),
                Err(error) => exists|detail: String|
                    #[trigger] http::client_made(
                        client::REQUEST_TIMEOUT_SECONDS,
                        Err(detail),
                    ) && error@ == client::client_outcome(
                        Err::<reqwest::Client, String>(detail),
                    )->Err_0,
            },
    {
        match build_http_client() {
            Ok(http) => match Credentials::new(&config, in_azure) {
                Ok(credentials) => Ok(Providers::sharing(config, http, credentials)),
                Err(error) => Err(error),
            },
            Err(error) => Err(error),
        }
    }

    /// Returns the provider for a media type.
    pub fn for_media(&self, media_type: MediaType) -> (r: Provider<'_>)
        ensures
            match media_type {
                MediaType::Image => r == Provider::Image(&self.image),
                MediaType::Audio => r == Provider::Audio(&self.audio),
                MediaType::Video => r == Provider::Video(&self.video),
            },
    {
        match media_type {
            MediaType::Image => Provider::Image(&self.image),
            MediaType::Audio => Provider::Audio(&self.audio),
            MediaType::Video => Provider::Video(&self.video),
        }
    }
}

/// Every kind of media has its own provider, and all three share one configuration, one
/// client and one credential.
pub proof fn law_every_medium_has_its_provider<'a>(
    config: ProviderConfig,
    http: reqwest::Client,
    credentials: Credentials,
    providers: &'a Providers,
    media_type: MediaType,
    chosen: Provider<'a>,
)
    requires
        call_ensures(Providers::sharing, (config, http, credentials), *providers),
        call_ensures(Providers::for_media, (providers, media_type), chosen),
    ensures
        match (media_type, chosen) {
            (MediaType::Image, Provider::Image(p)) => p.config == config && p.http == http
                && p.credentials == credentials,
            (MediaType::Audio, Provider::Audio(p)) => p.config == config && p.http == http
                && p.credentials == credentials,
            (MediaType::Video, Provider::Video(p)) => p.config == config && p.http == http
                && p.credentials == credentials,
            _ => false,
        },
{
}

} // verus!
