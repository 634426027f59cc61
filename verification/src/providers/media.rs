//! What is asked of a provider, and what it gives back.
use vstd::prelude::*;
use vstd::string::*;

use crate::domain::media::MediaType;
use crate::providers::error::ProviderError;

verus! {

/// An image that a request starts from.
#[derive(Debug, Clone)]
pub struct ReferenceImage {
    /// The bytes themselves.
    pub bytes: Vec<u8>,
    /// MIME type.
    pub content_type: String,
    /// File name to send along.
    pub file_name: String,
}

/// A reference image as sequences.
#[verifier::ext_equal]
pub struct ReferenceImageView {
    /// The bytes themselves.
    pub bytes: Seq<u8>,
    /// MIME type.
    pub content_type: Seq<char>,
    /// File name to send along.
    pub file_name: Seq<char>,
}

impl View for ReferenceImage {
    type V = ReferenceImageView;

    open spec fn view(&self) -> ReferenceImageView {
        ReferenceImageView {
            bytes: self.bytes@,
            content_type: self.content_type@,
            file_name: self.file_name@,
        }
    }
}

/// What the user asked for.
#[derive(Debug, Clone)]
pub struct GenerationRequest {
    /// Which kind of media to produce.
    pub media_type: MediaType,
    /// The validated prompt.
    pub prompt: String,
    /// Provider parameters as stored on the job.
    pub parameters: serde_json::Value,
    /// Correlation ID of the request that started this, for log stitching.
    pub correlation_id: String,
    /// An image to start from, when the user attached one.
    pub reference: Option<ReferenceImage>,
}

/// Finished media, still in memory and not yet stored.
#[derive(Clone)]
pub struct GeneratedMedia {
    /// The bytes themselves.
    pub bytes: Vec<u8>,
    /// MIME type, used for the blob and the preview element.
    pub content_type: String,
    /// File extension, without the dot.
    pub extension: &'static str,
    /// Pixel width, for images and video.
    pub width: Option<i32>,
    /// Pixel height, for images and video.
    pub height: Option<i32>,
    /// Playing time, for audio and video.
    pub duration_ms: Option<i32>,
}

/// Finished media as sequences.
#[verifier::ext_equal]
pub struct GeneratedMediaView {
    /// The bytes themselves.
    pub bytes: Seq<u8>,
    /// MIME type.
    pub content_type: Seq<char>,
    /// File extension.
    pub extension: Seq<char>,
    /// Pixel width.
    pub width: Option<i32>,
    /// Pixel height.
    pub height: Option<i32>,
    /// Playing time.
    pub duration_ms: Option<i32>,
}

impl View for GeneratedMedia {
    type V = GeneratedMediaView;

    open spec fn view(&self) -> GeneratedMediaView {
        GeneratedMediaView {
            bytes: self.bytes@,
            content_type: self.content_type@,
            extension: self.extension@,
            width: self.width,
            height: self.height,
            duration_ms: self.duration_ms,
        }
    }
}

/// A submitted piece of work.
///
/// Image and speech finish inside the request itself, so `media` is already
/// present and `id` is `None`. Video is genuinely asynchronous: `id` is the
/// identifier to poll and `media` stays `None` until it succeeds.
pub struct ProviderJob {
    /// The provider's own job id, for asynchronous generation.
    pub id: Option<String>,
    /// The finished media, when generation completed during `submit`.
    pub media: Option<GeneratedMedia>,
}

impl ProviderJob {
    /// The job finished with the media `view`.
    pub open spec fn finished_with(self, view: GeneratedMediaView) -> bool {
        self.id is None && self.media is Some && self.media->0@ == view
    }

    /// A job that finished immediately.
    pub fn immediate(media: GeneratedMedia) -> (r: ProviderJob)
        ensures
            r.id is None,
            r.media == Some(media),
    {
        ProviderJob { id: None, media: Some(media) }
    }

    /// A job the provider is still working on.
    pub fn pending(id: String) -> (r: ProviderJob)
        ensures
            r.id == Some(id),
            r.media is None,
    {
        ProviderJob { id: Some(id), media: None }
    }

    /// Returns `true` when there is nothing left to poll for.
    pub fn is_finished(&self) -> (r: bool)
        ensures
            r == self.media is Some,
    {
        self.media.is_some()
    }
}

/// Where a submitted piece of work has got to.
pub enum JobStatus {
    /// Still being generated; poll again after a delay.
    Running,
    /// Finished, with the media attached.
    Succeeded(Box<GeneratedMedia>),
    /// Finished unsuccessfully.
    Failed(ProviderError),
}

} // verus!
