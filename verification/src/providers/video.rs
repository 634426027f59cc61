//! Video generation with Sora.
//!
//! The only genuinely asynchronous provider, and the one that polling exists for:
//!
//! 1. `POST {endpoint}/openai/v1/videos` creates the job,
//! 2. `GET  {endpoint}/openai/v1/videos/{id}` reports on it,
//! 3. `GET  {endpoint}/openai/v1/videos/{id}/content` fetches the finished file.
//!
//! The service takes `seconds` as a string and `size` as `WIDTHxHEIGHT`, and
//! reports `queued`, `in_progress`, `completed` or `failed`.
use vstd::prelude::*;
use vstd::string::*;

use crate::json;
use crate::json::{text_member, unsigned_member};
use crate::providers::auth::Credentials;
use crate::providers::call;
use crate::providers::call::{
    form_field, text_field, Body, BodyView, Call, CallView, Field, FieldValueView, FormField,
    Method,
};
use crate::providers::config;
use crate::providers::config::ProviderConfig;
use crate::providers::error::{ProviderError, ProviderErrorView};
use crate::providers::media::{
    GeneratedMedia, GeneratedMediaView, GenerationRequest, ProviderJob, ReferenceImage,
    ReferenceImageView,
};
use crate::providers::size;
use crate::providers::size::split_dimensions;
use crate::text::chars;
use crate::text::chars::{contains_text, text_eq};
use crate::text::number;
use crate::text::number::{decimal_text, parse_u32};
use crate::text::unicode;
use crate::text::unicode::to_lowercase;

verus! {

/// Default clip length, in seconds.
pub const DEFAULT_SECONDS: u32 = 4;

/// Default frame size: landscape, the most useful for an intranet clip.
pub const DEFAULT_SIZE: &'static str = "1280x720";

/// Frame sizes the API accepts.
pub const SUPPORTED_SIZES: [&'static str; 4] = ["1280x720", "720x1280", "1792x1024", "1024x1792"];

/// How long to wait between polls, in seconds.
///
/// A four-second clip takes around a minute, so polling faster than this only
/// adds requests.
pub const POLL_INTERVAL_SECONDS: u64 = 10;

/// The API accepts the frame size.
pub open spec fn supported_size(size: Seq<char>) -> bool {
    exists|i: int| 0 <= i < SUPPORTED_SIZES@.len() && #[trigger] SUPPORTED_SIZES@[i]@ == size
}

/// The API accepts the clip length.
pub open spec fn supported_seconds(seconds: int) -> bool {
    seconds == 4 || seconds == 8 || seconds == 12
}

/// The frame size that is used when `requested` is asked for.
pub open spec fn chosen_size(requested: Option<Seq<char>>) -> Seq<char> {
    match requested {
        Some(size) => if supported_size(size) {
            size
        } else {
            DEFAULT_SIZE@
        },
        None => DEFAULT_SIZE@,
    }
}

/// The clip length that is used when `requested` is asked for.
pub open spec fn chosen_seconds(requested: Option<u64>) -> u32 {
    match requested {
        Some(seconds) => if supported_seconds(seconds as int) {
            seconds as u32
        } else {
            DEFAULT_SECONDS
        },
        None => DEFAULT_SECONDS,
    }
}

/// Picks a supported frame size, falling back when another is asked for.
pub fn size_named(requested: Option<&str>) -> (r: &'static str)
    ensures
        r@ == chosen_size(
            match requested {
                Some(size) => Some(size@),
                None => None,
            },
        ),
{
    match requested {
        Some(size) => {
            let mut i: usize = 0;
            while i < SUPPORTED_SIZES.len()
                invariant
                    requested == Some(size),
                    i <= SUPPORTED_SIZES@.len(),
                    forall|j: int| 0 <= j < i ==> #[trigger] SUPPORTED_SIZES@[j]@ != size@,
                decreases SUPPORTED_SIZES@.len() - i,
            {
                if text_eq(SUPPORTED_SIZES[i], size) {
                    assert(SUPPORTED_SIZES@[i as int]@ == size@);
                    return SUPPORTED_SIZES[i];
                }
                i = i + 1;
            }
            DEFAULT_SIZE
        },
        None => DEFAULT_SIZE,
    }
}

/// Picks a supported frame size from the job parameters.
pub fn size(parameters: &serde_json::Value) -> (r: &'static str)
    ensures
        r@ == chosen_size(json::text_at(*parameters, "size"@)),
{
    size_named(text_member(parameters, "size"))
}

/// Picks a supported clip length, falling back when another is asked for.
pub fn seconds_asked(requested: Option<u64>) -> (r: u32)
    ensures
        r == chosen_seconds(requested),
{
    match requested {
        Some(seconds) => if seconds == 4 || seconds == 8 || seconds == 12 {
            seconds as u32
        } else {
            DEFAULT_SECONDS
        },
        None => DEFAULT_SECONDS,
    }
}

/// Picks a supported clip length.
///
/// Sora 2 accepts 4, 8 or 12 seconds and nothing between, so an unsupported value
/// falls back rather than being clamped to something it would reject.
pub fn seconds(parameters: &serde_json::Value) -> (r: u32)
    ensures
        r == chosen_seconds(json::unsigned_at(*parameters, "n_seconds"@)),
{
    seconds_asked(unsigned_member(parameters, "n_seconds"))
}

/// Whatever is asked for, the frame size and the length that are sent are ones
/// the API accepts.
pub proof fn law_only_supported_clips_are_asked_for(size: Option<Seq<char>>, seconds: Option<u64>)
    ensures
        supported_size(chosen_size(size)),
        supported_seconds(chosen_seconds(seconds) as int),
{
    assert(SUPPORTED_SIZES@[0]@ == DEFAULT_SIZE@);
}

/// Splits a `WIDTHxHEIGHT` size into its parts.
pub fn split_size(size: &str) -> (r: (Option<i32>, Option<i32>))
    ensures
        r == size::dimensions(size@),
{
    split_dimensions(size)
}

/// What a reported status means for us.
#[derive(Debug, Clone, Copy, PartialEq, Eq, Structural)]
pub enum Progress {
    /// Not finished; poll again.
    Running,
    /// Finished with a clip.
    Succeeded,
    /// Finished without one.
    Failed,
}

/// What a status in lower case means.
///
/// Unknown values are treated as still running. A new intermediate state added by
/// the service should keep the job waiting, not fail it.
pub open spec fn progress_of(lowered: Seq<char>) -> Progress {
    if lowered == "completed"@ || lowered == "succeeded"@ {
        Progress::Succeeded
    } else if lowered == "failed"@ || lowered == "cancelled"@ || lowered == "canceled"@ {
        Progress::Failed
    } else {
        Progress::Running
    }
}

/// Maps a status in lower case onto [`Progress`].
pub fn classify_lowered(lowered: &str) -> (r: Progress)
    ensures
        r == progress_of(lowered@),
{
    if text_eq(lowered, "completed") || text_eq(lowered, "succeeded") {
        Progress::Succeeded
    } else if text_eq(lowered, "failed") || text_eq(lowered, "cancelled") || text_eq(
        lowered,
        "canceled",
    ) {
        Progress::Failed
    } else {
        Progress::Running
    }
}

/// Maps a reported status onto [`Progress`].
pub fn classify(status: &str) -> (r: Progress)
    ensures
        r == progress_of(unicode::lowercase(status@)),
{
    let lowered: String = to_lowercase(status);
    classify_lowered(lowered.as_str())
}

/// A video, as the API reports it.
pub struct Video {
    /// Its identifier at the service.
    pub id: String,
    /// Where it has got to.
    pub status: String,
    /// Why it failed, when it did.
    pub error: Option<VideoError>,
    /// Its frame size.
    pub size: Option<String>,
    /// Its length, as a string: `"4"`, `"8"` or `"12"`.
    pub seconds: Option<String>,
}

/// Why a video failed.
pub struct VideoError {
    /// Code of the service.
    pub code: Option<String>,
    /// Message of the service.
    pub message: Option<String>,
}

/// What an optional text comes to when missing means empty.
pub open spec fn or_empty(s: Option<String>) -> Seq<char> {
    match s {
        Some(t) => t@,
        None => Seq::empty(),
    }
}

/// Code and message of a failed video, empty where the service gave none.
pub open spec fn failure_detail(error: Option<VideoError>) -> (Seq<char>, Seq<char>) {
    match error {
        Some(detail) => (or_empty(detail.code), or_empty(detail.message)),
        None => (Seq::empty(), Seq::empty()),
    }
}

/// The error of a failed video, given its code and message together in lower case.
///
/// Sora reports a filtered prompt in the error body rather than through an HTTP
/// status, so it is told apart here.
pub open spec fn failure_of(lowered: Seq<char>, message: Seq<char>) -> ProviderErrorView {
    if chars::has_text(lowered, "content"@) || chars::has_text(lowered, "moderation"@) {
        ProviderErrorView::ContentFilter
    } else {
        ProviderErrorView::Upstream(message)
    }
}

/// The error of a failed video.
pub open spec fn video_failure(error: Option<VideoError>) -> ProviderErrorView {
    let detail = failure_detail(error);
    failure_of(unicode::lowercase(detail.0 + " "@ + detail.1), detail.1)
}

/// Maps code and message of a failed video, together in lower case, to an error.
pub fn failure_from(lowered: &str, message: String) -> (r: ProviderError)
    ensures
        r@ == failure_of(lowered@, message@),
{
    if contains_text(lowered, "content") || contains_text(lowered, "moderation") {
        ProviderError::ContentFilter
    } else {
        ProviderError::Upstream(message)
    }
}

fn text_or_empty(s: Option<String>) -> (r: String)
    ensures
        r@ == or_empty(s),
{
    match s {
        Some(t) => t,
        None => String::new(),
    }
}

/// Maps the reason a video failed for to an error.
pub fn failure(error: Option<VideoError>) -> (r: ProviderError)
    ensures
        r@ == video_failure(error),
{
    let detail: VideoError = match error {
        Some(detail) => detail,
        None => VideoError { code: None, message: None },
    };
    let code: String = text_or_empty(detail.code);
    let message: String = text_or_empty(detail.message);
    let mut combined = code.clone();
    combined.append(" ");
    combined.append(message.as_str());
    let lowered: String = to_lowercase(combined.as_str());
    failure_from(lowered.as_str(), message)
}

/// A clip length in milliseconds, unless that is more than is kept.
pub open spec fn clip_millis(seconds: u32) -> Option<i32> {
    if seconds * 1000 <= i32::MAX {
        Some((seconds * 1000) as i32)
    } else {
        None
    }
}

/// A clip length in milliseconds, unless that is more than is kept.
pub fn millis(seconds: u32) -> (r: Option<i32>)
    ensures
        r == clip_millis(seconds),
{
    let product: u64 = seconds as u64 * 1000;
    if product <= 0x7fff_ffff {
        Some(product as i32)
    } else {
        None
    }
}

/// Generates short video clips.
pub struct VideoProvider {
    /// Where the service is and what is deployed there.
    pub config: ProviderConfig,
    /// The client that calls are made with.
    pub http: reqwest::Client,
    /// How a call proves who makes it.
    pub credentials: Credentials,
}

/// The call that starts a clip from a prompt alone.
pub open spec fn clip_call(
    config: ProviderConfig,
    prompt: Seq<char>,
    seconds: u32,
    size: Seq<char>,
    correlation_id: Seq<char>,
) -> CallView {
    CallView {
        method: Method::Post,
        url: config::operation_url(config.endpoint@, config.api_version@, "videos"@),
        operation: "videos"@,
        correlation_id,
        body: BodyView::Json(
            seq![
                ("model"@, FieldValueView::Text(config.video_deployment@)),
                ("prompt"@, FieldValueView::Text(prompt)),
                ("seconds"@, FieldValueView::Text(number::decimal(seconds as nat))),
                ("size"@, FieldValueView::Text(size)),
            ],
        ),
    }
}

/// The call that starts a clip whose first frame is given.
pub open spec fn continued_clip_call(
    config: ProviderConfig,
    prompt: Seq<char>,
    seconds: u32,
    size: Seq<char>,
    correlation_id: Seq<char>,
    reference: ReferenceImageView,
) -> CallView {
    CallView {
        method: Method::Post,
        url: config::operation_url(config.endpoint@, config.api_version@, "videos"@),
        operation: "videos/with-reference"@,
        correlation_id,
        body: BodyView::Form {
            fields: seq![
                ("model"@, config.video_deployment@),
                ("prompt"@, prompt),
                ("seconds"@, number::decimal(seconds as nat)),
                ("size"@, size),
            ],
            file_field: "input_reference"@,
            file: reference,
        },
    }
}

/// The call that a video request becomes.
pub open spec fn video_call(
    config: ProviderConfig,
    prompt: Seq<char>,
    seconds: u32,
    size: Seq<char>,
    correlation_id: Seq<char>,
    reference: Option<ReferenceImageView>,
) -> CallView {
    match reference {
        Some(file) => continued_clip_call(config, prompt, seconds, size, correlation_id, file),
        None => clip_call(config, prompt, seconds, size, correlation_id),
    }
}

/// The call that asks how a clip is getting on.
pub open spec fn status_call(config: ProviderConfig, video_id: Seq<char>) -> CallView {
    CallView {
        method: Method::Get,
        url: config::operation_url(config.endpoint@, config.api_version@, "videos/"@ + video_id),
        operation: "videos/get"@,
        correlation_id: video_id,
        body: BodyView::Empty,
    }
}

/// The call that fetches a finished clip.
pub open spec fn content_call(config: ProviderConfig, video_id: Seq<char>) -> CallView {
    CallView {
        method: Method::Get,
        url: config::operation_url(
            config.endpoint@,
            config.api_version@,
            "videos/"@ + video_id + "/content"@,
        ),
        operation: "videos/content"@,
        correlation_id: video_id,
        body: BodyView::Empty,
    }
}

/// The media that the bytes of a clip make.
pub open spec fn clip_media(bytes: Seq<u8>, size: Option<Seq<char>>, seconds: Option<u32>) -> Result<
    GeneratedMediaView,
    ProviderErrorView,
> {
    if bytes.len() == 0 {
        Err(ProviderErrorView::Malformed("empty video response"@))
    } else {
        let dimensions = match size {
            Some(s) => size::dimensions(s),
            None => (None, None),
        };
        Ok(
            GeneratedMediaView {
                bytes,
                content_type: "video/mp4"@,
                extension: "mp4"@,
                width: dimensions.0,
                height: dimensions.1,
                duration_ms: match seconds {
                    Some(s) => clip_millis(s),
                    None => None,
                },
            },
        )
    }
}

/// The clip length that the service reports, when it is a number.
pub open spec fn reported_seconds(seconds: Option<String>) -> Option<u32> {
    match seconds {
        Some(s) => match number::within(number::unsigned_reading(s@), 0, u32::MAX as int) {
            Some(v) => Some(v as u32),
            None => None,
        },
        None => None,
    }
}

/// What to do with a report on a clip.
pub enum Report {
    /// Still being generated; ask again after a delay.
    Running,
    /// Finished: fetch the file.
    Fetch {
        /// The call that fetches it.
        call: Call,
        /// Frame size, as reported.
        size: Option<String>,
        /// Length in seconds, as reported.
        seconds: Option<u32>,
    },
    /// Finished unsuccessfully.
    Failed(ProviderError),
}

impl VideoProvider {
    /// Builds the provider.
    pub fn new(config: ProviderConfig, http: reqwest::Client, credentials: Credentials) -> (r:
        VideoProvider)
        ensures
            r.config == config,
            r.http == http,
            r.credentials == credentials,
    {
        VideoProvider { config, http, credentials }
    }

    /// The call that starts a clip from a prompt alone.
    pub fn clip(&self, prompt: &str, seconds: u32, size: &str, correlation_id: &str) -> (r: Call)
        ensures
            r@ == clip_call(self.config, prompt@, seconds, size@, correlation_id@),
    {
        let length: String = decimal_text(seconds as u64);
        let mut fields: Vec<Field> = Vec::new();
        fields.push(text_field("model", self.config.video_deployment.as_str()));
        fields.push(text_field("prompt", prompt));
        fields.push(text_field("seconds", length.as_str()));
        fields.push(text_field("size", size));
        assert(call::members(fields@) =~= seq![
            ("model"@, FieldValueView::Text(self.config.video_deployment@)),
            ("prompt"@, FieldValueView::Text(prompt@)),
            ("seconds"@, FieldValueView::Text(number::decimal(seconds as nat))),
            ("size"@, FieldValueView::Text(size@)),
        ]);
        Call {
            method: Method::Post,
            url: self.config.url("videos"),
            operation: "videos",
            correlation_id: correlation_id.to_owned(),
            body: Body::Json(fields),
        }
    }

    /// The call that starts a clip which continues from an uploaded first frame.
    pub fn submit_with_reference(
        &self,
        prompt: &str,
        correlation_id: &str,
        reference: ReferenceImage,
        size: &str,
        seconds: u32,
    ) -> (r: Call)
        ensures
            r@ == continued_clip_call(
                self.config,
                prompt@,
                seconds,
                size@,
                correlation_id@,
                reference@,
            ),
    {
        let length: String = decimal_text(seconds as u64);
        let mut fields: Vec<FormField> = Vec::new();
        fields.push(form_field("model", self.config.video_deployment.as_str()));
        fields.push(form_field("prompt", prompt));
        fields.push(form_field("seconds", length.as_str()));
        fields.push(form_field("size", size));
        assert(call::form_fields(fields@) =~= seq![
            ("model"@, self.config.video_deployment@),
            ("prompt"@, prompt@),
            ("seconds"@, number::decimal(seconds as nat)),
            ("size"@, size@),
        ]);
        Call {
            method: Method::Post,
            url: self.config.url("videos"),
            operation: "videos/with-reference",
            correlation_id: correlation_id.to_owned(),
            body: Body::Form { fields, file_field: "input_reference", file: reference },
        }
    }

    /// The call that a request becomes.
    ///
    /// With a reference image the call is multipart and the image is used as the
    /// clip's first frame: Sora continues from it rather than treating it as a
    /// style reference.
    pub fn submit(&self, req: GenerationRequest) -> (r: Call)
        ensures
            r@ == video_call(
                self.config,
                req.prompt@,
                chosen_seconds(json::unsigned_at(req.parameters, "n_seconds"@)),
                chosen_size(json::text_at(req.parameters, "size"@)),
                req.correlation_id@,
                match req.reference {
                    Some(reference) => Some(reference@),
                    None => None,
                },
            ),
    {
        let frame: &'static str = size(&req.parameters);
        let length: u32 = seconds(&req.parameters);
        match req.reference {
            Some(reference) => self.submit_with_reference(
                req.prompt.as_str(),
                req.correlation_id.as_str(),
                reference,
                frame,
                length,
            ),
            None => self.clip(req.prompt.as_str(), length, frame, req.correlation_id.as_str()),
        }
    }

    /// The job that the answer to a submission stands for.
    pub fn accepted(&self, video: Video) -> (r: ProviderJob)
        ensures
            r.id == Some(video.id),
            r.media is None,
    {
        ProviderJob::pending(video.id)
    }

    /// The call that asks how a submitted job is getting on.
    ///
    /// # Errors
    ///
    /// Returns an error when the job has no identifier to ask about.
    pub fn poll(&self, job: &ProviderJob) -> (r: Result<Call, ProviderError>)
        ensures
            match job.id {
                Some(id) => r matches Ok(call) && call@ == status_call(self.config, id@),
                None => r matches Err(error) && error@ == ProviderErrorView::Internal(
                    "cannot poll a video without an id"@,
                ),
            },
    {
        match &job.id {
            Some(id) => {
                let mut path = "videos/".to_owned();
                path.append(id.as_str());
                Ok(
                    Call {
                        method: Method::Get,
                        url: self.config.url(path.as_str()),
                        operation: "videos/get",
                        correlation_id: id.clone(),
                        body: Body::Empty,
                    },
                )
            },
            None => Err(ProviderError::Internal("cannot poll a video without an id".to_owned())),
        }
    }

    /// The call that downloads a finished clip.
    pub fn fetch_content(&self, video_id: &str) -> (r: Call)
        ensures
            r@ == content_call(self.config, video_id@),
    {
        let mut path = "videos/".to_owned();
        path.append(video_id);
        path.append("/content");
        Call {
            method: Method::Get,
            url: self.config.url(path.as_str()),
            operation: "videos/content",
            correlation_id: video_id.to_owned(),
            body: Body::Empty,
        }
    }

    /// What to do with a report on the clip `video_id`, when `progress` is what
    /// its status means.
    pub fn act_on(&self, video_id: &str, progress: Progress, video: Video) -> (r: Report)
        ensures
            match progress {
                Progress::Running => r is Running,
                Progress::Succeeded => r matches Report::Fetch { call, size, seconds } && call@
                    == content_call(self.config, video_id@) && size == video.size && seconds
                    == reported_seconds(video.seconds),
                Progress::Failed => r matches Report::Failed(error) && error@ == video_failure(
                    video.error,
                ),
            },
    {
        match progress {
            Progress::Running => Report::Running,
            Progress::Succeeded => {
                let seconds: Option<u32> = match &video.seconds {
                    Some(value) => parse_u32(value.as_str()),
                    None => None,
                };
                Report::Fetch { call: self.fetch_content(video_id), size: video.size, seconds }
            },
            Progress::Failed => Report::Failed(failure(video.error)),
        }
    }

    /// What to do with a report on the clip `video_id`.
    pub fn report(&self, video_id: &str, video: Video) -> (r: Report)
        ensures
            match progress_of(unicode::lowercase(video.status@)) {
                Progress::Running => r is Running,
                Progress::Succeeded => r matches Report::Fetch { call, size, seconds } && call@
                    == content_call(self.config, video_id@) && size == video.size && seconds
                    == reported_seconds(video.seconds),
                Progress::Failed => r matches Report::Failed(error) && error@ == video_failure(
                    video.error,
                ),
            },
    {
        let progress: Progress = classify(video.status.as_str());
        self.act_on(video_id, progress, video)
    }

    /// The finished clip, from the bytes of the file and what was reported of it.
    ///
    /// # Errors
    ///
    /// Refuses an empty answer.
    pub fn finish(&self, bytes: Vec<u8>, size: Option<&str>, seconds: Option<u32>) -> (r: Result<
        GeneratedMedia,
        ProviderError,
    >)
        ensures
            match clip_media(
                bytes@,
                match size {
                    Some(s) => Some(s@),
                    None => None,
                },
                seconds,
            ) {
                Ok(view) => r matches Ok(media) && media@ == view,
                Err(e) => r matches Err(error) && error@ == e,
            },
    {
        if bytes.len() == 0 {
            return Err(ProviderError::Malformed("empty video response".to_owned()));
        }
        let dimensions: (Option<i32>, Option<i32>) = match size {
            Some(s) => split_size(s),
            None => (None, None),
        };
        let duration_ms: Option<i32> = match seconds {
            Some(s) => millis(s),
            None => None,
        };
        Ok(
            GeneratedMedia {
                bytes,
                content_type: "video/mp4".to_owned(),
                extension: "mp4",
                width: dimensions.0,
                height: dimensions.1,
                duration_ms,
            },
        )
    }
}

/// What starting a clip asks for, whatever the request: a `POST` to
/// `{endpoint}/openai/v1/videos`, the same address with and without a first frame, that
/// names the deployment, the prompt, the length and the frame size. A first frame is
/// uploaded as it is, in a form; without one the call is JSON.
pub proof fn law_clips_are_started_at_one_address(
    config: ProviderConfig,
    prompt: Seq<char>,
    seconds: u32,
    size: Seq<char>,
    correlation_id: Seq<char>,
    reference: Option<ReferenceImageView>,
)
    ensures
        ({
            let made = video_call(config, prompt, seconds, size, correlation_id, reference);
            &&& made.method == Method::Post
            &&& made.url == config.endpoint@ + "/openai/v1/videos"@ + (if unicode::blank(
                config.api_version@,
            ) {
                Seq::empty()
            } else {
                "?api-version="@ + config.api_version@
            })
            &&& made.correlation_id == correlation_id
            &&& made.operation == if reference is Some {
                "videos/with-reference"@
            } else {
                "videos"@
            }
            &&& made.says("model"@, config.video_deployment@)
            &&& made.says("prompt"@, prompt)
            &&& made.says("seconds"@, number::decimal(seconds as nat))
            &&& made.says("size"@, size)
            &&& made.field_count() == 4
            &&& made.body is Json <==> reference is None
            &&& made.upload() == match reference {
                Some(file) => Some(("input_reference"@, file)),
                None => None,
            }
            &&& made.url == video_call(config, prompt, seconds, size, correlation_id, None).url
        }),
{
    reveal_strlit("videos");
    reveal_strlit("/openai/v1/");
    reveal_strlit("/openai/v1/videos");
    config::law_operations_live_below_the_endpoint(
        config.endpoint@,
        config.api_version@,
        "videos"@,
    );
    let made = video_call(config, prompt, seconds, size, correlation_id, reference);
    assert(made.url =~= config.endpoint@ + "/openai/v1/videos"@ + (if unicode::blank(
        config.api_version@,
    ) {
        Seq::empty()
    } else {
        "?api-version="@ + config.api_version@
    }));
    match made.body {
        BodyView::Json(members) => {
            assert(members[0].0 == "model"@ && members[1].0 == "prompt"@);
            assert(members[2].0 == "seconds"@ && members[3].0 == "size"@);
        },
        BodyView::Form { fields, .. } => {
            assert(fields[0].0 == "model"@ && fields[1].0 == "prompt"@);
            assert(fields[2].0 == "seconds"@ && fields[3].0 == "size"@);
        },
        BodyView::Empty => {},
    }
}

/// Asking about a clip and fetching it are `GET`s below the address that it was started
/// at, under its own identifier, and carry nothing.
pub proof fn law_clips_are_followed_by_their_id(config: ProviderConfig, video_id: Seq<char>)
    ensures
        ({
            let version = if unicode::blank(config.api_version@) {
                Seq::empty()
            } else {
                "?api-version="@ + config.api_version@
            };
            let report = status_call(config, video_id);
            let file = content_call(config, video_id);
            &&& report.method == Method::Get && file.method == Method::Get
            &&& report.url == config.endpoint@ + "/openai/v1/videos/"@ + video_id + version
            &&& file.url == config.endpoint@ + "/openai/v1/videos/"@ + video_id + "/content"@
                + version
            &&& report.body is Empty && file.body is Empty
            &&& report.correlation_id == video_id && file.correlation_id == video_id
        }),
{
    reveal_strlit("videos/");
    reveal_strlit("/content");
    reveal_strlit("/openai/v1/");
    reveal_strlit("/openai/v1/videos/");
    let path = "videos/"@ + video_id;
    let content = "videos/"@ + video_id + "/content"@;
    assert(path[0] == 'v' && content[0] == 'v');
    config::law_operations_live_below_the_endpoint(config.endpoint@, config.api_version@, path);
    config::law_operations_live_below_the_endpoint(config.endpoint@, config.api_version@, content);
    let version = if unicode::blank(config.api_version@) {
        Seq::empty()
    } else {
        "?api-version="@ + config.api_version@
    };
    assert(status_call(config, video_id).url =~= config.endpoint@ + "/openai/v1/videos/"@
        + video_id + version);
    assert(content_call(config, video_id).url =~= config.endpoint@ + "/openai/v1/videos/"@
        + video_id + "/content"@ + version);
}

/// A frame size or a length that the API accepts is used as asked for; anything else
/// gives way to four seconds of landscape.
pub proof fn law_supported_clips_are_made_as_asked(size: Seq<char>, seconds: u64)
    ensures
        chosen_size(Some(size)) == if size == "1280x720"@ || size == "720x1280"@ || size
            == "1792x1024"@ || size == "1024x1792"@ {
            size
        } else {
            "1280x720"@
        },
        chosen_size(None) == "1280x720"@,
        seconds == 4 || seconds == 8 || seconds == 12 ==> chosen_seconds(Some(seconds)) == seconds,
        seconds != 4 && seconds != 8 && seconds != 12 ==> chosen_seconds(Some(seconds)) == 4,
        chosen_seconds(None) == 4,
{
    assert(SUPPORTED_SIZES@[0]@ == "1280x720"@ && SUPPORTED_SIZES@[1]@ == "720x1280"@);
    assert(SUPPORTED_SIZES@[2]@ == "1792x1024"@ && SUPPORTED_SIZES@[3]@ == "1024x1792"@);
}

/// A report ends a clip only when it says so: two words mean success, three failure, and
/// every other status, one that nobody has heard of included, keeps it waiting.
pub proof fn law_unknown_statuses_keep_waiting(lowered: Seq<char>)
    ensures
        progress_of("completed"@) == Progress::Succeeded,
        progress_of("succeeded"@) == Progress::Succeeded,
        progress_of("failed"@) == Progress::Failed,
        progress_of("cancelled"@) == Progress::Failed,
        progress_of("canceled"@) == Progress::Failed,
        lowered != "completed"@ && lowered != "succeeded"@ && lowered != "failed"@ && lowered
            != "cancelled"@ && lowered != "canceled"@ ==> progress_of(lowered) == Progress::Running,
{
    reveal_strlit("completed");
    reveal_strlit("succeeded");
    reveal_strlit("failed");
    reveal_strlit("cancelled");
    reveal_strlit("canceled");
    assert("completed"@[1] == 'o' && "succeeded"@[1] == 'u');
    assert("failed"@[1] == 'a' && "cancelled"@[1] == 'a' && "canceled"@[1] == 'a');
}

/// A failed clip is a refusal of its prompt when its code or its message speaks of
/// content or moderation, and otherwise a failure of the service with its own words.
pub proof fn law_refused_clips_are_told_apart(
    before: Seq<char>,
    after: Seq<char>,
    lowered: Seq<char>,
    message: Seq<char>,
)
    ensures
        failure_of(before + "content"@ + after, message) == ProviderErrorView::ContentFilter,
        failure_of(before + "moderation"@ + after, message) == ProviderErrorView::ContentFilter,
        failure_of(lowered, message) == ProviderErrorView::ContentFilter || failure_of(
            lowered,
            message,
        ) == ProviderErrorView::Upstream(message),
        !chars::has_text(lowered, "content"@) && !chars::has_text(lowered, "moderation"@)
            ==> failure_of(lowered, message) == ProviderErrorView::Upstream(message),
        video_failure(None) == failure_of(unicode::lowercase(" "@), Seq::empty()),
{
    let a = before + "content"@ + after;
    let b = before + "moderation"@ + after;
    let n = before.len() as int;
    assert(a.subrange(n, n + "content"@.len()) =~= "content"@);
    assert(b.subrange(n, n + "moderation"@.len()) =~= "moderation"@);
    assert(chars::occurs_at(a, "content"@, n));
    assert(chars::occurs_at(b, "moderation"@, n));
    assert(Seq::<char>::empty() + " "@ + Seq::<char>::empty() =~= " "@);
}

/// The bytes of a clip are kept as they came, as an MP4 with the reported frame size and
/// a length of a thousand milliseconds for each reported second; only an empty answer is
/// refused.
pub proof fn law_clips_are_kept_as_they_came(
    bytes: Seq<u8>,
    size: Option<Seq<char>>,
    width: i32,
    height: i32,
    seconds: u32,
)
    requires
        bytes.len() > 0,
        seconds <= 2_147_483,
    ensures
        clip_media(Seq::empty(), size, Some(seconds)) is Err,
        clip_media(bytes, size, Some(seconds)) matches Ok(media) && {
            &&& media.bytes == bytes
            &&& media.content_type == "video/mp4"@
            &&& media.extension == "mp4"@
            &&& media.duration_ms matches Some(millis) && millis == seconds * 1000
        },
        clip_media(bytes, size, None) matches Ok(media) && media.duration_ms is None,
        clip_media(bytes, None, None) matches Ok(media) && media.width is None
            && media.height is None,
        clip_media(
            bytes,
            Some(
                number::signed_decimal(width as int) + seq!['x'] + number::signed_decimal(
                    height as int,
                ),
            ),
            None,
        ) matches Ok(media) && media.width == Some(width) && media.height == Some(height),
{
    size::law_sizes_split_into_their_parts(width, height);
}

/// Submitting a request, whatever it asks for, is one `POST` to
/// `{endpoint}/openai/v1/videos` for its own prompt, and for the frame size and the
/// length that its parameters ask for as far as the API accepts them. A first frame goes
/// along as it is, and changes neither the address nor the other fields.
pub proof fn law_submitting_a_request_starts_the_clip(
    provider: VideoProvider,
    req: GenerationRequest,
    r: Call,
)
    requires
        call_ensures(VideoProvider::submit, (&provider, req), r),
    ensures
        r@.method == Method::Post,
        r@.url == provider.config.endpoint@ + "/openai/v1/videos"@ + (if unicode::blank(
            provider.config.api_version@,
        ) {
            Seq::empty()
        } else {
            "?api-version="@ + provider.config.api_version@
        }),
        r@.correlation_id == req.correlation_id@,
        r@.says("model"@, provider.config.video_deployment@),
        r@.says("prompt"@, req.prompt@),
        r@.says(
            "size"@,
            match json::text_at(req.parameters, "size"@) {
                Some(size) => if size == "720x1280"@ || size == "1792x1024"@ || size
                    == "1024x1792"@ {
                    size
                } else {
                    "1280x720"@
                },
                None => "1280x720"@,
            },
        ),
        r@.says(
            "seconds"@,
            number::decimal(
                match json::unsigned_at(req.parameters, "n_seconds"@) {
                    Some(seconds) => if seconds == 8 || seconds == 12 {
                        seconds as nat
                    } else {
                        4
                    },
                    None => 4,
                },
            ),
        ),
        r@.field_count() == 4,
        r@.body is Json <==> req.reference is None,
        r@.upload() == match req.reference {
            Some(file) => Some(("input_reference"@, file@)),
            None => None,
        },
{
    let size = json::text_at(req.parameters, "size"@);
    let seconds = json::unsigned_at(req.parameters, "n_seconds"@);
    if let Some(asked) = size {
        law_supported_clips_are_made_as_asked(asked, 0);
    }
    if let Some(asked) = seconds {
        law_supported_clips_are_made_as_asked(""@, asked);
    }
    law_clips_are_started_at_one_address(
        provider.config,
        req.prompt@,
        chosen_seconds(seconds),
        chosen_size(size),
        req.correlation_id@,
        match req.reference {
            Some(reference) => Some(reference@),
            None => None,
        },
    );
}

/// A clip that continues from a first frame is started where every other clip is: the
/// call differs from one without the frame in its body and its name in the log alone.
pub proof fn law_a_first_frame_changes_no_address(
    provider: VideoProvider,
    prompt: &str,
    correlation_id: &str,
    reference: ReferenceImage,
    size: &str,
    seconds: u32,
    with_frame: Call,
    without: Call,
)
    requires
        call_ensures(
            VideoProvider::submit_with_reference,
            (&provider, prompt, correlation_id, reference, size, seconds),
            with_frame,
        ),
        call_ensures(
            VideoProvider::clip,
            (&provider, prompt, seconds, size, correlation_id),
            without,
        ),
    ensures
        with_frame@.url == without@.url,
        with_frame@.url == provider.config.endpoint@ + "/openai/v1/videos"@ + (if unicode::blank(
            provider.config.api_version@,
        ) {
            Seq::empty()
        } else {
            "?api-version="@ + provider.config.api_version@
        }),
        with_frame@.method == Method::Post && without@.method == Method::Post,
        with_frame@.correlation_id == correlation_id@,
        without@.correlation_id == correlation_id@,
        with_frame@.upload() == Some(("input_reference"@, reference@)),
        without@.upload() is None && without@.body is Json,
        forall|name: Seq<char>, value: Seq<char>| #[trigger]
            with_frame@.says(name, value) <==> without@.says(name, value),
{
    law_clips_are_started_at_one_address(
        provider.config,
        prompt@,
        seconds,
        size@,
        correlation_id@,
        Some(reference@),
    );
    law_clips_are_started_at_one_address(
        provider.config,
        prompt@,
        seconds,
        size@,
        correlation_id@,
        None,
    );
    let fields = with_frame@.body->fields;
    let members = without@.body->Json_0;
    assert(fields.len() == 4 && members.len() == 4);
    assert forall|i: int| 0 <= i < 4 implies #[trigger] members[i] == (
        fields[i].0,
        FieldValueView::Text(fields[i].1),
    ) by {}
    assert forall|name: Seq<char>, value: Seq<char>| #[trigger]
        with_frame@.says(name, value) <==> without@.says(name, value) by {
        if with_frame@.says(name, value) {
            let i = choose|i: int| 0 <= i < fields.len() && #[trigger] fields[i] == (name, value);
            assert(members[i] == (name, FieldValueView::Text(value)));
        }
        if without@.says(name, value) {
            let i = choose|i: int|
                0 <= i < members.len() && #[trigger] members[i] == (
                    name,
                    FieldValueView::Text(value),
                );
            assert(fields[i] == (name, value));
        }
    }
}

/// What a report on a clip leads to, whatever else it holds: a finished clip is fetched
/// under its own identifier, with the size and the length that were reported; a failed one
/// ends with its reason; any other is waited for.
pub proof fn law_reports_lead_on(
    provider: VideoProvider,
    video_id: &str,
    progress: Progress,
    video: Video,
    r: Report,
    seconds: u32,
)
    requires
        call_ensures(VideoProvider::act_on, (&provider, video_id, progress, video), r),
    ensures
        progress == Progress::Running <==> r is Running,
        progress == Progress::Succeeded <==> r is Fetch,
        progress == Progress::Failed <==> r is Failed,
        r matches Report::Fetch { call, size, seconds: length } ==> {
            &&& call@ == content_call(provider.config, video_id@)
            &&& size == video.size
            &&& video.seconds is None ==> length is None
            &&& video.seconds is Some && number::unsigned_number(video.seconds->0@) is None
                ==> length is None
            &&& video.seconds is Some && video.seconds->0@ == number::decimal(seconds as nat)
                ==> length == Some(seconds)
        },
        r matches Report::Failed(error) ==> error@ == match video.error {
            Some(detail) => failure_of(
                unicode::lowercase(
                    (match detail.code {
                        Some(code) => code@,
                        None => Seq::empty(),
                    }) + " "@ + (match detail.message {
                        Some(message) => message@,
                        None => Seq::empty(),
                    }),
                ),
                match detail.message {
                    Some(message) => message@,
                    None => Seq::empty(),
                },
            ),
            None => failure_of(unicode::lowercase(" "@), Seq::empty()),
        },
{
    number::law_decimal_reads_back(seconds as nat);
    assert(Seq::<char>::empty() + " "@ + Seq::<char>::empty() =~= " "@);
}

/// A job is asked about under its own identifier; one without an identifier cannot be.
pub proof fn law_jobs_are_polled_by_their_id(
    provider: VideoProvider,
    job: ProviderJob,
    r: Result<Call, ProviderError>,
)
    requires
        call_ensures(VideoProvider::poll, (&provider, &job), r),
    ensures
        r is Ok <==> job.id is Some,
        r matches Ok(call) ==> call@ == status_call(provider.config, job.id->0@),
        r matches Err(error) ==> error@ is Internal,
{
}

/// A clip of more seconds than its length can be kept for, in milliseconds, is kept
/// without one.
pub proof fn law_overlong_clips_have_no_length(seconds: u32, r: Option<i32>)
    requires
        call_ensures(millis, (seconds,), r),
    ensures
        seconds <= 2_147_483 ==> (r matches Some(kept) && kept == seconds * 1000),
        seconds > 2_147_483 ==> r is None,
{
}

/// A report is read without regard to the case of its status: what it means is what the
/// lower-case form means, and that alone decides what comes of it.
pub proof fn law_reports_are_read_in_lower_case(
    provider: VideoProvider,
    video_id: &str,
    status: &str,
    video: Video,
    meaning: Progress,
    r: Report,
)
    requires
        call_ensures(classify, (status,), meaning),
        call_ensures(VideoProvider::report, (&provider, video_id, video), r),
    ensures
        ({
            let lowered = unicode::lowercase(status@);
            &&& meaning == Progress::Succeeded <==> lowered == "completed"@ || lowered
                == "succeeded"@
            &&& meaning == Progress::Failed <==> lowered == "failed"@ || lowered == "cancelled"@
                || lowered == "canceled"@
        }),
        ({
            let lowered = unicode::lowercase(video.status@);
            &&& r is Fetch <==> lowered == "completed"@ || lowered == "succeeded"@
            &&& r is Failed <==> lowered == "failed"@ || lowered == "cancelled"@ || lowered
                == "canceled"@
        }),
        r matches Report::Fetch { call, size, .. } ==> call@ == content_call(
            provider.config,
            video_id@,
        ) && size == video.size,
{
    law_unknown_statuses_keep_waiting(unicode::lowercase(status@));
    law_unknown_statuses_keep_waiting(unicode::lowercase(video.status@));
}

/// A finished clip holds its bytes as they came, as an MP4 with what was reported of it; an
/// empty answer is refused.
pub proof fn law_clips_are_finished(
    provider: VideoProvider,
    bytes: Vec<u8>,
    size: Option<&str>,
    seconds: Option<u32>,
    r: Result<GeneratedMedia, ProviderError>,
)
    requires
        call_ensures(VideoProvider::finish, (&provider, bytes, size, seconds), r),
    ensures
        r is Ok <==> bytes@.len() > 0,
        r matches Err(error) ==> error is Malformed,
        r matches Ok(media) ==> {
            &&& media@.bytes == bytes@
            &&& media@.content_type == "video/mp4"@
            &&& media@.extension == "mp4"@
            &&& size matches Some(s) ==> (media@.width, media@.height) == size::dimensions(s@)
            &&& size is None ==> media@.width is None && media@.height is None
            &&& seconds matches Some(s) ==> (s <= 2_147_483 ==> (media@.duration_ms matches Some(
                millis,
            ) && millis == s * 1000))
            &&& seconds is None ==> media@.duration_ms is None
        },
{
}

/// A submission that was accepted is a job under the identifier that the service gave it,
/// and has no media yet.
pub proof fn law_accepted_clips_are_pending(
    provider: VideoProvider,
    video: Video,
    job: ProviderJob,
    finished: bool,
)
    requires
        call_ensures(VideoProvider::accepted, (&provider, video), job),
        call_ensures(ProviderJob::is_finished, (&job,), finished),
    ensures
        job.id == Some(video.id),
        !finished,
{
}

} // verus!
