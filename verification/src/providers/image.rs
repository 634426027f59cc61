//! Image generation.
//!
//! `POST {endpoint}/openai/v1/images/generations`. Synchronous: the call returns
//! the finished image, so nothing is left to poll for.
//!
//! The deployed models answer with base64, so no URL is ever handled here. That is
//! also what is wanted: the bytes go straight to our own private container, and
//! the browser never sees a provider URL.
use vstd::prelude::*;
use vstd::string::*;

use crate::encoding;
use crate::encoding::decode_base64;
use crate::json;
use crate::json::text_member;
use crate::providers::auth::Credentials;
use crate::providers::call;
use crate::providers::call::{
    form_field, number_field, text_field, Body, BodyView, Call, CallView, Field, FieldValueView,
    FormField, Method,
};
use crate::providers::config;
use crate::providers::config::ProviderConfig;
use crate::providers::error::{ProviderError, ProviderErrorView};
use crate::providers::media::{
    GeneratedMedia, GeneratedMediaView, GenerationRequest, JobStatus, ProviderJob, ReferenceImage,
    ReferenceImageView,
};
use crate::providers::size;
use crate::providers::size::split_dimensions;
use crate::text::chars::concat_text;
use crate::text::number;
use crate::text::unicode;

verus! {

/// Default image size when the job carries no preference.
pub const DEFAULT_SIZE: &'static str = "1024x1024";

/// Default quality. `medium` is the compromise between wait and detail.
pub const DEFAULT_QUALITY: &'static str = "medium";

/// `requested`, unless it is missing or empty.
pub open spec fn text_or(requested: Option<Seq<char>>, default: Seq<char>) -> Seq<char> {
    match requested {
        Some(value) => if value.len() > 0 {
            value
        } else {
            default
        },
        None => default,
    }
}

/// `requested`, unless it is missing or empty.
pub fn requested_or(requested: Option<&str>, default: &str) -> (r: String)
    ensures
        r@ == text_or(
            match requested {
                Some(value) => Some(value@),
                None => None,
            },
            default@,
        ),
{
    match requested {
        Some(value) => if value.unicode_len() > 0 {
            value.to_owned()
        } else {
            default.to_owned()
        },
        None => default.to_owned(),
    }
}

/// Reads a string parameter from the job's stored parameters.
pub fn string_param(parameters: &serde_json::Value, key: &str, default: &str) -> (r: String)
    ensures
        r@ == text_or(json::text_at(*parameters, key@), default@),
{
    requested_or(text_member(parameters, key), default)
}

/// Splits a `WIDTHxHEIGHT` size into its parts.
///
/// Returns `(None, None)` for `auto`, where the model picks and the actual
/// dimensions are not known from the request.
pub fn parse_size(size: &str) -> (r: (Option<i32>, Option<i32>))
    ensures
        r == size::dimensions(size@),
{
    split_dimensions(size)
}

/// The part of the answer that is read.
pub struct ImagesResponse {
    /// The generated images.
    pub data: Vec<ImageData>,
}

/// One generated image.
pub struct ImageData {
    /// Base64-encoded bytes. Always present for the deployed models.
    pub b64_json: Option<String>,
    /// A short-lived URL, which other models return instead.
    pub url: Option<String>,
}

/// The encoded bytes of the first image, or why there are none.
pub open spec fn first_encoded(data: Seq<ImageData>) -> Result<Seq<char>, ProviderErrorView> {
    if data.len() == 0 {
        Err(ProviderErrorView::Malformed("no image in the response"@))
    } else if let Some(encoded) = data[0].b64_json {
        Ok(encoded@)
    } else if data[0].url is Some {
        Err(ProviderErrorView::Malformed("the deployment returned a URL; expected base64"@))
    } else {
        Err(ProviderErrorView::Malformed("the response carried neither b64_json nor url"@))
    }
}

/// The bytes of an image, given what decoding its text came to.
pub open spec fn image_bytes(decoded: Result<Seq<u8>, Seq<char>>) -> Result<
    Seq<u8>,
    ProviderErrorView,
> {
    match decoded {
        Ok(bytes) => Ok(bytes),
        Err(detail) => Err(
            ProviderErrorView::Malformed("image was not valid base64: "@ + detail),
        ),
    }
}

/// The bytes of the first image of an answer.
pub open spec fn first_image(data: Seq<ImageData>) -> Result<Seq<u8>, ProviderErrorView> {
    match first_encoded(data) {
        Ok(encoded) => image_bytes(encoding::base64_decoded(encoded)),
        Err(e) => Err(e),
    }
}

/// Reads the text of the first image out of an answer.
///
/// A deployment configured to return URLs would need a second fetch before the
/// bytes could be stored. Refusing loudly beats silently handing the browser a
/// provider URL.
///
/// # Errors
///
/// Returns an error when there is no image, or it carries no text.
pub fn encoded_image(response: &ImagesResponse) -> (r: Result<&str, ProviderError>)
    ensures
        match first_encoded(response.data@) {
            Ok(encoded) => r matches Ok(s) && s@ == encoded,
            Err(e) => r matches Err(error) && error@ == e,
        },
{
    if response.data.len() == 0 {
        return Err(ProviderError::Malformed("no image in the response".to_owned()));
    }
    let first: &ImageData = &response.data[0];
    match &first.b64_json {
        Some(encoded) => Ok(encoded.as_str()),
        None => if first.url.is_some() {
            Err(
                ProviderError::Malformed(
                    "the deployment returned a URL; expected base64".to_owned(),
                ),
            )
        } else {
            Err(
                ProviderError::Malformed(
                    "the response carried neither b64_json nor url".to_owned(),
                ),
            )
        },
    }
}

/// Takes what decoding the text of an image came to.
///
/// # Errors
///
/// Returns an error when the text could not be decoded.
pub fn accept_decoded(decoded: Result<Vec<u8>, String>) -> (r: Result<Vec<u8>, ProviderError>)
    ensures
        match image_bytes(
            match decoded {
                Ok(bytes) => Ok(bytes@),
                Err(detail) => Err(detail@),
            },
        ) {
            Ok(bytes) => r matches Ok(v) && v@ == bytes,
            Err(e) => r matches Err(error) && error@ == e,
        },
{
    match decoded {
        Ok(bytes) => Ok(bytes),
        Err(detail) => Err(
            ProviderError::Malformed(concat_text("image was not valid base64: ", detail.as_str())),
        ),
    }
}

/// Reads the first image out of an images response and decodes it.
///
/// Shared by generation and editing: both answer with the same shape.
///
/// # Errors
///
/// Returns an error when the answer holds no image that can be decoded.
pub fn decode_first_image(response: &ImagesResponse) -> (r: Result<Vec<u8>, ProviderError>)
    ensures
        match first_image(response.data@) {
            Ok(bytes) => r matches Ok(v) && v@ == bytes,
            Err(e) => r matches Err(error) && error@ == e,
        },
{
    match encoded_image(response) {
        Ok(encoded) => accept_decoded(decode_base64(encoded)),
        Err(error) => Err(error),
    }
}

/// Generates still images.
pub struct ImageProvider {
    /// Where the service is and what is deployed there.
    pub config: ProviderConfig,
    /// The client that calls are made with.
    pub http: reqwest::Client,
    /// How a call proves who makes it.
    pub credentials: Credentials,
}

/// The call that draws an image from a prompt alone.
pub open spec fn generation_call(
    config: ProviderConfig,
    prompt: Seq<char>,
    size: Seq<char>,
    quality: Seq<char>,
    correlation_id: Seq<char>,
) -> CallView {
    CallView {
        method: Method::Post,
        url: config::operation_url(config.endpoint@, config.api_version@, "images/generations"@),
        operation: "images/generations"@,
        correlation_id,
        body: BodyView::Json(
            seq![
                ("model"@, FieldValueView::Text(config.image_deployment@)),
                ("prompt"@, FieldValueView::Text(prompt)),
                ("n"@, FieldValueView::Number(1)),
                ("size"@, FieldValueView::Text(size)),
                ("quality"@, FieldValueView::Text(quality)),
                ("output_format"@, FieldValueView::Text("png"@)),
            ],
        ),
    }
}

/// The call that works an image over as a prompt says.
pub open spec fn edit_call(
    config: ProviderConfig,
    prompt: Seq<char>,
    size: Seq<char>,
    quality: Seq<char>,
    correlation_id: Seq<char>,
    reference: ReferenceImageView,
) -> CallView {
    CallView {
        method: Method::Post,
        url: config::operation_url(config.endpoint@, config.api_version@, "images/edits"@),
        operation: "images/edits"@,
        correlation_id,
        body: BodyView::Form {
            fields: seq![
                ("model"@, config.image_deployment@),
                ("prompt"@, prompt),
                ("n"@, "1"@),
                ("size"@, size),
                ("quality"@, quality),
            ],
            file_field: "image"@,
            file: reference,
        },
    }
}

/// The call that an image request becomes.
pub open spec fn image_call(
    config: ProviderConfig,
    prompt: Seq<char>,
    size: Seq<char>,
    quality: Seq<char>,
    correlation_id: Seq<char>,
    reference: Option<ReferenceImageView>,
) -> CallView {
    match reference {
        Some(file) => edit_call(config, prompt, size, quality, correlation_id, file),
        None => generation_call(config, prompt, size, quality, correlation_id),
    }
}

/// The media that the bytes of an image of size `size` make.
pub open spec fn image_media(bytes: Seq<u8>, size: Seq<char>) -> GeneratedMediaView {
    GeneratedMediaView {
        bytes,
        content_type: "image/png"@,
        extension: "png"@,
        width: size::dimensions(size).0,
        height: size::dimensions(size).1,
        duration_ms: None,
    }
}

/// An image request that is ready to be sent.
pub struct ImageSubmission {
    /// The call to make.
    pub call: Call,
    /// The size that was asked for.
    pub size: String,
}

impl ImageProvider {
    /// Builds the provider.
    pub fn new(config: ProviderConfig, http: reqwest::Client, credentials: Credentials) -> (r:
        ImageProvider)
        ensures
            r.config == config,
            r.http == http,
            r.credentials == credentials,
    {
        ImageProvider { config, http, credentials }
    }

    /// The call that draws an image from a prompt alone.
    pub fn generation(&self, prompt: &str, size: &str, quality: &str, correlation_id: &str) -> (r:
        Call)
        ensures
            r@ == generation_call(self.config, prompt@, size@, quality@, correlation_id@),
    {
        let mut fields: Vec<Field> = Vec::new();
        fields.push(text_field("model", self.config.image_deployment.as_str()));
        fields.push(text_field("prompt", prompt));
        fields.push(number_field("n", 1));
        fields.push(text_field("size", size));
        fields.push(text_field("quality", quality));
        fields.push(text_field("output_format", "png"));
        assert(call::members(fields@) =~= seq![
            ("model"@, FieldValueView::Text(self.config.image_deployment@)),
            ("prompt"@, FieldValueView::Text(prompt@)),
            ("n"@, FieldValueView::Number(1)),
            ("size"@, FieldValueView::Text(size@)),
            ("quality"@, FieldValueView::Text(quality@)),
            ("output_format"@, FieldValueView::Text("png"@)),
        ]);
        Call {
            method: Method::Post,
            url: self.config.url("images/generations"),
            operation: "images/generations",
            correlation_id: correlation_id.to_owned(),
            body: Body::Json(fields),
        }
    }

    /// Generates from a prompt and a reference image: a multipart call to
    /// `images/edits`. The answer has the shape of a plain generation's.
    pub fn edit(
        &self,
        prompt: &str,
        correlation_id: &str,
        reference: ReferenceImage,
        size: &str,
        quality: &str,
    ) -> (r: Call)
        ensures
            r@ == edit_call(
                self.config,
                prompt@,
                size@,
                quality@,
                correlation_id@,
                reference@,
            ),
    {
        let mut fields: Vec<FormField> = Vec::new();
        fields.push(form_field("model", self.config.image_deployment.as_str()));
        fields.push(form_field("prompt", prompt));
        fields.push(form_field("n", "1"));
        fields.push(form_field("size", size));
        fields.push(form_field("quality", quality));
        assert(call::form_fields(fields@) =~= seq![
            ("model"@, self.config.image_deployment@),
            ("prompt"@, prompt@),
            ("n"@, "1"@),
            ("size"@, size@),
            ("quality"@, quality@),
        ]);
        Call {
            method: Method::Post,
            url: self.config.url("images/edits"),
            operation: "images/edits",
            correlation_id: correlation_id.to_owned(),
            body: Body::Form { fields, file_field: "image", file: reference },
        }
    }

    /// The call that a request becomes.
    ///
    /// With a reference image this is an edit rather than a generation: a
    /// different endpoint, and multipart instead of JSON. The prompt then
    /// describes what to do with the image rather than what to draw from nothing.
    pub fn submit(&self, req: GenerationRequest) -> (r: ImageSubmission)
        ensures
            r.size@ == text_or(json::text_at(req.parameters, "size"@), DEFAULT_SIZE@),
            r.call@ == image_call(
                self.config,
                req.prompt@,
                text_or(json::text_at(req.parameters, "size"@), DEFAULT_SIZE@),
                text_or(json::text_at(req.parameters, "quality"@), DEFAULT_QUALITY@),
                req.correlation_id@,
                match req.reference {
                    Some(reference) => Some(reference@),
                    None => None,
                },
            ),
    {
        let size: String = string_param(&req.parameters, "size", DEFAULT_SIZE);
        let quality: String = string_param(&req.parameters, "quality", DEFAULT_QUALITY);
        let call: Call = match req.reference {
            Some(reference) => self.edit(
                req.prompt.as_str(),
                req.correlation_id.as_str(),
                reference,
                size.as_str(),
                quality.as_str(),
            ),
            None => self.generation(
                req.prompt.as_str(),
                size.as_str(),
                quality.as_str(),
                req.correlation_id.as_str(),
            ),
        };
        ImageSubmission { call, size }
    }

    /// The finished job, from the answer to a call that asked for `size`.
    ///
    /// # Errors
    ///
    /// Returns an error when the answer holds no image that can be decoded.
    pub fn finish(&self, response: &ImagesResponse, size: &str) -> (r: Result<
        ProviderJob,
        ProviderError,
    >)
        ensures
            match first_image(response.data@) {
                Ok(bytes) => r matches Ok(job) && job.finished_with(image_media(bytes, size@)),
                Err(e) => r matches Err(error) && error@ == e,
            },
    {
        match decode_first_image(response) {
            Ok(bytes) => {
                let dimensions: (Option<i32>, Option<i32>) = parse_size(size);
                Ok(
                    ProviderJob::immediate(
                        GeneratedMedia {
                            bytes,
                            content_type: "image/png".to_owned(),
                            extension: "png",
                            width: dimensions.0,
                            height: dimensions.1,
                            duration_ms: None,
                        },
                    ),
                )
            },
            Err(error) => Err(error),
        }
    }

    /// Never needed: [`ProviderJob::is_finished`] is already true after `submit`.
    ///
    /// # Errors
    ///
    /// Always.
    pub fn poll(&self, job: &ProviderJob) -> (r: Result<JobStatus, ProviderError>)
        ensures
            r matches Err(error) && error@ == ProviderErrorView::Internal(
                "image generation is synchronous and has nothing to poll"@,
            ),
    {
        Err(
            ProviderError::Internal(
                "image generation is synchronous and has nothing to poll".to_owned(),
            ),
        )
    }
}

/// A reference image turns the call into an edit that carries it; without one the
/// call is a generation.
pub proof fn law_a_reference_makes_an_edit(
    config: ProviderConfig,
    prompt: Seq<char>,
    size: Seq<char>,
    quality: Seq<char>,
    correlation_id: Seq<char>,
    reference: Option<ReferenceImageView>,
)
    ensures
        reference matches Some(file) ==> image_call(
            config,
            prompt,
            size,
            quality,
            correlation_id,
            reference,
        ).operation == "images/edits"@ && image_call(
            config,
            prompt,
            size,
            quality,
            correlation_id,
            reference,
        ).body->file == file,
        reference is None ==> image_call(
            config,
            prompt,
            size,
            quality,
            correlation_id,
            reference,
        ).operation == "images/generations"@ && image_call(
            config,
            prompt,
            size,
            quality,
            correlation_id,
            reference,
        ).body is Json,
{
}

/// What drawing an image asks for, whatever the request: a `POST` below
/// `{endpoint}/openai/v1/images` that names the deployment, the prompt, the size and the
/// quality. With a reference the image is uploaded as it is to be worked over; without
/// one the call is JSON, asks for one image and for PNG.
pub proof fn law_images_are_asked_for_as_requested(
    config: ProviderConfig,
    prompt: Seq<char>,
    size: Seq<char>,
    quality: Seq<char>,
    correlation_id: Seq<char>,
    reference: Option<ReferenceImageView>,
)
    ensures
        ({
            let made = image_call(config, prompt, size, quality, correlation_id, reference);
            let version = if unicode::blank(config.api_version@) {
                Seq::empty()
            } else {
                "?api-version="@ + config.api_version@
            };
            &&& made.method == Method::Post
            &&& made.url == config.endpoint@ + (if reference is Some {
                "/openai/v1/images/edits"@
            } else {
                "/openai/v1/images/generations"@
            }) + version
            &&& made.correlation_id == correlation_id
            &&& made.says("model"@, config.image_deployment@)
            &&& made.says("prompt"@, prompt)
            &&& made.says("size"@, size)
            &&& made.says("quality"@, quality)
            &&& made.upload() == match reference {
                Some(file) => Some(("image"@, file)),
                None => None,
            }
            &&& reference is Some ==> made.says("n"@, "1"@) && made.field_count() == 5
            &&& reference is None ==> made.body is Json && made.field_count() == 6 && made.says(
                "output_format"@,
                "png"@,
            ) && made.body->Json_0.contains(("n"@, FieldValueView::Number(1)))
        }),
{
    reveal_strlit("images/edits");
    reveal_strlit("images/generations");
    reveal_strlit("/openai/v1/");
    reveal_strlit("/openai/v1/images/edits");
    reveal_strlit("/openai/v1/images/generations");
    let endpoint = config.endpoint@;
    let asked = config.api_version@;
    config::law_operations_live_below_the_endpoint(endpoint, asked, "images/edits"@);
    config::law_operations_live_below_the_endpoint(endpoint, asked, "images/generations"@);
    let made = image_call(config, prompt, size, quality, correlation_id, reference);
    let version = if unicode::blank(asked) {
        Seq::empty()
    } else {
        "?api-version="@ + asked
    };
    if reference is Some {
        assert(made.url =~= endpoint + "/openai/v1/images/edits"@ + version);
    } else {
        assert(made.url =~= endpoint + "/openai/v1/images/generations"@ + version);
    }
    match made.body {
        BodyView::Json(members) => {
            assert(members[0].0 == "model"@ && members[1].0 == "prompt"@);
            assert(members[2] == ("n"@, FieldValueView::Number(1)));
            assert(members[3].0 == "size"@ && members[4].0 == "quality"@);
            assert(members[5].0 == "output_format"@);
        },
        BodyView::Form { fields, .. } => {
            assert(fields[0].0 == "model"@ && fields[1].0 == "prompt"@);
            assert(fields[2].0 == "n"@ && fields[3].0 == "size"@ && fields[4].0 == "quality"@);
        },
        BodyView::Empty => {},
    }
}

/// A parameter is used as it was given, unless it is missing or empty.
pub proof fn law_parameters_are_used_as_given(value: Seq<char>, default: Seq<char>)
    ensures
        value.len() > 0 ==> text_or(Some(value), default) == value,
        text_or(Some(Seq::empty()), default) == default,
        text_or(None, default) == default,
{
}

/// The image of an answer is its first one, decoded, whatever the others are and even
/// where it carries a link too; an answer without encoded bytes in its first image is
/// refused.
pub proof fn law_the_first_image_counts(
    first: ImageData,
    others: Seq<ImageData>,
    bytes: Seq<u8>,
    detail: Seq<char>,
)
    ensures
        first_image(Seq::empty()) is Err,
        first.b64_json matches Some(encoded) ==> {
            &&& encoding::base64_decoded(encoded@) == Ok::<Seq<u8>, Seq<char>>(bytes)
                ==> first_image(seq![first] + others) == Ok::<Seq<u8>, ProviderErrorView>(bytes)
            &&& encoding::base64_decoded(encoded@) == Err::<Seq<u8>, Seq<char>>(detail)
                ==> first_image(seq![first] + others) == Err::<Seq<u8>, ProviderErrorView>(
                ProviderErrorView::Malformed("image was not valid base64: "@ + detail),
            )
        },
        first.b64_json is None ==> (first_image(seq![first] + others) matches Err(error)
            && error is Malformed),
{
    assert((seq![first] + others)[0] == first);
}

/// The bytes of an image are kept as they came, as a PNG of the size that was asked for.
pub proof fn law_images_are_kept_as_they_came(bytes: Seq<u8>, width: i32, height: i32)
    ensures
        ({
            let media = image_media(
                bytes,
                number::signed_decimal(width as int) + seq!['x'] + number::signed_decimal(
                    height as int,
                ),
            );
            &&& media.bytes == bytes
            &&& media.content_type == "image/png"@
            &&& media.extension == "png"@
            &&& media.width == Some(width) && media.height == Some(height)
            &&& media.duration_ms is None
        }),
{
    size::law_sizes_split_into_their_parts(width, height);
}

/// Submitting a request, whatever it asks for, is one `POST` for its own prompt, and for
/// the size and the quality that its parameters name or else 1024 by 1024 pixels in medium
/// quality. A reference goes along as it is, to be edited.
pub proof fn law_submitting_a_request_asks_for_the_image(
    provider: ImageProvider,
    req: GenerationRequest,
    r: ImageSubmission,
)
    requires
        call_ensures(ImageProvider::submit, (&provider, req), r),
    ensures
        ({
            let size = match json::text_at(req.parameters, "size"@) {
                Some(size) => if size.len() > 0 {
                    size
                } else {
                    "1024x1024"@
                },
                None => "1024x1024"@,
            };
            let quality = match json::text_at(req.parameters, "quality"@) {
                Some(quality) => if quality.len() > 0 {
                    quality
                } else {
                    "medium"@
                },
                None => "medium"@,
            };
            &&& r.size@ == size
            &&& r.call@.method == Method::Post
            &&& r.call@.url == provider.config.endpoint@ + (if req.reference is Some {
                "/openai/v1/images/edits"@
            } else {
                "/openai/v1/images/generations"@
            }) + (if unicode::blank(provider.config.api_version@) {
                Seq::empty()
            } else {
                "?api-version="@ + provider.config.api_version@
            })
            &&& r.call@.correlation_id == req.correlation_id@
            &&& r.call@.says("model"@, provider.config.image_deployment@)
            &&& r.call@.says("prompt"@, req.prompt@)
            &&& r.call@.says("size"@, size)
            &&& r.call@.says("quality"@, quality)
            &&& r.call@.upload() == match req.reference {
                Some(file) => Some(("image"@, file@)),
                None => None,
            }
        }),
{
    law_images_are_asked_for_as_requested(
        provider.config,
        req.prompt@,
        text_or(json::text_at(req.parameters, "size"@), DEFAULT_SIZE@),
        text_or(json::text_at(req.parameters, "quality"@), DEFAULT_QUALITY@),
        req.correlation_id@,
        match req.reference {
            Some(reference) => Some(reference@),
            None => None,
        },
    );
}

/// An answer finishes the job with the bytes of its first image, decoded, as a PNG of the
/// size that was asked for; without such an image it is refused as malformed.
pub proof fn law_answers_finish_with_the_first_image(
    provider: ImageProvider,
    response: ImagesResponse,
    size: &str,
    r: Result<ProviderJob, ProviderError>,
)
    requires
        call_ensures(ImageProvider::finish, (&provider, &response, size), r),
    ensures
        r is Ok <==> response.data@.len() > 0 && response.data@[0].b64_json is Some
            && encoding::base64_decoded(response.data@[0].b64_json->0@) is Ok,
        r matches Ok(job) ==> {
            &&& job.id is None
            &&& job.media matches Some(media) && {
                &&& media@.bytes == encoding::base64_decoded(
                    response.data@[0].b64_json->0@,
                )->Ok_0
                &&& media@.content_type == "image/png"@
                &&& media@.extension == "png"@
                &&& (media@.width, media@.height) == size::dimensions(size@)
                &&& media@.duration_ms is None
            }
        },
        r matches Err(error) ==> error@ is Malformed,
{
}

/// Drawing from a prompt alone and working an image over are calls to two addresses with
/// the same deployment, prompt, size and quality.
pub proof fn law_edits_and_generations_ask_alike(
    provider: ImageProvider,
    prompt: &str,
    size: &str,
    quality: &str,
    correlation_id: &str,
    reference: ReferenceImage,
    drawn: Call,
    edited: Call,
)
    requires
        call_ensures(
            ImageProvider::generation,
            (&provider, prompt, size, quality, correlation_id),
            drawn,
        ),
        call_ensures(
            ImageProvider::edit,
            (&provider, prompt, correlation_id, reference, size, quality),
            edited,
        ),
    ensures
        drawn@.method == Method::Post && edited@.method == Method::Post,
        drawn@.says("model"@, provider.config.image_deployment@) && edited@.says(
            "model"@,
            provider.config.image_deployment@,
        ),
        drawn@.says("prompt"@, prompt@) && edited@.says("prompt"@, prompt@),
        drawn@.says("size"@, size@) && edited@.says("size"@, size@),
        drawn@.says("quality"@, quality@) && edited@.says("quality"@, quality@),
        drawn@.upload() is None && drawn@.body is Json,
        edited@.upload() == Some(("image"@, reference@)),
        drawn@.correlation_id == correlation_id@ && edited@.correlation_id == correlation_id@,
{
    law_images_are_asked_for_as_requested(
        provider.config,
        prompt@,
        size@,
        quality@,
        correlation_id@,
        None,
    );
    law_images_are_asked_for_as_requested(
        provider.config,
        prompt@,
        size@,
        quality@,
        correlation_id@,
        Some(reference@),
    );
}

} // verus!
