//! Text-to-speech.
//!
//! `POST {endpoint}/openai/v1/audio/speech`, which answers with the audio bytes
//! directly rather than JSON. Synchronous, like image generation.
//!
//! The voices are multilingual and read Norwegian from the text itself: there is
//! no language parameter to set. The voice is chosen by name and nothing else.
use vstd::prelude::*;
use vstd::string::*;

use crate::json;
use crate::json::text_member;
use crate::providers::auth::Credentials;
use crate::providers::call::{text_field, Body, BodyView, Call, CallView, Field, FieldValueView, Method};
use crate::providers::call;
use crate::providers::config::ProviderConfig;
use crate::providers::config;
use crate::providers::error::{ProviderError, ProviderErrorView};
use crate::providers::media::{
    GeneratedMedia, GeneratedMediaView, GenerationRequest, JobStatus, ProviderJob,
};
use crate::text::chars::text_eq;
use crate::text::unicode;

verus! {

/// Voice used when the job names none.
pub const DEFAULT_VOICE: &'static str = "nova";

/// Voices the API accepts. An unknown name is a 400, so it is checked here.
pub const VOICES: [&'static str; 6] = ["alloy", "echo", "fable", "onyx", "nova", "shimmer"];

/// Longest text the speech endpoint accepts, in characters.
pub const MAX_INPUT_CHARS: usize = 4096;

/// The API accepts the voice.
pub open spec fn known_voice(name: Seq<char>) -> bool {
    exists|i: int| 0 <= i < VOICES@.len() && #[trigger] VOICES@[i]@ == name
}

/// The voice that is used when `requested` is asked for.
pub open spec fn chosen_voice(requested: Option<Seq<char>>) -> Seq<char> {
    match requested {
        Some(name) => if known_voice(name) {
            name
        } else {
            DEFAULT_VOICE@
        },
        None => DEFAULT_VOICE@,
    }
}

/// Picks the voice, falling back when an unknown one is asked for.
pub fn voice_named(requested: Option<&str>) -> (r: &'static str)
    ensures
        r@ == chosen_voice(
            match requested {
                Some(name) => Some(name@),
                None => None,
            },
        ),
{
    match requested {
        Some(name) => {
            let mut i: usize = 0;
            while i < VOICES.len()
                invariant
                    requested == Some(name),
                    i <= VOICES@.len(),
                    forall|j: int| 0 <= j < i ==> #[trigger] VOICES@[j]@ != name@,
                decreases VOICES@.len() - i,
            {
                if text_eq(VOICES[i], name) {
                    assert(VOICES@[i as int]@ == name@);
                    return VOICES[i];
                }
                i = i + 1;
            }
            DEFAULT_VOICE
        },
        None => DEFAULT_VOICE,
    }
}

/// Picks the voice, falling back when the job names an unknown one.
///
/// Silently correcting beats a 400: the voice is a preference, not the point of
/// the request.
pub fn voice(parameters: &serde_json::Value) -> (r: &'static str)
    ensures
        r@ == chosen_voice(json::text_at(*parameters, "voice"@)),
{
    voice_named(text_member(parameters, "voice"))
}

/// Generates speech.
pub struct AudioProvider {
    /// Where the service is and what is deployed there.
    pub config: ProviderConfig,
    /// The client that calls are made with.
    pub http: reqwest::Client,
    /// How a call proves who makes it.
    pub credentials: Credentials,
}

/// The call that a speech request becomes, or why it is refused without one.
///
/// The application allows a longer prompt than this endpoint does, so the limit
/// is reported as a validation failure the user can act on rather than being sent
/// and bounced as a 400.
pub open spec fn speech_call(
    config: ProviderConfig,
    prompt: Seq<char>,
    voice: Seq<char>,
    correlation_id: Seq<char>,
) -> Result<CallView, ProviderErrorView> {
    if prompt.len() > MAX_INPUT_CHARS {
        Err(ProviderErrorView::Validation("speech input is limited to 4096 characters"@))
    } else {
        Ok(
            CallView {
                method: Method::Post,
                url: config::operation_url(config.endpoint@, config.api_version@, "audio/speech"@),
                operation: "audio/speech"@,
                correlation_id,
                body: BodyView::Json(
                    seq![
                        ("model"@, FieldValueView::Text(config.audio_deployment@)),
                        ("input"@, FieldValueView::Text(prompt)),
                        ("voice"@, FieldValueView::Text(voice)),
                        ("response_format"@, FieldValueView::Text("mp3"@)),
                    ],
                ),
            },
        )
    }
}

/// The media that the bytes of a speech answer make.
pub open spec fn speech_media(bytes: Seq<u8>) -> Result<GeneratedMediaView, ProviderErrorView> {
    if bytes.len() == 0 {
        Err(ProviderErrorView::Malformed("empty audio response"@))
    } else {
        Ok(
            GeneratedMediaView {
                bytes,
                content_type: "audio/mpeg"@,
                extension: "mp3"@,
                width: None,
                height: None,
                duration_ms: None,
            },
        )
    }
}

impl AudioProvider {
    /// Builds the provider.
    pub fn new(config: ProviderConfig, http: reqwest::Client, credentials: Credentials) -> (r:
        AudioProvider)
        ensures
            r.config == config,
            r.http == http,
            r.credentials == credentials,
    {
        AudioProvider { config, http, credentials }
    }

    /// The call that has `prompt` read by `voice`.
    ///
    /// # Errors
    ///
    /// Refuses a prompt that the endpoint would not take.
    pub fn speech(&self, prompt: &str, voice: &str, correlation_id: &str) -> (r: Result<
        Call,
        ProviderError,
    >)
        ensures
            match speech_call(self.config, prompt@, voice@, correlation_id@) {
                Ok(view) => r matches Ok(call) && call@ == view,
                Err(e) => r matches Err(error) && error@ == e,
            },
    {
        if prompt.unicode_len() > MAX_INPUT_CHARS {
            return Err(
                ProviderError::Validation("speech input is limited to 4096 characters".to_owned()),
            );
        }
        let mut fields: Vec<Field> = Vec::new();
        fields.push(text_field("model", self.config.audio_deployment.as_str()));
        fields.push(text_field("input", prompt));
        fields.push(text_field("voice", voice));
        fields.push(text_field("response_format", "mp3"));
        let body = Body::Json(fields);
        assert(call::members(fields@) =~= seq![
            ("model"@, FieldValueView::Text(self.config.audio_deployment@)),
            ("input"@, FieldValueView::Text(prompt@)),
            ("voice"@, FieldValueView::Text(voice@)),
            ("response_format"@, FieldValueView::Text("mp3"@)),
        ]);
        Ok(
            Call {
                method: Method::Post,
                url: self.config.url("audio/speech"),
                operation: "audio/speech",
                correlation_id: correlation_id.to_owned(),
                body,
            },
        )
    }

    /// The call that a request becomes.
    ///
    /// # Errors
    ///
    /// Refuses a prompt that the endpoint would not take.
    pub fn submit(&self, req: &GenerationRequest) -> (r: Result<Call, ProviderError>)
        ensures
            match speech_call(
                self.config,
                req.prompt@,
                chosen_voice(json::text_at(req.parameters, "voice"@)),
                req.correlation_id@,
            ) {
                Ok(view) => r matches Ok(call) && call@ == view,
                Err(e) => r matches Err(error) && error@ == e,
            },
    {
        self.speech(req.prompt.as_str(), voice(&req.parameters), req.correlation_id.as_str())
    }

    /// The finished job, from the bytes of the answer.
    ///
    /// # Errors
    ///
    /// Refuses an empty answer.
    pub fn finish(&self, bytes: Vec<u8>) -> (r: Result<ProviderJob, ProviderError>)
        ensures
            match speech_media(bytes@) {
                Ok(view) => r matches Ok(job) && job.finished_with(view),
                Err(e) => r matches Err(error) && error@ == e,
            },
    {
        if bytes.len() == 0 {
            return Err(ProviderError::Malformed("empty audio response".to_owned()));
        }
        // The endpoint reports no duration and decoding the MP3 to find out would
        // cost more than the number is worth.
        Ok(
            ProviderJob::immediate(
                GeneratedMedia {
                    bytes,
                    content_type: "audio/mpeg".to_owned(),
                    extension: "mp3",
                    width: None,
                    height: None,
                    duration_ms: None,
                },
            ),
        )
    }

    /// Never needed: speech finishes during `submit`.
    ///
    /// # Errors
    ///
    /// Always.
    pub fn poll(&self, job: &ProviderJob) -> (r: Result<JobStatus, ProviderError>)
        ensures
            r matches Err(error) && error@ == ProviderErrorView::Internal(
                "speech synthesis is synchronous and has nothing to poll"@,
            ),
    {
        Err(
            ProviderError::Internal(
                "speech synthesis is synchronous and has nothing to poll".to_owned(),
            ),
        )
    }
}

/// Whatever voice is asked for, the one that is sent is one the API accepts.
pub proof fn law_only_known_voices_are_sent(requested: Option<Seq<char>>)
    ensures
        known_voice(chosen_voice(requested)),
{
    assert(VOICES@[4]@ == DEFAULT_VOICE@);
}

/// What reading a text aloud asks for, whatever the request: a `POST` to
/// `{endpoint}/openai/v1/audio/speech` that names the deployment, the whole text, the
/// voice and MP3. Only a text of more than 4096 characters is refused.
pub proof fn law_speech_is_asked_for_as_requested(
    config: ProviderConfig,
    prompt: Seq<char>,
    voice: Seq<char>,
    correlation_id: Seq<char>,
)
    ensures
        prompt.len() > 4096 ==> (speech_call(config, prompt, voice, correlation_id) matches Err(
            error,
        ) && error is Validation),
        prompt.len() <= 4096 ==> (speech_call(config, prompt, voice, correlation_id) matches Ok(
            made,
        ) && {
            &&& made.method == Method::Post
            &&& made.url == config.endpoint@ + "/openai/v1/audio/speech"@ + (if unicode::blank(
                config.api_version@,
            ) {
                Seq::empty()
            } else {
                "?api-version="@ + config.api_version@
            })
            &&& made.correlation_id == correlation_id
            &&& made.body is Json
            &&& made.says("model"@, config.audio_deployment@)
            &&& made.says("input"@, prompt)
            &&& made.says("voice"@, voice)
            &&& made.says("response_format"@, "mp3"@)
            &&& made.field_count() == 4
        }),
{
    reveal_strlit("audio/speech");
    reveal_strlit("/openai/v1/");
    reveal_strlit("/openai/v1/audio/speech");
    config::law_operations_live_below_the_endpoint(
        config.endpoint@,
        config.api_version@,
        "audio/speech"@,
    );
    if let Ok(made) = speech_call(config, prompt, voice, correlation_id) {
        assert(made.url =~= config.endpoint@ + "/openai/v1/audio/speech"@ + (if unicode::blank(
            config.api_version@,
        ) {
            Seq::empty()
        } else {
            "?api-version="@ + config.api_version@
        }));
        if let BodyView::Json(members) = made.body {
            assert(members[0].0 == "model"@ && members[1].0 == "input"@);
            assert(members[2].0 == "voice"@ && members[3].0 == "response_format"@);
        }
    }
}

/// A voice that the API knows is used as asked for; any other gives way to the default.
pub proof fn law_known_voices_are_used_as_asked(name: Seq<char>)
    ensures
        chosen_voice(Some(name)) == if name == "alloy"@ || name == "echo"@ || name == "fable"@
            || name == "onyx"@ || name == "nova"@ || name == "shimmer"@ {
            name
        } else {
            "nova"@
        },
        chosen_voice(None) == "nova"@,
{
    assert(VOICES@[0]@ == "alloy"@ && VOICES@[1]@ == "echo"@ && VOICES@[2]@ == "fable"@);
    assert(VOICES@[3]@ == "onyx"@ && VOICES@[4]@ == "nova"@ && VOICES@[5]@ == "shimmer"@);
}

/// The bytes of a reading are kept as they came, as an MP3; only an empty answer is
/// refused.
pub proof fn law_readings_are_kept_as_they_came(bytes: Seq<u8>)
    ensures
        bytes.len() == 0 ==> speech_media(bytes) is Err,
        bytes.len() > 0 ==> (speech_media(bytes) matches Ok(media) && {
            &&& media.bytes == bytes
            &&& media.content_type == "audio/mpeg"@
            &&& media.extension == "mp3"@
            &&& media.width is None && media.height is None && media.duration_ms is None
        }),
{
}

/// Submitting a request, whatever it asks for, has its whole prompt read by the voice that
/// its parameters name, as far as the API knows it; only a prompt of more than 4096
/// characters is refused.
pub proof fn law_submitting_a_request_has_it_read(
    provider: AudioProvider,
    req: GenerationRequest,
    r: Result<Call, ProviderError>,
)
    requires
        call_ensures(AudioProvider::submit, (&provider, &req), r),
    ensures
        r is Ok <==> req.prompt@.len() <= 4096,
        r matches Err(error) ==> error@ is Validation,
        r matches Ok(call) ==> {
            &&& call@.method == Method::Post
            &&& call@.url == provider.config.endpoint@ + "/openai/v1/audio/speech"@ + (
            if unicode::blank(provider.config.api_version@) {
                Seq::empty()
            } else {
                "?api-version="@ + provider.config.api_version@
            })
            &&& call@.correlation_id == req.correlation_id@
            &&& call@.says("model"@, provider.config.audio_deployment@)
            &&& call@.says("input"@, req.prompt@)
            &&& call@.says("response_format"@, "mp3"@)
            &&& call@.says(
                "voice"@,
                match json::text_at(req.parameters, "voice"@) {
                    Some(name) => if name == "alloy"@ || name == "echo"@ || name == "fable"@
                        || name == "onyx"@ || name == "shimmer"@ {
                        name
                    } else {
                        "nova"@
                    },
                    None => "nova"@,
                },
            )
            &&& call@.field_count() == 4
        },
{
    let asked = json::text_at(req.parameters, "voice"@);
    if let Some(name) = asked {
        law_known_voices_are_used_as_asked(name);
    }
    law_known_voices_are_used_as_asked(""@);
    law_speech_is_asked_for_as_requested(
        provider.config,
        req.prompt@,
        chosen_voice(asked),
        req.correlation_id@,
    );
}

/// An answer finishes the job with its bytes as they came, as an MP3; only an empty one is
/// refused.
pub proof fn law_answers_finish_with_their_bytes(
    provider: AudioProvider,
    bytes: Vec<u8>,
    r: Result<ProviderJob, ProviderError>,
)
    requires
        call_ensures(AudioProvider::finish, (&provider, bytes), r),
    ensures
        r is Ok <==> bytes@.len() > 0,
        r matches Err(error) ==> error@ is Malformed,
        r matches Ok(job) ==> {
            &&& job.id is None
            &&& job.media matches Some(media) && {
                &&& media@.bytes == bytes@
                &&& media@.content_type == "audio/mpeg"@
                &&& media@.extension == "mp3"@
                &&& media@.width is None && media@.height is None && media@.duration_ms is None
            }
        },
{
}

} // verus!
