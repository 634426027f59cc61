//! Calls to the generation service, retries and what the answers mean.
use mediagenerator::azure::EntraCredential;
use mediagenerator::domain::error::ErrorCode;
use mediagenerator::domain::i18n::nb;
use mediagenerator::domain::media::MediaType;
use mediagenerator::http::is_success;
use mediagenerator::providers::audio::{voice, voice_named, AudioProvider, DEFAULT_VOICE, VOICES};
use mediagenerator::providers::auth::{
    api_key_header, bearer_header, choose_source, settle_credentials, Source,
};
use mediagenerator::providers::call::{Body, Call, Field, FieldValue, FormField, Method};
use mediagenerator::providers::client::{
    backoff, build_http_client, longest_backoff, map_status, retry_after, send_step,
    send_with_retry, summarise, Reply, Retry, Step, MAX_BACKOFF_MILLIS,
};
use mediagenerator::providers::image::{
    decode_first_image, parse_size, string_param, ImageData, ImageProvider, ImagesResponse,
    DEFAULT_SIZE,
};
use mediagenerator::providers::video::{
    classify, failure, millis, seconds, size, split_size, Progress, Report, Video, VideoError,
    VideoProvider, DEFAULT_SECONDS,
};
use mediagenerator::providers::video;
use mediagenerator::providers::{
    Credentials, GeneratedMedia, GenerationRequest, Provider, ProviderConfig, ProviderError,
    ProviderJob, Providers, ReferenceImage,
};

fn config(api_version: &str) -> ProviderConfig {
    ProviderConfig {
        endpoint: "https://example.openai.azure.com".to_owned(),
        api_version: api_version.to_owned(),
        image_deployment: "bilde".to_owned(),
        audio_deployment: "tale".to_owned(),
        video_deployment: "video".to_owned(),
        tenant_id: "t".to_owned(),
        client_id: "c".to_owned(),
        client_secret: None,
        api_key: None,
    }
}

fn json(text: &str) -> serde_json::Value {
    serde_json::from_str(text).expect("valid JSON")
}

fn request(prompt: &str, parameters: &str) -> GenerationRequest {
    GenerationRequest {
        media_type: MediaType::Image,
        prompt: prompt.to_owned(),
        parameters: json(parameters),
        correlation_id: "korr".to_owned(),
        reference: None,
    }
}

fn reference() -> ReferenceImage {
    ReferenceImage {
        bytes: vec![1, 2, 3],
        content_type: "image/png".to_owned(),
        file_name: "referanse.png".to_owned(),
    }
}

fn audio() -> AudioProvider {
    let http = build_http_client().expect("a client");
    AudioProvider::new(config("preview"), http, Credentials::ApiKey("k".to_owned()))
}

fn image() -> ImageProvider {
    let http = build_http_client().expect("a client");
    ImageProvider::new(config("preview"), http, Credentials::ApiKey("k".to_owned()))
}

fn video_provider() -> VideoProvider {
    let http = build_http_client().expect("a client");
    VideoProvider::new(config("preview"), http, Credentials::ApiKey("k".to_owned()))
}

/// The members of a JSON body as `name=value` lines.
fn members(fields: &[Field]) -> Vec<String> {
    fields
        .iter()
        .map(|field| match &field.value {
            FieldValue::Text(text) => format!("{}={}", field.name, text),
            FieldValue::Number(number) => format!("{}=#{}", field.name, number),
        })
        .collect()
}

fn form(fields: &[FormField]) -> Vec<String> {
    fields
        .iter()
        .map(|field| format!("{}={}", field.name, field.value))
        .collect()
}

fn json_body(call: &Call) -> Vec<String> {
    match &call.body {
        Body::Json(fields) => members(fields),
        other => panic!("unexpected {other:?}"),
    }
}

fn refused(status: u16, header: Option<&str>, body: &str) -> Reply {
    Reply::Refused {
        status,
        retry_after: header.map(str::to_owned),
        body: body.to_owned(),
    }
}

#[test]
fn a_known_voice_is_used() {
    assert_eq!(voice(&json(r#"{"voice": "fable"}"#)), "fable");
}

#[test]
fn an_unknown_or_missing_voice_falls_back() {
    assert_eq!(voice(&json("{}")), DEFAULT_VOICE);
    assert_eq!(voice(&json(r#"{"voice": "finn"}"#)), DEFAULT_VOICE);
    assert_eq!(voice(&json(r#"{"voice": ""}"#)), DEFAULT_VOICE);
}

#[test]
fn every_listed_voice_is_accepted() {
    for name in VOICES {
        assert_eq!(voice(&json(&format!(r#"{{"voice": "{name}"}}"#))), name);
        assert_eq!(voice_named(Some(name)), name);
    }
}

#[test]
fn a_voice_that_is_no_string_falls_back() {
    assert_eq!(voice(&json(r#"{"voice": 7}"#)), DEFAULT_VOICE);
    assert_eq!(voice(&json(r#"["voice"]"#)), DEFAULT_VOICE);
}

#[test]
fn a_content_filter_rejection_is_recognised_despite_its_400() {
    let body = r#"{"error":{"code":"content_filter","message":"avvist"}}"#;
    assert!(matches!(
        map_status(400, body),
        ProviderError::ContentFilter
    ));
}

#[test]
fn a_responsible_ai_violation_is_also_a_content_filter() {
    let body = r#"{"error":{"code":"ResponsibleAIPolicyViolation"}}"#;
    assert!(matches!(
        map_status(400, body),
        ProviderError::ContentFilter
    ));
}

#[test]
fn statuses_map_to_the_documented_errors() {
    assert!(matches!(
        map_status(400, "{}"),
        ProviderError::Validation(_)
    ));
    assert!(matches!(map_status(401, ""), ProviderError::Unauthorized));
    assert!(matches!(map_status(403, ""), ProviderError::Unauthorized));
    assert!(matches!(
        map_status(404, "DeploymentNotFound"),
        ProviderError::DeploymentNotFound(_)
    ));
    assert!(matches!(map_status(429, ""), ProviderError::RateLimited));
    assert!(matches!(map_status(500, ""), ProviderError::Upstream(_)));
}

#[test]
fn an_unexpected_status_is_named() {
    assert_eq!(
        map_status(418, " kort "),
        ProviderError::Upstream("unexpected status 418 I'm a teapot: kort".to_owned())
    );
    assert_eq!(
        map_status(503, " nede "),
        ProviderError::Upstream("nede".to_owned())
    );
}

#[test]
fn only_transient_failures_are_retried() {
    assert!(ProviderError::RateLimited.is_retryable());
    assert!(ProviderError::Upstream(String::new()).is_retryable());
    // Retrying these would fail identically and burn quota.
    assert!(!ProviderError::ContentFilter.is_retryable());
    assert!(!ProviderError::Validation(String::new()).is_retryable());
    assert!(!ProviderError::Unauthorized.is_retryable());
}

#[test]
fn provider_errors_have_codes_messages_and_log_texts() {
    let errors = [
        (ProviderError::Validation("v".to_owned()), ErrorCode::Validation, nb::ERR_VALIDATION, "provider rejected the request: v"),
        (ProviderError::Unauthorized, ErrorCode::Internal, nb::ERR_INTERNAL, "provider refused the credentials"),
        (ProviderError::DeploymentNotFound("d".to_owned()), ErrorCode::Internal, nb::ERR_INTERNAL, "deployment not found: d"),
        (ProviderError::RateLimited, ErrorCode::RateLimited, nb::ERR_RATE_LIMITED, "provider rate limited the request"),
        (ProviderError::ContentFilter, ErrorCode::ContentFilter, nb::ERR_CONTENT_FILTER, "content filter rejected the request"),
        (ProviderError::Upstream("u".to_owned()), ErrorCode::Upstream, nb::ERR_UPSTREAM, "provider unavailable"),
        (ProviderError::Malformed("m".to_owned()), ErrorCode::Upstream, nb::ERR_UPSTREAM, "unexpected response from the provider: m"),
        (ProviderError::Timeout, ErrorCode::Upstream, nb::ERR_GENERATION_TIMEOUT, "generation timed out"),
        (ProviderError::Internal("i".to_owned()), ErrorCode::Internal, nb::ERR_INTERNAL, "internal provider error: i"),
    ];
    for (error, code, message, text) in errors {
        assert_eq!(error.code(), code);
        assert_eq!(error.user_message(), message);
        assert_eq!(error.log_text(), text);
    }
}

#[test]
fn backoff_grows_but_stays_within_the_ceiling() {
    for attempt in 1..=8 {
        assert!(backoff(attempt) <= MAX_BACKOFF_MILLIS);
    }
}

#[test]
fn the_backoff_ceiling_doubles_until_it_is_reached() {
    let ceilings: Vec<u64> = (1..=8).map(longest_backoff).collect();
    assert_eq!(
        ceilings,
        vec![500, 1000, 2000, 4000, 8000, 16_000, 20_000, 20_000]
    );
    assert_eq!(longest_backoff(u32::MAX), 20_000);
    // Jitter spreads: many draws of one attempt are not all the same.
    let draws: Vec<u64> = (0..50).map(|_| backoff(6)).collect();
    assert!(draws.iter().any(|draw| *draw != draws[0]));
    assert!(draws.iter().all(|draw| *draw <= 16_000));
}

#[test]
fn retry_after_is_read_as_seconds() {
    assert_eq!(retry_after(Some("30")), Some(30));

    // A date-formatted Retry-After is ignored rather than mis-parsed.
    assert_eq!(retry_after(Some("Wed, 21 Oct 2026 07:28:00 GMT")), None);
    assert_eq!(retry_after(Some(" 7 ")), Some(7));
    assert_eq!(retry_after(Some("-1")), None);
    assert_eq!(retry_after(None), None);
}

#[test]
fn a_long_body_is_truncated_on_a_character_boundary() {
    let body = "æ".repeat(500);
    let summary = summarise(&body);
    assert!(summary.len() <= 405);
    assert!(summary.ends_with('…'));
}

#[test]
fn a_short_body_is_only_trimmed() {
    assert_eq!(summarise("  kort \n"), "kort");
    assert_eq!(summarise(&"a".repeat(400)), "a".repeat(400));
    assert_eq!(summarise(&"a".repeat(401)), format!("{}…", "a".repeat(400)));
}

#[test]
fn success_is_any_two_hundred() {
    assert!(is_success(200));
    assert!(is_success(299));
    assert!(!is_success(199));
    assert!(!is_success(300));
}

#[test]
fn a_success_is_delivered() {
    assert!(matches!(send_step(1, &Reply::Success, 5), Step::Deliver));
}

#[test]
fn a_rate_limit_waits_for_as_long_as_it_is_told() {
    assert!(matches!(
        send_step(1, &refused(429, Some("2"), ""), 5),
        Step::Wait(2000)
    ));
    assert!(matches!(
        send_step(1, &refused(429, Some("60"), ""), 5),
        Step::Wait(60_000)
    ));
    assert!(matches!(
        send_step(1, &refused(429, Some("61"), ""), 5),
        Step::Fail(ProviderError::RateLimited)
    ));
    assert!(matches!(
        send_step(1, &refused(429, None, ""), 5),
        Step::Wait(5)
    ));
    assert!(matches!(
        send_step(4, &refused(429, Some("2"), ""), 5),
        Step::Fail(ProviderError::RateLimited)
    ));
}

#[test]
fn lasting_failures_are_not_retried() {
    assert!(matches!(
        send_step(1, &refused(400, Some("2"), "nei"), 5),
        Step::Fail(ProviderError::Validation(_))
    ));
    assert!(matches!(
        send_step(1, &refused(403, None, ""), 5),
        Step::Fail(ProviderError::Unauthorized)
    ));
}

#[test]
fn a_call_without_an_answer_is_an_upstream_failure() {
    for reply in [
        Reply::TimedOut("for sent".to_owned()),
        Reply::Unreachable("for sent".to_owned()),
    ] {
        for attempt in 1..4 {
            assert!(matches!(send_step(attempt, &reply, 5), Step::Wait(5)));
        }
        match send_step(4, &reply, 5) {
            Step::Fail(error) => assert_eq!(error, ProviderError::Upstream("for sent".to_owned())),
            other => panic!("unexpected {other:?}"),
        }
    }
}

#[test]
fn a_call_is_attempted_four_times_at_most() {
    let mut retry = Retry::start();
    let mut waits: u32 = 0;
    loop {
        match send_with_retry(&mut retry, &refused(503, None, "nede")) {
            Step::Wait(millis) => {
                assert!(millis <= 60_000);
                waits += 1;
                assert_eq!(retry.attempt(), waits + 1);
            }
            Step::Fail(error) => {
                assert_eq!(error, ProviderError::Upstream("nede".to_owned()));
                break;
            }
            Step::Deliver => panic!("nothing to deliver"),
        }
    }
    assert_eq!(waits, 3);
}

#[test]
fn urls_follow_the_v1_data_plane_shape() {
    assert_eq!(
        config("preview").url("images/generations"),
        "https://example.openai.azure.com/openai/v1/images/generations?api-version=preview"
    );
}

#[test]
fn a_leading_slash_on_the_path_is_tolerated() {
    assert_eq!(
        config("preview").url("/audio/speech"),
        "https://example.openai.azure.com/openai/v1/audio/speech?api-version=preview"
    );
}

#[test]
fn an_empty_api_version_sends_none() {
    assert_eq!(
        config("  ").url("images/generations"),
        "https://example.openai.azure.com/openai/v1/images/generations"
    );
}

#[test]
fn a_size_is_split_into_width_and_height() {
    assert_eq!(parse_size("1024x1024"), (Some(1024), Some(1024)));
    assert_eq!(parse_size("1536x1024"), (Some(1536), Some(1024)));
}

#[test]
fn an_unparseable_size_yields_no_dimensions() {
    assert_eq!(parse_size("auto"), (None, None));
    assert_eq!(parse_size("stor x liten"), (None, None));
    assert_eq!(parse_size("1024x"), (None, None));
    assert_eq!(parse_size("1x2x3"), (None, None));
    assert_eq!(parse_size("2147483648x1"), (None, None));
    assert_eq!(parse_size("-1x+2"), (Some(-1), Some(2)));
}

#[test]
fn parameters_fall_back_to_the_default() {
    let empty = json("{}");
    assert_eq!(string_param(&empty, "size", DEFAULT_SIZE), DEFAULT_SIZE);

    let given = json(r#"{"size": "1536x1024"}"#);
    assert_eq!(string_param(&given, "size", DEFAULT_SIZE), "1536x1024");

    // An empty string is a missing value, not a valid one.
    let blank = json(r#"{"size": ""}"#);
    assert_eq!(string_param(&blank, "size", DEFAULT_SIZE), DEFAULT_SIZE);
}

#[test]
fn terminal_statuses_are_recognised() {
    assert_eq!(classify("completed"), Progress::Succeeded);
    assert_eq!(classify("Completed"), Progress::Succeeded);
    assert_eq!(classify("failed"), Progress::Failed);
    assert_eq!(classify("cancelled"), Progress::Failed);
}

#[test]
fn an_unknown_status_keeps_the_job_waiting() {
    // These are the two the service actually reports while working.
    assert_eq!(classify("queued"), Progress::Running);
    assert_eq!(classify("in_progress"), Progress::Running);
    // A new intermediate state should not be read as a failure.
    assert_eq!(classify("noe-helt-nytt"), Progress::Running);
}

#[test]
fn only_supported_frame_sizes_are_sent() {
    assert_eq!(size(&json(r#"{"size": "720x1280"}"#)), "720x1280");
    assert_eq!(size(&json(r#"{"size": "1792x1024"}"#)), "1792x1024");
    // 720x720 was offered by an earlier build; the API does not take it.
    assert_eq!(size(&json(r#"{"size": "720x720"}"#)), video::DEFAULT_SIZE);
    assert_eq!(size(&json("{}")), video::DEFAULT_SIZE);
}

#[test]
fn only_the_three_supported_lengths_are_sent() {
    assert_eq!(seconds(&json(r#"{"n_seconds": 4}"#)), 4);
    assert_eq!(seconds(&json(r#"{"n_seconds": 8}"#)), 8);
    assert_eq!(seconds(&json(r#"{"n_seconds": 12}"#)), 12);
    // Not clamped: 6 is not a length Sora accepts, so it falls back to one
    // that is rather than being rounded into a rejection.
    assert_eq!(seconds(&json(r#"{"n_seconds": 6}"#)), DEFAULT_SECONDS);
    assert_eq!(seconds(&json(r#"{"n_seconds": 20}"#)), DEFAULT_SECONDS);
    assert_eq!(seconds(&json("{}")), DEFAULT_SECONDS);
    assert_eq!(
        seconds(&json(r#"{"n_seconds": 4294967304}"#)),
        DEFAULT_SECONDS
    );
    assert_eq!(seconds(&json(r#"{"n_seconds": -4}"#)), DEFAULT_SECONDS);
}

#[test]
fn a_size_splits_into_width_and_height() {
    assert_eq!(split_size("1280x720"), (Some(1280), Some(720)));
    assert_eq!(split_size("noe"), (None, None));
}

#[test]
fn speech_is_asked_for_in_json() {
    let call = audio()
        .submit(&request("Hei", r#"{"voice": "echo"}"#))
        .expect("short enough");
    assert_eq!(call.method, Method::Post);
    assert_eq!(
        call.url,
        "https://example.openai.azure.com/openai/v1/audio/speech?api-version=preview"
    );
    assert_eq!(call.operation, "audio/speech");
    assert_eq!(call.correlation_id, "korr");
    assert_eq!(
        json_body(&call),
        vec!["model=tale", "input=Hei", "voice=echo", "response_format=mp3"]
    );
}

#[test]
fn a_prompt_over_the_speech_limit_is_refused() {
    let ok = "æ".repeat(4096);
    assert!(audio().submit(&request(&ok, "{}")).is_ok());
    let long = "a".repeat(4097);
    match audio().submit(&request(&long, "{}")) {
        Err(error) => assert_eq!(
            error,
            ProviderError::Validation("speech input is limited to 4096 characters".to_owned())
        ),
        Ok(_) => panic!("should be refused"),
    }
}

#[test]
fn speech_comes_back_as_mp3() {
    let job = audio().finish(vec![0xff, 1]).expect("not empty");
    assert!(job.is_finished());
    assert_eq!(job.id, None);
    let media = job.media.expect("attached");
    assert_eq!(media.bytes, vec![0xff, 1]);
    assert_eq!(media.content_type, "audio/mpeg");
    assert_eq!(media.extension, "mp3");
    assert_eq!(media.duration_ms, None);
    assert!(matches!(
        audio().finish(Vec::new()),
        Err(ProviderError::Malformed(_))
    ));
    assert!(matches!(
        audio().poll(&ProviderJob::pending("x".to_owned())),
        Err(ProviderError::Internal(_))
    ));
}

#[test]
fn an_image_is_asked_for_in_json() {
    let submission = image().submit(request("Fjord", r#"{"quality": "low"}"#));
    assert_eq!(submission.size, "1024x1024");
    let call = submission.call;
    assert_eq!(
        call.url,
        "https://example.openai.azure.com/openai/v1/images/generations?api-version=preview"
    );
    assert_eq!(call.operation, "images/generations");
    assert_eq!(
        json_body(&call),
        vec![
            "model=bilde",
            "prompt=Fjord",
            "n=#1",
            "size=1024x1024",
            "quality=low",
            "output_format=png"
        ]
    );
}

#[test]
fn a_reference_image_turns_the_call_into_a_form() {
    let mut with_reference = request("Mørkere", r#"{"size": "1536x1024"}"#);
    with_reference.reference = Some(reference());
    let submission = image().submit(with_reference);
    assert_eq!(submission.size, "1536x1024");
    assert_eq!(submission.call.operation, "images/edits");
    assert_eq!(
        submission.call.url,
        "https://example.openai.azure.com/openai/v1/images/edits?api-version=preview"
    );
    match submission.call.body {
        Body::Form {
            fields,
            file_field,
            file,
        } => {
            assert_eq!(
                form(&fields),
                vec![
                    "model=bilde",
                    "prompt=Mørkere",
                    "n=1",
                    "size=1536x1024",
                    "quality=medium"
                ]
            );
            assert_eq!(file_field, "image");
            assert_eq!(file.bytes, vec![1, 2, 3]);
            assert_eq!(file.file_name, "referanse.png");
            assert_eq!(file.content_type, "image/png");
        }
        other => panic!("unexpected {other:?}"),
    }
}

fn images(b64_json: Option<&str>, url: Option<&str>) -> ImagesResponse {
    ImagesResponse {
        data: vec![ImageData {
            b64_json: b64_json.map(str::to_owned),
            url: url.map(str::to_owned),
        }],
    }
}

#[test]
fn an_image_is_decoded_and_measured() {
    let job = image()
        .finish(&images(Some("iVBORw=="), None), "1536x1024")
        .expect("an image");
    let media = job.media.expect("attached");
    assert_eq!(media.bytes, vec![0x89, b'P', b'N', b'G']);
    assert_eq!(media.content_type, "image/png");
    assert_eq!(media.extension, "png");
    assert_eq!((media.width, media.height), (Some(1536), Some(1024)));
    let auto = image()
        .finish(&images(Some("iVBORw=="), None), "auto")
        .expect("an image");
    assert_eq!(auto.media.expect("attached").width, None);
}

#[test]
fn an_answer_without_an_image_says_what_is_missing() {
    let detail = |response: ImagesResponse| match decode_first_image(&response) {
        Err(ProviderError::Malformed(detail)) => detail,
        other => panic!("unexpected {other:?}"),
    };
    assert_eq!(
        detail(ImagesResponse { data: Vec::new() }),
        "no image in the response"
    );
    assert_eq!(
        detail(images(None, Some("https://x"))),
        "the deployment returned a URL; expected base64"
    );
    assert_eq!(
        detail(images(None, None)),
        "the response carried neither b64_json nor url"
    );
    assert_eq!(
        detail(images(Some("!"), None)),
        "image was not valid base64: Invalid symbol 33, offset 0."
    );
    assert!(matches!(
        image().poll(&ProviderJob::pending("x".to_owned())),
        Err(ProviderError::Internal(_))
    ));
}

#[test]
fn a_clip_is_asked_for_in_json() {
    let call = video_provider().submit(request("Bølger", r#"{"n_seconds": 8, "size": "720x1280"}"#));
    assert_eq!(
        call.url,
        "https://example.openai.azure.com/openai/v1/videos?api-version=preview"
    );
    assert_eq!(call.operation, "videos");
    assert_eq!(
        json_body(&call),
        vec!["model=video", "prompt=Bølger", "seconds=8", "size=720x1280"]
    );
}

#[test]
fn a_reference_image_is_the_first_frame() {
    let mut with_reference = request("Bølger", "{}");
    with_reference.reference = Some(reference());
    let call = video_provider().submit(with_reference);
    assert_eq!(call.operation, "videos/with-reference");
    match call.body {
        Body::Form {
            fields, file_field, ..
        } => {
            assert_eq!(
                form(&fields),
                vec!["model=video", "prompt=Bølger", "seconds=4", "size=1280x720"]
            );
            assert_eq!(file_field, "input_reference");
        }
        other => panic!("unexpected {other:?}"),
    }
}

fn report(status: &str) -> Video {
    Video {
        id: "vid".to_owned(),
        status: status.to_owned(),
        error: None,
        size: Some("1280x720".to_owned()),
        seconds: Some("12".to_owned()),
    }
}

#[test]
fn a_clip_is_polled_until_it_is_there() {
    let provider = video_provider();
    let job = provider.accepted(report("queued"));
    assert!(!job.is_finished());
    assert_eq!(job.id.as_deref(), Some("vid"));
    let call = provider.poll(&job).expect("an id");
    assert_eq!(call.method, Method::Get);
    assert_eq!(
        call.url,
        "https://example.openai.azure.com/openai/v1/videos/vid?api-version=preview"
    );
    assert_eq!(call.operation, "videos/get");
    assert!(matches!(
        provider.report("vid", report("in_progress")),
        Report::Running
    ));
    match provider.report("vid", report("COMPLETED")) {
        Report::Fetch {
            call,
            size,
            seconds,
        } => {
            assert_eq!(
                call.url,
                "https://example.openai.azure.com/openai/v1/videos/vid/content?api-version=preview"
            );
            assert_eq!(call.operation, "videos/content");
            assert_eq!(size.as_deref(), Some("1280x720"));
            assert_eq!(seconds, Some(12));
        }
        _ => panic!("should be fetched"),
    }
    let media = provider
        .finish(vec![7], Some("1280x720"), Some(12))
        .expect("a clip");
    assert_eq!(media.content_type, "video/mp4");
    assert_eq!(media.extension, "mp4");
    assert_eq!((media.width, media.height), (Some(1280), Some(720)));
    assert_eq!(media.duration_ms, Some(12_000));
    assert!(matches!(
        provider.finish(Vec::new(), None, None),
        Err(ProviderError::Malformed(_))
    ));
}

#[test]
fn a_finished_job_has_no_video_to_poll() {
    let media = GeneratedMedia {
        bytes: vec![1],
        content_type: "x".to_owned(),
        extension: "x",
        width: None,
        height: None,
        duration_ms: None,
    };
    match video_provider().poll(&ProviderJob::immediate(media)) {
        Err(error) => assert_eq!(
            error,
            ProviderError::Internal("cannot poll a video without an id".to_owned())
        ),
        Ok(_) => panic!("there is no id"),
    }
}

#[test]
fn a_failed_clip_says_why() {
    let error = |code: Option<&str>, message: Option<&str>| {
        failure(Some(VideoError {
            code: code.map(str::to_owned),
            message: message.map(str::to_owned),
        }))
    };
    assert_eq!(
        error(Some("Moderation_Blocked"), None),
        ProviderError::ContentFilter
    );
    assert_eq!(
        error(None, Some("Content rejected")),
        ProviderError::ContentFilter
    );
    assert_eq!(
        error(Some("oops"), Some("Nede")),
        ProviderError::Upstream("Nede".to_owned())
    );
    assert_eq!(failure(None), ProviderError::Upstream(String::new()));
    assert!(matches!(
        video_provider().report("vid", report("canceled")),
        Report::Failed(ProviderError::Upstream(_))
    ));
}

#[test]
fn clip_lengths_become_milliseconds() {
    assert_eq!(millis(4), Some(4000));
    assert_eq!(millis(2_147_483), Some(2_147_483_000));
    assert_eq!(millis(2_147_484), None);
    assert_eq!(millis(u32::MAX), None);
}

#[test]
fn the_most_specific_credential_is_tried() {
    let mut settings = config("");
    assert_eq!(choose_source(&settings, false), Source::DeveloperTools);
    assert_eq!(choose_source(&settings, true), Source::ManagedIdentity);
    settings.client_secret = Some("s".to_owned());
    assert_eq!(choose_source(&settings, true), Source::ClientSecret);
}

#[test]
fn a_client_secret_makes_an_entra_credential() {
    let mut settings = config("");
    settings.tenant_id = "9f08805a-b141-4a2d-923f-80d0576d602a".to_owned();
    settings.client_secret = Some("s".to_owned());
    assert!(matches!(
        Credentials::new(&settings, false),
        Ok(Credentials::Entra(EntraCredential::ClientSecret(_)))
    ));
    settings.tenant_id = String::new();
    match Credentials::new(&settings, false) {
        Err(ProviderError::Internal(detail)) => {
            assert!(detail.starts_with("invalid client credentials: "));
        }
        _ => panic!("an empty tenant is no tenant"),
    }
}

#[test]
fn outside_azure_the_developers_session_is_used() {
    let mut settings = config("");
    settings.client_secret = None;
    settings.api_key = Some("nokkel".to_owned());
    assert!(matches!(
        Credentials::new(&settings, false),
        Ok(Credentials::Entra(EntraCredential::DeveloperTools(_)))
    ));
}

#[test]
fn the_api_key_is_the_last_resort() {
    let failed = || -> Result<EntraCredential, String> { Err("x".to_owned()) };
    let key = Some("nokkel".to_owned());
    match settle_credentials(Source::DeveloperTools, failed(), &key) {
        Ok(Credentials::ApiKey(k)) => assert_eq!(k, "nokkel"),
        _ => panic!("the key should be used"),
    }
    let detail = |result| match result {
        Err(ProviderError::Internal(detail)) => detail,
        _ => panic!("should fail"),
    };
    assert_eq!(
        detail(settle_credentials(Source::DeveloperTools, failed(), &None)),
        "no Entra credential available and no API key configured"
    );
    assert_eq!(
        detail(settle_credentials(Source::ManagedIdentity, failed(), &key)),
        "managed identity unavailable: x"
    );
    assert_eq!(
        detail(settle_credentials(Source::ClientSecret, failed(), &key)),
        "invalid client credentials: x"
    );
}

#[test]
fn secrets_have_to_fit_in_a_header() {
    let header = bearer_header("abc").expect("fits");
    assert_eq!(header.name, "authorization");
    assert_eq!(header.value, "Bearer abc");
    assert_eq!(
        bearer_header("a\nb").err(),
        Some(ProviderError::Internal(
            "token is not a valid header value".to_owned()
        ))
    );
    let header = api_key_header("nøkkel\t1").expect("fits");
    assert_eq!(header.name, "api-key");
    assert_eq!(header.value, "nøkkel\t1");
    assert_eq!(
        api_key_header("a\u{7f}").err(),
        Some(ProviderError::Internal(
            "API key is not a valid header value".to_owned()
        ))
    );
    let key = Credentials::ApiKey("k".to_owned());
    assert_eq!(key.headers(Err("unused")).expect("fits").value, "k");
}

#[test]
fn all_three_providers_share_a_configuration() {
    let mut settings = config("preview");
    settings.tenant_id = "9f08805a-b141-4a2d-923f-80d0576d602a".to_owned();
    settings.client_secret = Some("s".to_owned());
    let providers = Providers::new(settings, false).expect("buildable");
    assert_eq!(providers.image.config.image_deployment, "bilde");
    assert_eq!(providers.audio.config.audio_deployment, "tale");
    assert_eq!(providers.video.config.video_deployment, "video");
    assert!(matches!(
        providers.for_media(MediaType::Image),
        Provider::Image(_)
    ));
    assert!(matches!(
        providers.for_media(MediaType::Audio),
        Provider::Audio(_)
    ));
    assert!(matches!(
        providers.for_media(MediaType::Video),
        Provider::Video(_)
    ));
}

#[test]
fn a_filtered_prompt_is_told_apart_whatever_the_status() {
    for status in [400, 403, 429, 500, 418] {
        assert!(matches!(
            map_status(status, "CONTENT_POLICY_VIOLATION"),
            ProviderError::ContentFilter
        ));
    }
    assert!(!matches!(map_status(400, "content"), ProviderError::ContentFilter));
}
