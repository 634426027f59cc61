//! Error codes, job statuses, media types and prompts.
use mediagenerator::clock::Timestamp;
use mediagenerator::domain::audit::AuditAction;
use mediagenerator::domain::error::{DomainError, ErrorCode};
use mediagenerator::domain::i18n::nb;
use mediagenerator::domain::job::{Job, JobStatus};
use mediagenerator::domain::media::{validate_prompt, MediaType};
use mediagenerator::id::Uuid;

#[test]
fn every_code_round_trips_through_its_string() {
    for code in [
        ErrorCode::Validation,
        ErrorCode::Unauthenticated,
        ErrorCode::Forbidden,
        ErrorCode::NotFound,
        ErrorCode::RateLimited,
        ErrorCode::ContentFilter,
        ErrorCode::Upstream,
        ErrorCode::Internal,
    ] {
        assert_eq!(ErrorCode::from_str_or_internal(code.as_str()), code);
    }
}

#[test]
fn a_code_from_a_future_build_degrades_to_internal() {
    assert_eq!(
        ErrorCode::from_str_or_internal("noe_nytt"),
        ErrorCode::Internal
    );
}

#[test]
fn codes_have_their_own_strings_and_messages() {
    assert_eq!(ErrorCode::NotFound.as_str(), "not_found");
    assert_eq!(ErrorCode::RateLimited.as_str(), "rate_limited");
    assert_eq!(
        ErrorCode::ContentFilter.user_message(),
        nb::ERR_CONTENT_FILTER
    );
    assert_eq!(ErrorCode::Internal.user_message(), nb::ERR_INTERNAL);
}

#[test]
fn domain_errors_carry_a_code() {
    assert_eq!(
        DomainError::Validation("x".to_owned()).code(),
        ErrorCode::Validation
    );
}

#[test]
fn statuses_round_trip_through_their_columns() {
    for status in [
        JobStatus::Queued,
        JobStatus::Running,
        JobStatus::Succeeded,
        JobStatus::Cancelled,
    ] {
        let rebuilt = JobStatus::from_columns(status.as_str(), None, None);
        assert_eq!(rebuilt, status);
    }
}

#[test]
fn a_failed_status_keeps_its_code_and_message() {
    let failed = JobStatus::Failed {
        code: ErrorCode::ContentFilter,
        message: "avvist".to_owned(),
    };
    let rebuilt = JobStatus::from_columns("failed", Some("content_filter"), Some("avvist"));
    assert_eq!(rebuilt, failed);
    assert_eq!(rebuilt.error_code(), Some(ErrorCode::ContentFilter));
}

#[test]
fn only_finished_statuses_are_terminal() {
    assert!(!JobStatus::Queued.is_terminal());
    assert!(!JobStatus::Running.is_terminal());
    assert!(JobStatus::Succeeded.is_terminal());
    assert!(JobStatus::Cancelled.is_terminal());
    assert!(
        JobStatus::Failed {
            code: ErrorCode::Upstream,
            message: String::new()
        }
        .is_terminal()
    );
}

#[test]
fn an_unrecognised_status_degrades_to_a_failure() {
    let rebuilt = JobStatus::from_columns("noe-helt-annet", None, None);
    assert!(matches!(rebuilt, JobStatus::Failed { .. }));
}

#[test]
fn a_failed_row_without_a_code_is_an_internal_failure() {
    let rebuilt = JobStatus::from_columns("failed", None, None);
    assert_eq!(rebuilt.error_code(), Some(ErrorCode::Internal));
    assert_eq!(rebuilt.error_message(), Some(nb::ERR_INTERNAL));
    assert_eq!(JobStatus::Queued.error_code(), None);
    assert_eq!(JobStatus::Queued.error_message(), None);
}

#[test]
fn a_job_has_a_duration_once_it_has_finished() {
    let at = |seconds: i128| Timestamp::from_unix_nanos(seconds * 1_000_000_000).expect("near");
    let mut job = Job {
        id: Uuid(1),
        user_id: Uuid(2),
        media_type: MediaType::Image,
        prompt: "p".to_owned(),
        parameters: serde_json::Value::Null,
        status: JobStatus::Running,
        provider_job_id: None,
        created_at: at(0),
        started_at: Some(at(10)),
        completed_at: None,
    };
    assert_eq!(job.duration(), None);
    job.completed_at = Some(at(25));
    assert_eq!(job.duration(), Some(15_000_000_000));
}

#[test]
fn a_plain_prompt_is_accepted_and_trimmed() {
    assert_eq!(
        validate_prompt("  Solnedgang over Oslofjorden  ", 4000).expect("should be accepted"),
        "Solnedgang over Oslofjorden"
    );
}

#[test]
fn windows_line_endings_are_folded() {
    assert_eq!(
        validate_prompt("linje ett\r\nlinje to", 4000).expect("should be accepted"),
        "linje ett\nlinje to"
    );
}

#[test]
fn an_empty_or_blank_prompt_is_rejected() {
    for blank in ["", "   ", "\n\n", "\t"] {
        assert!(validate_prompt(blank, 4000).is_err(), "{blank:?}");
    }
}

#[test]
fn the_limit_counts_characters_not_bytes() {
    // Each of these is two bytes but one character.
    let prompt = "æ".repeat(10);
    assert!(validate_prompt(&prompt, 10).is_ok());
    assert!(validate_prompt(&prompt, 9).is_err());
}

#[test]
fn control_characters_are_rejected_but_tabs_and_newlines_are_not() {
    assert!(validate_prompt("to\nlinjer", 4000).is_ok());
    assert!(validate_prompt("med\ttabulator", 4000).is_ok());
    assert!(validate_prompt("null\u{0}byte", 4000).is_err());
    assert!(validate_prompt("escape\u{1b}[31m", 4000).is_err());
}

#[test]
fn refused_prompts_say_why() {
    let message = |result: Result<String, DomainError>| match result {
        Err(DomainError::Validation(message)) => message,
        other => panic!("unexpected {other:?}"),
    };
    assert_eq!(message(validate_prompt(" ", 10)), nb::ERR_PROMPT_EMPTY);
    assert_eq!(
        message(validate_prompt("abcdefghijk", 10)),
        nb::err_prompt_too_long(10)
    );
    assert_eq!(
        message(validate_prompt("a\rb", 10)),
        nb::ERR_PROMPT_CONTROL_CHARS
    );
}

#[test]
fn an_accepted_prompt_is_accepted_again_unchanged() {
    let once = validate_prompt("\u{2003} en\r\n\tto \u{a0}", 20).expect("accepted");
    assert_eq!(once, "en\n\tto");
    assert_eq!(validate_prompt(&once, 20).expect("accepted"), once);
}

#[test]
fn line_ends_do_not_change_the_verdict() {
    assert_eq!(
        validate_prompt("a\nb\nc", 5).expect("accepted"),
        validate_prompt("a\r\nb\r\nc", 5).expect("accepted")
    );
}

#[test]
fn media_types_round_trip_through_their_string_form() {
    for media_type in MediaType::ALL {
        let parsed: MediaType = media_type.as_str().parse().expect("should parse");
        assert_eq!(parsed, media_type);
    }
    assert!("bilde".parse::<MediaType>().is_err());
}

#[test]
fn media_types_have_labels() {
    assert_eq!(MediaType::Image.label(), nb::MEDIA_IMAGE);
    assert_eq!(MediaType::Audio.label(), nb::MEDIA_AUDIO);
    assert_eq!(MediaType::Video.label(), nb::MEDIA_VIDEO);
}

#[test]
fn audit_actions_have_their_own_strings() {
    assert_eq!(AuditAction::SignIn.as_str(), "sign_in");
    assert_eq!(AuditAction::SignOut.as_str(), "sign_out");
    assert_eq!(
        AuditAction::GenerationRequested.as_str(),
        "generation_requested"
    );
    assert_eq!(
        AuditAction::GenerationSucceeded.as_str(),
        "generation_succeeded"
    );
    assert_eq!(AuditAction::GenerationFailed.as_str(), "generation_failed");
    assert_eq!(AuditAction::AssetAccessed.as_str(), "asset_accessed");
}
