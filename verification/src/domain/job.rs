//! Generation jobs and their lifecycle.
use vstd::prelude::*;
use vstd::string::*;

use crate::clock::Timestamp;
use crate::domain::error;
use crate::domain::error::ErrorCode;
use crate::domain::i18n::nb;
use crate::domain::media::MediaType;
use crate::id::Uuid;
use crate::text::chars::text_eq;

verus! {

/// Where a job is in its lifecycle.
///
/// The strings are stored in `jobs.status`, which carries a check constraint
/// listing exactly these five values.
#[derive(Debug, Clone, PartialEq, Eq)]
pub enum JobStatus {
    /// Accepted and waiting for a worker.
    Queued,
    /// A worker is talking to the provider.
    Running,
    /// Finished; the asset is stored.
    Succeeded,
    /// Finished unsuccessfully.
    Failed {
        /// Stable, machine-readable cause.
        code: ErrorCode,
        /// Norwegian message for the user.
        message: String,
    },
    /// Stopped before completion, at the user's request or on shutdown.
    Cancelled,
}

/// A job status with its message as a sequence of characters.
pub enum StatusView {
    /// Accepted and waiting for a worker.
    Queued,
    /// A worker is talking to the provider.
    Running,
    /// Finished; the asset is stored.
    Succeeded,
    /// Finished unsuccessfully.
    Failed {
        /// Stable, machine-readable cause.
        code: ErrorCode,
        /// Norwegian message for the user.
        message: Seq<char>,
    },
    /// Stopped before completion.
    Cancelled,
}

impl View for JobStatus {
    type V = StatusView;

    open spec fn view(&self) -> StatusView {
        match *self {
            JobStatus::Queued => StatusView::Queued,
            JobStatus::Running => StatusView::Running,
            JobStatus::Succeeded => StatusView::Succeeded,
            JobStatus::Failed { code, message } => StatusView::Failed { code, message: message@ },
            JobStatus::Cancelled => StatusView::Cancelled,
        }
    }
}

impl StatusView {
    /// The string stored in `jobs.status`.
    pub open spec fn text(self) -> Seq<char> {
        match self {
            StatusView::Queued => "queued"@,
            StatusView::Running => "running"@,
            StatusView::Succeeded => "succeeded"@,
            StatusView::Failed { .. } => "failed"@,
            StatusView::Cancelled => "cancelled"@,
        }
    }

    /// The job will not change state again.
    pub open spec fn terminal(self) -> bool {
        !(self is Queued) && !(self is Running)
    }

    /// The string stored in `jobs.error_code`.
    pub open spec fn code_column(self) -> Option<Seq<char>> {
        match self {
            StatusView::Failed { code, .. } => Some(error::code_text(code)),
            _ => None,
        }
    }

    /// The string stored in `jobs.error_message`.
    pub open spec fn message_column(self) -> Option<Seq<char>> {
        match self {
            StatusView::Failed { message, .. } => Some(message),
            _ => None,
        }
    }
}

/// The status that three columns stand for.
pub open spec fn status_of_columns(
    status: Seq<char>,
    code: Option<Seq<char>>,
    message: Option<Seq<char>>,
) -> StatusView {
    if status == "queued"@ {
        StatusView::Queued
    } else if status == "running"@ {
        StatusView::Running
    } else if status == "succeeded"@ {
        StatusView::Succeeded
    } else if status == "cancelled"@ {
        StatusView::Cancelled
    } else if status == "failed"@ {
        StatusView::Failed {
            code: match code {
                Some(c) => error::code_from_text(c),
                None => ErrorCode::Internal,
            },
            message: match message {
                Some(m) => m,
                None => nb::ERR_INTERNAL@,
            },
        }
    } else {
        StatusView::Failed { code: ErrorCode::Internal, message: nb::ERR_INTERNAL@ }
    }
}

/// What an optional text holds.
pub open spec fn text_option(s: Option<&str>) -> Option<Seq<char>> {
    match s {
        Some(t) => Some(t@),
        None => None,
    }
}

impl JobStatus {
    /// Returns the string stored in `jobs.status`.
    pub fn as_str(&self) -> (r: &'static str)
        ensures
            r@ == self@.text(),
    {
        match self {
            JobStatus::Queued => "queued",
            JobStatus::Running => "running",
            JobStatus::Succeeded => "succeeded",
            JobStatus::Failed { .. } => "failed",
            JobStatus::Cancelled => "cancelled",
        }
    }

    /// Returns `true` when the job will not change state again.
    pub fn is_terminal(&self) -> (r: bool)
        ensures
            r == self@.terminal(),
    {
        match self {
            JobStatus::Queued | JobStatus::Running => false,
            JobStatus::Succeeded | JobStatus::Failed { .. } | JobStatus::Cancelled => true,
        }
    }

    /// Rebuilds a status from the three columns that store it.
    ///
    /// An unknown string, or a `failed` row without a code, means the database
    /// contains something this build did not write. That is treated as a failed
    /// job: a bad row must not take down a request.
    pub fn from_columns(status: &str, code: Option<&str>, message: Option<&str>) -> (r: JobStatus)
        ensures
            r@ == status_of_columns(status@, text_option(code), text_option(message)),
    {
        if text_eq(status, "queued") {
            JobStatus::Queued
        } else if text_eq(status, "running") {
            JobStatus::Running
        } else if text_eq(status, "succeeded") {
            JobStatus::Succeeded
        } else if text_eq(status, "cancelled") {
            JobStatus::Cancelled
        } else if text_eq(status, "failed") {
            JobStatus::Failed {
                code: match code {
                    Some(c) => ErrorCode::from_str_or_internal(c),
                    None => ErrorCode::Internal,
                },
                message: match message {
                    Some(m) => m.to_owned(),
                    None => nb::ERR_INTERNAL.to_owned(),
                },
            }
        } else {
            JobStatus::Failed { code: ErrorCode::Internal, message: nb::ERR_INTERNAL.to_owned() }
        }
    }

    /// Returns the error code, when this status carries one.
    pub fn error_code(&self) -> (r: Option<ErrorCode>)
        ensures
            r == match self@ {
                StatusView::Failed { code, .. } => Some(code),
                _ => None,
            },
    {
        match self {
            JobStatus::Failed { code, .. } => Some(*code),
            _ => None,
        }
    }

    /// Returns the error message, when this status carries one.
    pub fn error_message(&self) -> (r: Option<&str>)
        ensures
            text_option(r) == self@.message_column(),
    {
        match self {
            JobStatus::Failed { message, .. } => Some(message.as_str()),
            _ => None,
        }
    }
}

/// A status reads back from the three columns that it is stored in.
pub proof fn law_statuses_read_back(status: StatusView)
    ensures
        status_of_columns(status.text(), status.code_column(), status.message_column()) == status,
{
    reveal_strlit("queued");
    reveal_strlit("running");
    reveal_strlit("succeeded");
    reveal_strlit("failed");
    reveal_strlit("cancelled");
    assert("queued"@[0] == 'q' && "running"@[0] == 'r' && "succeeded"@[0] == 's' && "failed"@[0]
        == 'f' && "cancelled"@[0] == 'c');
    if let StatusView::Failed { code, .. } = status {
        error::law_codes_read_back(code);
    }
}

/// A string that is none of the five statuses reads as an internal failure,
/// whatever the other columns hold.
pub proof fn law_unknown_statuses_are_failures(
    status: Seq<char>,
    code: Option<Seq<char>>,
    message: Option<Seq<char>>,
)
    requires
        forall|s: StatusView| status != #[trigger] s.text(),
    ensures
        status_of_columns(status, code, message) == (StatusView::Failed {
            code: ErrorCode::Internal,
            message: nb::ERR_INTERNAL@,
        }),
{
    assert(status != StatusView::Queued.text());
    assert(status != StatusView::Running.text());
    assert(status != StatusView::Succeeded.text());
    assert(status != StatusView::Cancelled.text());
    assert(status != (StatusView::Failed {
        code: ErrorCode::Internal,
        message: Seq::empty(),
    }).text());
}

/// A generation job as stored.
#[derive(Debug, Clone, PartialEq, Eq)]
pub struct Job {
    /// Primary key, also the identifier used in URLs.
    pub id: Uuid,
    /// Owner. Every read is scoped by this.
    pub user_id: Uuid,
    /// What kind of media was asked for.
    pub media_type: MediaType,
    /// The prompt, already validated and normalised.
    pub prompt: String,
    /// Provider parameters as submitted.
    pub parameters: serde_json::Value,
    /// Current lifecycle state.
    pub status: JobStatus,
    /// Identifier at the provider, for asynchronous video jobs.
    pub provider_job_id: Option<String>,
    /// When the job was accepted.
    pub created_at: Timestamp,
    /// When a worker picked it up.
    pub started_at: Option<Timestamp>,
    /// When it reached a terminal state.
    pub completed_at: Option<Timestamp>,
}

impl Job {
    /// Returns how long the job took in nanoseconds, once it has finished.
    pub fn duration(&self) -> (r: Option<i128>)
        ensures
            match (self.started_at, self.completed_at) {
                (Some(started), Some(completed)) => r matches Some(d) && d == completed@ - started@,
                _ => r is None,
            },
    {
        match (self.started_at, self.completed_at) {
            (Some(started), Some(completed)) => Some(completed.nanos_since(&started)),
            _ => None,
        }
    }
}

/// The fields needed to enqueue a new job.
#[derive(Debug, Clone)]
pub struct NewJob {
    /// Owner of the job.
    pub user_id: Uuid,
    /// What kind of media to produce.
    pub media_type: MediaType,
    /// Validated prompt.
    pub prompt: String,
    /// Provider parameters.
    pub parameters: serde_json::Value,
}

/// A job as the history and archive pages show it.
///
/// A projection rather than a [`Job`]: the listings need the asset and the
/// owner's name, and do not need the prompt parameters or the provider id.
#[derive(Debug, Clone, PartialEq, Eq)]
pub struct JobListItem {
    /// Job identifier.
    pub id: Uuid,
    /// What kind of media it produced.
    pub media_type: MediaType,
    /// The prompt, shown in quotes on the card.
    pub prompt: String,
    /// Lifecycle state, so a failed job can be shown as failed.
    pub status: JobStatus,
    /// When the job was accepted.
    pub created_at: Timestamp,
    /// The asset it produced, when it produced one.
    pub asset_id: Option<Uuid>,
    /// Display name of whoever generated it.
    pub owner_name: String,
    /// True when the owner has hidden this from the shared archive.
    pub hidden: bool,
    /// True when the signed-in user owns this job.
    pub owned_by_viewer: bool,
}

/// Which jobs a listing should return.
#[derive(Debug, Clone, Copy, PartialEq, Eq)]
pub struct ListFilter {
    /// Restrict to one user's jobs. `None` lists everyone's.
    pub user_id: Option<Uuid>,
    /// Restrict to one media type.
    pub media_type: Option<MediaType>,
    /// Exclude jobs the owner has hidden from the shared archive.
    ///
    /// Off for the owner's own views: hiding something from colleagues
    /// should not hide it from yourself.
    pub exclude_hidden: bool,
    /// Exclude anything that did not produce media.
    pub only_succeeded: bool,
    /// Newest first when true, oldest first when false.
    pub newest_first: bool,
    /// Page size.
    pub limit: i64,
    /// Rows to skip.
    pub offset: i64,
}

/// How each status is stored, whatever a failure carries: as its name, with the code and
/// the message of the failure and with neither for the others. A job is over when it is
/// neither queued nor running.
pub proof fn law_statuses_are_stored_by_name(code: ErrorCode, message: Seq<char>)
    ensures
        StatusView::Queued.text() == "queued"@ && !StatusView::Queued.terminal(),
        StatusView::Running.text() == "running"@ && !StatusView::Running.terminal(),
        StatusView::Succeeded.text() == "succeeded"@ && StatusView::Succeeded.terminal(),
        StatusView::Cancelled.text() == "cancelled"@ && StatusView::Cancelled.terminal(),
        ({
            let failed = StatusView::Failed { code, message };
            &&& failed.text() == "failed"@ && failed.terminal()
            &&& failed.code_column() == Some(error::code_text(code))
            &&& failed.message_column() == Some(message)
        }),
        StatusView::Queued.code_column() is None && StatusView::Queued.message_column() is None,
        StatusView::Running.code_column() is None && StatusView::Running.message_column() is None,
        StatusView::Succeeded.code_column() is None && StatusView::Succeeded.message_column() is None,
        StatusView::Cancelled.code_column() is None && StatusView::Cancelled.message_column() is None,
{
}

/// A failed job reads as failed whatever its other columns hold: with the code that is
/// stored, or as internal when there is none, and with the message that is stored, or the
/// general one when there is none.
pub proof fn law_failures_are_read_leniently(code: Option<Seq<char>>, message: Option<Seq<char>>)
    ensures
        status_of_columns("failed"@, code, message) matches StatusView::Failed {
            code: c,
            message: m,
        } && {
            &&& code matches Some(text) ==> c == error::code_from_text(text)
            &&& code is None ==> c == ErrorCode::Internal
            &&& message matches Some(text) ==> m == text
            &&& message is None ==> m == nb::ERR_INTERNAL@
        },
{
    reveal_strlit("queued");
    reveal_strlit("running");
    reveal_strlit("succeeded");
    reveal_strlit("failed");
    reveal_strlit("cancelled");
    assert("queued"@[0] == 'q' && "running"@[0] == 'r' && "succeeded"@[0] == 's' && "failed"@[0]
        == 'f' && "cancelled"@[0] == 'c');
}

/// A job that has finished took as long as from when it was picked up to when it ended; one
/// that has not been picked up or has not ended has no duration.
pub proof fn law_durations_run_from_start_to_end(job: Job, r: Option<i128>)
    requires
        call_ensures(Job::duration, (&job,), r),
    ensures
        r is Some <==> job.started_at is Some && job.completed_at is Some,
        r matches Some(nanos) ==> nanos == job.completed_at->0@ - job.started_at->0@,
{
}

/// A status reads back from the columns that it is stored in, and says its own code and
/// message, and whether it is the end.
pub proof fn law_statuses_say_what_they_are(
    stored: JobStatus,
    status: &str,
    code: Option<&str>,
    message: Option<&str>,
    read: JobStatus,
    text: &'static str,
    ended: bool,
)
    requires
        call_ensures(JobStatus::as_str, (&stored,), text),
        call_ensures(JobStatus::is_terminal, (&stored,), ended),
        call_ensures(JobStatus::from_columns, (status, code, message), read),
        status@ == text@,
        text_option(code) == stored@.code_column(),
        text_option(message) == stored@.message_column(),
    ensures
        read@ == stored@,
        ended <==> !(stored is Queued) && !(stored is Running),
        text@ == match stored {
            JobStatus::Queued => "queued"@,
            JobStatus::Running => "running"@,
            JobStatus::Succeeded => "succeeded"@,
            JobStatus::Failed { .. } => "failed"@,
            JobStatus::Cancelled => "cancelled"@,
        },
{
    law_statuses_read_back(stored@);
}

/// A failure hands out its code and its message; no other status has either.
pub proof fn law_only_failures_carry_an_error(
    status: JobStatus,
    code: Option<ErrorCode>,
    message: Option<&str>,
)
    requires
        call_ensures(JobStatus::error_code, (&status,), code),
        call_ensures(JobStatus::error_message, (&status,), message),
    ensures
        code is Some <==> status is Failed,
        message is Some <==> status is Failed,
        status matches JobStatus::Failed { code: c, message: m } ==> code == Some(c)
            && message->0@ == m@,
{
}

} // verus!
