//! Provider errors, mapped to something the user can act on.
use vstd::prelude::*;
use vstd::string::*;

use crate::domain::error::ErrorCode;
use crate::domain::i18n::nb;
use crate::text::chars::concat_text;

verus! {

/// A call to the generation service did not produce media.
#[derive(Debug, Clone, PartialEq, Eq)]
pub enum ProviderError {
    /// The request was malformed or the parameters were rejected (HTTP 400).
    Validation(String),
    /// Authentication or authorisation failed (HTTP 401/403).
    Unauthorized,
    /// The deployment named in configuration does not exist (HTTP 404).
    DeploymentNotFound(String),
    /// Rate limited or out of quota (HTTP 429).
    RateLimited,
    /// The content filter rejected the prompt or the result.
    ///
    /// Its own variant because it is the one failure the user can actually do
    /// something about, and it deserves its own message.
    ContentFilter,
    /// The provider failed or was unreachable (HTTP 5xx, timeout, DNS).
    Upstream(String),
    /// The response did not look like what the API documents.
    Malformed(String),
    /// The asynchronous job did not finish within the allowed time.
    Timeout,
    /// Something went wrong on our side while preparing the call.
    Internal(String),
}

/// A provider error with its detail as a sequence of characters.
pub enum ProviderErrorView {
    /// The parameters were rejected.
    Validation(Seq<char>),
    /// The credentials were refused.
    Unauthorized,
    /// The deployment does not exist.
    DeploymentNotFound(Seq<char>),
    /// Rate limited or out of quota.
    RateLimited,
    /// Rejected by the content filter.
    ContentFilter,
    /// Failed or unreachable.
    Upstream(Seq<char>),
    /// Not the documented response.
    Malformed(Seq<char>),
    /// Not finished in time.
    Timeout,
    /// A failure on our side.
    Internal(Seq<char>),
}

impl View for ProviderError {
    type V = ProviderErrorView;

    open spec fn view(&self) -> ProviderErrorView {
        match *self {
            ProviderError::Validation(d) => ProviderErrorView::Validation(d@),
            ProviderError::Unauthorized => ProviderErrorView::Unauthorized,
            ProviderError::DeploymentNotFound(d) => ProviderErrorView::DeploymentNotFound(d@),
            ProviderError::RateLimited => ProviderErrorView::RateLimited,
            ProviderError::ContentFilter => ProviderErrorView::ContentFilter,
            ProviderError::Upstream(d) => ProviderErrorView::Upstream(d@),
            ProviderError::Malformed(d) => ProviderErrorView::Malformed(d@),
            ProviderError::Timeout => ProviderErrorView::Timeout,
            ProviderError::Internal(d) => ProviderErrorView::Internal(d@),
        }
    }
}

impl ProviderErrorView {
    /// The stable error code stored on the job.
    pub open spec fn code(self) -> ErrorCode {
        match self {
            ProviderErrorView::Validation(_) => ErrorCode::Validation,
            ProviderErrorView::RateLimited => ErrorCode::RateLimited,
            ProviderErrorView::ContentFilter => ErrorCode::ContentFilter,
            ProviderErrorView::Upstream(_) => ErrorCode::Upstream,
            ProviderErrorView::Malformed(_) => ErrorCode::Upstream,
            ProviderErrorView::Timeout => ErrorCode::Upstream,
            ProviderErrorView::Unauthorized => ErrorCode::Internal,
            ProviderErrorView::DeploymentNotFound(_) => ErrorCode::Internal,
            ProviderErrorView::Internal(_) => ErrorCode::Internal,
        }
    }

    /// The Norwegian message shown to the user.
    pub open spec fn user_message(self) -> Seq<char> {
        match self {
            ProviderErrorView::ContentFilter => nb::ERR_CONTENT_FILTER@,
            ProviderErrorView::RateLimited => nb::ERR_RATE_LIMITED@,
            ProviderErrorView::Timeout => nb::ERR_GENERATION_TIMEOUT@,
            ProviderErrorView::Validation(_) => nb::ERR_VALIDATION@,
            ProviderErrorView::Upstream(_) => nb::ERR_UPSTREAM@,
            ProviderErrorView::Malformed(_) => nb::ERR_UPSTREAM@,
            ProviderErrorView::Unauthorized => nb::ERR_INTERNAL@,
            ProviderErrorView::DeploymentNotFound(_) => nb::ERR_INTERNAL@,
            ProviderErrorView::Internal(_) => nb::ERR_INTERNAL@,
        }
    }

    /// Retrying the same call might succeed.
    pub open spec fn retryable(self) -> bool {
        self is RateLimited || self is Upstream
    }

    /// The text for the log.
    pub open spec fn log_text(self) -> Seq<char> {
        match self {
            ProviderErrorView::Validation(d) => "provider rejected the request: "@ + d,
            ProviderErrorView::Unauthorized => "provider refused the credentials"@,
            ProviderErrorView::DeploymentNotFound(d) => "deployment not found: "@ + d,
            ProviderErrorView::RateLimited => "provider rate limited the request"@,
            ProviderErrorView::ContentFilter => "content filter rejected the request"@,
            ProviderErrorView::Upstream(_) => "provider unavailable"@,
            ProviderErrorView::Malformed(d) => "unexpected response from the provider: "@ + d,
            ProviderErrorView::Timeout => "generation timed out"@,
            ProviderErrorView::Internal(d) => "internal provider error: "@ + d,
        }
    }
}

impl ProviderError {
    /// Returns the stable error code stored on the job.
    pub fn code(&self) -> (r: ErrorCode)
        ensures
            r == self@.code(),
    {
        match self {
            ProviderError::Validation(_) => ErrorCode::Validation,
            ProviderError::Unauthorized | ProviderError::DeploymentNotFound(_)
            | ProviderError::Internal(_) => ErrorCode::Internal,
            ProviderError::RateLimited => ErrorCode::RateLimited,
            ProviderError::ContentFilter => ErrorCode::ContentFilter,
            ProviderError::Upstream(_) | ProviderError::Malformed(_)
            | ProviderError::Timeout => ErrorCode::Upstream,
        }
    }

    /// Returns the Norwegian message shown to the user.
    ///
    /// A misconfigured deployment and a refused credential are operator
    /// problems, not user problems, so both collapse to the generic message:
    /// the detail is in the log.
    pub fn user_message(&self) -> (r: &'static str)
        ensures
            r@ == self@.user_message(),
    {
        match self {
            ProviderError::ContentFilter => nb::ERR_CONTENT_FILTER,
            ProviderError::RateLimited => nb::ERR_RATE_LIMITED,
            ProviderError::Timeout => nb::ERR_GENERATION_TIMEOUT,
            ProviderError::Validation(_) => nb::ERR_VALIDATION,
            ProviderError::Upstream(_) | ProviderError::Malformed(_) => nb::ERR_UPSTREAM,
            ProviderError::Unauthorized | ProviderError::DeploymentNotFound(_)
            | ProviderError::Internal(_) => nb::ERR_INTERNAL,
        }
    }

    /// Returns `true` when retrying the same call might succeed.
    ///
    /// A content filter rejection or a bad parameter will fail identically
    /// every time; retrying those only wastes quota.
    pub fn is_retryable(&self) -> (r: bool)
        ensures
            r == self@.retryable(),
    {
        match self {
            ProviderError::RateLimited | ProviderError::Upstream(_) => true,
            _ => false,
        }
    }

    /// The text for the log.
    pub fn log_text(&self) -> (r: String)
        ensures
            r@ == self@.log_text(),
    {
        match self {
            ProviderError::Validation(d) => concat_text("provider rejected the request: ", d),
            ProviderError::Unauthorized => "provider refused the credentials".to_owned(),
            ProviderError::DeploymentNotFound(d) => concat_text("deployment not found: ", d),
            ProviderError::RateLimited => "provider rate limited the request".to_owned(),
            ProviderError::ContentFilter => "content filter rejected the request".to_owned(),
            ProviderError::Upstream(_) => "provider unavailable".to_owned(),
            ProviderError::Malformed(d) => concat_text("unexpected response from the provider: ", d),
            ProviderError::Timeout => "generation timed out".to_owned(),
            ProviderError::Internal(d) => concat_text("internal provider error: ", d),
        }
    }
}

/// A failure that is worth retrying is never the user's to mend: it is a rate
/// limit or a fault of the service.
pub proof fn law_retryable_failures_are_transient(error: ProviderErrorView)
    ensures
        error.retryable() ==> error.code() == ErrorCode::RateLimited || error.code()
            == ErrorCode::Upstream,
        error.code() == ErrorCode::Validation || error.code() == ErrorCode::ContentFilter
            || error.code() == ErrorCode::Internal ==> !error.retryable(),
{
}

/// Exactly two failures are worth another try, whatever their detail: a rate limit and
/// a fault of the service.
pub proof fn law_two_failures_are_worth_a_retry(error: ProviderErrorView)
    ensures
        error.retryable() <==> error is RateLimited || error is Upstream,
{
}

/// What becomes of each failure, whatever its detail: the code that is stored, and the
/// message that the user is shown. The message goes with the code, but for a job that
/// took too long, which is told apart; no detail reaches the user.
pub proof fn law_failures_are_reported_by_code(error: ProviderErrorView)
    ensures
        error.code() == ErrorCode::Validation <==> error is Validation,
        error.code() == ErrorCode::RateLimited <==> error is RateLimited,
        error.code() == ErrorCode::ContentFilter <==> error is ContentFilter,
        error.code() == ErrorCode::Upstream <==> error is Upstream || error is Malformed
            || error is Timeout,
        error.code() == ErrorCode::Internal <==> error is Unauthorized
            || error is DeploymentNotFound || error is Internal,
        error is Validation ==> error.user_message() == nb::ERR_VALIDATION@,
        error is RateLimited ==> error.user_message() == nb::ERR_RATE_LIMITED@,
        error is ContentFilter ==> error.user_message() == nb::ERR_CONTENT_FILTER@,
        error is Upstream || error is Malformed ==> error.user_message() == nb::ERR_UPSTREAM@,
        error is Timeout ==> error.user_message() == nb::ERR_GENERATION_TIMEOUT@,
        error.code() == ErrorCode::Internal ==> error.user_message() == nb::ERR_INTERNAL@,
{
}

/// The log says what the failure was; where it comes with a detail, that stands at the
/// end, but for a fault of the service, whose detail is kept out.
pub proof fn law_log_texts_end_in_the_detail(detail: Seq<char>, other: Seq<char>)
    ensures
        ProviderErrorView::Validation(detail).log_text() == "provider rejected the request: "@
            + detail,
        ProviderErrorView::DeploymentNotFound(detail).log_text() == "deployment not found: "@
            + detail,
        ProviderErrorView::Malformed(detail).log_text()
            == "unexpected response from the provider: "@ + detail,
        ProviderErrorView::Internal(detail).log_text() == "internal provider error: "@ + detail,
        ProviderErrorView::Upstream(detail).log_text() == ProviderErrorView::Upstream(
            other,
        ).log_text(),
{
}

} // verus!
