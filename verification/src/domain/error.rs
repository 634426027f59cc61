//! Error type and error codes shared by every layer.
//!
//! Every error has a stable, machine-readable [`ErrorCode`] that is stored with a
//! job, and a Norwegian message for the user. Keeping the two apart means that
//! the wording can change while the code stays.
use vstd::prelude::*;
use vstd::string::*;

use crate::domain::i18n::nb;
use crate::text::chars::text_eq;

verus! {

/// Stable, machine-readable error identifiers.
///
/// Their strings are written to the database and returned in JSON payloads.
#[derive(Debug, Clone, Copy, PartialEq, Eq, Hash, Structural)]
pub enum ErrorCode {
    /// The submitted input failed validation.
    Validation,
    /// The caller is not authenticated.
    Unauthenticated,
    /// The caller is authenticated but lacks the required role.
    Forbidden,
    /// The requested entity does not exist, or is not visible to the caller.
    NotFound,
    /// The caller exceeded a rate limit or quota.
    RateLimited,
    /// The generation service rejected the prompt through its content filter.
    ContentFilter,
    /// A service that this one depends on failed or timed out.
    Upstream,
    /// An unexpected internal failure.
    Internal,
}

/// The string that stands for a code in storage and APIs.
pub open spec fn code_text(code: ErrorCode) -> Seq<char> {
    match code {
        ErrorCode::Validation => "validation"@,
        ErrorCode::Unauthenticated => "unauthenticated"@,
        ErrorCode::Forbidden => "forbidden"@,
        ErrorCode::NotFound => "not_found"@,
        ErrorCode::RateLimited => "rate_limited"@,
        ErrorCode::ContentFilter => "content_filter"@,
        ErrorCode::Upstream => "upstream"@,
        ErrorCode::Internal => "internal"@,
    }
}

/// The code that a stored string stands for; [`ErrorCode::Internal`] when it is
/// none of the known ones.
pub open spec fn code_from_text(s: Seq<char>) -> ErrorCode {
    if s == "validation"@ {
        ErrorCode::Validation
    } else if s == "unauthenticated"@ {
        ErrorCode::Unauthenticated
    } else if s == "forbidden"@ {
        ErrorCode::Forbidden
    } else if s == "not_found"@ {
        ErrorCode::NotFound
    } else if s == "rate_limited"@ {
        ErrorCode::RateLimited
    } else if s == "content_filter"@ {
        ErrorCode::ContentFilter
    } else if s == "upstream"@ {
        ErrorCode::Upstream
    } else {
        ErrorCode::Internal
    }
}

/// The Norwegian message for a code.
pub open spec fn code_message(code: ErrorCode) -> Seq<char> {
    match code {
        ErrorCode::Validation => nb::ERR_VALIDATION@,
        ErrorCode::Unauthenticated => nb::ERR_UNAUTHENTICATED@,
        ErrorCode::Forbidden => nb::ERR_FORBIDDEN@,
        ErrorCode::NotFound => nb::ERR_NOT_FOUND@,
        ErrorCode::RateLimited => nb::ERR_RATE_LIMITED@,
        ErrorCode::ContentFilter => nb::ERR_CONTENT_FILTER@,
        ErrorCode::Upstream => nb::ERR_UPSTREAM@,
        ErrorCode::Internal => nb::ERR_INTERNAL@,
    }
}

impl ErrorCode {
    /// Returns the stable string representation used in storage and APIs.
    pub fn as_str(self) -> (r: &'static str)
        ensures
            r@ == code_text(self),
    {
        match self {
            ErrorCode::Validation => "validation",
            ErrorCode::Unauthenticated => "unauthenticated",
            ErrorCode::Forbidden => "forbidden",
            ErrorCode::NotFound => "not_found",
            ErrorCode::RateLimited => "rate_limited",
            ErrorCode::ContentFilter => "content_filter",
            ErrorCode::Upstream => "upstream",
            ErrorCode::Internal => "internal",
        }
    }

    /// Reads a stored code, falling back to [`ErrorCode::Internal`].
    ///
    /// Rows outlive deployments. A code that is not known here is still a real
    /// failure, so it degrades to the generic one.
    pub fn from_str_or_internal(value: &str) -> (r: ErrorCode)
        ensures
            r == code_from_text(value@),
    {
        if text_eq(value, "validation") {
            ErrorCode::Validation
        } else if text_eq(value, "unauthenticated") {
            ErrorCode::Unauthenticated
        } else if text_eq(value, "forbidden") {
            ErrorCode::Forbidden
        } else if text_eq(value, "not_found") {
            ErrorCode::NotFound
        } else if text_eq(value, "rate_limited") {
            ErrorCode::RateLimited
        } else if text_eq(value, "content_filter") {
            ErrorCode::ContentFilter
        } else if text_eq(value, "upstream") {
            ErrorCode::Upstream
        } else {
            ErrorCode::Internal
        }
    }

    /// Returns the Norwegian message shown for this code.
    pub fn user_message(self) -> (r: &'static str)
        ensures
            r@ == code_message(self),
    {
        match self {
            ErrorCode::Validation => nb::ERR_VALIDATION,
            ErrorCode::Unauthenticated => nb::ERR_UNAUTHENTICATED,
            ErrorCode::Forbidden => nb::ERR_FORBIDDEN,
            ErrorCode::NotFound => nb::ERR_NOT_FOUND,
            ErrorCode::RateLimited => nb::ERR_RATE_LIMITED,
            ErrorCode::ContentFilter => nb::ERR_CONTENT_FILTER,
            ErrorCode::Upstream => nb::ERR_UPSTREAM,
            ErrorCode::Internal => nb::ERR_INTERNAL,
        }
    }
}

/// Every code reads back from the string that it is stored as.
pub proof fn law_codes_read_back(code: ErrorCode)
    ensures
        code_from_text(code_text(code)) == code,
{
    reveal_strlit("validation");
    reveal_strlit("unauthenticated");
    reveal_strlit("forbidden");
    reveal_strlit("not_found");
    reveal_strlit("rate_limited");
    reveal_strlit("content_filter");
    reveal_strlit("upstream");
    reveal_strlit("internal");
    let s = code_text(code);
    assert(s != "validation"@ ==> s.len() != 10 || s[0] != 'v');
    assert(code != ErrorCode::Validation ==> s.len() != 10);
    assert(code != ErrorCode::Forbidden && code != ErrorCode::NotFound ==> s.len() != 9);
    assert(code == ErrorCode::Forbidden ==> s[0] == 'f');
    assert(code == ErrorCode::NotFound ==> s[0] == 'n');
    assert("not_found"@[0] == 'n' && "forbidden"@[0] == 'f');
    assert("upstream"@[0] == 'u' && "internal"@[0] == 'i');
    assert(code == ErrorCode::Internal ==> s[0] == 'i');
}

/// Errors produced by domain logic.
#[derive(Debug)]
pub enum DomainError {
    /// Input failed validation; the payload is a Norwegian message for the user.
    Validation(String),
    /// The entity was not found.
    NotFound(String),
}

impl DomainError {
    /// Returns the stable error code for this error.
    pub fn code(&self) -> (r: ErrorCode)
        ensures
            r == match *self {
                DomainError::Validation(_) => ErrorCode::Validation,
                DomainError::NotFound(_) => ErrorCode::NotFound,
            },
    {
        match self {
            DomainError::Validation(_) => ErrorCode::Validation,
            DomainError::NotFound(_) => ErrorCode::NotFound,
        }
    }

    /// Returns the message that the error carries.
    pub fn message(&self) -> (r: &str)
        ensures
            r@ == match *self {
                DomainError::Validation(m) => m@,
                DomainError::NotFound(m) => m@,
            },
    {
        match self {
            DomainError::Validation(m) => m.as_str(),
            DomainError::NotFound(m) => m.as_str(),
        }
    }
}

/// A string that is none of the known codes reads as an internal error.
pub proof fn law_unknown_codes_are_internal(s: Seq<char>)
    requires
        forall|code: ErrorCode| s != #[trigger] code_text(code),
    ensures
        code_from_text(s) == ErrorCode::Internal,
{
    assert(s != code_text(ErrorCode::Validation));
    assert(s != code_text(ErrorCode::Unauthenticated));
    assert(s != code_text(ErrorCode::Forbidden));
    assert(s != code_text(ErrorCode::NotFound));
    assert(s != code_text(ErrorCode::RateLimited));
    assert(s != code_text(ErrorCode::ContentFilter));
    assert(s != code_text(ErrorCode::Upstream));
}

/// The message that goes with each code.
pub proof fn law_codes_have_their_message(code: ErrorCode, r: &'static str)
    requires
        call_ensures(ErrorCode::user_message, (code,), r),
    ensures
        r@ == match code {
            ErrorCode::Validation => nb::ERR_VALIDATION@,
            ErrorCode::Unauthenticated => nb::ERR_UNAUTHENTICATED@,
            ErrorCode::Forbidden => nb::ERR_FORBIDDEN@,
            ErrorCode::NotFound => nb::ERR_NOT_FOUND@,
            ErrorCode::RateLimited => nb::ERR_RATE_LIMITED@,
            ErrorCode::ContentFilter => nb::ERR_CONTENT_FILTER@,
            ErrorCode::Upstream => nb::ERR_UPSTREAM@,
            ErrorCode::Internal => nb::ERR_INTERNAL@,
        },
{
}

/// Every code is stored under its own name.
pub proof fn law_codes_are_stored_by_name(code: ErrorCode, value: &str, r: ErrorCode)
    requires
        call_ensures(ErrorCode::from_str_or_internal, (value,), r),
    ensures
        code_text(code) == match code {
            ErrorCode::Validation => "validation"@,
            ErrorCode::Unauthenticated => "unauthenticated"@,
            ErrorCode::Forbidden => "forbidden"@,
            ErrorCode::NotFound => "not_found"@,
            ErrorCode::RateLimited => "rate_limited"@,
            ErrorCode::ContentFilter => "content_filter"@,
            ErrorCode::Upstream => "upstream"@,
            ErrorCode::Internal => "internal"@,
        },
        value@ == code_text(code) ==> r == code,
        r != ErrorCode::Internal ==> value@ == code_text(r),
{
    law_codes_read_back(code);
}

} // verus!
