//! Errors produced by the authentication layer.
use vstd::prelude::*;
use vstd::string::*;

use crate::domain::error::ErrorCode;
use crate::domain::i18n::nb;
use crate::text::chars::concat_text;

verus! {

/// Something went wrong while signing a user in or out.
#[derive(Debug, Clone, PartialEq, Eq)]
pub enum AuthError {
    /// OpenID Connect discovery or key retrieval failed.
    Discovery(String),
    /// The identity provider returned an error on the redirect back to us.
    ///
    /// The payload is the provider's `error` parameter, never its
    /// `error_description`, which may echo attacker-controlled text.
    Provider(String),
    /// The `state` parameter was missing, or did not match the session.
    ///
    /// Almost always a stale or replayed callback, but it is also what a CSRF
    /// attempt against the callback would look like.
    StateMismatch,
    /// The callback arrived without a login flow in the session.
    NoFlowInProgress,
    /// The login flow in the session is older than the permitted window.
    FlowExpired,
    /// Exchanging the authorization code for tokens failed.
    TokenExchange(String),
    /// The token response contained no ID token.
    MissingIdToken,
    /// The ID token failed verification: signature, issuer, audience, nonce or
    /// expiry.
    InvalidIdToken(String),
    /// The access token hash in the ID token did not match the access token.
    AccessTokenMismatch,
    /// The ID token verified, but carried no usable user identifier.
    MissingIdentity,
    /// The user is authenticated but lacks the required app role.
    MissingRole,
    /// Reading or writing the session store failed.
    Session(String),
    /// A URL from configuration or discovery could not be parsed.
    InvalidUrl(String),
}

/// An authentication error with its detail as a sequence of characters.
pub enum AuthErrorView {
    /// Discovery failed.
    Discovery(Seq<char>),
    /// The provider returned an error.
    Provider(Seq<char>),
    /// The state did not match.
    StateMismatch,
    /// There is no login flow.
    NoFlowInProgress,
    /// The login flow is too old.
    FlowExpired,
    /// The exchange failed.
    TokenExchange(Seq<char>),
    /// There is no ID token.
    MissingIdToken,
    /// The ID token is not valid.
    InvalidIdToken(Seq<char>),
    /// The access token is not the one the ID token speaks of.
    AccessTokenMismatch,
    /// The ID token names nobody.
    MissingIdentity,
    /// The user lacks the role.
    MissingRole,
    /// The session store failed.
    Session(Seq<char>),
    /// A URL could not be parsed.
    InvalidUrl(Seq<char>),
}

impl View for AuthError {
    type V = AuthErrorView;

    open spec fn view(&self) -> AuthErrorView {
        match *self {
            AuthError::Discovery(d) => AuthErrorView::Discovery(d@),
            AuthError::Provider(d) => AuthErrorView::Provider(d@),
            AuthError::StateMismatch => AuthErrorView::StateMismatch,
            AuthError::NoFlowInProgress => AuthErrorView::NoFlowInProgress,
            AuthError::FlowExpired => AuthErrorView::FlowExpired,
            AuthError::TokenExchange(d) => AuthErrorView::TokenExchange(d@),
            AuthError::MissingIdToken => AuthErrorView::MissingIdToken,
            AuthError::InvalidIdToken(d) => AuthErrorView::InvalidIdToken(d@),
            AuthError::AccessTokenMismatch => AuthErrorView::AccessTokenMismatch,
            AuthError::MissingIdentity => AuthErrorView::MissingIdentity,
            AuthError::MissingRole => AuthErrorView::MissingRole,
            AuthError::Session(d) => AuthErrorView::Session(d@),
            AuthError::InvalidUrl(d) => AuthErrorView::InvalidUrl(d@),
        }
    }
}

impl AuthErrorView {
    /// The stable error code.
    pub open spec fn code(self) -> ErrorCode {
        match self {
            AuthErrorView::MissingRole => ErrorCode::Forbidden,
            AuthErrorView::Discovery(_) => ErrorCode::Upstream,
            AuthErrorView::TokenExchange(_) => ErrorCode::Upstream,
            AuthErrorView::Session(_) => ErrorCode::Internal,
            AuthErrorView::InvalidUrl(_) => ErrorCode::Internal,
            _ => ErrorCode::Unauthenticated,
        }
    }

    /// The Norwegian message to show the user.
    pub open spec fn user_message(self) -> Seq<char> {
        match self {
            AuthErrorView::MissingRole => nb::ERR_FORBIDDEN@,
            AuthErrorView::Discovery(_) => nb::ERR_UPSTREAM@,
            AuthErrorView::TokenExchange(_) => nb::ERR_UPSTREAM@,
            AuthErrorView::Session(_) => nb::ERR_INTERNAL@,
            AuthErrorView::InvalidUrl(_) => nb::ERR_INTERNAL@,
            _ => nb::ERR_LOGIN_FAILED@,
        }
    }

    /// Retrying the sign-in is likely to help.
    pub open spec fn retryable(self) -> bool {
        self is StateMismatch || self is NoFlowInProgress || self is FlowExpired
    }

    /// The text for the log.
    pub open spec fn log_text(self) -> Seq<char> {
        match self {
            AuthErrorView::Discovery(_) => "OpenID Connect discovery failed"@,
            AuthErrorView::Provider(d) => "identity provider returned error: "@ + d,
            AuthErrorView::StateMismatch => "state parameter did not match the session"@,
            AuthErrorView::NoFlowInProgress => "no login flow in progress for this session"@,
            AuthErrorView::FlowExpired => "login flow expired"@,
            AuthErrorView::TokenExchange(_) => "authorization code exchange failed"@,
            AuthErrorView::MissingIdToken => "identity provider returned no ID token"@,
            AuthErrorView::InvalidIdToken(_) => "ID token verification failed"@,
            AuthErrorView::AccessTokenMismatch => "access token hash mismatch"@,
            AuthErrorView::MissingIdentity => "ID token carried no object id or subject"@,
            AuthErrorView::MissingRole => "user lacks required app role"@,
            AuthErrorView::Session(_) => "session store error"@,
            AuthErrorView::InvalidUrl(d) => "invalid URL: "@ + d,
        }
    }
}

impl AuthError {
    /// Returns the stable error code for this error.
    pub fn code(&self) -> (r: ErrorCode)
        ensures
            r == self@.code(),
    {
        match self {
            AuthError::MissingRole => ErrorCode::Forbidden,
            AuthError::Discovery(_) | AuthError::TokenExchange(_) => ErrorCode::Upstream,
            AuthError::Session(_) | AuthError::InvalidUrl(_) => ErrorCode::Internal,
            _ => ErrorCode::Unauthenticated,
        }
    }

    /// Returns the Norwegian message to show the user.
    ///
    /// Deliberately coarse: a failed sign-in must not tell the caller which
    /// specific check failed.
    pub fn user_message(&self) -> (r: &'static str)
        ensures
            r@ == self@.user_message(),
    {
        match self {
            AuthError::MissingRole => nb::ERR_FORBIDDEN,
            AuthError::Discovery(_) | AuthError::TokenExchange(_) => nb::ERR_UPSTREAM,
            AuthError::Session(_) | AuthError::InvalidUrl(_) => nb::ERR_INTERNAL,
            _ => nb::ERR_LOGIN_FAILED,
        }
    }

    /// Returns `true` when retrying the sign-in is likely to help.
    ///
    /// A stale callback or an expired flow is fixed by starting over; a missing
    /// role is not.
    pub fn is_retryable(&self) -> (r: bool)
        ensures
            r == self@.retryable(),
    {
        match self {
            AuthError::StateMismatch | AuthError::NoFlowInProgress | AuthError::FlowExpired => true,
            _ => false,
        }
    }

    /// The text for the log.
    pub fn log_text(&self) -> (r: String)
        ensures
            r@ == self@.log_text(),
    {
        match self {
            AuthError::Discovery(_) => "OpenID Connect discovery failed".to_owned(),
            AuthError::Provider(d) => concat_text("identity provider returned error: ", d),
            AuthError::StateMismatch => "state parameter did not match the session".to_owned(),
            AuthError::NoFlowInProgress => "no login flow in progress for this session".to_owned(),
            AuthError::FlowExpired => "login flow expired".to_owned(),
            AuthError::TokenExchange(_) => "authorization code exchange failed".to_owned(),
            AuthError::MissingIdToken => "identity provider returned no ID token".to_owned(),
            AuthError::InvalidIdToken(_) => "ID token verification failed".to_owned(),
            AuthError::AccessTokenMismatch => "access token hash mismatch".to_owned(),
            AuthError::MissingIdentity => "ID token carried no object id or subject".to_owned(),
            AuthError::MissingRole => "user lacks required app role".to_owned(),
            AuthError::Session(_) => "session store error".to_owned(),
            AuthError::InvalidUrl(d) => concat_text("invalid URL: ", d),
        }
    }
}

/// Every check that a sign-in can fail is told to the user in the same words.
pub proof fn law_failed_checks_look_alike(a: AuthErrorView, b: AuthErrorView)
    requires
        a.code() == ErrorCode::Unauthenticated,
        b.code() == ErrorCode::Unauthenticated,
    ensures
        a.user_message() == b.user_message(),
{
}

/// What each failure of a sign-in is reported as, whatever its detail: a missing role is
/// forbidden, a provider that could not be reached is its own fault, a session or an
/// address that is broken is ours, and every other failure says no more than that the
/// sign-in failed.
pub proof fn law_sign_in_failures_are_coarse(error: AuthErrorView)
    ensures
        error.code() == ErrorCode::Forbidden <==> error is MissingRole,
        error.code() == ErrorCode::Upstream <==> error is Discovery || error is TokenExchange,
        error.code() == ErrorCode::Internal <==> error is Session || error is InvalidUrl,
        !(error is MissingRole) && !(error is Discovery) && !(error is TokenExchange)
            && !(error is Session) && !(error is InvalidUrl) ==> error.code()
            == ErrorCode::Unauthenticated,
        error.code() == ErrorCode::Forbidden ==> error.user_message() == nb::ERR_FORBIDDEN@,
        error.code() == ErrorCode::Upstream ==> error.user_message() == nb::ERR_UPSTREAM@,
        error.code() == ErrorCode::Internal ==> error.user_message() == nb::ERR_INTERNAL@,
        error.code() == ErrorCode::Unauthenticated ==> error.user_message()
            == nb::ERR_LOGIN_FAILED@,
        error.retryable() <==> error is StateMismatch || error is NoFlowInProgress
            || error is FlowExpired,
{
}

/// The log says what went wrong. Where the detail may hold what must not be logged it is
/// kept out, whatever it is; what the provider answered and an address that is none stand
/// at the end.
pub proof fn law_log_texts_keep_details_out(detail: Seq<char>, other: Seq<char>)
    ensures
        AuthErrorView::Discovery(detail).log_text() == AuthErrorView::Discovery(other).log_text(),
        AuthErrorView::TokenExchange(detail).log_text() == AuthErrorView::TokenExchange(
            other,
        ).log_text(),
        AuthErrorView::InvalidIdToken(detail).log_text() == AuthErrorView::InvalidIdToken(
            other,
        ).log_text(),
        AuthErrorView::Session(detail).log_text() == AuthErrorView::Session(other).log_text(),
        AuthErrorView::Provider(detail).log_text() == "identity provider returned error: "@
            + detail,
        AuthErrorView::InvalidUrl(detail).log_text() == "invalid URL: "@ + detail,
{
}

} // verus!
