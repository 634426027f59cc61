//! Route guards.
//!
//! [`require_auth`] rejects anyone without a session user; [`require_role`]
//! additionally checks an app role.
//!
//! Rejections are content-negotiated so the same guard works for the HTML pages,
//! for HTMX partials and for the JSON API:
//!
//! * a JSON API path gets `401`/`403` with a JSON body,
//! * an HTMX request gets `204` plus `HX-Redirect`, because HTMX swaps response
//!   bodies rather than following redirects,
//! * an ordinary page navigation gets a `303` to `/auth/login`.
use vstd::prelude::*;
use vstd::string::*;

use crate::auth::config;
use crate::auth::config::configured_role;
use crate::auth::session::SessionUser;
use crate::domain::error;
use crate::domain::error::ErrorCode;
use crate::domain::i18n::nb;
use crate::http;
use crate::text::chars::{concat_text, starts_with, text_eq};
use crate::text::percent;
use crate::text::percent::percent_encode;

verus! {

/// Path prefix whose failures are answered with JSON rather than a redirect.
pub const API_PREFIX: &'static str = "/api/";

/// Where an unauthenticated browser is sent.
pub const LOGIN_PATH: &'static str = "/auth/login";

/// Query parameter carrying the path to return to after sign-in.
pub const RETURN_TO_PARAM: &'static str = "return_to";

/// The role policy applied by [`require_role`].
#[derive(Debug, Clone, Default)]
pub struct RolePolicy {
    /// Role that must be present, or `None` to allow every signed-in user.
    required: Option<String>,
}

impl View for RolePolicy {
    type V = Option<Seq<char>>;

    /// The role that is required, if any.
    closed spec fn view(&self) -> Option<Seq<char>> {
        match self.required {
            Some(role) => Some(role@),
            None => None,
        }
    }
}

/// The user satisfies a policy that requires `role`.
pub open spec fn satisfies(role: Option<Seq<char>>, user: SessionUser) -> bool {
    match role {
        Some(wanted) => user.holds(wanted),
        None => true,
    }
}

impl RolePolicy {
    /// Builds a policy requiring `role`.
    ///
    /// A blank or missing role disables the check, which is how
    /// `REQUIRED_APP_ROLE=` turns the guard off without a code change.
    pub fn new(role: Option<&str>) -> (r: RolePolicy)
        ensures
            r@ == config::role_setting(
                match role {
                    Some(s) => Some(s@),
                    None => None,
                },
            ),
    {
        let required: Option<String> = match configured_role(role) {
            Some(wanted) => Some(wanted.to_owned()),
            None => None,
        };
        RolePolicy { required }
    }

    /// Returns the required role, if the check is enabled.
    pub fn required(&self) -> (r: Option<&str>)
        ensures
            match self@ {
                Some(wanted) => r matches Some(s) && s@ == wanted,
                None => r is None,
            },
    {
        match &self.required {
            Some(role) => Some(role.as_str()),
            None => None,
        }
    }

    /// Returns `true` when `user` satisfies this policy.
    pub fn permits(&self, user: &SessionUser) -> (r: bool)
        ensures
            r == satisfies(self@, *user),
    {
        match &self.required {
            Some(role) => user.has_role(role.as_str()),
            None => true,
        }
    }
}

/// A blank role is no role: it turns the check off for everyone.
pub proof fn law_a_blank_role_admits_everyone(role: Seq<char>, user: SessionUser)
    requires
        crate::text::unicode::trimmed(role).len() == 0,
    ensures
        satisfies(config::role_setting(Some(role)), user),
        satisfies(config::role_setting(None), user),
{
}

/// How a request is turned away.
#[derive(Debug)]
pub enum Rejection {
    /// A status with a JSON body.
    Json {
        /// Status.
        status: u16,
        /// Stable error code.
        code: &'static str,
        /// Norwegian message.
        message: &'static str,
    },
    /// A status with a plain text.
    Text {
        /// Status.
        status: u16,
        /// Norwegian message.
        message: &'static str,
    },
    /// `204` with an `HX-Redirect` header.
    HxRedirect {
        /// Where HTMX is sent.
        location: String,
    },
    /// `303` with a `Location` header.
    Redirect {
        /// Where the browser is sent.
        location: String,
    },
}

/// A rejection with its texts as sequences of characters.
pub enum RejectionView {
    /// A status with a JSON body.
    Json {
        /// Status.
        status: u16,
        /// Stable error code.
        code: Seq<char>,
        /// Norwegian message.
        message: Seq<char>,
    },
    /// A status with a plain text.
    Text {
        /// Status.
        status: u16,
        /// Norwegian message.
        message: Seq<char>,
    },
    /// `204` with an `HX-Redirect` header.
    HxRedirect {
        /// Where HTMX is sent.
        location: Seq<char>,
    },
    /// `303` with a `Location` header.
    Redirect {
        /// Where the browser is sent.
        location: Seq<char>,
    },
}

impl View for Rejection {
    type V = RejectionView;

    open spec fn view(&self) -> RejectionView {
        match *self {
            Rejection::Json { status, code, message } => RejectionView::Json {
                status,
                code: code@,
                message: message@,
            },
            Rejection::Text { status, message } => RejectionView::Text { status, message: message@ },
            Rejection::HxRedirect { location } => RejectionView::HxRedirect { location: location@ },
            Rejection::Redirect { location } => RejectionView::Redirect { location: location@ },
        }
    }
}

impl RejectionView {
    /// The status that the request is answered with.
    pub open spec fn status(self) -> u16 {
        match self {
            RejectionView::Json { status, .. } => status,
            RejectionView::Text { status, .. } => status,
            RejectionView::HxRedirect { .. } => 204,
            RejectionView::Redirect { .. } => 303,
        }
    }
}

impl Rejection {
    /// The status that the request is answered with.
    pub fn status(&self) -> (r: u16)
        ensures
            r == self@.status(),
    {
        match self {
            Rejection::Json { status, .. } => *status,
            Rejection::Text { status, .. } => *status,
            Rejection::HxRedirect { .. } => 204,
            Rejection::Redirect { .. } => 303,
        }
    }
}

/// The request targets the JSON API.
pub open spec fn api_path(path: Seq<char>) -> bool {
    API_PREFIX@.is_prefix_of(path)
}

/// Where an unauthenticated browser is sent when it was heading for `target`.
pub open spec fn login_target(target: Seq<char>) -> Seq<char> {
    if target == "/"@ {
        LOGIN_PATH@
    } else {
        LOGIN_PATH@ + "?"@ + RETURN_TO_PARAM@ + "="@ + percent::percent_encoded(target)
    }
}

/// What a request was heading for; the front page when it does not say.
pub open spec fn heading_for(path_and_query: Option<Seq<char>>) -> Seq<char> {
    match path_and_query {
        Some(target) => target,
        None => "/"@,
    }
}

/// The rejection of a request with no authenticated session.
pub open spec fn unauthenticated_view(path: Seq<char>, target: Seq<char>, htmx: bool) -> RejectionView {
    if api_path(path) {
        RejectionView::Json {
            status: 401,
            code: error::code_text(ErrorCode::Unauthenticated),
            message: nb::ERR_UNAUTHENTICATED@,
        }
    } else if htmx {
        RejectionView::HxRedirect { location: login_target(target) }
    } else {
        RejectionView::Redirect { location: login_target(target) }
    }
}

/// The rejection of a user who lacks the required role.
pub open spec fn forbidden_view(path: Seq<char>, htmx: bool) -> RejectionView {
    if api_path(path) || htmx {
        RejectionView::Json {
            status: 403,
            code: error::code_text(ErrorCode::Forbidden),
            message: nb::ERR_FORBIDDEN@,
        }
    } else {
        RejectionView::Text { status: 403, message: nb::ERR_FORBIDDEN@ }
    }
}

/// The rejection of a request that cannot be served for a reason on our side.
pub open spec fn internal_error_view() -> RejectionView {
    RejectionView::Json {
        status: 500,
        code: error::code_text(ErrorCode::Internal),
        message: nb::ERR_INTERNAL@,
    }
}

/// Returns `true` when the request targets the JSON API.
pub fn wants_json(path: &str) -> (r: bool)
    ensures
        r == api_path(path@),
{
    starts_with(path, API_PREFIX)
}

/// Builds the sign-in URL, preserving where the user was heading.
///
/// Only the path and query are kept, and they are percent-encoded into a query
/// parameter, so this cannot be turned into an open redirect to another host.
pub fn login_url(path_and_query: Option<&str>) -> (r: String)
    ensures
        r@ == login_target(
            heading_for(
                match path_and_query {
                    Some(target) => Some(target@),
                    None => None,
                },
            ),
        ),
{
    let target: &str = match path_and_query {
        Some(target) => target,
        None => "/",
    };
    if text_eq(target, "/") {
        return LOGIN_PATH.to_owned();
    }
    let mut out = concat_text(LOGIN_PATH, "?");
    out.append(RETURN_TO_PARAM);
    out.append("=");
    out.append(percent_encode(target).as_str());
    out
}

/// Builds the rejection of a request with no authenticated session. `htmx` says
/// whether the request was issued by HTMX.
pub fn unauthenticated(path: &str, path_and_query: Option<&str>, htmx: bool) -> (r: Rejection)
    ensures
        r@ == unauthenticated_view(
            path@,
            heading_for(
                match path_and_query {
                    Some(target) => Some(target@),
                    None => None,
                },
            ),
            htmx,
        ),
{
    if wants_json(path) {
        return Rejection::Json {
            status: 401,
            code: ErrorCode::Unauthenticated.as_str(),
            message: nb::ERR_UNAUTHENTICATED,
        };
    }
    let location: String = login_url(path_and_query);
    if htmx {
        // HTMX swaps the body of a 3xx response instead of navigating, so a
        // redirect has to be expressed as a header it understands.
        Rejection::HxRedirect { location }
    } else {
        Rejection::Redirect { location }
    }
}

/// Builds the rejection of an authenticated user who lacks the required role.
pub fn forbidden(path: &str, htmx: bool) -> (r: Rejection)
    ensures
        r@ == forbidden_view(path@, htmx),
{
    if wants_json(path) || htmx {
        Rejection::Json {
            status: 403,
            code: ErrorCode::Forbidden.as_str(),
            message: nb::ERR_FORBIDDEN,
        }
    } else {
        Rejection::Text { status: 403, message: nb::ERR_FORBIDDEN }
    }
}

/// Builds a generic 500 that leaks nothing about what went wrong.
pub fn internal_error() -> (r: Rejection)
    ensures
        r@ == internal_error_view(),
{
    Rejection::Json {
        status: 500,
        code: ErrorCode::Internal.as_str(),
        message: nb::ERR_INTERNAL,
    }
}

/// What a guard found in the session of a request.
#[derive(Debug)]
pub enum SessionLookup {
    /// The request has no session at all. That is a wiring fault, not a client
    /// error, so it must not look like a failed sign-in.
    NoSession,
    /// The session could not be read.
    Unreadable,
    /// Nobody is signed in.
    Nobody,
    /// This user is signed in.
    User(SessionUser),
}

/// What a guard decides.
#[derive(Debug)]
pub enum Guard {
    /// The request goes on, with this user.
    Pass(SessionUser),
    /// The request is turned away.
    Reject(Rejection),
}

/// Rejects requests that carry no authenticated session.
///
/// On success the [`SessionUser`] goes on with the request, so nothing downstream
/// has to touch the session store again.
pub fn require_auth(
    found: SessionLookup,
    path: &str,
    path_and_query: Option<&str>,
    htmx: bool,
) -> (r: Guard)
    ensures
        match found {
            SessionLookup::User(user) => r == Guard::Pass(user),
            SessionLookup::Nobody => r matches Guard::Reject(rejection) && rejection@
                == unauthenticated_view(
                path@,
                heading_for(
                    match path_and_query {
                        Some(target) => Some(target@),
                        None => None,
                    },
                ),
                htmx,
            ),
            SessionLookup::NoSession => r matches Guard::Reject(rejection) && rejection@
                == internal_error_view(),
            SessionLookup::Unreadable => r matches Guard::Reject(rejection) && rejection@
                == internal_error_view(),
        },
{
    match found {
        SessionLookup::User(user) => Guard::Pass(user),
        SessionLookup::Nobody => Guard::Reject(unauthenticated(path, path_and_query, htmx)),
        SessionLookup::NoSession | SessionLookup::Unreadable => Guard::Reject(internal_error()),
    }
}

/// How a request fares against a policy: `None` lets it go on.
pub open spec fn role_verdict(
    required: Option<Seq<char>>,
    user: Option<SessionUser>,
    path: Seq<char>,
    htmx: bool,
) -> Option<RejectionView> {
    if required is None {
        None
    } else {
        match user {
            None => Some(internal_error_view()),
            Some(u) => if satisfies(required, u) {
                None
            } else {
                Some(forbidden_view(path, htmx))
            },
        }
    }
}

/// Rejects requests whose user does not hold the configured app role. `None` lets
/// the request go on.
///
/// Runs after [`require_auth`], which is what finds the user.
pub fn require_role(
    policy: &RolePolicy,
    user: Option<&SessionUser>,
    path: &str,
    htmx: bool,
) -> (r: Option<Rejection>)
    ensures
        match role_verdict(
            policy@,
            match user {
                Some(u) => Some(*u),
                None => None,
            },
            path@,
            htmx,
        ) {
            Some(view) => r matches Some(rejection) && rejection@ == view,
            None => r is None,
        },
{
    match policy.required() {
        None => None,
        Some(required) => match user {
            None => Some(internal_error()),
            Some(u) => if u.has_role(required) {
                None
            } else {
                Some(forbidden(path, htmx))
            },
        },
    }
}

/// A request that a role guard lets through has a user with that role, unless the
/// guard is off.
pub proof fn law_guarded_requests_hold_the_role(
    required: Option<Seq<char>>,
    user: Option<SessionUser>,
    path: Seq<char>,
    htmx: bool,
)
    requires
        role_verdict(required, user, path, htmx) is None,
    ensures
        required matches Some(role) ==> user is Some && user->0.holds(role),
{
}

/// The API is answered with `401` or `403` in JSON, HTMX with `204` and a header to
/// follow, and a page with a `303` or a `403` in plain text.
pub proof fn law_rejections_suit_the_client(path: Seq<char>, target: Seq<char>, htmx: bool)
    ensures
        api_path(path) ==> unauthenticated_view(path, target, htmx) is Json && forbidden_view(
            path,
            htmx,
        ) is Json,
        !api_path(path) && htmx ==> unauthenticated_view(path, target, htmx) is HxRedirect,
        !api_path(path) && !htmx ==> unauthenticated_view(path, target, htmx) is Redirect
            && forbidden_view(path, htmx) is Text,
        unauthenticated_view(path, target, htmx).status() == if api_path(path) {
            401u16
        } else if htmx {
            204u16
        } else {
            303u16
        },
        forbidden_view(path, htmx).status() == 403,
{
}

/// Wherever a browser was heading, it is sent to the sign-in page of this site, by
/// a URL that can stand in a header.
pub proof fn law_login_urls_stay_on_this_site(target: Seq<char>)
    ensures
        LOGIN_PATH@.is_prefix_of(login_target(target)),
        http::header_text(login_target(target)),
{
    reveal_strlit("/auth/login");
    reveal_strlit("return_to");
    reveal_strlit("?");
    reveal_strlit("=");
    let prefix = LOGIN_PATH@ + "?"@ + RETURN_TO_PARAM@ + "="@;
    let bytes = vstd::utf8::encode_utf8(target);
    percent::law_encoding_is_query_safe(bytes);
    let encoded = percent::percent_encoded(target);
    let whole = prefix + encoded;
    assert forall|i: int| 0 <= i < LOGIN_PATH@.len() implies http::header_char(
        #[trigger] LOGIN_PATH@[i],
    ) by {}
    assert forall|i: int| 0 <= i < RETURN_TO_PARAM@.len() implies http::header_char(
        #[trigger] RETURN_TO_PARAM@[i],
    ) by {}
    assert forall|i: int| 0 <= i < whole.len() implies http::header_char(#[trigger] whole[i]) by {
        let n = LOGIN_PATH@.len() as int;
        let m = n + 1 + RETURN_TO_PARAM@.len();
        if i < n {
            assert(whole[i] == LOGIN_PATH@[i]);
        } else if i == n {
            assert(whole[i] == '?');
        } else if i < m {
            assert(whole[i] == RETURN_TO_PARAM@[i - n - 1]);
        } else if i == m {
            assert(whole[i] == '=');
        } else {
            assert(whole[i] == encoded[i - prefix.len()]);
            assert(percent::query_safe(encoded[i - prefix.len()]));
        }
    }
}

/// After sign-in the page that was asked for can be found again: the parameter
/// decodes to it, and holds nothing that could end it early.
pub proof fn law_the_way_back_is_kept(target: Seq<char>)
    requires
        target != "/"@,
    ensures
        login_target(target) == LOGIN_PATH@ + "?"@ + RETURN_TO_PARAM@ + "="@
            + percent::percent_encoded(target),
        percent::decoded_bytes(percent::percent_encoded(target)) == Some(
            vstd::utf8::encode_utf8(target),
        ),
        forall|i: int|
            0 <= i < percent::percent_encoded(target).len() ==> percent::query_safe(
                #[trigger] percent::percent_encoded(target)[i],
            ),
{
    percent::law_encoding_reads_back(vstd::utf8::encode_utf8(target));
    percent::law_encoding_is_query_safe(vstd::utf8::encode_utf8(target));
}

/// A guard lets a request through exactly when no role is asked for or the user holds
/// the one that is. A user who does not hold it is forbidden, and a request that got
/// this far without a user is a fault of our own.
pub proof fn law_the_role_decides(
    role: Seq<char>,
    user: SessionUser,
    path: Seq<char>,
    htmx: bool,
    anyone: Option<SessionUser>,
)
    ensures
        role_verdict(None, anyone, path, htmx) is None,
        user.holds(role) <==> role_verdict(Some(role), Some(user), path, htmx) is None,
        !user.holds(role) ==> (role_verdict(Some(role), Some(user), path, htmx) matches Some(
            rejection,
        ) && rejection == forbidden_view(path, htmx) && rejection.status() == 403),
        role_verdict(Some(role), None, path, htmx) matches Some(rejection) && rejection.status()
            == 500,
{
}

/// A role that is configured is the one that is asked for, without the white space
/// around it, and a user passes exactly when they hold it.
pub proof fn law_a_configured_role_is_asked_for(
    before: Seq<char>,
    role: Seq<char>,
    after: Seq<char>,
    user: SessionUser,
)
    requires
        crate::text::unicode::blank(before),
        crate::text::unicode::blank(after),
        role.len() > 0,
        !crate::text::unicode::white_space(role[0]),
        !crate::text::unicode::white_space(role.last()),
    ensures
        config::role_setting(Some(before + role + after)) == Some(role),
        satisfies(config::role_setting(Some(before + role + after)), user) <==> user.holds(role),
{
    crate::text::unicode::law_trimming_takes_white_space_only(before, role, after);
}

/// What a rejection says, whatever was asked for. An API path is one below `/api/`, and
/// is answered in JSON with the code and the message of the reason. A page sends the
/// browser to the login page, and that back to where it was headed, but for the front
/// page, which needs no way back.
pub proof fn law_rejections_say_why(path: Seq<char>, target: Seq<char>, htmx: bool)
    ensures
        api_path("/api/"@ + path),
        api_path(path) ==> path.len() >= 5 && path.subrange(0, 5) == "/api/"@,
        api_path(path) ==> unauthenticated_view(path, target, htmx) == (RejectionView::Json {
            status: 401,
            code: "unauthenticated"@,
            message: nb::ERR_UNAUTHENTICATED@,
        }),
        !api_path(path) && htmx ==> unauthenticated_view(path, target, htmx) == (
        RejectionView::HxRedirect { location: login_target(target) }),
        !api_path(path) && !htmx ==> unauthenticated_view(path, target, htmx) == (
        RejectionView::Redirect { location: login_target(target) }),
        api_path(path) || htmx ==> forbidden_view(path, htmx) == (RejectionView::Json {
            status: 403,
            code: "forbidden"@,
            message: nb::ERR_FORBIDDEN@,
        }),
        !api_path(path) && !htmx ==> forbidden_view(path, htmx) == (RejectionView::Text {
            status: 403,
            message: nb::ERR_FORBIDDEN@,
        }),
        internal_error_view() == (RejectionView::Json {
            status: 500,
            code: "internal"@,
            message: nb::ERR_INTERNAL@,
        }),
        login_target("/"@) == "/auth/login"@,
        target != "/"@ ==> login_target(target) == "/auth/login?return_to="@
            + percent::percent_encoded(target),
        heading_for(None) == "/"@,
        heading_for(Some(target)) == target,
{
    reveal_strlit("/api/");
    reveal_strlit("/auth/login");
    reveal_strlit("?");
    reveal_strlit("return_to");
    reveal_strlit("=");
    reveal_strlit("/auth/login?return_to=");
    assert(("/api/"@ + path).subrange(0, 5) =~= "/api/"@);
    if api_path(path) {
        assert(path.subrange(0, 5) =~= "/api/"@);
    }
    if target != "/"@ {
        assert(login_target(target) =~= "/auth/login?return_to="@ + percent::percent_encoded(
            target,
        ));
    }
}

/// A request passes the guard exactly when its session holds a user, and then with just
/// that user. A session without one is sent to the login page, or told so in JSON below
/// `/api/`; one that cannot be read is a fault of our own.
pub proof fn law_sessions_decide(
    found: SessionLookup,
    path: &str,
    path_and_query: Option<&str>,
    htmx: bool,
    r: Guard,
)
    requires
        call_ensures(require_auth, (found, path, path_and_query, htmx), r),
    ensures
        found matches SessionLookup::User(user) ==> r == Guard::Pass(user),
        r matches Guard::Pass(user) ==> found == SessionLookup::User(user),
        found is Nobody ==> (r matches Guard::Reject(rejection) && rejection@.status() == if api_path(
            path@,
        ) {
            401u16
        } else if htmx {
            204u16
        } else {
            303u16
        }),
        found is Nobody && !api_path(path@) ==> (r matches Guard::Reject(rejection) && {
            let target = match path_and_query {
                Some(target) => target@,
                None => "/"@,
            };
            ||| rejection@ == (RejectionView::HxRedirect { location: login_target(target) })
            ||| rejection@ == (RejectionView::Redirect { location: login_target(target) })
        }),
        found is NoSession || found is Unreadable ==> (r matches Guard::Reject(rejection)
            && rejection@.status() == 500),
{
}

/// A policy asks for the role that it was made with, without the white space around it,
/// and for none where that is blank; and it permits exactly the users who hold it.
pub proof fn law_policies_ask_for_their_role(
    role: Option<&str>,
    policy: RolePolicy,
    user: SessionUser,
    permitted: bool,
    path: &str,
    htmx: bool,
    r: Option<Rejection>,
)
    requires
        call_ensures(RolePolicy::new, (role,), policy),
        call_ensures(RolePolicy::permits, (&policy, &user), permitted),
        call_ensures(require_role, (&policy, Some(&user), path, htmx), r),
    ensures
        ({
            let asked = role is Some && !crate::text::unicode::blank(role->0@);
            &&& asked ==> permitted == user.holds(crate::text::unicode::trimmed(role->0@))
            &&& !asked ==> permitted
            &&& permitted <==> r is None
            &&& r matches Some(rejection) ==> rejection@.status() == 403
        }),
{
    if let Some(text) = role {
        crate::text::unicode::law_blank_texts_trim_to_nothing(text@);
    }
}

/// Where an anonymous visitor is sent and what they are told, whatever they asked for. The
/// login page is told the way back, encoded, unless that is the front page.
pub proof fn law_visitors_are_told(
    path: &str,
    path_and_query: Option<&str>,
    htmx: bool,
    login: String,
    anonymous: Rejection,
    refused: Rejection,
    json: bool,
)
    requires
        call_ensures(login_url, (path_and_query,), login),
        call_ensures(unauthenticated, (path, path_and_query, htmx), anonymous),
        call_ensures(forbidden, (path, htmx), refused),
        call_ensures(wants_json, (path,), json),
    ensures
        path_and_query is None || path_and_query->0@ == "/"@ ==> login@ == "/auth/login"@,
        path_and_query is Some && path_and_query->0@ != "/"@ ==> login@
            == "/auth/login?return_to="@ + percent::percent_encoded(path_and_query->0@),
        json <==> path@.len() >= 5 && path@.subrange(0, 5) == "/api/"@,
        json ==> anonymous@ == (RejectionView::Json {
            status: 401,
            code: "unauthenticated"@,
            message: nb::ERR_UNAUTHENTICATED@,
        }),
        !json && htmx ==> anonymous@ == (RejectionView::HxRedirect { location: login@ }),
        !json && !htmx ==> anonymous@ == (RejectionView::Redirect { location: login@ }),
        json || htmx ==> refused@ == (RejectionView::Json {
            status: 403,
            code: "forbidden"@,
            message: nb::ERR_FORBIDDEN@,
        }),
        !json && !htmx ==> refused@ == (RejectionView::Text {
            status: 403,
            message: nb::ERR_FORBIDDEN@,
        }),
{
    let target = match path_and_query {
        Some(target) => target@,
        None => "/"@,
    };
    law_rejections_say_why(path@, target, htmx);
    reveal_strlit("/api/");
    if path@.len() >= 5 && path@.subrange(0, 5) == "/api/"@ {
        assert forall|i: int| 0 <= i < 5 implies #[trigger] path@[i] == "/api/"@[i] by {
            assert(path@.subrange(0, 5)[i] == path@[i]);
        }
        assert(API_PREFIX@.is_prefix_of(path@));
    }
}

} // verus!
