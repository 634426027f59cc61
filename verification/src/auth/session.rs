//! What the authentication layer keeps in the server-side session.
//!
//! Two things are stored, under separate keys with separate lifetimes:
//!
//! * [`LoginFlow`]: short-lived state for a sign-in in progress. Removed as soon
//!   as the callback is handled, successfully or not.
//! * [`SessionUser`]: the signed-in identity, kept for the life of the session.
//!
//! Neither is ever sent to the browser. The only thing the client holds is the
//! signed session cookie, which carries an opaque session ID.
use vstd::prelude::*;
use vstd::string::*;

use crate::auth::claims::EntraIdTokenClaims;
use crate::auth::error::{AuthError, AuthErrorView};
use crate::clock;
use crate::clock::{read_clock, Timestamp};
use crate::domain::i18n::nb;
use crate::text::chars;
use crate::text::chars::{chars_of, leading_text, text_eq};
use crate::text::unicode;
use crate::text::unicode::{is_alphabetic, is_white_space, to_uppercase};

verus! {

/// Session key holding the in-progress [`LoginFlow`].
pub const LOGIN_FLOW_KEY: &'static str = "auth.flow";

/// Session key holding the authenticated [`SessionUser`].
pub const USER_KEY: &'static str = "auth.user";

/// Session key holding the raw ID token, used as `id_token_hint` on sign-out.
pub const ID_TOKEN_KEY: &'static str = "auth.id_token";

/// How long a sign-in may take from `/auth/login` to `/auth/callback`, in seconds.
///
/// Long enough for a password plus MFA prompt, short enough that an abandoned
/// flow cannot be resumed much later.
pub const LOGIN_FLOW_TTL_SECONDS: i64 = 900;

/// Server-side state for a sign-in that is in progress.
///
/// Held in the session between the redirect to Entra ID and the callback. The
/// PKCE verifier and the nonce are secrets: if either reached the browser, the
/// protection they provide would be gone.
#[derive(Debug, Clone)]
pub struct LoginFlow {
    /// PKCE code verifier matching the challenge sent to the provider.
    pub pkce_verifier: String,
    /// CSRF `state` value echoed back by the provider.
    pub state: String,
    /// Nonce bound into the ID token, to detect token replay.
    pub nonce: String,
    /// Local path to return to once sign-in completes.
    pub return_to: String,
}

/// A login flow in the session, stamped with when it was put there.
#[derive(Debug, Clone)]
pub struct Stamped {
    /// The flow.
    pub value: LoginFlow,
    /// When it was put there.
    pub created_at: Timestamp,
}

/// The authenticated user, as resolved from a verified ID token.
#[derive(Debug, Clone, PartialEq, Eq)]
pub struct SessionUser {
    /// Entra ID object ID: stable across applications in the tenant.
    pub oid: String,
    /// Work e-mail address, when the token carried one.
    pub email: Option<String>,
    /// User principal name, when the token carried one.
    pub upn: Option<String>,
    /// Display name shown in the top bar.
    pub display_name: String,
    /// App roles assigned to this user for this application.
    pub roles: Vec<String>,
    /// Group object IDs, when the app registration emits a groups claim.
    pub groups: Vec<String>,
    /// When this user signed in.
    pub authenticated_at: Timestamp,
}

/// Who the claims are about: the object ID, or else the subject.
///
/// `oid` is preferred over `sub`: `sub` is pairwise per application and would
/// change if the app registration were ever recreated.
pub open spec fn identity(claims: EntraIdTokenClaims) -> String {
    match claims.additional.oid {
        Some(oid) => oid,
        None => claims.subject,
    }
}

/// The address of whom the claims are about.
pub open spec fn address(claims: EntraIdTokenClaims) -> Option<String> {
    match claims.email {
        Some(email) => Some(email),
        None => claims.additional.upn,
    }
}

/// The name of whom the claims are about.
pub open spec fn shown_name(claims: EntraIdTokenClaims) -> Seq<char> {
    match claims.name {
        Some(name) => name@,
        None => match claims.preferred_username {
            Some(name) => name@,
            None => match address(claims) {
                Some(email) => email@,
                None => nb::UNKNOWN_USER@,
            },
        },
    }
}

/// The user is whom the claims are about, signed in at `now`.
pub open spec fn user_of(claims: EntraIdTokenClaims, now: int, user: SessionUser) -> bool {
    &&& user.oid == identity(claims)
    &&& user.email == address(claims)
    &&& user.upn == claims.additional.upn
    &&& user.display_name@ == shown_name(claims)
    &&& user.roles@ == claims.additional.roles@
    &&& user.groups@ == claims.additional.groups@
    &&& user.authenticated_at@ == now
}

fn copy_text(s: &Option<String>) -> (r: Option<String>)
    ensures
        r == *s,
{
    match s {
        Some(t) => Some(t.clone()),
        None => None,
    }
}

fn copy_texts(list: &Vec<String>) -> (r: Vec<String>)
    ensures
        r@ == list@,
{
    let mut out: Vec<String> = Vec::new();
    let mut i: usize = 0;
    while i < list.len()
        invariant
            i <= list@.len(),
            out@ == list@.take(i as int),
        decreases list@.len() - i,
    {
        out.push(list[i].clone());
        assert(list@.take(i as int + 1) =~= list@.take(i as int).push(list@[i as int]));
        i = i + 1;
    }
    assert(list@.take(list@.len() as int) =~= list@);
    out
}

/// `wanted` is one of the names.
pub open spec fn lists(names: Seq<String>, wanted: Seq<char>) -> bool {
    exists|i: int| 0 <= i < names.len() && #[trigger] names[i]@ == wanted
}

fn is_listed(names: &Vec<String>, wanted: &str) -> (r: bool)
    ensures
        r == lists(names@, wanted@),
{
    let mut i: usize = 0;
    while i < names.len()
        invariant
            i <= names@.len(),
            forall|j: int| 0 <= j < i ==> #[trigger] names@[j]@ != wanted@,
        decreases names@.len() - i,
    {
        if text_eq(names[i].as_str(), wanted) {
            assert(names@[i as int]@ == wanted@);
            return true;
        }
        i = i + 1;
    }
    false
}

/// The letters that the words of a text begin with. A word that begins with
/// anything but a letter has none; `at_start` says that a word may begin here.
pub open spec fn first_letters(s: Seq<char>, at_start: bool) -> Seq<char>
    decreases s.len(),
{
    if s.len() == 0 {
        Seq::empty()
    } else if unicode::white_space(s[0]) {
        first_letters(s.skip(1), true)
    } else if at_start && unicode::alphabetic(s[0]) {
        seq![s[0]] + first_letters(s.skip(1), false)
    } else {
        first_letters(s.skip(1), false)
    }
}

/// The letters of the initials of a name, before they are put in upper case.
pub open spec fn initial_letters(name: Seq<char>) -> Seq<char> {
    chars::leading(first_letters(name, true), 2)
}

/// The initials, given their letters and the upper-case form of those: at most two
/// letters, and a question mark when there are none.
pub open spec fn initials_given(letters: Seq<char>, upper: Seq<char>) -> Seq<char> {
    if letters.len() == 0 {
        "?"@
    } else {
        chars::leading(upper, 2)
    }
}

/// The letters of the initials of a name, before they are put in upper case.
pub fn letters_of(name: &str) -> (r: String)
    ensures
        r@ == initial_letters(name@),
{
    let text: Vec<char> = chars_of(name);
    let n: usize = text.len();
    let mut letters = String::new();
    let mut count: usize = 0;
    let mut at_start: bool = true;
    let mut i: usize = 0;
    assert(text@.skip(0) =~= text@);
    assert(letters@ + first_letters(text@, true) =~= first_letters(text@, true));
    while i < n && count < 2
        invariant
            n == text@.len(),
            text@ == name@,
            i <= n,
            count <= 2,
            letters@.len() == count,
            letters@ + first_letters(text@.skip(i as int), at_start) == first_letters(
                name@,
                true,
            ),
        decreases n - i,
    {
        let c: char = text[i];
        let ghost before = letters@;
        let ghost rest = text@.skip(i as int);
        assert(rest.skip(1) =~= text@.skip(i + 1));
        if is_white_space(c) {
            at_start = true;
        } else {
            if at_start && is_alphabetic(c) {
                letters.push(c);
                count = count + 1;
                assert(letters@ + first_letters(rest.skip(1), false) =~= before + (seq![c]
                    + first_letters(rest.skip(1), false)));
            }
            at_start = false;
        }
        i = i + 1;
    }
    proof {
        let all = first_letters(name@, true);
        let rest = first_letters(text@.skip(i as int), at_start);
        if count < 2 {
            assert(text@.skip(i as int).len() == 0);
            assert(all =~= letters@);
        } else {
            assert(all.take(2) =~= letters@);
            if all.len() <= 2 {
                assert(all =~= letters@);
            }
        }
    }
    letters
}

/// The initials, given their letters and the upper-case form of those.
pub fn initials_from(letters: &str, upper: &str) -> (r: String)
    ensures
        r@ == initials_given(letters@, upper@),
{
    if letters.unicode_len() == 0 {
        "?".to_owned()
    } else {
        leading_text(upper, 2)
    }
}

impl SessionUser {
    /// Builds a session user, signed in at `now`, from verified ID token claims.
    ///
    /// # Errors
    ///
    /// Returns [`AuthError::MissingIdentity`] when the token names nobody.
    pub fn from_claims_at(claims: &EntraIdTokenClaims, now: Timestamp) -> (r: Result<
        SessionUser,
        AuthError,
    >)
        ensures
            if identity(*claims)@.len() == 0 {
                r matches Err(error) && error@ == AuthErrorView::MissingIdentity
            } else {
                r matches Ok(user) && user_of(*claims, now@, user) && user.authenticated_at == now
            },
    {
        let oid: String = match &claims.additional.oid {
            Some(oid) => oid.clone(),
            None => claims.subject.clone(),
        };
        if oid.as_str().unicode_len() == 0 {
            return Err(AuthError::MissingIdentity);
        }
        let email: Option<String> = match &claims.email {
            Some(email) => Some(email.clone()),
            None => copy_text(&claims.additional.upn),
        };
        let display_name: String = match &claims.name {
            Some(name) => name.clone(),
            None => match &claims.preferred_username {
                Some(name) => name.clone(),
                None => match &email {
                    Some(email) => email.clone(),
                    None => nb::UNKNOWN_USER.to_owned(),
                },
            },
        };
        Ok(
            SessionUser {
                oid,
                email,
                upn: copy_text(&claims.additional.upn),
                display_name,
                roles: copy_texts(&claims.additional.roles),
                groups: copy_texts(&claims.additional.groups),
                authenticated_at: now,
            },
        )
    }

    /// Builds a session user from verified ID token claims.
    ///
    /// # Errors
    ///
    /// Returns [`AuthError::MissingIdentity`] when the token carries neither an
    /// `oid` claim nor a subject.
    pub fn from_claims(claims: &EntraIdTokenClaims) -> (r: Result<SessionUser, AuthError>)
        ensures
            if identity(*claims)@.len() == 0 {
                r matches Err(error) && error@ == AuthErrorView::MissingIdentity
            } else {
                r matches Ok(user) && clock::clock_read(user.authenticated_at)
                    && clock::on_calendar(user.authenticated_at@) && user_of(
                    *claims,
                    user.authenticated_at@,
                    user,
                )
            },
    {
        SessionUser::from_claims_at(claims, read_clock())
    }

    /// The user holds `role`, as an app role or a group.
    pub open spec fn holds(self, role: Seq<char>) -> bool {
        lists(self.roles@, role) || lists(self.groups@, role)
    }

    /// Returns `true` when the user holds `role`, as an app role or a group.
    ///
    /// Both are checked so that access can be granted either by assigning the app
    /// role directly or by emitting a groups claim, without a code change.
    pub fn has_role(&self, role: &str) -> (r: bool)
        ensures
            r == self.holds(role@),
    {
        is_listed(&self.roles, role) || is_listed(&self.groups, role)
    }

    /// Returns the initials shown in the avatar, at most two letters.
    pub fn initials(&self) -> (r: String)
        ensures
            r@ == initials_given(
                initial_letters(self.display_name@),
                unicode::uppercase(initial_letters(self.display_name@)),
            ),
            1 <= r@.len() <= 2,
    {
        let letters: String = letters_of(self.display_name.as_str());
        let upper: String = to_uppercase(letters.as_str());
        proof {
            law_initials_are_short(letters@, upper@);
        }
        initials_from(letters.as_str(), upper.as_str())
    }
}

/// Initials are one or two characters, however many the letters of the name become
/// in upper case.
pub proof fn law_initials_are_short(letters: Seq<char>, upper: Seq<char>)
    requires
        letters.len() > 0 ==> upper.len() > 0,
    ensures
        1 <= initials_given(letters, upper).len() <= 2,
{
    reveal_strlit("?");
}

/// Stamps the login flow that is put in the session.
pub fn put_login_flow(flow: LoginFlow) -> (r: Stamped)
    ensures
        r.value == flow,
        clock::clock_read(r.created_at),
        clock::on_calendar(r.created_at@),
{
    Stamped { value: flow, created_at: read_clock() }
}

/// At `now` a login flow from `created_at` is older than is permitted.
pub open spec fn flow_expired(created_at: int, now: int) -> bool {
    clock::whole_seconds(now - created_at) > LOGIN_FLOW_TTL_SECONDS
}

/// What a callback at `now` gets out of the session.
pub open spec fn flow_at(stored: Option<Stamped>, now: int) -> Result<LoginFlow, AuthErrorView> {
    match stored {
        None => Err(AuthErrorView::NoFlowInProgress),
        Some(stamped) => if flow_expired(stamped.created_at@, now) {
            Err(AuthErrorView::FlowExpired)
        } else {
            Ok(stamped.value)
        },
    }
}

/// What a callback at `now` gets out of the session, from what was taken out of
/// it.
///
/// # Errors
///
/// Returns [`AuthError::NoFlowInProgress`] when the session held no flow, and
/// [`AuthError::FlowExpired`] when it is older than [`LOGIN_FLOW_TTL_SECONDS`].
pub fn take_login_flow_at(stored: Option<Stamped>, now: &Timestamp) -> (r: Result<
    LoginFlow,
    AuthError,
>)
    ensures
        match flow_at(stored, now@) {
            Ok(flow) => r == Ok::<LoginFlow, AuthError>(flow),
            Err(e) => r matches Err(error) && error@ == e,
        },
{
    match stored {
        None => Err(AuthError::NoFlowInProgress),
        Some(stamped) => {
            let age: i128 = now.nanos_since(&stamped.created_at);
            if age >= 901_000_000_000 {
                Err(AuthError::FlowExpired)
            } else {
                Ok(stamped.value)
            }
        },
    }
}

/// What a callback gets out of the session, from what was taken out of it.
///
/// The flow is taken, not read: a callback may only be handled once, so a replayed
/// callback finds nothing.
///
/// # Errors
///
/// Returns [`AuthError::NoFlowInProgress`] when the session held no flow, and
/// [`AuthError::FlowExpired`] when it is older than [`LOGIN_FLOW_TTL_SECONDS`].
pub fn take_login_flow(stored: Option<Stamped>) -> (r: Result<LoginFlow, AuthError>)
    ensures
        exists|now: Timestamp|
            #[trigger] clock::clock_read(now) && clock::on_calendar(now@) && match flow_at(
                stored,
                now@,
            ) {
                Ok(flow) => r == Ok::<LoginFlow, AuthError>(flow),
                Err(e) => r matches Err(error) && error@ == e,
            },
{
    let now: Timestamp = read_clock();
    take_login_flow_at(stored, &now)
}

/// A flow that was taken is gone: a replayed callback finds none, whenever it
/// comes. One that waited for up to a quarter of an hour is still good, and one
/// that waited for a second longer is not.
pub proof fn law_flows_expire(stamped: Stamped, now: int)
    ensures
        flow_at(None, now) == Err::<LoginFlow, AuthErrorView>(AuthErrorView::NoFlowInProgress),
        now - stamped.created_at@ <= LOGIN_FLOW_TTL_SECONDS * clock::NANOS_PER_SECOND ==> flow_at(
            Some(stamped),
            now,
        ) == Ok::<LoginFlow, AuthErrorView>(stamped.value),
        now - stamped.created_at@ >= (LOGIN_FLOW_TTL_SECONDS + 1) * clock::NANOS_PER_SECOND
            ==> flow_at(Some(stamped), now) == Err::<LoginFlow, AuthErrorView>(
            AuthErrorView::FlowExpired,
        ),
{
}

/// A user is shown under the name that the claims carry, whatever else they carry; under
/// the preferred user name only when they carry no name; under the address only when
/// they carry neither; and as unknown only when there is no address either.
pub proof fn law_names_come_in_order(claims: EntraIdTokenClaims, now: int, user: SessionUser)
    requires
        user_of(claims, now, user),
    ensures
        claims.name matches Some(name) ==> user.display_name@ == name@,
        claims.name is None && claims.preferred_username is Some ==> user.display_name@
            == claims.preferred_username->0@,
        claims.name is None && claims.preferred_username is None && claims.email is Some
            ==> user.display_name@ == claims.email->0@,
        claims.name is None && claims.preferred_username is None && claims.email is None
            && claims.additional.upn is Some ==> user.display_name@ == claims.additional.upn->0@,
        claims.name is None && claims.preferred_username is None && claims.email is None
            && claims.additional.upn is None ==> user.display_name@ == nb::UNKNOWN_USER@,
{
}

/// A user is who the claims say: known by the object ID where there is one and by the
/// subject otherwise, reached at the e-mail address where there is one and at the
/// principal name otherwise, with exactly the roles and groups that are claimed, from
/// the instant of the sign-in on.
pub proof fn law_users_are_who_the_claims_say(
    claims: EntraIdTokenClaims,
    now: int,
    user: SessionUser,
    role: Seq<char>,
)
    requires
        user_of(claims, now, user),
    ensures
        claims.additional.oid matches Some(oid) ==> user.oid@ == oid@,
        claims.additional.oid is None ==> user.oid@ == claims.subject@,
        claims.email matches Some(email) ==> user.email == Some(email),
        claims.email is None ==> user.email == claims.additional.upn,
        user.upn == claims.additional.upn,
        user.authenticated_at@ == now,
        user.holds(role) <==> {
            ||| exists|i: int|
                0 <= i < claims.additional.roles@.len() && #[trigger] claims.additional.roles@[i]@
                    == role
            ||| exists|i: int|
                0 <= i < claims.additional.groups@.len() && #[trigger] claims.additional.groups@[i]@
                    == role
        },
        forall|i: int|
            0 <= i < claims.additional.roles@.len() ==> user.holds(
                #[trigger] claims.additional.roles@[i]@,
            ),
        forall|i: int|
            0 <= i < claims.additional.groups@.len() ==> user.holds(
                #[trigger] claims.additional.groups@[i]@,
            ),
{
    assert forall|i: int| 0 <= i < claims.additional.roles@.len() implies user.holds(
        #[trigger] claims.additional.roles@[i]@,
    ) by {
        assert(user.roles@[i]@ == claims.additional.roles@[i]@);
    }
    assert forall|i: int| 0 <= i < claims.additional.groups@.len() implies user.holds(
        #[trigger] claims.additional.groups@[i]@,
    ) by {
        assert(user.groups@[i]@ == claims.additional.groups@[i]@);
    }
}

/// A word that begins with a letter gives that letter and no other; the words after it
/// give theirs.
proof fn lemma_letters_of_word(word: Seq<char>, rest: Seq<char>, at_start: bool)
    requires
        forall|i: int| 0 <= i < word.len() ==> !unicode::white_space(#[trigger] word[i]),
        rest.len() > 0 ==> unicode::white_space(rest[0]),
        at_start ==> word.len() > 0,
    ensures
        first_letters(word + rest, at_start) == (if at_start && unicode::alphabetic(word[0]) {
            seq![word[0]]
        } else {
            Seq::empty()
        }) + first_letters(rest, false),
    decreases word.len(),
{
    if word.len() == 0 {
        assert(word + rest =~= rest);
        assert(Seq::<char>::empty() + first_letters(rest, false) =~= first_letters(rest, false));
    } else {
        let shorter = word.skip(1);
        assert forall|i: int| 0 <= i < shorter.len() implies !unicode::white_space(
            #[trigger] shorter[i],
        ) by {
            assert(shorter[i] == word[i + 1]);
        }
        assert(!unicode::white_space(word[0]));
        assert((word + rest)[0] == word[0]);
        assert((word + rest).skip(1) =~= shorter + rest);
        lemma_letters_of_word(shorter, rest, false);
        assert(first_letters(shorter + rest, false) =~= first_letters(rest, false));
        if !(at_start && unicode::alphabetic(word[0])) {
            assert(Seq::<char>::empty() + first_letters(rest, false) =~= first_letters(
                rest,
                false,
            ));
        }
    }
}

/// The initials of a name of two words are the letters that the words begin with, those
/// of a single word are its first letter, and a word that begins with anything but a
/// letter gives none.
pub proof fn law_initials_begin_the_words(first: Seq<char>, space: char, second: Seq<char>)
    requires
        first.len() > 0,
        second.len() > 0,
        unicode::white_space(space),
        forall|i: int| 0 <= i < first.len() ==> !unicode::white_space(#[trigger] first[i]),
        forall|i: int| 0 <= i < second.len() ==> !unicode::white_space(#[trigger] second[i]),
    ensures
        unicode::alphabetic(first[0]) && unicode::alphabetic(second[0]) ==> initial_letters(
            first + seq![space] + second,
        ) == seq![first[0], second[0]],
        unicode::alphabetic(first[0]) ==> initial_letters(first) == seq![first[0]],
        !unicode::alphabetic(first[0]) ==> initial_letters(first) == Seq::<char>::empty(),
        !unicode::alphabetic(first[0]) && unicode::alphabetic(second[0]) ==> initial_letters(
            first + seq![space] + second,
        ) == seq![second[0]],
{
    let rest = seq![space] + second;
    let none = Seq::<char>::empty();
    assert(first + seq![space] + second =~= first + rest);
    lemma_letters_of_word(first, rest, true);
    assert(rest.skip(1) =~= second);
    assert(first_letters(rest, false) == first_letters(second, true));
    assert(second + none =~= second);
    lemma_letters_of_word(second, none, true);
    assert(first + none =~= first);
    lemma_letters_of_word(first, none, true);
    let both = first_letters(first + seq![space] + second, true);
    if unicode::alphabetic(second[0]) {
        assert(first_letters(second, true) =~= seq![second[0]]);
        if unicode::alphabetic(first[0]) {
            assert(both =~= seq![first[0], second[0]]);
        } else {
            assert(both =~= seq![second[0]]);
        }
    }
    if unicode::alphabetic(first[0]) {
        assert(first_letters(first, true) =~= seq![first[0]]);
    } else {
        assert(first_letters(first, true) =~= none);
    }
}

/// Initials are the upper-case form of their letters, cut to two characters; a name
/// without letters has a question mark.
pub proof fn law_initials_show_their_letters(letters: Seq<char>, upper: Seq<char>)
    ensures
        letters.len() == 0 ==> initials_given(letters, upper) == "?"@,
        letters.len() > 0 ==> initials_given(letters, upper).is_prefix_of(upper),
        letters.len() > 0 && upper.len() <= 2 ==> initials_given(letters, upper) == upper,
        letters.len() > 0 && upper.len() > 2 ==> initials_given(letters, upper).len() == 2,
{
}

/// A login flow is good for as long as it is less than 901 seconds old, and not a moment
/// longer.
pub proof fn law_flows_are_good_for_a_quarter_of_an_hour(stamped: Stamped, now: int)
    ensures
        now - stamped.created_at@ < 901_000_000_000 <==> flow_at(Some(stamped), now) == Ok::<
            LoginFlow,
            AuthErrorView,
        >(stamped.value),
        now - stamped.created_at@ >= 901_000_000_000 <==> flow_at(Some(stamped), now) == Err::<
            LoginFlow,
            AuthErrorView,
        >(AuthErrorView::FlowExpired),
{
}

/// Claims become a user exactly when they say who it is: by the object ID, or by the
/// subject when they carry none. The user is shown under the name first, then the
/// preferred user name, then the address, and has signed in at the instant that was given.
pub proof fn law_claims_become_the_user(
    claims: EntraIdTokenClaims,
    now: Timestamp,
    r: Result<SessionUser, AuthError>,
)
    requires
        call_ensures(SessionUser::from_claims_at, (&claims, now), r),
    ensures
        claims.additional.oid matches Some(oid) ==> (r is Ok <==> oid@.len() > 0),
        claims.additional.oid is None ==> (r is Ok <==> claims.subject@.len() > 0),
        r matches Err(error) ==> error is MissingIdentity,
        r matches Ok(user) ==> {
            &&& claims.name matches Some(name) ==> user.display_name@ == name@
            &&& claims.name is None && claims.preferred_username is Some ==> user.display_name@
                == claims.preferred_username->0@
            &&& claims.name is None && claims.preferred_username is None && claims.email is Some
                ==> user.display_name@ == claims.email->0@
            &&& claims.name is None && claims.preferred_username is None && claims.email is None
                && claims.additional.upn is Some ==> user.display_name@
                == claims.additional.upn->0@
            &&& claims.additional.oid matches Some(oid) ==> user.oid@ == oid@
            &&& claims.additional.oid is None ==> user.oid@ == claims.subject@
            &&& claims.email matches Some(email) ==> user.email == Some(email)
            &&& claims.email is None ==> user.email == claims.additional.upn
            &&& user.upn == claims.additional.upn
            &&& user.roles@ == claims.additional.roles@
            &&& user.groups@ == claims.additional.groups@
            &&& user.authenticated_at == now
        },
{
}

/// Signing in with claims is the same, at an instant that the clock gave.
pub proof fn law_users_sign_in_now(claims: EntraIdTokenClaims, r: Result<SessionUser, AuthError>)
    requires
        call_ensures(SessionUser::from_claims, (&claims,), r),
    ensures
        claims.additional.oid matches Some(oid) ==> (r is Ok <==> oid@.len() > 0),
        claims.additional.oid is None ==> (r is Ok <==> claims.subject@.len() > 0),
        r matches Ok(user) ==> {
            &&& clock::clock_read(user.authenticated_at)
            &&& user_of(claims, user.authenticated_at@, user)
        },
{
}

/// A user holds a role exactly when it is among their roles or their groups.
pub proof fn law_roles_are_looked_up(user: SessionUser, role: &str, r: bool)
    requires
        call_ensures(SessionUser::has_role, (&user, role), r),
    ensures
        r <==> (exists|i: int| 0 <= i < user.roles@.len() && #[trigger] user.roles@[i]@ == role@)
            || (exists|i: int|
            0 <= i < user.groups@.len() && #[trigger] user.groups@[i]@ == role@),
{
}

/// A flow that is put in the session is stamped with an instant that the clock gave, and
/// comes out again, unchanged, for a quarter of an hour.
pub proof fn law_flows_come_out_as_they_went_in(
    flow: LoginFlow,
    stamped: Stamped,
    now: Timestamp,
    r: Result<LoginFlow, AuthError>,
)
    requires
        call_ensures(put_login_flow, (flow,), stamped),
        call_ensures(take_login_flow_at, (Some(stamped), &now), r),
    ensures
        clock::clock_read(stamped.created_at),
        now@ - stamped.created_at@ < 901_000_000_000 ==> r == Ok::<LoginFlow, AuthError>(flow),
        now@ - stamped.created_at@ >= 901_000_000_000 ==> (r matches Err(error)
            && error is FlowExpired),
{
    law_flows_are_good_for_a_quarter_of_an_hour(stamped, now@);
}

/// The flow that a callback gets out of the session is the one that was put there, unless
/// it is too old at an instant that the clock gave; a session without one has none to give.
pub proof fn law_flows_are_taken_now(stored: Option<Stamped>, r: Result<LoginFlow, AuthError>)
    requires
        call_ensures(take_login_flow, (stored,), r),
    ensures
        stored is None ==> (r matches Err(error) && error is NoFlowInProgress),
        stored matches Some(stamped) ==> exists|now: Timestamp|
            {
                &&& #[trigger] clock::clock_read(now)
                &&& now@ - stamped.created_at@ < 901_000_000_000 ==> r == Ok::<
                    LoginFlow,
                    AuthError,
                >(stamped.value)
                &&& now@ - stamped.created_at@ >= 901_000_000_000 ==> (r matches Err(error)
                    && error is FlowExpired)
            },
{
    if let Some(stamped) = stored {
        let now = choose|now: Timestamp|
            #[trigger] clock::clock_read(now) && clock::on_calendar(now@) && match flow_at(
                stored,
                now@,
            ) {
                Ok(flow) => r == Ok::<LoginFlow, AuthError>(flow),
                Err(e) => r matches Err(error) && error@ == e,
            };
        assert(clock::clock_read(now));
        law_flows_are_good_for_a_quarter_of_an_hour(stamped, now@);
    }
}

/// The initials of a user are the beginning of the upper-case form of the letters that the
/// first two words of their name begin with, or a question mark.
pub proof fn law_initials_are_of_the_name(user: SessionUser, r: String)
    requires
        call_ensures(SessionUser::initials, (&user,), r),
    ensures
        ({
            let letters = initial_letters(user.display_name@);
            &&& letters.len() == 0 ==> r@ == "?"@
            &&& letters.len() > 0 ==> r@.is_prefix_of(unicode::uppercase(letters)) && 1 <= r@.len()
                <= 2
        }),
{
    let letters = initial_letters(user.display_name@);
    law_initials_show_their_letters(letters, unicode::uppercase(letters));
}

/// However many words a name has, its initials are of the first two that it begins with,
/// where both begin with a letter.
pub proof fn law_initials_are_of_two_words(
    first: Seq<char>,
    space: char,
    second: Seq<char>,
    rest: Seq<char>,
)
    requires
        first.len() > 0,
        second.len() > 0,
        unicode::white_space(space),
        rest.len() > 0 ==> unicode::white_space(rest[0]),
        forall|i: int| 0 <= i < first.len() ==> !unicode::white_space(#[trigger] first[i]),
        forall|i: int| 0 <= i < second.len() ==> !unicode::white_space(#[trigger] second[i]),
        unicode::alphabetic(first[0]),
        unicode::alphabetic(second[0]),
    ensures
        initial_letters(first + seq![space] + second + rest) == seq![first[0], second[0]],
{
    let tail = seq![space] + (second + rest);
    let name = first + seq![space] + second + rest;
    assert(name =~= first + tail);
    lemma_letters_of_word(first, tail, true);
    assert(tail.skip(1) =~= second + rest);
    assert(first_letters(tail, false) == first_letters(second + rest, true));
    lemma_letters_of_word(second, rest, true);
    assert(chars::leading(first_letters(name, true), 2) =~= seq![first[0], second[0]]);
}

} // verus!
