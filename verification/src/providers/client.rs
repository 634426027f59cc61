//! Shared HTTP behaviour: retries and error mapping.
//!
//! Every provider call goes through [`send_with_retry`], so the retry policy, the
//! `Retry-After` handling and the mapping from status code to [`ProviderError`]
//! exist once rather than three times.
use vstd::prelude::*;
use vstd::string::*;

use crate::http;
use crate::http::{make_client, print_status};
use crate::providers::error::{ProviderError, ProviderErrorView};
use crate::text::chars;
use crate::text::chars::{concat_text, contains_text};
use crate::text::number;
use crate::text::number::parse_u64;
use crate::text::truncate;
use crate::text::truncate::truncate_bytes;
use crate::text::unicode;
use crate::text::unicode::{to_lowercase, trim_text};

verus! {

/// How long a single HTTP call may take, in seconds.
///
/// Image generation regularly takes tens of seconds, so this is generous. The
/// job itself is asynchronous, so nothing user-facing is blocked by it.
pub const REQUEST_TIMEOUT_SECONDS: u64 = 180;

/// How many times a call is made before its failure is final.
pub const MAX_ATTEMPTS: u32 = 4;

/// Delay before the first retry, in milliseconds. Doubles each attempt.
pub const BASE_BACKOFF_MILLIS: u64 = 500;

/// Ceiling on a single backoff, before jitter, in milliseconds.
pub const MAX_BACKOFF_MILLIS: u64 = 20_000;

/// Longest `Retry-After` that is honoured by waiting, in seconds.
///
/// Beyond this the job is failed instead: telling the user to come back in a
/// minute is better than holding a worker for ten.
pub const MAX_RETRY_AFTER_SECONDS: u64 = 60;

/// The longest body that is kept whole in an error, in bytes.
pub const SUMMARY_BYTES: usize = 400;

/// What becomes of the attempt to build a client.
pub open spec fn client_outcome(built: Result<reqwest::Client, String>) -> Result<
    reqwest::Client,
    ProviderErrorView,
> {
    match built {
        Ok(client) => Ok(client),
        Err(detail) => Err(
            ProviderErrorView::Internal("could not build an HTTP client: "@ + detail@),
        ),
    }
}

/// Turns a failure to build the client into a provider error.
pub fn accept_client(built: Result<reqwest::Client, String>) -> (r: Result<
    reqwest::Client,
    ProviderError,
>)
    ensures
        match client_outcome(built) {
            Ok(client) => r == Ok::<reqwest::Client, ProviderError>(client),
            Err(e) => r matches Err(error) && error@ == e,
        },
{
    match built {
        Ok(client) => Ok(client),
        Err(detail) => Err(
            ProviderError::Internal(concat_text("could not build an HTTP client: ", detail.as_str())),
        ),
    }
}

/// Builds the shared HTTP client. It follows no redirects: following one from a
/// data-plane call would let an answer choose where the next call goes.
///
/// # Errors
///
/// Returns an error when the client cannot be constructed.
pub fn build_http_client() -> (r: Result<reqwest::Client, ProviderError>)
    ensures
        exists|built: Result<reqwest::Client, String>|
            #[trigger] http::client_made(REQUEST_TIMEOUT_SECONDS, built) && match client_outcome(
                built,
            ) {
                Ok(client) => r == Ok::<reqwest::Client, ProviderError>(client),
                Err(e) => r matches Err(error) && error@ == e,
            },
        r matches Ok(client) ==> http::call_seconds(client) == REQUEST_TIMEOUT_SECONDS
            && http::redirects_followed(client) == 0,
{
    let built = make_client(REQUEST_TIMEOUT_SECONDS);
    accept_client(built)
}

/// `rand::rng` and `random_range` over `0..=max`: chance decides, within the
/// range.
#[verifier::external_body]
fn random_up_to(max: u64) -> (r: u64)
    ensures
        r <= max,
{
    rand::RngExt::random_range(&mut rand::rng(), 0..=max)
}

/// Chance gave this number when it was asked for one of at most `max`.
pub closed spec fn drawn(max: u64, number: u64) -> bool {
    call_ensures(random_up_to, (max,), number)
}

/// What one call of `source` gave.
fn draw_from<F: Fn(u64) -> u64>(source: F, max: u64) -> (r: u64)
    requires
        call_requires(source, (max,)),
    ensures
        call_ensures(source, (max,), r),
{
    source(max)
}

/// Draws a number of at most `max`.
fn draw(max: u64) -> (r: u64)
    ensures
        drawn(max, r),
        r <= max,
{
    draw_from(random_up_to, max)
}

/// The longest delay before retry `attempt`, in milliseconds: the base delay
/// doubled for every attempt made, but at most the ceiling.
pub open spec fn backoff_ceiling(attempt: nat) -> nat {
    let grown = BASE_BACKOFF_MILLIS as nat * vstd::arithmetic::power2::pow2((attempt - 1) as nat);
    if grown <= MAX_BACKOFF_MILLIS {
        grown
    } else {
        MAX_BACKOFF_MILLIS as nat
    }
}

/// Doubling past the ceiling makes no difference.
proof fn lemma_ceiling_is_kept(attempt: nat, later: nat)
    requires
        1 <= attempt <= later,
        backoff_ceiling(attempt) == MAX_BACKOFF_MILLIS,
    ensures
        backoff_ceiling(later) == MAX_BACKOFF_MILLIS,
    decreases later - attempt,
{
    if attempt < later {
        vstd::arithmetic::power2::lemma_pow2_unfold(attempt);
        lemma_ceiling_is_kept(attempt + 1, later);
    }
}

/// The longest delay before retry `attempt`, in milliseconds.
pub fn longest_backoff(attempt: u32) -> (r: u64)
    requires
        attempt >= 1,
    ensures
        r == backoff_ceiling(attempt as nat),
{
    let mut millis: u64 = BASE_BACKOFF_MILLIS;
    let mut made: u32 = 1;
    proof {
        vstd::arithmetic::power2::lemma2_to64();
    }
    while made < attempt && millis < MAX_BACKOFF_MILLIS
        invariant
            1 <= made <= attempt,
            millis == backoff_ceiling(made as nat),
        decreases attempt - made,
    {
        proof {
            vstd::arithmetic::power2::lemma_pow2_unfold(made as nat);
        }
        millis = millis * 2;
        if millis > MAX_BACKOFF_MILLIS {
            millis = MAX_BACKOFF_MILLIS;
        }
        made = made + 1;
    }
    proof {
        if made < attempt {
            lemma_ceiling_is_kept(made as nat, attempt as nat);
        }
    }
    millis
}

/// Returns the delay before retry `attempt` in milliseconds, with jitter.
///
/// Full jitter: the delay is uniform up to the ceiling rather than exactly the
/// ceiling. Without it, several workers rate-limited at the same moment would
/// retry in lockstep and rate-limit each other again.
pub fn backoff(attempt: u32) -> (r: u64)
    requires
        attempt >= 1,
    ensures
        r <= backoff_ceiling(attempt as nat),
        drawn(backoff_ceiling(attempt as nat) as u64, r),
{
    draw(longest_backoff(attempt))
}

/// The backoff never shrinks from one attempt to the next, and never passes the
/// ceiling.
pub proof fn law_backoff_grows_to_the_ceiling(attempt: nat)
    requires
        attempt >= 1,
    ensures
        backoff_ceiling(attempt) <= backoff_ceiling(attempt + 1) <= MAX_BACKOFF_MILLIS,
{
    vstd::arithmetic::power2::lemma_pow2_unfold(attempt);
}

/// How many seconds a `Retry-After` header asks to wait.
pub open spec fn retry_after_seconds(header: Option<Seq<char>>) -> Option<int> {
    match header {
        Some(value) => number::within(
            number::unsigned_reading(unicode::trimmed(value)),
            0,
            u64::MAX as int,
        ),
        None => None,
    }
}

/// Reads `Retry-After`, which Azure sends as whole seconds.
///
/// A date is ignored rather than mis-parsed.
pub fn retry_after(header: Option<&str>) -> (r: Option<u64>)
    ensures
        match (r, header) {
            (Some(n), Some(value)) => retry_after_seconds(Some(value@)) == Some(n as int),
            (None, Some(value)) => retry_after_seconds(Some(value@)) is None,
            (_, None) => r is None,
        },
{
    match header {
        Some(value) => parse_u64(trim_text(value)),
        None => None,
    }
}

/// A text in lower case names a content-filter rejection.
pub open spec fn names_content_filter(lowered: Seq<char>) -> bool {
    ||| chars::has_text(lowered, "content_filter"@)
    ||| chars::has_text(lowered, "responsibleaipolicyviolation"@)
    ||| chars::has_text(lowered, "content_policy_violation"@)
}

/// Whether a text in lower case names a content-filter rejection.
pub fn mentions_content_filter(lowered: &str) -> (r: bool)
    ensures
        r == names_content_filter(lowered@),
{
    contains_text(lowered, "content_filter") || contains_text(
        lowered,
        "responsibleaipolicyviolation",
    ) || contains_text(lowered, "content_policy_violation")
}

/// Returns `true` when the body looks like a content-filter rejection.
pub fn looks_like_content_filter(body: &str) -> (r: bool)
    ensures
        r == names_content_filter(unicode::lowercase(body@)),
{
    let lowered: String = to_lowercase(body);
    mentions_content_filter(lowered.as_str())
}

/// A body shortened for the log: trimmed, and cut to the bytes that are kept
/// with an ellipsis behind them when it is longer.
pub open spec fn summary(body: Seq<char>) -> Seq<char> {
    if vstd::utf8::encode_utf8(body).len() <= SUMMARY_BYTES {
        unicode::trimmed(body)
    } else {
        unicode::trimmed(truncate::fitting(body, SUMMARY_BYTES as int)) + "…"@
    }
}

/// Shortens a response body for logging.
///
/// Bounded so a large error page cannot flood the log, and cut on a character
/// boundary so the result stays valid UTF-8.
pub fn summarise(body: &str) -> (r: String)
    ensures
        r@ == summary(body@),
{
    if body.as_bytes().len() <= SUMMARY_BYTES {
        return trim_text(body).to_owned();
    }
    let mut out = trim_text(truncate_bytes(body, SUMMARY_BYTES)).to_owned();
    out.append("…");
    out
}

/// Trimming a text never makes it longer.
proof fn lemma_trimming_shortens(s: Seq<char>)
    ensures
        vstd::utf8::encode_utf8(unicode::trimmed(s)).len() <= vstd::utf8::encode_utf8(s).len(),
{
    let (start, end) = unicode::lemma_trimmed_is_subrange(s);
    let before = s.take(start);
    let after = s.skip(end);
    assert(s =~= before + (unicode::trimmed(s) + after));
    truncate::lemma_encode_concat(before, unicode::trimmed(s) + after);
    truncate::lemma_encode_concat(unicode::trimmed(s), after);
}

/// However long the body, its summary takes at most the bytes that are kept and
/// an ellipsis.
pub proof fn law_summaries_are_bounded(body: Seq<char>)
    ensures
        vstd::utf8::encode_utf8(summary(body)).len() <= SUMMARY_BYTES + 3,
{
    lemma_trimming_shortens(body);
    truncate::law_fitting_is_the_longest_prefix(body, SUMMARY_BYTES as nat);
    let kept = truncate::fitting(body, SUMMARY_BYTES as int);
    lemma_trimming_shortens(kept);
    truncate::lemma_encode_concat(unicode::trimmed(kept), "…"@);
    reveal_strlit("…");
    assert("…"@ =~= seq!['…']);
    reveal_with_fuel(vstd::utf8::encode_utf8, 2);
}

/// The error for a status and a body, given whether the body names a
/// content-filter rejection and how the status prints.
pub open spec fn error_of_status(
    status: u16,
    body: Seq<char>,
    filtered: bool,
    printed: Seq<char>,
) -> ProviderErrorView {
    if filtered {
        ProviderErrorView::ContentFilter
    } else if status == 400 {
        ProviderErrorView::Validation(summary(body))
    } else if status == 401 || status == 403 {
        ProviderErrorView::Unauthorized
    } else if status == 404 {
        ProviderErrorView::DeploymentNotFound(summary(body))
    } else if status == 429 {
        ProviderErrorView::RateLimited
    } else if 500 <= status <= 599 {
        ProviderErrorView::Upstream(summary(body))
    } else {
        ProviderErrorView::Upstream("unexpected status "@ + printed + ": "@ + summary(body))
    }
}

/// The error for a status and a body.
pub open spec fn status_error(status: u16, body: Seq<char>) -> ProviderErrorView {
    error_of_status(
        status,
        body,
        names_content_filter(unicode::lowercase(body)),
        http::status_line(status),
    )
}

/// Maps a status and a body to a provider error, given whether the body names a
/// content-filter rejection and how the status prints.
pub fn map_status_as(status: u16, body: &str, filtered: bool, printed: &str) -> (r: ProviderError)
    ensures
        r@ == error_of_status(status, body@, filtered, printed@),
{
    if filtered {
        ProviderError::ContentFilter
    } else if status == 400 {
        ProviderError::Validation(summarise(body))
    } else if status == 401 || status == 403 {
        ProviderError::Unauthorized
    } else if status == 404 {
        ProviderError::DeploymentNotFound(summarise(body))
    } else if status == 429 {
        ProviderError::RateLimited
    } else if 500 <= status && status <= 599 {
        ProviderError::Upstream(summarise(body))
    } else {
        let mut detail = "unexpected status ".to_owned();
        detail.append(printed);
        detail.append(": ");
        detail.append(summarise(body).as_str());
        ProviderError::Upstream(detail)
    }
}

/// Maps an HTTP status and body to a provider error.
///
/// A content filter rejection arrives as a 400, so the body has to be read to
/// tell it apart from an ordinary bad request.
pub fn map_status(status: u16, body: &str) -> (r: ProviderError)
    requires
        100 <= status <= 999,
    ensures
        r@ == status_error(status, body@),
{
    let filtered: bool = looks_like_content_filter(body);
    let printed: String = print_status(status);
    map_status_as(status, body, filtered, printed.as_str())
}

/// A body that names a content-filter rejection is reported as one whatever the
/// status, and no other body is.
pub proof fn law_content_filter_wins(status: u16, body: Seq<char>)
    ensures
        status_error(status, body) == ProviderErrorView::ContentFilter <==> names_content_filter(
            unicode::lowercase(body),
        ),
{
}

/// What came of one attempt at a call.
#[derive(Debug)]
pub enum Reply {
    /// An answer whose status says success.
    Success,
    /// An answer with any other status.
    Refused {
        /// The status.
        status: u16,
        /// The `Retry-After` header, when it is readable text.
        retry_after: Option<String>,
        /// The body, empty when it could not be read.
        body: String,
    },
    /// No answer within the time allowed, in words.
    TimedOut(String),
    /// No answer for another reason, in words.
    Unreachable(String),
}

/// A reply with its texts as sequences of characters.
pub enum ReplyView {
    /// Success.
    Success,
    /// Any other status.
    Refused {
        /// The status.
        status: u16,
        /// The `Retry-After` header.
        retry_after: Option<Seq<char>>,
        /// The body.
        body: Seq<char>,
    },
    /// Timed out.
    TimedOut(Seq<char>),
    /// Not reached.
    Unreachable(Seq<char>),
}

impl View for Reply {
    type V = ReplyView;

    open spec fn view(&self) -> ReplyView {
        match *self {
            Reply::Success => ReplyView::Success,
            Reply::Refused { status, retry_after, body } => ReplyView::Refused {
                status,
                retry_after: match retry_after {
                    Some(value) => Some(value@),
                    None => None,
                },
                body: body@,
            },
            Reply::TimedOut(detail) => ReplyView::TimedOut(detail@),
            Reply::Unreachable(detail) => ReplyView::Unreachable(detail@),
        }
    }
}

impl ReplyView {
    /// A status is one that HTTP can carry.
    pub open spec fn valid(self) -> bool {
        self matches ReplyView::Refused { status, .. } ==> 100 <= status <= 999
    }

    /// The error that the reply amounts to, unless it is a success.
    pub open spec fn failure(self) -> Option<ProviderErrorView> {
        match self {
            ReplyView::Success => None,
            ReplyView::Refused { status, body, .. } => Some(status_error(status, body)),
            ReplyView::TimedOut(detail) => Some(ProviderErrorView::Upstream(detail)),
            ReplyView::Unreachable(detail) => Some(ProviderErrorView::Upstream(detail)),
        }
    }

    /// How many seconds the service asks to wait.
    pub open spec fn asked_seconds(self) -> Option<int> {
        match self {
            ReplyView::Refused { retry_after, .. } => retry_after_seconds(retry_after),
            _ => None,
        }
    }
}

/// What to do after an attempt.
#[derive(Debug)]
pub enum Step {
    /// Hand out the answer.
    Deliver,
    /// Wait that many milliseconds, then try again.
    Wait(u64),
    /// Give up.
    Fail(ProviderError),
}

/// A step with its error as a view.
pub enum StepView {
    /// Hand out the answer.
    Deliver,
    /// Wait, then try again.
    Wait(u64),
    /// Give up.
    Fail(ProviderErrorView),
}

impl View for Step {
    type V = StepView;

    open spec fn view(&self) -> StepView {
        match *self {
            Step::Deliver => StepView::Deliver,
            Step::Wait(millis) => StepView::Wait(millis),
            Step::Fail(error) => StepView::Fail(error@),
        }
    }
}

/// The step after a refusal or a transport failure on attempt `attempt`, when
/// `error` is what it amounts to, `asked` what the service asks to wait and
/// `jitter` the backoff.
///
/// A rate limit or an upstream failure is tried again while attempts are left,
/// after the delay that the service asks for, or else after the backoff. A delay
/// that is longer than a worker should be held fails the call instead.
pub open spec fn step_on_failure(
    attempt: nat,
    error: ProviderErrorView,
    asked: Option<int>,
    jitter: u64,
) -> StepView {
    if error.retryable() && attempt < MAX_ATTEMPTS {
        match asked {
            Some(seconds) => if seconds > MAX_RETRY_AFTER_SECONDS {
                StepView::Fail(error)
            } else {
                StepView::Wait((seconds * 1000) as u64)
            },
            None => StepView::Wait(jitter),
        }
    } else {
        StepView::Fail(error)
    }
}

/// The step after `reply` on attempt `attempt`, when the backoff is `jitter`.
pub open spec fn step_after(attempt: nat, reply: ReplyView, jitter: u64) -> StepView {
    match reply.failure() {
        None => StepView::Deliver,
        Some(error) => step_on_failure(attempt, error, reply.asked_seconds(), jitter),
    }
}

/// The step after a failure that amounts to `error`.
pub fn after_failure(attempt: u32, error: ProviderError, asked: Option<u64>, jitter: u64) -> (r:
    Step)
    ensures
        r@ == step_on_failure(
            attempt as nat,
            error@,
            match asked {
                Some(seconds) => Some(seconds as int),
                None => None,
            },
            jitter,
        ),
{
    if error.is_retryable() && attempt < MAX_ATTEMPTS {
        match asked {
            Some(seconds) => {
                if seconds > MAX_RETRY_AFTER_SECONDS {
                    Step::Fail(error)
                } else {
                    Step::Wait(seconds * 1000)
                }
            },
            None => Step::Wait(jitter),
        }
    } else {
        Step::Fail(error)
    }
}

/// The step after `reply`, when the backoff is `jitter`.
pub fn send_step(attempt: u32, reply: &Reply, jitter: u64) -> (r: Step)
    requires
        reply@.valid(),
    ensures
        r@ == step_after(attempt as nat, reply@, jitter),
{
    match reply {
        Reply::Success => Step::Deliver,
        Reply::Refused { status, retry_after: header, body } => {
            let asked: Option<u64> = match header {
                Some(value) => retry_after(Some(value.as_str())),
                None => None,
            };
            after_failure(attempt, map_status(*status, body.as_str()), asked, jitter)
        },
        Reply::TimedOut(detail) | Reply::Unreachable(detail) => after_failure(
            attempt,
            ProviderError::Upstream(detail.clone()),
            None,
            jitter,
        ),
    }
}

/// How far a call with retries has got.
#[derive(Debug)]
pub struct Retry {
    attempt: u32,
}

impl View for Retry {
    type V = nat;

    /// Which attempt is under way, counted from 1.
    closed spec fn view(&self) -> nat {
        self.attempt as nat
    }
}

impl Retry {
    #[verifier::type_invariant]
    spec fn counted(self) -> bool {
        1 <= self.attempt <= MAX_ATTEMPTS
    }

    /// A call whose first attempt is about to be made.
    pub fn start() -> (r: Retry)
        ensures
            r@ == 1,
    {
        Retry { attempt: 1 }
    }

    /// Which attempt is under way, counted from 1.
    pub fn attempt(&self) -> (r: u32)
        ensures
            r == self@,
            1 <= r <= MAX_ATTEMPTS,
    {
        proof {
            use_type_invariant(self);
        }
        self.attempt
    }
}

/// Takes what came of the attempt under way and says what to do next. On a wait
/// the next attempt is under way; otherwise the call is over.
///
/// Only rate limits and upstream failures are tried again, and a call that got no
/// answer is one of the latter; a rejected prompt or a bad parameter fails
/// identically every time and retrying it wastes quota.
pub fn send_with_retry(retry: &mut Retry, reply: &Reply) -> (r: Step)
    requires
        reply@.valid(),
    ensures
        exists|jitter: u64|
            #[trigger] drawn(backoff_ceiling(old(retry)@) as u64, jitter) && jitter
                <= backoff_ceiling(old(retry)@) && r@ == step_after(old(retry)@, reply@, jitter),
        final(retry)@ == if r@ is Wait {
            old(retry)@ + 1
        } else {
            old(retry)@
        },
{
    proof {
        use_type_invariant(&*retry);
    }
    let attempt: u32 = retry.attempt;
    let jitter: u64 = backoff(attempt);
    let step: Step = send_step(attempt, reply, jitter);
    assert(drawn(backoff_ceiling(old(retry)@) as u64, jitter));
    assert(step@ == step_after(old(retry)@, reply@, jitter));
    if let Step::Wait(_) = step {
        retry.attempt = attempt + 1;
    }
    step
}

/// A call waits and tries again only while attempts are left, only after a rate
/// limit or an upstream failure, and never for longer than a minute.
pub proof fn law_retries_are_bounded(attempt: nat, reply: ReplyView, jitter: u64)
    requires
        attempt >= 1,
        jitter <= backoff_ceiling(attempt),
    ensures
        step_after(attempt, reply, jitter) matches StepView::Wait(millis) ==> {
            &&& attempt < MAX_ATTEMPTS
            &&& reply.failure() matches Some(error) && error.retryable()
            &&& millis <= MAX_RETRY_AFTER_SECONDS * 1000
        },
{
}

/// A call that got no answer, in time or at all, is an upstream failure: it is tried
/// again after the backoff while attempts are left, and reported as such after the
/// last one.
pub proof fn law_unanswered_calls_are_upstream_failures(
    attempt: nat,
    reply: ReplyView,
    detail: Seq<char>,
    jitter: u64,
)
    requires
        reply == ReplyView::TimedOut(detail) || reply == ReplyView::Unreachable(detail),
    ensures
        attempt < MAX_ATTEMPTS ==> step_after(attempt, reply, jitter) == StepView::Wait(jitter),
        attempt >= MAX_ATTEMPTS ==> step_after(attempt, reply, jitter) == StepView::Fail(
            ProviderErrorView::Upstream(detail),
        ),
{
}

/// What a whole call does on a run of replies: how often it waits, and for how
/// many milliseconds in all.
pub open spec fn waits(attempt: nat, replies: Seq<ReplyView>, jitters: Seq<u64>) -> (nat, nat)
    decreases replies.len(),
{
    if replies.len() == 0 || jitters.len() == 0 {
        (0, 0)
    } else {
        match step_after(attempt, replies[0], jitters[0]) {
            StepView::Wait(millis) => {
                let later = waits(attempt + 1, replies.skip(1), jitters.skip(1));
                (later.0 + 1, later.1 + millis as nat)
            },
            _ => (0, 0),
        }
    }
}

proof fn lemma_waits(attempt: nat, replies: Seq<ReplyView>, jitters: Seq<u64>)
    requires
        attempt >= 1,
        forall|i: int|
            0 <= i < jitters.len() ==> #[trigger] jitters[i] <= backoff_ceiling(attempt + i as nat),
    ensures
        attempt <= MAX_ATTEMPTS ==> waits(attempt, replies, jitters).0 <= MAX_ATTEMPTS - attempt,
        attempt > MAX_ATTEMPTS ==> waits(attempt, replies, jitters).0 == 0,
        waits(attempt, replies, jitters).1 <= waits(attempt, replies, jitters).0 * 60_000,
    decreases replies.len(),
{
    if replies.len() > 0 && jitters.len() > 0 {
        law_retries_are_bounded(attempt, replies[0], jitters[0]);
        let rest = jitters.skip(1);
        assert forall|i: int| 0 <= i < rest.len() implies #[trigger] rest[i] <= backoff_ceiling(
            attempt + 1 + i as nat,
        ) by {
            assert(rest[i] == jitters[i + 1]);
            assert(jitters[i + 1] <= backoff_ceiling(attempt + (i + 1) as nat));
        }
        lemma_waits(attempt + 1, replies.skip(1), rest);
    }
}

/// Whatever the service answers, a call is attempted at most four times and
/// spends at most three minutes waiting between the attempts.
pub proof fn law_calls_end(replies: Seq<ReplyView>, jitters: Seq<u64>)
    requires
        forall|i: int|
            0 <= i < jitters.len() ==> #[trigger] jitters[i] <= backoff_ceiling(1 + i as nat),
    ensures
        waits(1, replies, jitters).0 + 1 <= MAX_ATTEMPTS,
        waits(1, replies, jitters).1 <= 180_000,
{
    lemma_waits(1, replies, jitters);
}

/// While attempts are left, a refusal that amounts to a rate limit or a fault of the
/// service is tried again: after the delay that the service asks for when that is a
/// minute at most, and after the backoff when it asks for none that can be read. A
/// longer delay fails the call at once, and so does every refusal of the last attempt.
pub proof fn law_refusals_wait_as_asked(
    attempt: nat,
    status: u16,
    retry_after: Option<Seq<char>>,
    body: Seq<char>,
    jitter: u64,
)
    requires
        status_error(status, body) is RateLimited || status_error(status, body) is Upstream,
    ensures
        ({
            let step = step_after(
                attempt,
                ReplyView::Refused { status, retry_after, body },
                jitter,
            );
            &&& attempt < 4 ==> match retry_after_seconds(retry_after) {
                Some(seconds) => if seconds <= 60 {
                    step matches StepView::Wait(millis) && millis == seconds * 1000
                } else {
                    step == StepView::Fail(status_error(status, body))
                },
                None => step == StepView::Wait(jitter),
            }
            &&& attempt >= 4 ==> step == StepView::Fail(status_error(status, body))
        }),
{
}

/// Any other refusal fails the call at once, on every attempt and whatever delay is
/// asked for, and a success is handed out on every attempt.
pub proof fn law_other_refusals_fail_at_once(
    attempt: nat,
    status: u16,
    retry_after: Option<Seq<char>>,
    body: Seq<char>,
    jitter: u64,
)
    ensures
        !(status_error(status, body) is RateLimited) && !(status_error(status, body) is Upstream)
            ==> step_after(attempt, ReplyView::Refused { status, retry_after, body }, jitter)
            == StepView::Fail(status_error(status, body)),
        step_after(attempt, ReplyView::Success, jitter) == StepView::Deliver,
{
}

/// A `Retry-After` of whole seconds is read as that many, with or without white space
/// around it; a missing one asks for nothing, and neither does one that holds anything
/// but digits, such as a date.
pub proof fn law_retry_after_is_whole_seconds(
    before: Seq<char>,
    seconds: u64,
    after: Seq<char>,
    header: Seq<char>,
    i: int,
)
    requires
        unicode::blank(before),
        unicode::blank(after),
    ensures
        retry_after_seconds(Some(before + number::decimal(seconds as nat) + after)) == Some(
            seconds as int,
        ),
        retry_after_seconds(None) is None,
        0 < i < unicode::trimmed(header).len() && !number::is_digit(unicode::trimmed(header)[i])
            ==> retry_after_seconds(Some(header)) is None,
{
    let d = number::decimal(seconds as nat);
    number::law_decimal_reads_back(seconds as nat);
    assert(number::is_digit(d[0]) && number::is_digit(d[d.len() - 1]));
    unicode::law_trimming_takes_white_space_only(before, d, after);
    let t = unicode::trimmed(header);
    if 0 < i < t.len() && !number::is_digit(t[i]) {
        if t[0] == '+' {
            assert(t.skip(1)[i - 1] == t[i]);
        }
    }
}

/// What a status means, whatever the body, as long as that does not name a
/// content-filter rejection: a bad request is the caller's to mend, a refused
/// credential and a missing deployment are the operator's, a 429 is a rate limit, and
/// everything else is a fault of the service. The detail is the summary of the body.
pub proof fn law_statuses_become_errors(status: u16, body: Seq<char>, printed: Seq<char>)
    ensures
        error_of_status(status, body, true, printed) == ProviderErrorView::ContentFilter,
        ({
            let error = error_of_status(status, body, false, printed);
            &&& status == 400 <==> error == ProviderErrorView::Validation(summary(body))
            &&& status == 401 || status == 403 <==> error == ProviderErrorView::Unauthorized
            &&& status == 404 <==> error == ProviderErrorView::DeploymentNotFound(summary(body))
            &&& status == 429 <==> error == ProviderErrorView::RateLimited
            &&& 500 <= status <= 599 ==> error == ProviderErrorView::Upstream(summary(body))
            &&& status != 400 && status != 401 && status != 403 && status != 404 && status != 429
                && !(500 <= status <= 599) ==> error == ProviderErrorView::Upstream(
                "unexpected status "@ + printed + ": "@ + summary(body),
            )
        }),
        status_error(status, body) == error_of_status(
            status,
            body,
            names_content_filter(unicode::lowercase(body)),
            http::status_line(status),
        ),
{
}

/// A body names a content-filter rejection when one of the three words that the service
/// has for it stands anywhere in it, and only then.
pub proof fn law_content_filter_is_named_by_three_words(
    before: Seq<char>,
    after: Seq<char>,
    lowered: Seq<char>,
)
    ensures
        names_content_filter(before + "content_filter"@ + after),
        names_content_filter(before + "responsibleaipolicyviolation"@ + after),
        names_content_filter(before + "content_policy_violation"@ + after),
        names_content_filter(lowered) ==> chars::has_text(lowered, "content_filter"@)
            || chars::has_text(lowered, "responsibleaipolicyviolation"@) || chars::has_text(
            lowered,
            "content_policy_violation"@,
        ),
{
    chars::law_a_part_is_found(before, "content_filter"@, after);
    chars::law_a_part_is_found(before, "responsibleaipolicyviolation"@, after);
    chars::law_a_part_is_found(before, "content_policy_violation"@, after);
}

/// A body of at most 400 bytes is summarised as itself, without the white space around
/// it. Of a longer one the summary is the longest beginning that fits into 400 bytes,
/// trimmed, with an ellipsis behind it.
pub proof fn law_summaries_keep_the_beginning(
    before: Seq<char>,
    kept: Seq<char>,
    after: Seq<char>,
    body: Seq<char>,
)
    requires
        unicode::blank(before),
        unicode::blank(after),
        kept.len() > 0 ==> !unicode::white_space(kept[0]) && !unicode::white_space(kept.last()),
    ensures
        vstd::utf8::encode_utf8(before + kept + after).len() <= 400 ==> summary(
            before + kept + after,
        ) == kept,
        vstd::utf8::encode_utf8(body).len() > 400 ==> summary(body) == unicode::trimmed(
            truncate::fitting(body, 400),
        ) + "…"@,
{
    unicode::law_trimming_takes_white_space_only(before, kept, after);
}

/// The backoff starts at half a second and doubles from one attempt to the next, up to
/// twenty seconds.
pub proof fn law_backoff_doubles(attempt: nat)
    requires
        attempt >= 1,
    ensures
        backoff_ceiling(1) == 500,
        backoff_ceiling(attempt + 1) == if 2 * backoff_ceiling(attempt) <= 20_000 {
            2 * backoff_ceiling(attempt)
        } else {
            20_000
        },
{
    vstd::arithmetic::power2::lemma2_to64();
    vstd::arithmetic::power2::lemma_pow2_unfold(attempt);
}

/// The step after a failure, whatever it is: a rate limit or a fault of the service on one
/// of the first three attempts waits for as many seconds as were asked for, a minute at
/// most, or for the backoff when nothing was asked for. Everything else fails with the
/// error itself.
pub proof fn law_steps_after_a_failure(
    attempt: u32,
    error: ProviderError,
    asked: Option<u64>,
    jitter: u64,
    r: Step,
)
    requires
        call_ensures(after_failure, (attempt, error, asked, jitter), r),
    ensures
        ({
            let tried_again = (error is RateLimited || error is Upstream) && attempt < 4;
            &&& tried_again && asked is None ==> r@ == StepView::Wait(jitter)
            &&& tried_again && asked is Some && asked->0 <= 60 ==> r@ == StepView::Wait(
                (asked->0 * 1000) as u64,
            )
            &&& tried_again && asked is Some && asked->0 > 60 ==> r@ == StepView::Fail(error@)
            &&& !tried_again ==> r@ == StepView::Fail(error@)
        }),
{
}

/// The step after a reply: a success is handed out; a refusal and a call that got no answer
/// are failures like any other, with the delay that the header asks for.
pub proof fn law_steps_after_a_reply(attempt: u32, reply: Reply, jitter: u64, r: Step)
    requires
        call_ensures(send_step, (attempt, &reply, jitter), r),
    ensures
        reply is Success <==> r@ is Deliver,
        reply matches Reply::Refused { status, retry_after: header, body } ==> {
            let error = status_error(status, body@);
            let asked = retry_after_seconds(
                match header {
                    Some(value) => Some(value@),
                    None => None,
                },
            );
            let tried_again = (error is RateLimited || error is Upstream) && attempt < 4;
            &&& tried_again && asked is None ==> r@ == StepView::Wait(jitter)
            &&& tried_again && asked is Some && asked->0 <= 60 ==> r@ == StepView::Wait(
                (asked->0 * 1000) as u64,
            )
            &&& tried_again && asked is Some && asked->0 > 60 ==> r@ == StepView::Fail(error)
            &&& !tried_again ==> r@ == StepView::Fail(error)
        },
        (reply is TimedOut || reply is Unreachable) && attempt < 4 ==> r@ == StepView::Wait(jitter),
        reply matches Reply::TimedOut(detail) ==> (attempt >= 4 ==> r@ == StepView::Fail(
            ProviderErrorView::Upstream(detail@),
        )),
        reply matches Reply::Unreachable(detail) ==> (attempt >= 4 ==> r@ == StepView::Fail(
            ProviderErrorView::Upstream(detail@),
        )),
{
}

/// What a status and a body are mapped to: a content-filter rejection wherever the body
/// names one, and otherwise what the status means.
pub proof fn law_answers_are_mapped(status: u16, body: &str, r: ProviderError)
    requires
        call_ensures(map_status, (status, body), r),
    ensures
        names_content_filter(unicode::lowercase(body@)) <==> r is ContentFilter,
        !(r is ContentFilter) ==> {
            &&& status == 400 <==> r@ == ProviderErrorView::Validation(summary(body@))
            &&& status == 401 || status == 403 <==> r is Unauthorized
            &&& status == 404 <==> r@ == ProviderErrorView::DeploymentNotFound(summary(body@))
            &&& status == 429 <==> r is RateLimited
            &&& 500 <= status <= 599 ==> r@ == ProviderErrorView::Upstream(summary(body@))
        },
{
    law_statuses_become_errors(status, body@, http::status_line(status));
}

/// A client that could be built is the one that is used; one that could not is an internal
/// error with its reason.
pub proof fn law_clients_are_used_as_built(
    built: Result<reqwest::Client, String>,
    r: Result<reqwest::Client, ProviderError>,
)
    requires
        call_ensures(accept_client, (built,), r),
    ensures
        built matches Ok(client) ==> r == Ok::<reqwest::Client, ProviderError>(client),
        built matches Err(detail) ==> (r matches Err(error) && error@
            == ProviderErrorView::Internal("could not build an HTTP client: "@ + detail@)),
{
}

/// What a body is summarised as, and whether it names a content-filter rejection, which is
/// looked for in its lower-case form.
pub proof fn law_bodies_are_read(body: &str, short: String, filtered: bool)
    requires
        call_ensures(summarise, (body,), short),
        call_ensures(looks_like_content_filter, (body,), filtered),
    ensures
        vstd::utf8::encode_utf8(body@).len() <= 400 ==> short@ == unicode::trimmed(body@),
        vstd::utf8::encode_utf8(body@).len() > 400 ==> short@ == unicode::trimmed(
            truncate::fitting(body@, 400),
        ) + "…"@,
        filtered <==> chars::has_text(unicode::lowercase(body@), "content_filter"@)
            || chars::has_text(unicode::lowercase(body@), "responsibleaipolicyviolation"@)
            || chars::has_text(unicode::lowercase(body@), "content_policy_violation"@),
{
}

/// The delay before a retry is drawn by chance from nothing up to the ceiling of the
/// attempt, which starts at half a second and doubles up to twenty seconds.
pub proof fn law_delays_are_drawn(attempt: u32, ceiling: u64, delay: u64, next: u64)
    requires
        1 <= attempt < u32::MAX,
        call_ensures(longest_backoff, (attempt,), ceiling),
        call_ensures(longest_backoff, ((attempt + 1) as u32,), next),
        call_ensures(backoff, (attempt,), delay),
    ensures
        attempt == 1 ==> ceiling == 500,
        next == if 2 * ceiling <= 20_000 {
            2 * ceiling
        } else {
            20_000
        },
        delay <= ceiling,
        drawn(ceiling, delay),
{
    law_backoff_doubles(attempt as nat);
}

/// The client that is built for the providers gives each call three minutes and follows no
/// redirect; where none could be built, the reason is handed on.
pub proof fn law_the_client_gives_three_minutes(r: Result<reqwest::Client, ProviderError>)
    requires
        call_ensures(build_http_client, (), r),
    ensures
        r matches Ok(client) ==> http::client_made(180, Ok(client)) && http::call_seconds(client)
            == 180 && http::redirects_followed(client) == 0,
        r matches Err(error) ==> exists|detail: String| #[trigger]
            http::client_made(180, Err(detail)) && error@ == ProviderErrorView::Internal(
                "could not build an HTTP client: "@ + detail@,
            ),
{
}

/// A number counts as drawn exactly when the generator can have given it for that range.
proof fn law_draws_come_from_the_generator(max: u64, number: u64)
    ensures
        drawn(max, number) <==> call_ensures(random_up_to, (max,), number),
        drawn(max, number) ==> number <= max,
{
}

/// Every wait is followed by the next attempt, and nothing else counts as one.
pub proof fn law_attempts_are_counted(retry: &mut Retry, reply: &Reply, r: Step)
    requires
        call_ensures(send_with_retry, (retry, reply), r),
    ensures
        final(retry)@ == old(retry)@ + (if r@ is Wait {
            1nat
        } else {
            0nat
        }),
{
}

} // verus!
