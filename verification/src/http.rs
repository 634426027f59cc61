//! The HTTP client and HTTP statuses.
use vstd::prelude::*;
use vstd::string::*;

verus! {

/// An HTTP client.
#[verifier::external_type_specification]
#[verifier::external_body]
pub struct ExClient(reqwest::Client);

/// The derived `Clone` of `reqwest::Client`, which is one shared pointer: the copy
/// is the same client.
pub assume_specification[ <reqwest::Client as Clone>::clone ](client: &reqwest::Client) -> (r:
    reqwest::Client)
    ensures
        r == *client,
;

/// How many seconds a client gives a call before it times out.
pub uninterp spec fn call_seconds(client: reqwest::Client) -> u64;

/// How many redirects in a row a client follows.
pub uninterp spec fn redirects_followed(client: reqwest::Client) -> nat;

/// `reqwest::ClientBuilder::build` after `timeout` and `redirect`: the client gives
/// each call that many seconds and, under `Policy::none`, follows no redirect.
/// Whether it can be built depends on the machine; an error comes back as its text,
/// of which nothing is claimed.
#[verifier::external_body]
pub(crate) fn http_client(timeout_seconds: u64) -> (r: Result<reqwest::Client, String>)
    ensures
        r matches Ok(client) ==> call_seconds(client) == timeout_seconds,
        r matches Ok(client) ==> redirects_followed(client) == 0,
{
    reqwest::Client::builder()
        .timeout(std::time::Duration::from_secs(timeout_seconds))
        .redirect(reqwest::redirect::Policy::none())
        .build()
        .map_err(|error| error.to_string())
}

/// `reqwest::ClientBuilder::build` after `timeout`: the client gives each call that
/// many seconds and, as is the default, follows up to ten redirects. Whether it can
/// be built depends on the machine; an error comes back as its text, of which
/// nothing is claimed.
#[verifier::external_body]
pub(crate) fn redirecting_http_client(timeout_seconds: u64) -> (r: Result<reqwest::Client, String>)
    ensures
        r matches Ok(client) ==> call_seconds(client) == timeout_seconds,
        r matches Ok(client) ==> redirects_followed(client) == 10,
{
    reqwest::Client::builder()
        .timeout(std::time::Duration::from_secs(timeout_seconds))
        .build()
        .map_err(|error| error.to_string())
}

/// Building a client that follows no redirect came to this, on this machine.
pub closed spec fn client_made(
    timeout_seconds: u64,
    built: Result<reqwest::Client, String>,
) -> bool {
    call_ensures(http_client, (timeout_seconds,), built)
}

/// Building a client that follows redirects came to this, on this machine.
pub closed spec fn redirecting_client_made(
    timeout_seconds: u64,
    built: Result<reqwest::Client, String>,
) -> bool {
    call_ensures(redirecting_http_client, (timeout_seconds,), built)
}

/// What one call of `build` gave.
fn built_by<F: Fn(u64) -> Result<reqwest::Client, String>>(build: F, timeout_seconds: u64) -> (r:
    Result<reqwest::Client, String>)
    requires
        call_requires(build, (timeout_seconds,)),
    ensures
        call_ensures(build, (timeout_seconds,), r),
{
    build(timeout_seconds)
}

/// Builds a client that follows no redirect.
pub(crate) fn make_client(timeout_seconds: u64) -> (r: Result<reqwest::Client, String>)
    ensures
        client_made(timeout_seconds, r),
        r matches Ok(client) ==> call_seconds(client) == timeout_seconds,
        r matches Ok(client) ==> redirects_followed(client) == 0,
{
    built_by(http_client, timeout_seconds)
}

/// Builds a client that follows redirects.
pub(crate) fn make_redirecting_client(timeout_seconds: u64) -> (r: Result<reqwest::Client, String>)
    ensures
        redirecting_client_made(timeout_seconds, r),
        r matches Ok(client) ==> call_seconds(client) == timeout_seconds,
        r matches Ok(client) ==> redirects_followed(client) == 10,
{
    built_by(redirecting_http_client, timeout_seconds)
}

/// A status says that the call succeeded.
pub open spec fn success(status: u16) -> bool {
    200 <= status <= 299
}

/// Whether a status says that the call succeeded.
pub fn is_success(status: u16) -> (r: bool)
    ensures
        r == success(status),
{
    200 <= status && status <= 299
}

/// How an HTTP status prints: the number and its standard reason.
pub uninterp spec fn status_line(status: u16) -> Seq<char>;

/// The `Display` of `reqwest::StatusCode`: what it prints depends on the number
/// alone.
#[verifier::external_body]
pub(crate) fn print_status(status: u16) -> (r: String)
    requires
        100 <= status <= 999,
    ensures
        r@ == status_line(status),
{
    reqwest::StatusCode::from_u16(status).unwrap().to_string()
}

/// A character that a header value may hold.
pub open spec fn header_char(c: char) -> bool {
    c == '\t' || (' ' <= c && c != '\u{7f}')
}

/// A text that a header value may be.
pub open spec fn header_text(s: Seq<char>) -> bool {
    forall|i: int| 0 <= i < s.len() ==> header_char(#[trigger] s[i])
}

/// `reqwest::header::HeaderValue::from_str`: it takes a text unless one of its
/// bytes is below 32, other than a tab, or is 127. The bytes of a character
/// beyond ASCII are all above 127.
#[verifier::external_body]
pub(crate) fn is_header_value(value: &str) -> (r: bool)
    ensures
        r == header_text(value@),
{
    reqwest::header::HeaderValue::from_str(value).is_ok()
}

/// A text can stand in a header exactly when it holds no control code but tabs: nothing
/// below a space, and no `DEL`.
pub proof fn law_headers_hold_no_control_codes(s: Seq<char>)
    ensures
        header_text(s) <==> forall|i: int|
            0 <= i < s.len() ==> #[trigger] s[i] == '\t' || (' ' <= s[i] && s[i] != '\u{7f}'),
{
    if header_text(s) {
        assert forall|i: int| 0 <= i < s.len() implies #[trigger] s[i] == '\t' || (' ' <= s[i] && s[i]
            != '\u{7f}') by {
            assert(header_char(s[i]));
        }
    } else {
        let i = choose|i: int| 0 <= i < s.len() && !header_char(#[trigger] s[i]);
        assert(!header_char(s[i]));
    }
}

/// A client counts as made exactly when the builder can have given it.
pub(crate) proof fn law_clients_come_from_the_builder(
    timeout_seconds: u64,
    built: Result<reqwest::Client, String>,
)
    ensures
        client_made(timeout_seconds, built) <==> call_ensures(
            http_client,
            (timeout_seconds,),
            built,
        ),
        redirecting_client_made(timeout_seconds, built) <==> call_ensures(
            redirecting_http_client,
            (timeout_seconds,),
            built,
        ),
{
}

} // verus!
