//! Azure Blob Storage: uploads and time-limited read links.
//!
//! Generated media goes into a private container. The browser never gets a
//! provider URL and never gets a permanent one: it gets a user delegation SAS
//! (shared access signature) that expires.
//!
//! A service SAS is signed with the storage account key, which then has to exist
//! somewhere. A user delegation SAS is signed with a short-lived key the Blob
//! service issues against an Entra ID token, so the account keys are never needed
//! and can stay disabled. Each link is also attributable to the identity that
//! issued it, which an account-key SAS is not.
use vstd::prelude::*;
use vstd::string::*;

use crate::azure;
use crate::azure::{developer_tools_credential, make_managed_identity, EntraCredential};
use crate::clock;
use crate::clock::{iso8601, read_clock, Timestamp};
use crate::http;
use crate::http::{is_success, make_redirecting_client, print_status};
use crate::storage::delegation;
use crate::storage::delegation::{parse_delegation_key, DelegationKey, DelegationKeyView};
use crate::storage::error::{StorageError, StorageErrorView};
use crate::storage::sas;
use crate::storage::sas::{disposition_text, signed_query, Grant, API_VERSION};
use crate::text::chars;
use crate::text::chars::{concat_text, leading_text};

verus! {

/// Scope for the Entra token used against Blob Storage.
pub const SCOPE: &'static str = "https://storage.azure.com/.default";

/// How long a delegation key is requested for, in seconds.
///
/// Well beyond any single SAS lifetime, so the key is fetched rarely, but short
/// enough to be uninteresting if it ever leaked.
pub const DELEGATION_KEY_TTL_SECONDS: i64 = 21_600;

/// Clock skew allowed when a SAS starts being valid, in seconds.
pub const START_SKEW_SECONDS: i64 = 300;

/// How long a single HTTP call may take, in seconds.
pub const BLOB_TIMEOUT_SECONDS: u64 = 120;

/// How much of an answer is kept in an error, in characters.
pub const DETAIL_CHARS: usize = 300;

/// The base URL of an account's blob endpoint.
pub open spec fn endpoint_of(account: Seq<char>) -> Seq<char> {
    "https://"@ + account + ".blob.core.windows.net"@
}

/// The URL of a blob.
pub open spec fn blob_url(account: Seq<char>, container: Seq<char>, path: Seq<char>) -> Seq<char> {
    endpoint_of(account) + "/"@ + container + "/"@ + path
}

/// What a link to a blob grants between two instants.
pub open spec fn grant_for(
    account: Seq<char>,
    container: Seq<char>,
    path: Seq<char>,
    start: int,
    expiry: int,
    download: Option<Seq<char>>,
) -> Grant {
    Grant {
        resource: sas::canonical_resource(account, container, path),
        start: clock::civil(start).text(),
        expiry: clock::civil(expiry).text(),
        disposition: sas::disposition(download),
    }
}

/// The read link for a blob.
pub open spec fn read_link(
    account: Seq<char>,
    container: Seq<char>,
    path: Seq<char>,
    key: DelegationKeyView,
    start: int,
    expiry: int,
    download: Option<Seq<char>>,
) -> Seq<char> {
    blob_url(account, container, path) + "?"@ + sas::query_text(
        key,
        grant_for(account, container, path, start, expiry, download),
    )
}

/// Request method of a call to Blob Storage.
#[derive(Debug, Clone, Copy, PartialEq, Eq, Structural)]
pub enum BlobMethod {
    /// `PUT`.
    Put,
    /// `POST`.
    Post,
    /// `DELETE`.
    Delete,
}

/// A header of a call to Blob Storage.
#[derive(Debug)]
pub struct BlobHeader {
    /// Its name.
    pub name: &'static str,
    /// Its value.
    pub value: String,
}

impl View for BlobHeader {
    type V = (Seq<char>, Seq<char>);

    open spec fn view(&self) -> (Seq<char>, Seq<char>) {
        (self.name@, self.value@)
    }
}

/// What a call to Blob Storage carries.
#[derive(Debug)]
pub enum BlobBody {
    /// Nothing.
    Empty,
    /// A text.
    Text(String),
    /// Bytes.
    Bytes(Vec<u8>),
}

/// What a call to Blob Storage carries, as sequences.
pub enum BlobBodyView {
    /// Nothing.
    Empty,
    /// A text.
    Text(Seq<char>),
    /// Bytes.
    Bytes(Seq<u8>),
}

impl View for BlobBody {
    type V = BlobBodyView;

    open spec fn view(&self) -> BlobBodyView {
        match *self {
            BlobBody::Empty => BlobBodyView::Empty,
            BlobBody::Text(s) => BlobBodyView::Text(s@),
            BlobBody::Bytes(b) => BlobBodyView::Bytes(b@),
        }
    }
}

/// A call to Blob Storage. An Entra token goes with it.
#[derive(Debug)]
pub struct BlobCall {
    /// Request method.
    pub method: BlobMethod,
    /// Where to send it.
    pub url: String,
    /// The headers, besides the token.
    pub headers: Vec<BlobHeader>,
    /// What to send.
    pub body: BlobBody,
}

/// A call to Blob Storage as sequences.
pub struct BlobCallView {
    /// Request method.
    pub method: BlobMethod,
    /// Where to send it.
    pub url: Seq<char>,
    /// The headers, besides the token.
    pub headers: Seq<(Seq<char>, Seq<char>)>,
    /// What to send.
    pub body: BlobBodyView,
}

/// The headers of a call.
pub open spec fn header_pairs(headers: Seq<BlobHeader>) -> Seq<(Seq<char>, Seq<char>)> {
    headers.map_values(|h: BlobHeader| h@)
}

impl View for BlobCall {
    type V = BlobCallView;

    open spec fn view(&self) -> BlobCallView {
        BlobCallView {
            method: self.method,
            url: self.url@,
            headers: header_pairs(self.headers@),
            body: self.body@,
        }
    }
}

/// The call that stores a blob.
pub open spec fn upload_call(
    account: Seq<char>,
    container: Seq<char>,
    path: Seq<char>,
    content_type: Seq<char>,
    bytes: Seq<u8>,
) -> BlobCallView {
    BlobCallView {
        method: BlobMethod::Put,
        url: blob_url(account, container, path),
        headers: seq![
            ("x-ms-version"@, API_VERSION@),
            ("x-ms-blob-type"@, "BlockBlob"@),
            ("content-type"@, content_type),
        ],
        body: BlobBodyView::Bytes(bytes),
    }
}

/// The call that removes a blob.
pub open spec fn delete_call(
    account: Seq<char>,
    container: Seq<char>,
    path: Seq<char>,
) -> BlobCallView {
    BlobCallView {
        method: BlobMethod::Delete,
        url: blob_url(account, container, path),
        headers: seq![("x-ms-version"@, API_VERSION@)],
        body: BlobBodyView::Empty,
    }
}

/// The call that asks for a delegation key which is valid between two instants.
pub open spec fn key_call(account: Seq<char>, start: int, expiry: int) -> BlobCallView {
    BlobCallView {
        method: BlobMethod::Post,
        url: endpoint_of(account) + "/?restype=service&comp=userdelegationkey"@,
        headers: seq![
            ("x-ms-version"@, API_VERSION@),
            ("content-type"@, "application/xml"@),
        ],
        body: BlobBodyView::Text(
            "<?xml version=\"1.0\" encoding=\"utf-8\"?><KeyInfo><Start>"@ + clock::civil(
                start,
            ).text() + "</Start><Expiry>"@ + clock::civil(expiry).text()
                + "</Expiry></KeyInfo>"@,
        ),
    }
}

/// What an upload came to, given its status, how that prints and the answer.
pub open spec fn upload_result(status: u16, printed: Seq<char>, body: Seq<char>) -> Result<
    (),
    StorageErrorView,
> {
    if http::success(status) {
        Ok(())
    } else {
        Err(
            StorageErrorView::Blob(
                "upload failed with "@ + printed + ": "@ + chars::leading(
                    body,
                    DETAIL_CHARS as nat,
                ),
            ),
        )
    }
}

/// What a deletion came to, given its status and how that prints. Retention runs
/// repeatedly; a blob already removed is success.
pub open spec fn delete_result(status: u16, printed: Seq<char>) -> Result<(), StorageErrorView> {
    if http::success(status) || status == 404 {
        Ok(())
    } else {
        Err(StorageErrorView::Blob("delete failed with "@ + printed))
    }
}

/// What asking for a delegation key came to, given its status, how that prints,
/// the answer and the expiry that was asked for.
pub open spec fn key_result(
    status: u16,
    printed: Seq<char>,
    body: Seq<char>,
    expiry: int,
) -> Result<DelegationKeyView, StorageErrorView> {
    if http::success(status) {
        delegation::delegation_key_of(body, expiry)
    } else {
        Err(
            StorageErrorView::Blob(
                "could not get a user delegation key ("@ + printed + "): "@ + chars::leading(
                    body,
                    DETAIL_CHARS as nat,
                ),
            ),
        )
    }
}

/// What an upload came to, given how its status prints.
///
/// # Errors
///
/// Returns an error when the upload was refused.
pub fn upload_outcome_as(status: u16, printed: &str, body: &str) -> (r: Result<(), StorageError>)
    ensures
        match upload_result(status, printed@, body@) {
            Ok(_) => r is Ok,
            Err(e) => r matches Err(error) && error@ == e,
        },
{
    if is_success(status) {
        return Ok(());
    }
    let mut detail = concat_text("upload failed with ", printed);
    detail.append(": ");
    detail.append(leading_text(body, DETAIL_CHARS).as_str());
    Err(StorageError::Blob(detail))
}

/// What an upload came to.
///
/// # Errors
///
/// Returns an error when the upload was refused.
pub fn upload_outcome(status: u16, body: &str) -> (r: Result<(), StorageError>)
    requires
        100 <= status <= 999,
    ensures
        match upload_result(status, http::status_line(status), body@) {
            Ok(_) => r is Ok,
            Err(e) => r matches Err(error) && error@ == e,
        },
{
    upload_outcome_as(status, print_status(status).as_str(), body)
}

/// What a deletion came to, given how its status prints.
///
/// # Errors
///
/// Returns an error when the delete was refused for any reason but a blob that is
/// already gone.
pub fn delete_outcome_as(status: u16, printed: &str) -> (r: Result<(), StorageError>)
    ensures
        match delete_result(status, printed@) {
            Ok(_) => r is Ok,
            Err(e) => r matches Err(error) && error@ == e,
        },
{
    if is_success(status) || status == 404 {
        return Ok(());
    }
    Err(StorageError::Blob(concat_text("delete failed with ", printed)))
}

/// What a deletion came to.
///
/// # Errors
///
/// Returns an error when the delete was refused for any reason but a blob that is
/// already gone.
pub fn delete_outcome(status: u16) -> (r: Result<(), StorageError>)
    requires
        100 <= status <= 999,
    ensures
        match delete_result(status, http::status_line(status)) {
            Ok(_) => r is Ok,
            Err(e) => r matches Err(error) && error@ == e,
        },
{
    delete_outcome_as(status, print_status(status).as_str())
}

/// The delegation key out of the answer to [`BlobStore::key_request`], given how
/// its status prints.
///
/// # Errors
///
/// Returns an error when the service refused, or its answer holds no key.
pub fn accept_key_as(status: u16, printed: &str, body: &str, expiry: &Timestamp) -> (r: Result<
    DelegationKey,
    StorageError,
>)
    ensures
        match key_result(status, printed@, body@, expiry@) {
            Ok(view) => r matches Ok(key) && key@ == view,
            Err(e) => r matches Err(error) && error@ == e,
        },
{
    if is_success(status) {
        return parse_delegation_key(body, expiry);
    }
    let mut detail = concat_text("could not get a user delegation key (", printed);
    detail.append("): ");
    detail.append(leading_text(body, DETAIL_CHARS).as_str());
    Err(StorageError::Blob(detail))
}

/// The delegation key out of the answer to [`BlobStore::key_request`].
///
/// # Errors
///
/// Returns an error when the service refused, or its answer holds no key.
pub fn accept_key(status: u16, body: &str, expiry: &Timestamp) -> (r: Result<
    DelegationKey,
    StorageError,
>)
    requires
        100 <= status <= 999,
    ensures
        match key_result(status, http::status_line(status), body@, expiry@) {
            Ok(view) => r matches Ok(key) && key@ == view,
            Err(e) => r matches Err(error) && error@ == e,
        },
{
    accept_key_as(status, print_status(status).as_str(), body, expiry)
}

/// The token that a call goes out with, from what came of asking for one.
///
/// # Errors
///
/// Returns an error when no token could be acquired.
pub fn accept_token(token: Result<String, String>) -> (r: Result<String, StorageError>)
    ensures
        match token {
            Ok(t) => r == Ok::<String, StorageError>(t),
            Err(detail) => r matches Err(error) && error@ == StorageErrorView::Blob(
                "could not acquire a token: "@ + detail@,
            ),
        },
{
    match token {
        Ok(t) => Ok(t),
        Err(detail) => Err(
            StorageError::Blob(concat_text("could not acquire a token: ", detail.as_str())),
        ),
    }
}

/// A request for a delegation key.
#[derive(Debug)]
pub struct KeyRequest {
    /// The call to make.
    pub call: BlobCall,
    /// When the key that is asked for expires.
    pub expiry: Timestamp,
}

/// A client for one private container.
pub struct BlobStore {
    /// Storage account.
    pub account: String,
    /// Container in it.
    pub container: String,
    /// The client that calls are made with.
    pub http: reqwest::Client,
    /// Where the tokens come from.
    pub credential: EntraCredential,
}

/// What a store comes to, given what came of building its credential and its
/// client.
pub open spec fn store_result(
    in_azure: bool,
    credential: Result<EntraCredential, String>,
    http: Result<reqwest::Client, String>,
) -> Result<(EntraCredential, reqwest::Client), StorageErrorView> {
    match credential {
        Err(detail) => Err(
            StorageErrorView::Blob(
                (if in_azure {
                    "managed identity unavailable: "@
                } else {
                    "no Azure credential for Blob Storage: "@
                }) + detail@,
            ),
        ),
        Ok(credential) => match http {
            Err(detail) => Err(StorageErrorView::Blob(detail@)),
            Ok(http) => Ok((credential, http)),
        },
    }
}

/// The store is for that account and container, and was built as told.
pub open spec fn store_from(
    account: Seq<char>,
    container: Seq<char>,
    result: Result<(EntraCredential, reqwest::Client), StorageErrorView>,
    outcome: Result<BlobStore, StorageError>,
) -> bool {
    match (result, outcome) {
        (Ok(parts), Ok(store)) => {
            &&& store.account@ == account
            &&& store.container@ == container
            &&& store.credential == parts.0
            &&& store.http == parts.1
        },
        (Err(e), Err(error)) => error@ == e,
        _ => false,
    }
}

impl BlobStore {
    /// Builds a client from what came of building its credential and its HTTP
    /// client.
    ///
    /// # Errors
    ///
    /// Returns an error when one of the two could not be built.
    pub fn assemble(
        account: &str,
        container: &str,
        in_azure: bool,
        credential: Result<EntraCredential, String>,
        http: Result<reqwest::Client, String>,
    ) -> (r: Result<BlobStore, StorageError>)
        ensures
            store_from(account@, container@, store_result(in_azure, credential, http), r),
    {
        match credential {
            Err(detail) => {
                let reason: &str = if in_azure {
                    "managed identity unavailable: "
                } else {
                    "no Azure credential for Blob Storage: "
                };
                Err(StorageError::Blob(concat_text(reason, detail.as_str())))
            },
            Ok(credential) => match http {
                Err(detail) => Err(StorageError::Blob(detail)),
                Ok(http) => Ok(
                    BlobStore {
                        account: account.to_owned(),
                        container: container.to_owned(),
                        http,
                        credential,
                    },
                ),
            },
        }
    }

    /// Builds a client for `container` on `account`. `in_azure` says whether the
    /// process runs somewhere that offers a managed identity.
    ///
    /// No account key anywhere: that is the point of a user delegation SAS. The
    /// choice is made on the environment rather than by trying the managed
    /// identity first: that credential can be built where there is no managed
    /// identity, and then only acquiring a token fails, long after.
    ///
    /// # Errors
    ///
    /// Returns an error when the managed identity credential, in Azure, or the HTTP
    /// client cannot be built.
    pub fn new(account: &str, container: &str, in_azure: bool) -> (r: Result<
        BlobStore,
        StorageError,
    >)
        ensures
            exists|
                credential: Result<EntraCredential, String>,
                http: Result<reqwest::Client, String>,
            |
                (credential matches Ok(c) ==> (if in_azure {
                    c is ManagedIdentity
                } else {
                    c is DeveloperTools
                })) && (credential is Ok || in_azure) && (in_azure ==> azure::identity_tried(credential))
                    && http::redirecting_client_made(BLOB_TIMEOUT_SECONDS, http) && store_from(
                    account@,
                    container@,
                    #[trigger] store_result(in_azure, credential, http),
                    r,
                ),
            r matches Ok(store) ==> http::call_seconds(store.http) == BLOB_TIMEOUT_SECONDS
                && http::redirects_followed(store.http) == 10,
    {
        let credential: Result<EntraCredential, String> = if in_azure {
            match make_managed_identity() {
                Ok(c) => Ok(EntraCredential::ManagedIdentity(c)),
                Err(detail) => Err(detail),
            }
        } else {
            match developer_tools_credential() {
                Ok(c) => Ok(EntraCredential::DeveloperTools(c)),
                Err(detail) => Err(detail),
            }
        };
        let http: Result<reqwest::Client, String> = make_redirecting_client(BLOB_TIMEOUT_SECONDS);
        assert(in_azure ==> azure::identity_tried(credential));
        let outcome = BlobStore::assemble(account, container, in_azure, credential, http);
        assert(store_from(
            account@,
            container@,
            store_result(in_azure, credential, http),
            outcome,
        ));
        outcome
    }

    /// Returns the base URL of the account's blob endpoint.
    pub fn endpoint(&self) -> (r: String)
        ensures
            r@ == endpoint_of(self.account@),
    {
        let mut out = concat_text("https://", self.account.as_str());
        out.append(".blob.core.windows.net");
        out
    }

    /// Returns the URL of a blob.
    fn url(&self, path: &str) -> (r: String)
        ensures
            r@ == blob_url(self.account@, self.container@, path@),
    {
        let mut out = self.endpoint();
        out.append("/");
        out.append(self.container.as_str());
        out.append("/");
        out.append(path);
        out
    }

    /// The call that uploads bytes as a block blob.
    pub fn upload(&self, path: &str, content_type: &str, bytes: Vec<u8>) -> (r: BlobCall)
        ensures
            r@ == upload_call(self.account@, self.container@, path@, content_type@, bytes@),
    {
        let mut headers: Vec<BlobHeader> = Vec::new();
        headers.push(BlobHeader { name: "x-ms-version", value: API_VERSION.to_owned() });
        headers.push(BlobHeader { name: "x-ms-blob-type", value: "BlockBlob".to_owned() });
        headers.push(BlobHeader { name: "content-type", value: content_type.to_owned() });
        assert(header_pairs(headers@) =~= seq![
            ("x-ms-version"@, API_VERSION@),
            ("x-ms-blob-type"@, "BlockBlob"@),
            ("content-type"@, content_type@),
        ]);
        BlobCall {
            method: BlobMethod::Put,
            url: self.url(path),
            headers,
            body: BlobBody::Bytes(bytes),
        }
    }

    /// The call that deletes a blob.
    pub fn delete(&self, path: &str) -> (r: BlobCall)
        ensures
            r@ == delete_call(self.account@, self.container@, path@),
    {
        let mut headers: Vec<BlobHeader> = Vec::new();
        headers.push(BlobHeader { name: "x-ms-version", value: API_VERSION.to_owned() });
        assert(header_pairs(headers@) =~= seq![("x-ms-version"@, API_VERSION@)]);
        BlobCall {
            method: BlobMethod::Delete,
            url: self.url(path),
            headers,
            body: BlobBody::Empty,
        }
    }

    /// The request for a delegation key that is valid from `start` on. `None` when
    /// the calendar ends before the key would.
    pub fn key_request(&self, start: &Timestamp) -> (r: Option<KeyRequest>)
        requires
            clock::on_calendar(start@),
        ensures
            ({
                let expiry = start@ + DELEGATION_KEY_TTL_SECONDS * clock::NANOS_PER_SECOND;
                match r {
                    Some(request) => clock::on_calendar(expiry) && request.expiry@ == expiry
                        && request.call@ == key_call(self.account@, start@, expiry),
                    None => !clock::on_calendar(expiry),
                }
            }),
    {
        match start.plus_seconds(DELEGATION_KEY_TTL_SECONDS) {
            Some(expiry) => {
                let mut body = concat_text(
                    "<?xml version=\"1.0\" encoding=\"utf-8\"?><KeyInfo><Start>",
                    iso8601(start).as_str(),
                );
                body.append("</Start><Expiry>");
                body.append(iso8601(&expiry).as_str());
                body.append("</Expiry></KeyInfo>");
                let mut url = self.endpoint();
                url.append("/?restype=service&comp=userdelegationkey");
                let mut headers: Vec<BlobHeader> = Vec::new();
                headers.push(BlobHeader { name: "x-ms-version", value: API_VERSION.to_owned() });
                headers.push(
                    BlobHeader { name: "content-type", value: "application/xml".to_owned() },
                );
                assert(header_pairs(headers@) =~= seq![
                    ("x-ms-version"@, API_VERSION@),
                    ("content-type"@, "application/xml"@),
                ]);
                Some(
                    KeyRequest {
                        call: BlobCall {
                            method: BlobMethod::Post,
                            url,
                            headers,
                            body: BlobBody::Text(body),
                        },
                        expiry,
                    },
                )
            },
            None => None,
        }
    }

    /// The request for a delegation key that is valid from now on. `None` when the
    /// calendar ends before the key would.
    pub fn fetch_delegation_key(&self) -> (r: Option<KeyRequest>)
        ensures
            exists|now: Timestamp|
                #[trigger] clock::clock_read(now) && clock::on_calendar(now@) && ({
                    let expiry = now@ + DELEGATION_KEY_TTL_SECONDS * clock::NANOS_PER_SECOND;
                    match r {
                        Some(request) => request.expiry@ == expiry && request.call@ == key_call(
                            self.account@,
                            now@,
                            expiry,
                        ),
                        None => !clock::on_calendar(expiry),
                    }
                }),
    {
        let now: Timestamp = read_clock();
        self.key_request(&now)
    }

    /// Returns a read-only URL for `path`, valid between two instants. With
    /// `download` the browser saves the file under that name instead of showing
    /// it; the name is signed, so it cannot be bolted onto the query afterwards.
    ///
    /// # Errors
    ///
    /// Never: a key of any length can sign.
    pub fn signed_url(
        &self,
        key: &DelegationKey,
        path: &str,
        start: &Timestamp,
        expiry: &Timestamp,
        download: Option<&str>,
    ) -> (r: Result<String, StorageError>)
        requires
            clock::on_calendar(start@),
            clock::on_calendar(expiry@),
        ensures
            r matches Ok(url) && url@ == read_link(
                self.account@,
                self.container@,
                path@,
                key@,
                start@,
                expiry@,
                match download {
                    Some(name) => Some(name@),
                    None => None,
                },
            ),
    {
        let signed_start: String = iso8601(start);
        let signed_expiry: String = iso8601(expiry);
        let mut canonical = concat_text("/blob/", self.account.as_str());
        canonical.append("/");
        canonical.append(self.container.as_str());
        canonical.append("/");
        canonical.append(path);
        let shown: String = disposition_text(download);
        match signed_query(
            key,
            canonical.as_str(),
            signed_start.as_str(),
            signed_expiry.as_str(),
            shown.as_str(),
        ) {
            Ok(query) => {
                let mut url = self.url(path);
                url.append("?");
                url.append(query.as_str());
                Ok(url)
            },
            Err(error) => Err(error),
        }
    }

    /// Returns a read-only URL for `path`, valid from a little before `first` until
    /// `ttl_seconds` after `second`, which are two readings of the clock. `None` when
    /// the calendar does not reach that far.
    ///
    /// # Errors
    ///
    /// Never: a key of any length can sign.
    pub fn read_url_at(
        &self,
        key: &DelegationKey,
        path: &str,
        first: &Timestamp,
        second: &Timestamp,
        ttl_seconds: u64,
        download: Option<&str>,
    ) -> (r: Result<Option<String>, StorageError>)
        requires
            clock::on_calendar(first@),
            clock::on_calendar(second@),
        ensures
            ({
                let start = first@ - START_SKEW_SECONDS * clock::NANOS_PER_SECOND;
                let expiry = second@ + ttl_seconds * clock::NANOS_PER_SECOND;
                if clock::on_calendar(start) && clock::on_calendar(expiry) {
                    r matches Ok(Some(url)) && url@ == read_link(
                        self.account@,
                        self.container@,
                        path@,
                        key@,
                        start,
                        expiry,
                        match download {
                            Some(name) => Some(name@),
                            None => None,
                        },
                    )
                } else {
                    r matches Ok(None)
                }
            }),
    {
        let start: Timestamp = match first.plus_seconds(-START_SKEW_SECONDS) {
            Some(start) => start,
            None => {
                return Ok(None);
            },
        };
        if ttl_seconds > 0x7fff_ffff_ffff_ffff {
            return Ok(None);
        }
        let expiry: Timestamp = match second.plus_seconds(ttl_seconds as i64) {
            Some(expiry) => expiry,
            None => {
                return Ok(None);
            },
        };
        match self.signed_url(key, path, &start, &expiry, download) {
            Ok(url) => Ok(Some(url)),
            Err(error) => Err(error),
        }
    }

    /// Returns a read-only URL for `path`, valid from a little before now for
    /// `ttl_seconds`. `None` when the calendar does not reach that far.
    ///
    /// # Errors
    ///
    /// Never: a key of any length can sign.
    pub fn read_url(
        &self,
        key: &DelegationKey,
        path: &str,
        ttl_seconds: u64,
        download: Option<&str>,
    ) -> (r: Result<Option<String>, StorageError>)
        ensures
            r is Ok,
            exists|first: Timestamp, second: Timestamp|
                #![trigger clock::clock_read(first), clock::clock_read(second)]
                clock::clock_read(first) && clock::clock_read(second) && clock::on_calendar(first@)
                    && clock::on_calendar(second@) && ({
                    let start = first@ - START_SKEW_SECONDS * clock::NANOS_PER_SECOND;
                    let expiry = second@ + ttl_seconds * clock::NANOS_PER_SECOND;
                    match r->Ok_0 {
                        Some(url) => clock::on_calendar(start) && clock::on_calendar(expiry)
                            && url@ == read_link(
                            self.account@,
                            self.container@,
                            path@,
                            key@,
                            start,
                            expiry,
                            match download {
                                Some(name) => Some(name@),
                                None => None,
                            },
                        ),
                        None => !clock::on_calendar(start) || !clock::on_calendar(expiry),
                    }
                }),
    {
        let first: Timestamp = read_clock();
        let second: Timestamp = read_clock();
        assert(clock::clock_read(first) && clock::clock_read(second));
        self.read_url_at(key, path, &first, &second, ttl_seconds, download)
    }
}

/// A link points at the blob that was stored under the same path, the signature
/// is for that blob, and a deletion removes it.
pub proof fn law_links_point_at_what_was_stored(
    account: Seq<char>,
    container: Seq<char>,
    path: Seq<char>,
    content_type: Seq<char>,
    bytes: Seq<u8>,
    key: DelegationKeyView,
    start: int,
    expiry: int,
    download: Option<Seq<char>>,
)
    ensures
        (upload_call(account, container, path, content_type, bytes).url + "?"@).is_prefix_of(
            read_link(account, container, path, key, start, expiry, download),
        ),
        sas::signed_fields(
            key,
            grant_for(account, container, path, start, expiry, download),
        )[3] == sas::canonical_resource(account, container, path),
        delete_call(account, container, path).url == upload_call(
            account,
            container,
            path,
            content_type,
            bytes,
        ).url,
{
    let url = blob_url(account, container, path) + "?"@;
    let link = read_link(account, container, path, key, start, expiry, download);
    assert(link.subrange(0, url.len() as int) =~= url);
}

/// A link is valid from five minutes before the first reading of the clock until so many
/// seconds after the second one, and says both in its text.
pub proof fn law_links_are_valid_around_now(
    account: Seq<char>,
    container: Seq<char>,
    path: Seq<char>,
    first: int,
    second: int,
    ttl_seconds: int,
    download: Option<Seq<char>>,
)
    requires
        clock::on_calendar(first - START_SKEW_SECONDS * clock::NANOS_PER_SECOND),
        clock::on_calendar(second + ttl_seconds * clock::NANOS_PER_SECOND),
    ensures
        ({
            let from = clock::civil(first - START_SKEW_SECONDS * clock::NANOS_PER_SECOND);
            let until = clock::civil(second + ttl_seconds * clock::NANOS_PER_SECOND);
            let grant = grant_for(
                account,
                container,
                path,
                first - START_SKEW_SECONDS * clock::NANOS_PER_SECOND,
                second + ttl_seconds * clock::NANOS_PER_SECOND,
                download,
            );
            &&& from.valid() && until.valid()
            &&& from.unix_second() == clock::second_of(first) - 300
            &&& until.unix_second() == clock::second_of(second) + ttl_seconds
            &&& grant.start == from.text()
            &&& grant.expiry == until.text()
            &&& grant.resource == "/blob/"@ + account + "/"@ + container + "/"@ + path
            &&& grant.disposition == match download {
                Some(name) => "attachment; filename=\""@ + sas::escaped(name) + "\""@,
                None => ""@,
            }
        }),
{
    clock::law_every_second_has_a_date(
        clock::second_of(first - START_SKEW_SECONDS * clock::NANOS_PER_SECOND),
    );
    clock::law_every_second_has_a_date(
        clock::second_of(second + ttl_seconds * clock::NANOS_PER_SECOND),
    );
}

/// Where blobs are kept and what is asked of the service, whatever the account, the
/// container and the path: a file is put under its own address as it is, with its own
/// type, and is deleted at the same address.
pub proof fn law_blobs_are_put_where_they_are_read(
    account: Seq<char>,
    container: Seq<char>,
    path: Seq<char>,
    content_type: Seq<char>,
    bytes: Seq<u8>,
)
    ensures
        ({
            let put = upload_call(account, container, path, content_type, bytes);
            let delete = delete_call(account, container, path);
            &&& put.method == BlobMethod::Put && delete.method == BlobMethod::Delete
            &&& put.url == "https://"@ + account + ".blob.core.windows.net/"@ + container + "/"@
                + path
            &&& delete.url == put.url
            &&& put.body == BlobBodyView::Bytes(bytes)
            &&& delete.body == BlobBodyView::Empty
            &&& put.headers.contains(("content-type"@, content_type))
            &&& put.headers.contains(("x-ms-blob-type"@, "BlockBlob"@))
            &&& put.headers.contains(("x-ms-version"@, API_VERSION@))
            &&& put.headers.len() == 3
            &&& delete.headers == seq![("x-ms-version"@, API_VERSION@)]
        }),
{
    reveal_strlit(".blob.core.windows.net");
    reveal_strlit("/");
    reveal_strlit(".blob.core.windows.net/");
    let put = upload_call(account, container, path, content_type, bytes);
    assert(put.url =~= "https://"@ + account + ".blob.core.windows.net/"@ + container + "/"@
        + path);
    assert(put.headers[0].0 == "x-ms-version"@);
    assert(put.headers[1].0 == "x-ms-blob-type"@);
    assert(put.headers[2].0 == "content-type"@);
}

/// A delegation key is asked for from the service of the account itself, for the time
/// between two instants, the earlier one first.
pub proof fn law_keys_are_asked_for_by_their_ends(account: Seq<char>, start: int, expiry: int)
    ensures
        ({
            let made = key_call(account, start, expiry);
            &&& made.method == BlobMethod::Post
            &&& made.url == "https://"@ + account
                + ".blob.core.windows.net/?restype=service&comp=userdelegationkey"@
            &&& made.headers == seq![
                ("x-ms-version"@, API_VERSION@),
                ("content-type"@, "application/xml"@),
            ]
            &&& made.body matches BlobBodyView::Text(xml) && xml
                == "<?xml version=\"1.0\" encoding=\"utf-8\"?><KeyInfo><Start>"@ + clock::civil(
                start,
            ).text() + "</Start><Expiry>"@ + clock::civil(expiry).text()
                + "</Expiry></KeyInfo>"@
        }),
{
    reveal_strlit(".blob.core.windows.net");
    reveal_strlit("/?restype=service&comp=userdelegationkey");
    reveal_strlit(".blob.core.windows.net/?restype=service&comp=userdelegationkey");
    assert(key_call(account, start, expiry).url =~= "https://"@ + account
        + ".blob.core.windows.net/?restype=service&comp=userdelegationkey"@);
}

/// A call to the service worked when its status says so, and deleting what is not there
/// works too. Every other status is an error that names it, with at most the first 300
/// characters of the answer behind it.
pub proof fn law_statuses_decide(
    status: u16,
    printed: Seq<char>,
    body: Seq<char>,
    expiry: int,
)
    ensures
        upload_result(status, printed, body) is Ok <==> 200 <= status <= 299,
        delete_result(status, printed) is Ok <==> 200 <= status <= 299 || status == 404,
        200 <= status <= 299 ==> key_result(status, printed, body, expiry)
            == delegation::delegation_key_of(body, expiry),
        !(200 <= status <= 299) ==> {
            let shown = if body.len() <= 300 {
                body
            } else {
                body.subrange(0, 300)
            };
            &&& upload_result(status, printed, body) == Err::<(), StorageErrorView>(
                StorageErrorView::Blob("upload failed with "@ + printed + ": "@ + shown),
            )
            &&& key_result(status, printed, body, expiry) == Err::<
                DelegationKeyView,
                StorageErrorView,
            >(
                StorageErrorView::Blob(
                    "could not get a user delegation key ("@ + printed + "): "@ + shown,
                ),
            )
            &&& status != 404 ==> delete_result(status, printed) == Err::<(), StorageErrorView>(
                StorageErrorView::Blob("delete failed with "@ + printed),
            )
        },
{
    assert(body.len() > 300 ==> body.take(300) =~= body.subrange(0, 300));
}

/// A store is assembled exactly when both its credential and its client could be built,
/// and holds just these. What went wrong with the credential is reported first.
pub proof fn law_stores_hold_what_was_built(
    in_azure: bool,
    credential: Result<EntraCredential, String>,
    http: Result<reqwest::Client, String>,
)
    ensures
        store_result(in_azure, credential, http) is Ok <==> credential is Ok && http is Ok,
        store_result(in_azure, credential, http) matches Ok(parts) ==> parts == (
            credential->Ok_0,
            http->Ok_0,
        ),
        credential matches Err(detail) ==> store_result(in_azure, credential, http) == Err::<
            (EntraCredential, reqwest::Client),
            StorageErrorView,
        >(
            StorageErrorView::Blob(
                (if in_azure {
                    "managed identity unavailable: "@
                } else {
                    "no Azure credential for Blob Storage: "@
                }) + detail@,
            ),
        ),
        credential is Ok && http is Err ==> store_result(in_azure, credential, http) == Err::<
            (EntraCredential, reqwest::Client),
            StorageErrorView,
        >(StorageErrorView::Blob(http->Err_0@)),
{
}

/// A link that is handed out now is valid from five minutes before an instant that the
/// clock gave until so many seconds after an instant that the clock gave, points at the
/// blob, and is signed with the key for just that.
pub proof fn law_links_are_handed_out_now(
    store: BlobStore,
    key: DelegationKey,
    path: &str,
    ttl_seconds: u64,
    download: Option<&str>,
    r: Result<Option<String>, StorageError>,
)
    requires
        call_ensures(BlobStore::read_url, (&store, &key, path, ttl_seconds, download), r),
    ensures
        r is Ok,
        r matches Ok(Some(url)) ==> exists|first: Timestamp, second: Timestamp|
            {
                &&& #[trigger] clock::clock_read(first)
                &&& #[trigger] clock::clock_read(second)
                &&& url@ == read_link(
                    store.account@,
                    store.container@,
                    path@,
                    key@,
                    first@ - 300_000_000_000,
                    second@ + ttl_seconds * 1_000_000_000,
                    match download {
                        Some(name) => Some(name@),
                        None => None,
                    },
                )
            },
{
}

/// A link made at two readings of the clock is valid from five minutes before the first
/// until so many seconds after the second, as long as both ends lie on the calendar.
pub proof fn law_links_last_as_long_as_asked(
    store: BlobStore,
    key: DelegationKey,
    path: &str,
    first: Timestamp,
    second: Timestamp,
    ttl_seconds: u64,
    download: Option<&str>,
    r: Result<Option<String>, StorageError>,
)
    requires
        call_ensures(
            BlobStore::read_url_at,
            (&store, &key, path, &first, &second, ttl_seconds, download),
            r,
        ),
    ensures
        r is Ok,
        r->Ok_0 is Some <==> clock::on_calendar(first@ - 300_000_000_000) && clock::on_calendar(
            second@ + ttl_seconds * 1_000_000_000,
        ),
        r matches Ok(Some(url)) ==> url@ == read_link(
            store.account@,
            store.container@,
            path@,
            key@,
            first@ - 300_000_000_000,
            second@ + ttl_seconds * 1_000_000_000,
            match download {
                Some(name) => Some(name@),
                None => None,
            },
        ),
{
}

/// A key is asked for from an instant that the clock gave, for six hours.
pub proof fn law_keys_are_asked_for_six_hours(store: BlobStore, r: Option<KeyRequest>)
    requires
        call_ensures(BlobStore::fetch_delegation_key, (&store,), r),
    ensures
        r matches Some(request) ==> exists|now: Timestamp|
            {
                &&& #[trigger] clock::clock_read(now)
                &&& request.expiry@ == now@ + 21_600_000_000_000
                &&& request.call@ == key_call(
                    store.account@,
                    now@,
                    now@ + 21_600_000_000_000,
                )
            },
{
}

/// A link is the address of the blob, a question mark, and the signed pairs, each with its
/// value encoded and an ampersand between each two.
pub proof fn law_links_are_an_address_and_pairs(
    account: Seq<char>,
    container: Seq<char>,
    path: Seq<char>,
    key: DelegationKeyView,
    start: int,
    expiry: int,
    download: Option<Seq<char>>,
    parts: Seq<Seq<char>>,
)
    requires
        ({
            let pairs = sas::query_pairs(
                key,
                grant_for(account, container, path, start, expiry, download),
            );
            &&& parts.len() == pairs.len()
            &&& forall|i: int|
                0 <= i < parts.len() ==> #[trigger] parts[i] == pairs[i].0 + "="@
                    + crate::text::percent::percent_encoded(pairs[i].1)
        }),
    ensures
        read_link(account, container, path, key, start, expiry, download) == "https://"@ + account
            + ".blob.core.windows.net"@ + "/"@ + container + "/"@ + path + "?"@ + chars::joined(
            parts,
            "&"@,
        ),
{
    let pairs = sas::query_pairs(
        key,
        grant_for(account, container, path, start, expiry, download),
    );
    assert(parts =~= pairs.map_values(|p: (Seq<char>, Seq<char>)| sas::query_part(p)));
}

/// What is asked of the service for a file: to store these bytes under this path with this
/// type, or to delete what is there.
pub proof fn law_files_are_stored_and_deleted(
    store: BlobStore,
    path: &str,
    content_type: &str,
    bytes: Vec<u8>,
    put: BlobCall,
    delete: BlobCall,
)
    requires
        call_ensures(BlobStore::upload, (&store, path, content_type, bytes), put),
        call_ensures(BlobStore::delete, (&store, path), delete),
    ensures
        put@.method == BlobMethod::Put && delete@.method == BlobMethod::Delete,
        put@.url == "https://"@ + store.account@ + ".blob.core.windows.net/"@ + store.container@
            + "/"@ + path@,
        delete@.url == put@.url,
        put@.body == BlobBodyView::Bytes(bytes@),
        put@.headers.contains(("content-type"@, content_type@)),
        delete@.body == BlobBodyView::Empty,
{
    law_blobs_are_put_where_they_are_read(
        store.account@,
        store.container@,
        path@,
        content_type@,
        bytes@,
    );
}

/// Storing worked exactly on a status of success, and deleting also where there was nothing
/// to delete.
pub proof fn law_outcomes_follow_the_status(
    status: u16,
    body: &str,
    stored: Result<(), StorageError>,
    deleted: Result<(), StorageError>,
)
    requires
        call_ensures(upload_outcome, (status, body), stored),
        call_ensures(delete_outcome, (status,), deleted),
    ensures
        stored is Ok <==> 200 <= status <= 299,
        deleted is Ok <==> 200 <= status <= 299 || status == 404,
        stored matches Err(error) ==> error is Blob,
        deleted matches Err(error) ==> error is Blob,
{
}

/// A link between two instants, and the request for a key from an instant on, are for just
/// these instants: a key is asked for for six hours, as long as the calendar reaches that
/// far.
pub proof fn law_instants_are_used_as_given(
    store: BlobStore,
    key: DelegationKey,
    path: &str,
    start: Timestamp,
    expiry: Timestamp,
    download: Option<&str>,
    link: Result<String, StorageError>,
    request: Option<KeyRequest>,
)
    requires
        clock::on_calendar(start@),
        clock::on_calendar(expiry@),
        call_ensures(
            BlobStore::signed_url,
            (&store, &key, path, &start, &expiry, download),
            link,
        ),
        call_ensures(BlobStore::key_request, (&store, &start), request),
    ensures
        link matches Ok(url) && url@ == "https://"@ + store.account@ + ".blob.core.windows.net"@
            + "/"@ + store.container@ + "/"@ + path@ + "?"@ + sas::query_text(
            key@,
            (sas::Grant {
                resource: "/blob/"@ + store.account@ + "/"@ + store.container@ + "/"@ + path@,
                start: clock::civil(start@).text(),
                expiry: clock::civil(expiry@).text(),
                disposition: match download {
                    Some(name) => "attachment; filename=\""@ + sas::escaped(name@) + "\""@,
                    None => ""@,
                },
            }),
        ),
        request is Some <==> clock::on_calendar(start@ + 21_600_000_000_000),
        request matches Some(asked) ==> {
            &&& asked.expiry@ == start@ + 21_600_000_000_000
            &&& asked.call@ == key_call(store.account@, start@, start@ + 21_600_000_000_000)
        },
{
}

/// An answer to the request for a key gives one exactly when its status says success and it
/// holds a complete key.
pub proof fn law_keys_are_accepted(
    status: u16,
    body: &str,
    expiry: Timestamp,
    r: Result<DelegationKey, StorageError>,
)
    requires
        100 <= status <= 999,
        call_ensures(accept_key, (status, body, &expiry), r),
    ensures
        r is Ok <==> 200 <= status <= 299 && delegation::delegation_key_of(
            body@,
            expiry@,
        ) is Ok,
        r matches Ok(key) ==> key@ == delegation::delegation_key_of(body@, expiry@)->Ok_0,
        r matches Err(error) ==> error is Blob,
{
}

/// A store is assembled exactly when its credential and its client could be built, and is
/// for the account and the container that were named.
pub proof fn law_stores_are_assembled(
    account: &str,
    container: &str,
    in_azure: bool,
    credential: Result<EntraCredential, String>,
    http: Result<reqwest::Client, String>,
    r: Result<BlobStore, StorageError>,
    token: Result<String, String>,
    accepted: Result<String, StorageError>,
)
    requires
        call_ensures(BlobStore::assemble, (account, container, in_azure, credential, http), r),
        call_ensures(accept_token, (token,), accepted),
    ensures
        r is Ok <==> credential is Ok && http is Ok,
        r matches Ok(store) ==> {
            &&& store.account@ == account@
            &&& store.container@ == container@
            &&& store.credential == credential->Ok_0
            &&& store.http == http->Ok_0
        },
        r matches Err(error) ==> error is Blob,
        token matches Ok(t) ==> accepted == Ok::<String, StorageError>(t),
        token matches Err(detail) ==> (accepted matches Err(error) && error@
            == StorageErrorView::Blob("could not acquire a token: "@ + detail@)),
{
}

/// A store for an account and a container uses the Managed Identity in Azure and the
/// developer's own session elsewhere, and a client that gives each call two minutes.
pub proof fn law_stores_are_built_for_their_place(
    account: &str,
    container: &str,
    in_azure: bool,
    r: Result<BlobStore, StorageError>,
)
    requires
        call_ensures(BlobStore::new, (account, container, in_azure), r),
    ensures
        r matches Ok(store) ==> {
            &&& store.account@ == account@
            &&& store.container@ == container@
            &&& in_azure <==> store.credential is ManagedIdentity
            &&& !in_azure <==> store.credential is DeveloperTools
            &&& in_azure ==> azure::identity_tried(Ok(store.credential))
            &&& http::redirecting_client_made(120, Ok(store.http))
            &&& http::call_seconds(store.http) == 120
        },
        r matches Err(error) ==> {
            ||| in_azure && exists|detail: String| #[trigger]
                azure::identity_tried(Err(detail)) && error@ == StorageErrorView::Blob(
                    "managed identity unavailable: "@ + detail@,
                )
            ||| exists|detail: String| #[trigger]
                http::redirecting_client_made(120, Err(detail)) && error@
                    == StorageErrorView::Blob(detail@)
        },
{
    let (credential, http) = choose|
        credential: Result<EntraCredential, String>,
        http: Result<reqwest::Client, String>,
    |
        (credential matches Ok(c) ==> (if in_azure {
            c is ManagedIdentity
        } else {
            c is DeveloperTools
        })) && (credential is Ok || in_azure) && (in_azure ==> azure::identity_tried(credential))
            && http::redirecting_client_made(BLOB_TIMEOUT_SECONDS, http) && store_from(
            account@,
            container@,
            #[trigger] store_result(in_azure, credential, http),
            r,
        );
    assert(http::redirecting_client_made(120, http));
    if let Err(detail) = credential {
        assert(azure::identity_tried(Err(detail)));
    } else if let Err(detail) = http {
        assert(http::redirecting_client_made(120, Err(detail)));
    }
}

} // verus!
