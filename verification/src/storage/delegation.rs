//! User delegation keys: reading them out of an answer, and knowing when to
//! replace them.
use vstd::prelude::*;
use vstd::string::*;

use crate::clock;
use crate::clock::{parse_iso8601, read_clock, Timestamp};
use crate::encoding;
use crate::encoding::decode_base64;
use crate::storage::error::{StorageError, StorageErrorView};
use crate::text::chars;
use crate::text::chars::{chars_of, concat_text, find_text};
use crate::text::unicode;
use crate::text::unicode::trim_text;

verus! {

/// The delegation key is refreshed this long before it expires, in seconds.
pub const DELEGATION_KEY_SKEW_SECONDS: i64 = 600;

/// A user delegation key, with the fields the signature needs.
#[derive(Debug)]
pub struct DelegationKey {
    /// Identity that the key was issued to.
    pub signed_oid: String,
    /// Tenant of that identity.
    pub signed_tid: String,
    /// When the key starts being valid.
    pub signed_start: String,
    /// When it stops.
    pub signed_expiry: String,
    /// Service it is for.
    pub signed_service: String,
    /// API version it was issued by.
    pub signed_version: String,
    /// The key itself.
    pub value: Vec<u8>,
    /// When it stops being valid, as an instant.
    pub expires_at: Timestamp,
}

/// A user delegation key as sequences.
#[verifier::ext_equal]
pub struct DelegationKeyView {
    /// Identity that the key was issued to.
    pub signed_oid: Seq<char>,
    /// Tenant of that identity.
    pub signed_tid: Seq<char>,
    /// When the key starts being valid.
    pub signed_start: Seq<char>,
    /// When it stops.
    pub signed_expiry: Seq<char>,
    /// Service it is for.
    pub signed_service: Seq<char>,
    /// API version it was issued by.
    pub signed_version: Seq<char>,
    /// The key itself.
    pub value: Seq<u8>,
    /// When it stops being valid, in nanoseconds since 1970.
    pub expires_at: int,
}

impl View for DelegationKey {
    type V = DelegationKeyView;

    open spec fn view(&self) -> DelegationKeyView {
        DelegationKeyView {
            signed_oid: self.signed_oid@,
            signed_tid: self.signed_tid@,
            signed_start: self.signed_start@,
            signed_expiry: self.signed_expiry@,
            signed_service: self.signed_service@,
            signed_version: self.signed_version@,
            value: self.value@,
            expires_at: self.expires_at@,
        }
    }
}

/// At `now` a key that expires at `expires_at` is close enough to its expiry to be
/// replaced.
pub open spec fn stale(expires_at: int, now: int) -> bool {
    now + DELEGATION_KEY_SKEW_SECONDS * clock::NANOS_PER_SECOND >= expires_at
}

impl DelegationKey {
    /// Whether at `now` the key is close enough to expiry to replace.
    pub fn is_stale_at(&self, now: &Timestamp) -> (r: bool)
        ensures
            r == stale(self@.expires_at, now@),
    {
        now.unix_nanos() + 600_000_000_000 >= self.expires_at.unix_nanos()
    }

    /// Returns `true` when the key is close enough to expiry to replace.
    pub fn is_stale(&self) -> (r: bool)
        ensures
            exists|now: Timestamp|
                #[trigger] clock::clock_read(now) && clock::on_calendar(now@) && r == stale(
                    self@.expires_at,
                    now@,
                ),
    {
        let now: Timestamp = read_clock();
        self.is_stale_at(&now)
    }
}

/// The cached delegation key, unless there is none or it is due for replacement
/// at `now`.
pub fn usable_key<'a>(cached: &'a Option<DelegationKey>, now: &Timestamp) -> (r: Option<
    &'a DelegationKey,
>)
    ensures
        match *cached {
            Some(key) => if stale(key@.expires_at, now@) {
                r is None
            } else {
                r == Some(&key)
            },
            None => r is None,
        },
{
    match cached {
        Some(key) => if key.is_stale_at(now) {
            None
        } else {
            Some(key)
        },
        None => None,
    }
}

/// A key is replaced while it still has time to run, never only after it has
/// expired.
pub proof fn law_keys_are_replaced_early(expires_at: int, now: int)
    ensures
        !stale(expires_at, now) ==> expires_at - now > DELEGATION_KEY_SKEW_SECONDS
            * clock::NANOS_PER_SECOND,
        now >= expires_at ==> stale(expires_at, now),
{
}

/// The text between the first `<name>` and the first `</name>` behind it, trimmed.
pub open spec fn element_text(xml: Seq<char>, name: Seq<char>) -> Option<Seq<char>> {
    let open = "<"@ + name + ">"@;
    let close = "</"@ + name + ">"@;
    match chars::first_occurrence(xml, open, 0) {
        Some(i) => match chars::first_occurrence(xml, close, i + open.len()) {
            Some(j) => Some(unicode::trimmed(xml.subrange(i + open.len(), j))),
            None => None,
        },
        None => None,
    }
}

/// Returns the text content of the first `<name>` element.
pub fn element(xml: &str, name: &str) -> (r: Option<String>)
    ensures
        match element_text(xml@, name@) {
            Some(text) => r matches Some(s) && s@ == text,
            None => r is None,
        },
{
    let mut open = concat_text("<", name);
    open.append(">");
    let mut close = concat_text("</", name);
    close.append(">");
    let text: Vec<char> = chars_of(xml);
    let open_chars: Vec<char> = chars_of(open.as_str());
    let close_chars: Vec<char> = chars_of(close.as_str());
    match find_text(text.as_slice(), open_chars.as_slice(), 0) {
        Some(i) => {
            let length: usize = text.len();
            assert(i + open_chars@.len() <= length);
            let start: usize = i + open_chars.len();
            match find_text(text.as_slice(), close_chars.as_slice(), start) {
                Some(end) => Some(trim_text(xml.substring_char(start, end)).to_owned()),
                None => None,
            }
        },
        None => None,
    }
}

/// An element reads back as the content it was written with, trimmed, when
/// nothing before it opens an element of that name and the content does not close
/// it.
pub proof fn law_elements_read_back(
    before: Seq<char>,
    name: Seq<char>,
    content: Seq<char>,
    after: Seq<char>,
)
    requires
        forall|i: int|
            0 <= i < before.len() ==> !#[trigger] chars::occurs_at(
                before + ("<"@ + name + ">"@) + content + ("</"@ + name + ">"@) + after,
                "<"@ + name + ">"@,
                i,
            ),
        forall|i: int|
            0 <= i < content.len() ==> !#[trigger] chars::occurs_at(
                content + ("</"@ + name + ">"@),
                "</"@ + name + ">"@,
                i,
            ),
    ensures
        element_text(
            before + ("<"@ + name + ">"@) + content + ("</"@ + name + ">"@) + after,
            name,
        ) == Some(unicode::trimmed(content)),
{
    let open = "<"@ + name + ">"@;
    let close = "</"@ + name + ">"@;
    let xml = before + open + content + close + after;
    let n = before.len() as int;
    let start = n + open.len();
    let end = start + content.len();
    chars::lemma_first_occurrence(xml, open, 0);
    assert(xml.subrange(n, n + open.len()) =~= open);
    assert(chars::occurs_at(xml, open, n));
    assert(chars::first_occurrence(xml, open, 0) == Some(n));
    chars::lemma_first_occurrence(xml, close, start);
    assert(xml.subrange(end, end + close.len()) =~= close);
    assert(chars::occurs_at(xml, close, end));
    assert forall|j: int| start <= j < end implies !#[trigger] chars::occurs_at(xml, close, j) by {
        let k = j - start;
        assert(!chars::occurs_at(content + close, close, k));
        assert((content + close).subrange(k, k + close.len()) =~= xml.subrange(
            j,
            j + close.len(),
        ));
    }
    assert(chars::first_occurrence(xml, close, start) == Some(end));
    assert(xml.subrange(start, end) =~= content);
}

/// The error for a field that an answer does not have.
pub open spec fn missing_field(name: Seq<char>) -> StorageErrorView {
    StorageErrorView::Blob("delegation key response had no <"@ + name + ">"@)
}

/// The fields of a delegation key that are kept as text, given the rest of it: its
/// expiry as text and as an instant, and the key itself.
pub open spec fn key_fields(
    xml: Seq<char>,
    signed_expiry: Seq<char>,
    expires_at: int,
    value: Seq<u8>,
) -> Result<DelegationKeyView, StorageErrorView> {
    match element_text(xml, "SignedOid"@) {
        None => Err(missing_field("SignedOid"@)),
        Some(signed_oid) => match element_text(xml, "SignedTid"@) {
            None => Err(missing_field("SignedTid"@)),
            Some(signed_tid) => match element_text(xml, "SignedStart"@) {
                None => Err(missing_field("SignedStart"@)),
                Some(signed_start) => match element_text(xml, "SignedService"@) {
                    None => Err(missing_field("SignedService"@)),
                    Some(signed_service) => match element_text(xml, "SignedVersion"@) {
                        None => Err(missing_field("SignedVersion"@)),
                        Some(signed_version) => Ok(
                            DelegationKeyView {
                                signed_oid,
                                signed_tid,
                                signed_start,
                                signed_expiry,
                                signed_service,
                                signed_version,
                                value,
                                expires_at,
                            },
                        ),
                    },
                },
            },
        },
    }
}

/// The delegation key of an answer, given what its expiry and its value read as.
pub open spec fn key_given(
    xml: Seq<char>,
    signed_expiry: Seq<char>,
    fallback_expiry: int,
    instant: Option<int>,
    decoded: Result<Seq<u8>, Seq<char>>,
) -> Result<DelegationKeyView, StorageErrorView> {
    match decoded {
        Err(detail) => Err(
            StorageErrorView::Blob("delegation key was not base64: "@ + detail),
        ),
        Ok(value) => key_fields(
            xml,
            signed_expiry,
            match instant {
                Some(t) => t,
                None => fallback_expiry,
            },
            value,
        ),
    }
}

/// The delegation key of an answer.
pub open spec fn delegation_key_of(xml: Seq<char>, fallback_expiry: int) -> Result<
    DelegationKeyView,
    StorageErrorView,
> {
    match element_text(xml, "SignedExpiry"@) {
        None => Err(missing_field("SignedExpiry"@)),
        Some(expiry) => match element_text(xml, "Value"@) {
            None => Err(missing_field("Value"@)),
            Some(value) => key_given(
                xml,
                expiry,
                fallback_expiry,
                clock::iso8601_instant(expiry),
                encoding::base64_decoded(value),
            ),
        },
    }
}

/// Reads a field that has to be there.
fn field(xml: &str, name: &str) -> (r: Result<String, StorageError>)
    ensures
        match element_text(xml@, name@) {
            Some(text) => r matches Ok(s) && s@ == text,
            None => r matches Err(error) && error@ == missing_field(name@),
        },
{
    match element(xml, name) {
        Some(text) => Ok(text),
        None => {
            let mut detail = concat_text("delegation key response had no <", name);
            detail.append(">");
            Err(StorageError::Blob(detail))
        },
    }
}

/// Builds the delegation key of an answer, given what its expiry and its value
/// read as.
///
/// # Errors
///
/// Returns an error when the value could not be decoded or a field is missing.
pub fn build_delegation_key(
    xml: &str,
    signed_expiry: String,
    fallback_expiry: &Timestamp,
    instant: Option<Timestamp>,
    decoded: Result<Vec<u8>, String>,
) -> (r: Result<DelegationKey, StorageError>)
    ensures
        match key_given(
            xml@,
            signed_expiry@,
            fallback_expiry@,
            match instant {
                Some(t) => Some(t@),
                None => None,
            },
            match decoded {
                Ok(value) => Ok(value@),
                Err(detail) => Err(detail@),
            },
        ) {
            Ok(view) => r matches Ok(key) && key@ == view,
            Err(e) => r matches Err(error) && error@ == e,
        },
{
    let expires_at: Timestamp = match instant {
        Some(t) => t,
        None => *fallback_expiry,
    };
    let value: Vec<u8> = match decoded {
        Ok(value) => value,
        Err(detail) => {
            return Err(
                StorageError::Blob(concat_text("delegation key was not base64: ", detail.as_str())),
            );
        },
    };
    let signed_oid: String = match field(xml, "SignedOid") {
        Ok(text) => text,
        Err(error) => {
            return Err(error);
        },
    };
    let signed_tid: String = match field(xml, "SignedTid") {
        Ok(text) => text,
        Err(error) => {
            return Err(error);
        },
    };
    let signed_start: String = match field(xml, "SignedStart") {
        Ok(text) => text,
        Err(error) => {
            return Err(error);
        },
    };
    let signed_service: String = match field(xml, "SignedService") {
        Ok(text) => text,
        Err(error) => {
            return Err(error);
        },
    };
    let signed_version: String = match field(xml, "SignedVersion") {
        Ok(text) => text,
        Err(error) => {
            return Err(error);
        },
    };
    Ok(
        DelegationKey {
            signed_oid,
            signed_tid,
            signed_start,
            signed_expiry,
            signed_service,
            signed_version,
            value,
            expires_at,
        },
    )
}

/// Pulls the delegation key fields out of the XML response.
///
/// A reader of its own: the document has seven known elements and no attributes or
/// namespaces to speak of. An expiry that is no date falls back to the one that
/// was asked for.
///
/// # Errors
///
/// Returns an error when a field is missing or the key is not Base64.
pub fn parse_delegation_key(xml: &str, fallback_expiry: &Timestamp) -> (r: Result<
    DelegationKey,
    StorageError,
>)
    ensures
        match delegation_key_of(xml@, fallback_expiry@) {
            Ok(view) => r matches Ok(key) && key@ == view,
            Err(e) => r matches Err(error) && error@ == e,
        },
{
    let signed_expiry: String = match field(xml, "SignedExpiry") {
        Ok(text) => text,
        Err(error) => {
            return Err(error);
        },
    };
    let instant: Option<Timestamp> = parse_iso8601(signed_expiry.as_str());
    let value: String = match field(xml, "Value") {
        Ok(text) => text,
        Err(error) => {
            return Err(error);
        },
    };
    let decoded: Result<Vec<u8>, String> = decode_base64(value.as_str());
    build_delegation_key(xml, signed_expiry, fallback_expiry, instant, decoded)
}

/// Every one of the seven fields has to be there: a key is only ever read out of
/// an answer that has them all.
pub proof fn law_no_field_is_made_up(xml: Seq<char>, fallback_expiry: int)
    requires
        delegation_key_of(xml, fallback_expiry) is Ok,
    ensures
        element_text(xml, "SignedOid"@) == Some(
            delegation_key_of(xml, fallback_expiry)->Ok_0.signed_oid,
        ),
        element_text(xml, "SignedTid"@) == Some(
            delegation_key_of(xml, fallback_expiry)->Ok_0.signed_tid,
        ),
        element_text(xml, "SignedStart"@) == Some(
            delegation_key_of(xml, fallback_expiry)->Ok_0.signed_start,
        ),
        element_text(xml, "SignedExpiry"@) == Some(
            delegation_key_of(xml, fallback_expiry)->Ok_0.signed_expiry,
        ),
        element_text(xml, "SignedService"@) == Some(
            delegation_key_of(xml, fallback_expiry)->Ok_0.signed_service,
        ),
        element_text(xml, "SignedVersion"@) == Some(
            delegation_key_of(xml, fallback_expiry)->Ok_0.signed_version,
        ),
        element_text(xml, "Value"@) is Some,
{
}

/// A key is due for replacement exactly when no more than ten minutes are left of it.
pub proof fn law_ten_minutes_are_left(expires_at: int, now: int)
    ensures
        stale(expires_at, now) <==> expires_at - now <= 600_000_000_000,
{
}

/// An answer gives a key exactly when it holds all seven elements and the value decodes.
/// The key is then worth what was decoded, and expires at the instant that the answer
/// names, or where that cannot be read, when it was asked to.
pub proof fn law_complete_answers_give_a_key(xml: Seq<char>, fallback_expiry: int)
    ensures
        delegation_key_of(xml, fallback_expiry) is Ok <==> {
            &&& element_text(xml, "SignedOid"@) is Some
            &&& element_text(xml, "SignedTid"@) is Some
            &&& element_text(xml, "SignedStart"@) is Some
            &&& element_text(xml, "SignedExpiry"@) is Some
            &&& element_text(xml, "SignedService"@) is Some
            &&& element_text(xml, "SignedVersion"@) is Some
            &&& element_text(xml, "Value"@) is Some
            &&& encoding::base64_decoded(element_text(xml, "Value"@)->0) is Ok
        },
        delegation_key_of(xml, fallback_expiry) matches Ok(key) ==> {
            &&& key.value == encoding::base64_decoded(element_text(xml, "Value"@)->0)->Ok_0
            &&& clock::iso8601_instant(key.signed_expiry) matches Some(t) ==> key.expires_at == t
            &&& clock::iso8601_instant(key.signed_expiry) is None ==> key.expires_at
                == fallback_expiry
        },
{
}

/// Why an answer gives no key: an element is missing, and the error names it, or the
/// value does not decode, and the error says so.
pub proof fn law_incomplete_answers_name_the_fault(xml: Seq<char>, fallback_expiry: int)
    requires
        delegation_key_of(xml, fallback_expiry) is Err,
    ensures
        ({
            let error = delegation_key_of(xml, fallback_expiry)->Err_0;
            let value = element_text(xml, "Value"@);
            ||| value is Some && encoding::base64_decoded(value->0) is Err && error
                == StorageErrorView::Blob(
                "delegation key was not base64: "@ + encoding::base64_decoded(value->0)->Err_0,
            )
            ||| exists|name: Seq<char>|
                #[trigger] element_text(xml, name) is None && error == StorageErrorView::Blob(
                    "delegation key response had no <"@ + name + ">"@,
                )
        }),
{
    assert(element_text(xml, "SignedOid"@) is None || element_text(xml, "SignedTid"@) is None
        || element_text(xml, "SignedStart"@) is None || element_text(xml, "SignedExpiry"@) is None
        || element_text(xml, "SignedService"@) is None || element_text(
        xml,
        "SignedVersion"@,
    ) is None || element_text(xml, "Value"@) is None || encoding::base64_decoded(
        element_text(xml, "Value"@)->0,
    ) is Err);
}

/// A cached key is used exactly when more than ten minutes are left of it.
pub proof fn law_fresh_keys_are_used(
    key: DelegationKey,
    now: Timestamp,
    due: bool,
    kept: Option<&DelegationKey>,
)
    requires
        call_ensures(DelegationKey::is_stale_at, (&key, &now), due),
        call_ensures(usable_key, (&Some(key), &now), kept),
    ensures
        due <==> key@.expires_at - now@ <= 600_000_000_000,
        kept is Some <==> key@.expires_at - now@ > 600_000_000_000,
        kept matches Some(used) ==> *used == key,
{
}

/// Whether a key is due for replacement is decided at an instant that the clock gave.
pub proof fn law_keys_are_judged_now(key: DelegationKey, due: bool)
    requires
        call_ensures(DelegationKey::is_stale, (&key,), due),
    ensures
        exists|now: Timestamp|
            #[trigger] clock::clock_read(now) && due == (key@.expires_at - now@
                <= 600_000_000_000),
{
}

/// A key is read out of an answer exactly when that is complete, each field from its own
/// element.
pub proof fn law_keys_are_read_field_by_field(
    xml: &str,
    fallback_expiry: Timestamp,
    r: Result<DelegationKey, StorageError>,
)
    requires
        call_ensures(parse_delegation_key, (xml, &fallback_expiry), r),
    ensures
        r matches Ok(key) ==> {
            &&& element_text(xml@, "SignedOid"@) == Some(key@.signed_oid)
            &&& element_text(xml@, "SignedTid"@) == Some(key@.signed_tid)
            &&& element_text(xml@, "SignedStart"@) == Some(key@.signed_start)
            &&& element_text(xml@, "SignedExpiry"@) == Some(key@.signed_expiry)
            &&& element_text(xml@, "SignedService"@) == Some(key@.signed_service)
            &&& element_text(xml@, "SignedVersion"@) == Some(key@.signed_version)
            &&& encoding::base64_decoded(element_text(xml@, "Value"@)->0) == Ok::<
                Seq<u8>,
                Seq<char>,
            >(key@.value)
            &&& clock::iso8601_instant(key@.signed_expiry) matches Some(t) ==> key@.expires_at
                == t
            &&& clock::iso8601_instant(key@.signed_expiry) is None ==> key@.expires_at
                == fallback_expiry@
        },
        r is Ok <==> {
            &&& element_text(xml@, "SignedOid"@) is Some
            &&& element_text(xml@, "SignedTid"@) is Some
            &&& element_text(xml@, "SignedStart"@) is Some
            &&& element_text(xml@, "SignedExpiry"@) is Some
            &&& element_text(xml@, "SignedService"@) is Some
            &&& element_text(xml@, "SignedVersion"@) is Some
            &&& element_text(xml@, "Value"@) is Some
            &&& encoding::base64_decoded(element_text(xml@, "Value"@)->0) is Ok
        },
        r matches Err(error) ==> error is Blob,
{
    law_complete_answers_give_a_key(xml@, fallback_expiry@);
}

/// An element that is not opened, or is not closed behind where it is opened, is missing.
pub proof fn law_unmarked_elements_are_missing(xml: Seq<char>, name: Seq<char>)
    ensures
        !chars::has_text(xml, "<"@ + name + ">"@) ==> element_text(xml, name) is None,
        !chars::has_text(xml, "</"@ + name + ">"@) ==> element_text(xml, name) is None,
{
    let open = "<"@ + name + ">"@;
    let close = "</"@ + name + ">"@;
    chars::lemma_first_occurrence(xml, open, 0);
    if let Some(i) = chars::first_occurrence(xml, open, 0) {
        chars::lemma_first_occurrence(xml, close, i + open.len());
    }
}

} // verus!
