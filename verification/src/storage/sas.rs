//! Shared access signatures: the text that is signed, and the query that carries
//! it.
use vstd::prelude::*;
use vstd::string::*;

use crate::encoding;
use crate::encoding::encode_base64;
use crate::storage::delegation::{DelegationKey, DelegationKeyView};
use crate::storage::error::StorageError;
use crate::text::chars;
use crate::text::chars::{chars_of, concat_text, join_text};
use crate::text::percent;
use crate::text::percent::percent_encode;

verus! {

/// Storage REST API version the requests declare.
///
/// Both the delegation key request and the SAS signature are tied to this value:
/// the signed string layout is version-specific, so it must be the same in both
/// places.
pub const API_VERSION: &'static str = "2025-05-05";

/// The HMAC of a message under a key, with SHA-256.
pub uninterp spec fn hmac_sha256(key: Seq<u8>, message: Seq<u8>) -> Seq<u8>;

/// `hmac::Hmac` over `sha2::Sha256`: `new_from_slice` takes a key of any length,
/// and what `finalize` gives after one `update` depends on the key and the message
/// alone.
#[verifier::external_body]
fn mac_sha256(key: &[u8], message: &[u8]) -> (r: Vec<u8>)
    ensures
        r@ == hmac_sha256(key@, message@),
{
    let mut mac = <hmac::Hmac<sha2::Sha256> as hmac::KeyInit>::new_from_slice(key).unwrap();
    hmac::Mac::update(&mut mac, message);
    hmac::Mac::finalize(mac).into_bytes().to_vec()
}

/// The signature of a text: the HMAC of its UTF-8 bytes, in Base64.
pub open spec fn signature(key: Seq<u8>, text: Seq<char>) -> Seq<char> {
    encoding::base64_text(hmac_sha256(key, vstd::utf8::encode_utf8(text)))
}

/// Signs a string with the delegation key.
///
/// # Errors
///
/// Never: a key of any length can sign.
pub fn sign(key: &[u8], string_to_sign: &str) -> (r: Result<String, StorageError>)
    ensures
        r matches Ok(s) && s@ == signature(key@, string_to_sign@),
{
    let mac: Vec<u8> = mac_sha256(key, string_to_sign.as_bytes());
    Ok(encode_base64(mac.as_slice()))
}

/// Percent-encodes a SAS query value.
///
/// The signature is Base64 and routinely contains `+`, `/` and `=`, every one of
/// which changes meaning if it reaches the URL unencoded.
pub fn encode(value: &str) -> (r: String)
    ensures
        r@ == percent::percent_encoded(value@),
{
    percent_encode(value)
}

/// The name that storage signs a blob under.
pub open spec fn canonical_resource(
    account: Seq<char>,
    container: Seq<char>,
    path: Seq<char>,
) -> Seq<char> {
    "/blob/"@ + account + "/"@ + container + "/"@ + path
}

/// A character that has to be escaped inside a quoted string of a header.
pub open spec fn needs_escape(c: char) -> bool {
    c == '"' || c == '\\'
}

/// A text as it stands inside a quoted string of a header: a backslash goes before
/// every quote and every backslash.
pub open spec fn escaped(s: Seq<char>) -> Seq<char>
    decreases s.len(),
{
    if s.len() == 0 {
        Seq::empty()
    } else if needs_escape(s.last()) {
        escaped(s.drop_last()).push('\\').push(s.last())
    } else {
        escaped(s.drop_last()).push(s.last())
    }
}

/// What a quoted string of a header says, read from behind its opening quote up to
/// the first quote that is not escaped.
pub open spec fn quoted_content(s: Seq<char>) -> Option<Seq<char>>
    decreases s.len(),
{
    if s.len() == 0 {
        None
    } else if s[0] == '"' {
        Some(Seq::empty())
    } else if s[0] == '\\' {
        if s.len() == 1 {
            None
        } else {
            match quoted_content(s.skip(2)) {
                Some(rest) => Some(seq![s[1]] + rest),
                None => None,
            }
        }
    } else {
        match quoted_content(s.skip(1)) {
            Some(rest) => Some(seq![s[0]] + rest),
            None => None,
        }
    }
}

/// The `Content-Disposition` that makes a browser save the file under a name;
/// empty when the link is to be shown rather than saved.
pub open spec fn disposition(download: Option<Seq<char>>) -> Seq<char> {
    match download {
        Some(name) => "attachment; filename=\""@ + escaped(name) + "\""@,
        None => ""@,
    }
}

/// What a read link grants: which blob, from when, until when, and how the browser
/// is told to treat it.
pub struct Grant {
    /// The name that storage signs the blob under.
    pub resource: Seq<char>,
    /// From when the link is valid.
    pub start: Seq<char>,
    /// Until when.
    pub expiry: Seq<char>,
    /// `Content-Disposition`, or empty.
    pub disposition: Seq<char>,
}

/// The fields that are signed, in the order that storage fixes for a user
/// delegation SAS. Every field is present, empty where unused.
pub open spec fn signed_fields(key: DelegationKeyView, grant: Grant) -> Seq<Seq<char>> {
    seq![
        "r"@,
        grant.start,
        grant.expiry,
        grant.resource,
        key.signed_oid,
        key.signed_tid,
        key.signed_start,
        key.signed_expiry,
        key.signed_service,
        key.signed_version,
        ""@,
        ""@,
        ""@,
        ""@,
        ""@,
        API_VERSION@,
        "b"@,
        ""@,
        ""@,
        ""@,
        grant.disposition,
        ""@,
        ""@,
        ""@,
    ]
}

/// The text that is signed: the fields, one on each line.
pub open spec fn string_to_sign(key: DelegationKeyView, grant: Grant) -> Seq<char> {
    chars::joined(signed_fields(key, grant), "\n"@)
}

/// The names and values of the query of a read link. The disposition is only there
/// when it is not empty.
pub open spec fn query_pairs(key: DelegationKeyView, grant: Grant) -> Seq<(Seq<char>, Seq<char>)> {
    let common = seq![
        ("sv"@, API_VERSION@),
        ("sr"@, "b"@),
        ("st"@, grant.start),
        ("se"@, grant.expiry),
        ("sp"@, "r"@),
        ("skoid"@, key.signed_oid),
        ("sktid"@, key.signed_tid),
        ("skt"@, key.signed_start),
        ("ske"@, key.signed_expiry),
        ("sks"@, key.signed_service),
        ("skv"@, key.signed_version),
    ];
    let shown = if grant.disposition.len() > 0 {
        common.push(("rscd"@, grant.disposition))
    } else {
        common
    };
    shown.push(("sig"@, signature(key.value, string_to_sign(key, grant))))
}

/// One name and value of a query, the value encoded.
pub open spec fn query_part(pair: (Seq<char>, Seq<char>)) -> Seq<char> {
    pair.0 + "="@ + percent::percent_encoded(pair.1)
}

/// The query of a read link.
pub open spec fn query_text(key: DelegationKeyView, grant: Grant) -> Seq<char> {
    chars::joined(
        query_pairs(key, grant).map_values(|p: (Seq<char>, Seq<char>)| query_part(p)),
        "&"@,
    )
}

/// One name and value of a query, the value encoded.
fn pair(name: &str, value: &str) -> (r: String)
    ensures
        r@ == query_part((name@, value@)),
{
    let mut out = concat_text(name, "=");
    out.append(encode(value).as_str());
    out
}

/// The text that is signed.
fn text_to_sign(
    key: &DelegationKey,
    resource: &str,
    start: &str,
    expiry: &str,
    disposition: &str,
) -> (r: String)
    ensures
        r@ == string_to_sign(
            key@,
            (Grant {
                resource: resource@,
                start: start@,
                expiry: expiry@,
                disposition: disposition@,
            }),
        ),
{
    let ghost grant = Grant {
        resource: resource@,
        start: start@,
        expiry: expiry@,
        disposition: disposition@,
    };
    let mut fields: Vec<String> = Vec::new();
    fields.push("r".to_owned());
    fields.push(start.to_owned());
    fields.push(expiry.to_owned());
    fields.push(resource.to_owned());
    fields.push(key.signed_oid.clone());
    fields.push(key.signed_tid.clone());
    fields.push(key.signed_start.clone());
    fields.push(key.signed_expiry.clone());
    fields.push(key.signed_service.clone());
    fields.push(key.signed_version.clone());
    // Signed authorized user, signed unauthorized user, signed correlation id,
    // signed IP and signed protocol.
    fields.push("".to_owned());
    fields.push("".to_owned());
    fields.push("".to_owned());
    fields.push("".to_owned());
    fields.push("".to_owned());
    fields.push(API_VERSION.to_owned());
    fields.push("b".to_owned());
    // Signed snapshot time, signed encryption scope and `Cache-Control`.
    fields.push("".to_owned());
    fields.push("".to_owned());
    fields.push("".to_owned());
    fields.push(disposition.to_owned());
    // `Content-Encoding`, `Content-Language` and `Content-Type`.
    fields.push("".to_owned());
    fields.push("".to_owned());
    fields.push("".to_owned());
    assert(chars::texts(fields@) =~= signed_fields(key@, grant));
    join_text(&fields, "\n")
}

/// The query of a read link.
pub(crate) fn signed_query(
    key: &DelegationKey,
    resource: &str,
    start: &str,
    expiry: &str,
    disposition: &str,
) -> (r: Result<String, StorageError>)
    ensures
        r matches Ok(query) && query@ == query_text(
            key@,
            (Grant {
                resource: resource@,
                start: start@,
                expiry: expiry@,
                disposition: disposition@,
            }),
        ),
{
    let ghost grant = Grant {
        resource: resource@,
        start: start@,
        expiry: expiry@,
        disposition: disposition@,
    };
    let to_sign: String = text_to_sign(key, resource, start, expiry, disposition);
    let signed: String = match sign(key.value.as_slice(), to_sign.as_str()) {
        Ok(signed) => signed,
        Err(error) => {
            return Err(error);
        },
    };
    let mut parts: Vec<String> = Vec::new();
    parts.push(pair("sv", API_VERSION));
    parts.push(pair("sr", "b"));
    parts.push(pair("st", start));
    parts.push(pair("se", expiry));
    parts.push(pair("sp", "r"));
    parts.push(pair("skoid", key.signed_oid.as_str()));
    parts.push(pair("sktid", key.signed_tid.as_str()));
    parts.push(pair("skt", key.signed_start.as_str()));
    parts.push(pair("ske", key.signed_expiry.as_str()));
    parts.push(pair("sks", key.signed_service.as_str()));
    parts.push(pair("skv", key.signed_version.as_str()));
    if disposition.unicode_len() > 0 {
        parts.push(pair("rscd", disposition));
    }
    parts.push(pair("sig", signed.as_str()));
    assert(chars::texts(parts@) =~= query_pairs(key@, grant).map_values(
        |p: (Seq<char>, Seq<char>)| query_part(p),
    ));
    Ok(join_text(&parts, "&"))
}

/// A text as it stands inside a quoted string of a header.
pub fn escape(s: &str) -> (r: String)
    ensures
        r@ == escaped(s@),
{
    let text: Vec<char> = chars_of(s);
    let n: usize = text.len();
    let mut out = String::new();
    let mut i: usize = 0;
    while i < n
        invariant
            n == text@.len(),
            i <= n,
            out@ == escaped(text@.take(i as int)),
        decreases n - i,
    {
        let c: char = text[i];
        proof {
            let longer = text@.take(i as int + 1);
            assert(longer.drop_last() =~= text@.take(i as int));
            assert(longer.last() == c);
        }
        if c == '"' || c == '\\' {
            out.push('\\');
        }
        out.push(c);
        i = i + 1;
    }
    assert(text@.take(n as int) =~= text@);
    out
}

/// The `Content-Disposition` of a link.
pub(crate) fn disposition_text(download: Option<&str>) -> (r: String)
    ensures
        r@ == disposition(
            match download {
                Some(name) => Some(name@),
                None => None,
            },
        ),
{
    match download {
        Some(name) => {
            let mut out = concat_text("attachment; filename=\"", escape(name).as_str());
            out.append("\"");
            out
        },
        None => "".to_owned(),
    }
}

/// A quoted string that begins with escaped text says that text first.
proof fn lemma_escaped_content(name: Seq<char>, rest: Seq<char>)
    ensures
        quoted_content(escaped(name) + rest) == match quoted_content(rest) {
            Some(content) => Some(name + content),
            None => None,
        },
    decreases name.len(),
{
    if name.len() == 0 {
        assert(escaped(name) + rest =~= rest);
        if let Some(content) = quoted_content(rest) {
            assert(name + content =~= content);
        }
    } else {
        let c = name.last();
        let before = name.drop_last();
        let step = if needs_escape(c) {
            seq!['\\', c]
        } else {
            seq![c]
        };
        let later = step + rest;
        assert(escaped(name) + rest =~= escaped(before) + later);
        lemma_escaped_content(before, later);
        assert(later.skip(step.len() as int) =~= rest);
        if let Some(content) = quoted_content(rest) {
            assert(before + (seq![c] + content) =~= name + content);
        }
    }
}

/// Whatever a file is called, the quoted string of the disposition says its name and
/// ends where it is meant to end.
pub proof fn law_download_names_stay_quoted(name: Seq<char>)
    ensures
        disposition(Some(name)) == "attachment; filename=\""@ + (escaped(name) + "\""@),
        quoted_content(escaped(name) + "\""@) == Some(name),
{
    reveal_strlit("\"");
    assert(disposition(Some(name)) =~= "attachment; filename=\""@ + (escaped(name) + "\""@));
    lemma_escaped_content(name, "\""@);
    assert("\""@[0] == '"');
    assert(name + Seq::<char>::empty() =~= name);
}

/// What a link says is what was signed: version, resource kind, validity,
/// permission, key and disposition stand in the query as they stand in the text
/// that the signature covers.
pub proof fn law_links_say_what_was_signed(key: DelegationKeyView, grant: Grant)
    ensures
        query_pairs(key, grant)[0] == ("sv"@, signed_fields(key, grant)[15]),
        query_pairs(key, grant)[1] == ("sr"@, signed_fields(key, grant)[16]),
        query_pairs(key, grant)[2] == ("st"@, signed_fields(key, grant)[1]),
        query_pairs(key, grant)[3] == ("se"@, signed_fields(key, grant)[2]),
        query_pairs(key, grant)[4] == ("sp"@, signed_fields(key, grant)[0]),
        query_pairs(key, grant)[5] == ("skoid"@, signed_fields(key, grant)[4]),
        query_pairs(key, grant)[6] == ("sktid"@, signed_fields(key, grant)[5]),
        query_pairs(key, grant)[7] == ("skt"@, signed_fields(key, grant)[6]),
        query_pairs(key, grant)[8] == ("ske"@, signed_fields(key, grant)[7]),
        query_pairs(key, grant)[9] == ("sks"@, signed_fields(key, grant)[8]),
        query_pairs(key, grant)[10] == ("skv"@, signed_fields(key, grant)[9]),
        grant.disposition.len() > 0 ==> query_pairs(key, grant)[11] == (
            "rscd"@,
            signed_fields(key, grant)[20],
        ),
        query_pairs(key, grant).last() == (
            "sig"@,
            signature(key.value, string_to_sign(key, grant)),
        ),
{
}

/// A link lets whoever holds it read one blob and do nothing else, and the
/// signature covers that.
pub proof fn law_links_only_read(key: DelegationKeyView, grant: Grant)
    ensures
        signed_fields(key, grant)[0] == "r"@,
        signed_fields(key, grant)[16] == "b"@,
        signed_fields(key, grant)[3] == grant.resource,
        query_pairs(key, grant)[4] == ("sp"@, "r"@),
        query_pairs(key, grant)[1] == ("sr"@, "b"@),
{
}

/// Every field that is signed is free of newlines.
pub open spec fn single_lines(key: DelegationKeyView, grant: Grant) -> bool {
    forall|i: int|
        0 <= i < signed_fields(key, grant).len() ==> chars::free_of(
            #[trigger] signed_fields(key, grant)[i],
            '\n',
        )
}

/// The text that is signed settles what is granted: two grants whose fields are
/// single lines and whose texts agree are the same grant, under keys that were
/// issued to the same identity for the same time.
pub proof fn law_signed_text_settles_the_grant(
    key: DelegationKeyView,
    grant: Grant,
    other_key: DelegationKeyView,
    other: Grant,
)
    requires
        single_lines(key, grant),
        single_lines(other_key, other),
        string_to_sign(key, grant) == string_to_sign(other_key, other),
    ensures
        grant == other,
        key.signed_oid == other_key.signed_oid,
        key.signed_tid == other_key.signed_tid,
        key.signed_start == other_key.signed_start,
        key.signed_expiry == other_key.signed_expiry,
        key.signed_service == other_key.signed_service,
        key.signed_version == other_key.signed_version,
{
    reveal_strlit("\n");
    assert("\n"@ =~= seq!['\n']);
    let a = signed_fields(key, grant);
    let b = signed_fields(other_key, other);
    chars::law_joined_is_unambiguous(a, b, '\n');
    assert(a[1] == b[1] && a[2] == b[2] && a[3] == b[3] && a[4] == b[4] && a[5] == b[5] && a[6]
        == b[6] && a[7] == b[7] && a[8] == b[8] && a[9] == b[9] && a[20] == b[20]);
}

/// No value of a link can be mistaken for the separators of its query, and each
/// decodes to the bytes that were put in.
pub proof fn law_link_values_survive_the_url(pair: (Seq<char>, Seq<char>))
    ensures
        forall|i: int|
            0 <= i < percent::percent_encoded(pair.1).len() ==> percent::query_safe(
                #[trigger] percent::percent_encoded(pair.1)[i],
            ),
        percent::decoded_bytes(percent::percent_encoded(pair.1)) == Some(
            vstd::utf8::encode_utf8(pair.1),
        ),
{
    percent::law_encoding_is_query_safe(vstd::utf8::encode_utf8(pair.1));
    percent::law_encoding_reads_back(vstd::utf8::encode_utf8(pair.1));
}

/// What is signed, field by field, whatever the key and the grant: reading, the two ends
/// of the validity, the blob, the six fields of the key, the version of the service, that
/// it is a blob, and how it is to be shown. All the other fields are empty.
pub proof fn law_every_signed_field_has_its_place(key: DelegationKeyView, grant: Grant, i: int)
    ensures
        ({
            let fields = signed_fields(key, grant);
            &&& fields.len() == 24
            &&& fields[0] == "r"@
            &&& fields[1] == grant.start && fields[2] == grant.expiry
            &&& fields[3] == grant.resource
            &&& fields[4] == key.signed_oid && fields[5] == key.signed_tid
            &&& fields[6] == key.signed_start && fields[7] == key.signed_expiry
            &&& fields[8] == key.signed_service && fields[9] == key.signed_version
            &&& fields[15] == API_VERSION@ && fields[16] == "b"@
            &&& fields[20] == grant.disposition
            &&& 10 <= i <= 14 || 17 <= i <= 19 || 21 <= i <= 23 ==> fields[i] == ""@
        }),
        string_to_sign(key, grant) == chars::joined(signed_fields(key, grant), "\n"@),
{
}

/// Which pairs a link carries: eleven, then how the blob is to be shown exactly when that
/// is said, and the signature last.
pub proof fn law_links_carry_every_pair(key: DelegationKeyView, grant: Grant)
    ensures
        ({
            let pairs = query_pairs(key, grant);
            &&& pairs.len() == if grant.disposition.len() > 0 {
                13nat
            } else {
                12nat
            }
            &&& pairs[0] == ("sv"@, API_VERSION@) && pairs[1] == ("sr"@, "b"@)
            &&& pairs[2] == ("st"@, grant.start) && pairs[3] == ("se"@, grant.expiry)
            &&& pairs[4] == ("sp"@, "r"@)
            &&& pairs[5] == ("skoid"@, key.signed_oid) && pairs[6] == ("sktid"@, key.signed_tid)
            &&& pairs[7] == ("skt"@, key.signed_start) && pairs[8] == ("ske"@, key.signed_expiry)
            &&& pairs[9] == ("sks"@, key.signed_service)
            &&& pairs[10] == ("skv"@, key.signed_version)
            &&& pairs.last().0 == "sig"@
            &&& pairs.last().1 == encoding::base64_text(
                hmac_sha256(
                    key.value,
                    vstd::utf8::encode_utf8(chars::joined(signed_fields(key, grant), "\n"@)),
                ),
            )
        }),
        disposition(None) == ""@,
{
}

/// A name without quotes and backslashes stays as it is.
pub proof fn law_plain_names_are_not_escaped(name: Seq<char>)
    requires
        forall|i: int| 0 <= i < name.len() ==> #[trigger] name[i] != '"' && name[i] != '\\',
    ensures
        escaped(name) == name,
    decreases name.len(),
{
    if name.len() > 0 {
        let shorter = name.drop_last();
        assert forall|i: int| 0 <= i < shorter.len() implies #[trigger] shorter[i] != '"'
            && shorter[i] != '\\' by {
            assert(shorter[i] == name[i]);
        }
        law_plain_names_are_not_escaped(shorter);
        assert(name[name.len() - 1] == name.last());
        assert(shorter.push(name.last()) =~= name);
    } else {
        assert(escaped(name) =~= name);
    }
}

} // verus!
