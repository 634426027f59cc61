//! Media types and prompt validation.
use vstd::prelude::*;
use vstd::string::*;

use crate::domain::error::DomainError;
use crate::domain::i18n::nb;
use crate::text::chars::{chars_of, string_of, text_eq};
use crate::text::unicode;
use crate::text::unicode::{is_control, trim_bounds};

verus! {

/// What kind of media a job produces.
///
/// Its strings match the enum in the database and the values that the form
/// submits.
#[derive(Debug, Clone, Copy, PartialEq, Eq, Hash, Structural)]
pub enum MediaType {
    /// Still images and illustrations.
    Image,
    /// Speech, music and sound effects.
    Audio,
    /// Short video clips.
    Video,
}

/// The string that stands for a media type in storage, forms and APIs.
pub open spec fn media_text(media_type: MediaType) -> Seq<char> {
    match media_type {
        MediaType::Image => "image"@,
        MediaType::Audio => "audio"@,
        MediaType::Video => "video"@,
    }
}

/// The media type that a string stands for.
pub open spec fn media_from_text(s: Seq<char>) -> Option<MediaType> {
    if s == "image"@ {
        Some(MediaType::Image)
    } else if s == "audio"@ {
        Some(MediaType::Audio)
    } else if s == "video"@ {
        Some(MediaType::Video)
    } else {
        None
    }
}

impl MediaType {
    /// Every variant, in the order the user interface shows them.
    pub const ALL: [MediaType; 3] = [MediaType::Image, MediaType::Audio, MediaType::Video];

    /// Returns the stable string form used in storage, forms and APIs.
    pub fn as_str(self) -> (r: &'static str)
        ensures
            r@ == media_text(self),
    {
        match self {
            MediaType::Image => "image",
            MediaType::Audio => "audio",
            MediaType::Video => "video",
        }
    }

    /// Returns the Norwegian label shown to the user.
    pub fn label(self) -> (r: &'static str)
        ensures
            r@ == match self {
                MediaType::Image => nb::MEDIA_IMAGE@,
                MediaType::Audio => nb::MEDIA_AUDIO@,
                MediaType::Video => nb::MEDIA_VIDEO@,
            },
    {
        match self {
            MediaType::Image => nb::MEDIA_IMAGE,
            MediaType::Audio => nb::MEDIA_AUDIO,
            MediaType::Video => nb::MEDIA_VIDEO,
        }
    }

    /// Reads the stable string form.
    ///
    /// # Errors
    ///
    /// Returns [`DomainError::Validation`] when the string is none of the three.
    pub fn from_text(value: &str) -> (r: Result<MediaType, DomainError>)
        ensures
            match media_from_text(value@) {
                Some(m) => r == Ok::<MediaType, DomainError>(m),
                None => r matches Err(DomainError::Validation(m)) && m@
                    == nb::ERR_UNKNOWN_MEDIA_TYPE@,
            },
    {
        if text_eq(value, "image") {
            Ok(MediaType::Image)
        } else if text_eq(value, "audio") {
            Ok(MediaType::Audio)
        } else if text_eq(value, "video") {
            Ok(MediaType::Video)
        } else {
            Err(DomainError::Validation(nb::ERR_UNKNOWN_MEDIA_TYPE.to_owned()))
        }
    }
}

impl std::str::FromStr for MediaType {
    type Err = DomainError;

    fn from_str(value: &str) -> (r: Result<MediaType, DomainError>)
        ensures
            match media_from_text(value@) {
                Some(m) => r == Ok::<MediaType, DomainError>(m),
                None => r matches Err(DomainError::Validation(m)) && m@
                    == nb::ERR_UNKNOWN_MEDIA_TYPE@,
            },
    {
        MediaType::from_text(value)
    }
}

/// Every media type reads back from its string.
pub proof fn law_media_types_read_back(media_type: MediaType)
    ensures
        media_from_text(media_text(media_type)) == Some(media_type),
{
    reveal_strlit("image");
    reveal_strlit("audio");
    reveal_strlit("video");
    assert("image"@[0] == 'i' && "audio"@[0] == 'a' && "video"@[0] == 'v');
}

/// `s` with every `\r\n` replaced by `\n`.
pub open spec fn fold_newlines(s: Seq<char>) -> Seq<char>
    decreases s.len(),
{
    if s.len() == 0 {
        Seq::empty()
    } else if s.len() >= 2 && s[0] == '\r' && s[1] == '\n' {
        seq!['\n'] + fold_newlines(s.skip(2))
    } else {
        seq![s[0]] + fold_newlines(s.skip(1))
    }
}

/// A character that a prompt may not hold: a control code other than a tab or a
/// newline.
pub open spec fn disallowed(c: char) -> bool {
    unicode::control(c) && c != '\n' && c != '\t'
}

/// The prompt as it is stored, before it is judged.
pub open spec fn clean_prompt(raw: Seq<char>) -> Seq<char> {
    unicode::trimmed(fold_newlines(raw))
}

/// What becomes of a prompt: the cleaned text, or the message that says why it
/// is refused.
pub open spec fn prompt_verdict(raw: Seq<char>, max_chars: nat) -> Result<Seq<char>, Seq<char>> {
    let clean = clean_prompt(raw);
    if clean.len() == 0 {
        Err(nb::ERR_PROMPT_EMPTY@)
    } else if clean.len() > max_chars {
        Err(nb::prompt_too_long(max_chars))
    } else if exists|i: int| 0 <= i < clean.len() && disallowed(#[trigger] clean[i]) {
        Err(nb::ERR_PROMPT_CONTROL_CHARS@)
    } else {
        Ok(clean)
    }
}

/// `chars` with every `\r\n` replaced by `\n`.
fn fold_line_endings(chars: &[char]) -> (r: Vec<char>)
    ensures
        r@ == fold_newlines(chars@),
{
    let n: usize = chars.len();
    let mut out: Vec<char> = Vec::new();
    let mut i: usize = 0;
    assert(chars@.skip(0) =~= chars@);
    assert(out@ + fold_newlines(chars@) =~= fold_newlines(chars@));
    while i < n
        invariant
            n == chars@.len(),
            i <= n,
            out@ + fold_newlines(chars@.skip(i as int)) == fold_newlines(chars@),
        decreases n - i,
    {
        let ghost before = out@;
        let ghost rest = chars@.skip(i as int);
        if n - i >= 2 && chars[i] == '\r' && chars[i + 1] == '\n' {
            out.push('\n');
            assert(rest.skip(2) =~= chars@.skip(i + 2));
            assert(out@ + fold_newlines(rest.skip(2)) =~= before + (seq!['\n'] + fold_newlines(
                rest.skip(2),
            )));
            i = i + 2;
        } else {
            out.push(chars[i]);
            assert(rest.skip(1) =~= chars@.skip(i + 1));
            assert(out@ + fold_newlines(rest.skip(1)) =~= before + (seq![rest[0]] + fold_newlines(
                rest.skip(1),
            )));
            i = i + 1;
        }
    }
    assert(out@ + fold_newlines(chars@.skip(n as int)) =~= out@);
    out
}

/// Validates and normalises a prompt.
///
/// Returns the cleaned prompt: outer whitespace trimmed and `\r\n` folded to
/// `\n`, so the same text typed on Windows and on macOS is stored identically.
///
/// Tabs and newlines are kept, every other control character is rejected. The
/// limit counts characters, not bytes.
///
/// # Errors
///
/// Returns [`DomainError::Validation`] with a Norwegian message when the prompt
/// is empty, too long, or contains disallowed control characters.
pub fn validate_prompt(raw: &str, max_chars: usize) -> (r: Result<String, DomainError>)
    ensures
        match prompt_verdict(raw@, max_chars as nat) {
            Ok(clean) => r matches Ok(p) && p@ == clean,
            Err(message) => r matches Err(DomainError::Validation(m)) && m@ == message,
        },
{
    let chars: Vec<char> = chars_of(raw);
    let normalised: Vec<char> = fold_line_endings(chars.as_slice());
    let bounds: (usize, usize) = trim_bounds(normalised.as_slice());
    let ghost clean = clean_prompt(raw@);
    let length: usize = bounds.1 - bounds.0;
    assert(length == clean.len());

    if length == 0 {
        return Err(DomainError::Validation(nb::ERR_PROMPT_EMPTY.to_owned()));
    }
    if length > max_chars {
        return Err(DomainError::Validation(nb::err_prompt_too_long(max_chars)));
    }
    let mut kept: Vec<char> = Vec::new();
    let mut i: usize = bounds.0;
    while i < bounds.1
        invariant
            bounds.0 <= i <= bounds.1 <= normalised@.len(),
            clean == normalised@.subrange(bounds.0 as int, bounds.1 as int),
            clean == clean_prompt(raw@),
            0 < clean.len() <= max_chars,
            kept@ == clean.take(i - bounds.0),
            forall|j: int| 0 <= j < i - bounds.0 ==> !disallowed(#[trigger] clean[j]),
        decreases bounds.1 - i,
    {
        let c: char = normalised[i];
        assert(clean[i - bounds.0] == c);
        if is_control(c) && c != '\n' && c != '\t' {
            return Err(DomainError::Validation(nb::ERR_PROMPT_CONTROL_CHARS.to_owned()));
        }
        kept.push(c);
        assert(clean.take(i - bounds.0 + 1) =~= clean.take(i - bounds.0).push(c));
        i = i + 1;
    }
    assert(clean.take(clean.len() as int) =~= clean);
    Ok(string_of(kept.as_slice()))
}

proof fn lemma_fold_without_returns(s: Seq<char>)
    requires
        forall|i: int| 0 <= i < s.len() ==> #[trigger] s[i] != '\r',
    ensures
        fold_newlines(s) == s,
    decreases s.len(),
{
    if s.len() > 0 {
        let rest = s.skip(1);
        assert forall|i: int| 0 <= i < rest.len() implies #[trigger] rest[i] != '\r' by {
            assert(rest[i] == s[i + 1]);
        }
        lemma_fold_without_returns(rest);
        assert(seq![s[0]] + rest =~= s);
    } else {
        assert(s =~= Seq::<char>::empty());
    }
}

/// A prompt that was accepted is accepted again, and comes out unchanged, under
/// every limit that it keeps to.
pub proof fn law_accepted_prompts_are_stable(raw: Seq<char>, max_chars: nat, limit: nat)
    requires
        prompt_verdict(raw, max_chars) is Ok,
        prompt_verdict(raw, max_chars)->Ok_0.len() <= limit,
    ensures
        prompt_verdict(prompt_verdict(raw, max_chars)->Ok_0, limit) == prompt_verdict(
            raw,
            max_chars,
        ),
{
    let clean = clean_prompt(raw);
    assert forall|i: int| 0 <= i < clean.len() implies #[trigger] clean[i] != '\r' by {
        if clean[i] == '\r' {
            assert(disallowed(clean[i]));
        }
    }
    lemma_fold_without_returns(clean);
    unicode::law_trimming_is_idempotent(fold_newlines(raw));
}

/// An accepted prompt is not empty, keeps to the limit in characters, holds no
/// control code but tabs and newlines, and no carriage return in particular.
pub proof fn law_accepted_prompts_are_clean(raw: Seq<char>, max_chars: nat)
    requires
        prompt_verdict(raw, max_chars) is Ok,
    ensures
        0 < prompt_verdict(raw, max_chars)->Ok_0.len() <= max_chars,
        forall|i: int|
            0 <= i < prompt_verdict(raw, max_chars)->Ok_0.len() ==> {
                let c = #[trigger] prompt_verdict(raw, max_chars)->Ok_0[i];
                c != '\r' && (unicode::control(c) ==> c == '\n' || c == '\t')
            },
{
    let clean = clean_prompt(raw);
    assert forall|i: int| 0 <= i < clean.len() implies {
        let c = #[trigger] clean[i];
        c != '\r' && (unicode::control(c) ==> c == '\n' || c == '\t')
    } by {
        assert(!disallowed(clean[i]));
    }
}

/// `s` with a `\r` put before every `\n`, as Windows ends its lines.
pub open spec fn windows_lines(s: Seq<char>) -> Seq<char>
    decreases s.len(),
{
    if s.len() == 0 {
        Seq::empty()
    } else if s[0] == '\n' {
        seq!['\r', '\n'] + windows_lines(s.skip(1))
    } else {
        seq![s[0]] + windows_lines(s.skip(1))
    }
}

proof fn lemma_windows_lines_fold_back(s: Seq<char>)
    ensures
        fold_newlines(windows_lines(s)) == s,
        windows_lines(s).len() > 0 && s[0] != '\n' ==> windows_lines(s)[0] == s[0],
        windows_lines(s).len() > 0 && s[0] == '\n' ==> windows_lines(s)[0] == '\r',
        windows_lines(s).len() > 0 <==> s.len() > 0,
    decreases s.len(),
{
    if s.len() == 0 {
        assert(s =~= Seq::<char>::empty());
    } else {
        let rest = windows_lines(s.skip(1));
        lemma_windows_lines_fold_back(s.skip(1));
        let whole = windows_lines(s);
        if s[0] == '\n' {
            assert(whole.skip(2) =~= rest);
            assert(seq!['\n'] + s.skip(1) =~= s);
        } else {
            assert(whole.skip(1) =~= rest);
            assert(seq![s[0]] + s.skip(1) =~= s);
            if whole.len() >= 2 {
                assert(whole[1] == rest[0]);
                assert(whole[1] != '\n');
            }
        }
    }
}

/// The same prompt typed with Windows line ends and with plain ones fares the
/// same.
pub proof fn law_line_ends_do_not_matter(s: Seq<char>, max_chars: nat)
    requires
        forall|i: int| 0 <= i < s.len() ==> #[trigger] s[i] != '\r',
    ensures
        prompt_verdict(windows_lines(s), max_chars) == prompt_verdict(s, max_chars),
{
    lemma_windows_lines_fold_back(s);
    lemma_fold_without_returns(s);
}

/// A prompt is accepted, and kept exactly as it is between the white space around it,
/// when it is not empty, keeps to the limit and holds no control code but tabs and
/// newlines.
pub proof fn law_good_prompts_are_accepted(
    before: Seq<char>,
    prompt: Seq<char>,
    after: Seq<char>,
    max_chars: nat,
)
    requires
        unicode::blank(before),
        unicode::blank(after),
        forall|i: int| 0 <= i < before.len() ==> #[trigger] before[i] != '\r',
        forall|i: int| 0 <= i < after.len() ==> #[trigger] after[i] != '\r',
        0 < prompt.len() <= max_chars,
        !unicode::white_space(prompt[0]),
        !unicode::white_space(prompt.last()),
        forall|i: int|
            0 <= i < prompt.len() ==> (unicode::control(#[trigger] prompt[i]) ==> prompt[i] == '\n'
                || prompt[i] == '\t'),
    ensures
        prompt_verdict(before + prompt + after, max_chars) == Ok::<Seq<char>, Seq<char>>(prompt),
{
    let raw = before + prompt + after;
    assert forall|i: int| 0 <= i < raw.len() implies #[trigger] raw[i] != '\r' by {
        let n = before.len() as int;
        let m = n + prompt.len();
        if i < n {
            assert(raw[i] == before[i]);
        } else if i < m {
            assert(raw[i] == prompt[i - n]);
        } else {
            assert(raw[i] == after[i - m]);
        }
    }
    lemma_fold_without_returns(raw);
    unicode::law_trimming_takes_white_space_only(before, prompt, after);
}

/// Why a prompt is refused: it is empty once it is cleaned, or it is longer than the
/// limit in characters, or it holds a control code that it may not. Nothing else is.
pub proof fn law_refusals_say_what_is_wrong(raw: Seq<char>, max_chars: nat)
    ensures
        ({
            let clean = clean_prompt(raw);
            let verdict = prompt_verdict(raw, max_chars);
            let tainted = exists|i: int|
                0 <= i < clean.len() && unicode::control(#[trigger] clean[i]) && clean[i] != '\n'
                    && clean[i] != '\t';
            &&& clean.len() == 0 ==> verdict == Err::<Seq<char>, Seq<char>>(nb::ERR_PROMPT_EMPTY@)
            &&& clean.len() > 0 && clean.len() > max_chars ==> verdict == Err::<
                Seq<char>,
                Seq<char>,
            >(nb::prompt_too_long(max_chars))
            &&& 0 < clean.len() <= max_chars && tainted ==> verdict == Err::<Seq<char>, Seq<char>>(
                nb::ERR_PROMPT_CONTROL_CHARS@,
            )
            &&& 0 < clean.len() <= max_chars && !tainted ==> verdict == Ok::<Seq<char>, Seq<char>>(
                clean,
            )
        }),
        unicode::blank(raw) && (forall|i: int| 0 <= i < raw.len() ==> #[trigger] raw[i] != '\r')
            ==> clean_prompt(raw).len() == 0,
{
    let clean = clean_prompt(raw);
    if exists|i: int|
        0 <= i < clean.len() && unicode::control(#[trigger] clean[i]) && clean[i] != '\n' && clean[i]
            != '\t' {
        let i = choose|i: int|
            0 <= i < clean.len() && unicode::control(#[trigger] clean[i]) && clean[i] != '\n'
                && clean[i] != '\t';
        assert(disallowed(clean[i]));
    } else {
        assert forall|i: int| 0 <= i < clean.len() implies !disallowed(#[trigger] clean[i]) by {}
    }
    if unicode::blank(raw) && (forall|i: int| 0 <= i < raw.len() ==> #[trigger] raw[i] != '\r') {
        lemma_fold_without_returns(raw);
        unicode::law_blank_texts_trim_to_nothing(raw);
    }
}

/// The string of a media type is its name in lower case, and no other string stands for
/// one.
pub proof fn law_three_strings_name_media(s: Seq<char>)
    ensures
        media_text(MediaType::Image) == "image"@,
        media_text(MediaType::Audio) == "audio"@,
        media_text(MediaType::Video) == "video"@,
        media_from_text(s) is Some <==> s == "image"@ || s == "audio"@ || s == "video"@,
        media_from_text(s) matches Some(media_type) ==> media_text(media_type) == s,
{
}

/// What validating a prompt comes to: it is accepted, and handed out cleaned, exactly when
/// what is left of it without the white space around it is not empty, keeps to the limit in
/// characters, and holds no control code but tabs and newlines.
pub proof fn law_prompts_are_validated(raw: &str, max_chars: usize, r: Result<String, DomainError>)
    requires
        call_ensures(validate_prompt, (raw, max_chars), r),
    ensures
        ({
            let clean = unicode::trimmed(fold_newlines(raw@));
            &&& r is Ok <==> 0 < clean.len() <= max_chars && forall|i: int|
                0 <= i < clean.len() ==> (unicode::control(#[trigger] clean[i]) ==> clean[i] == '\n'
                    || clean[i] == '\t')
            &&& r matches Ok(prompt) ==> prompt@ == clean
        }),
        r matches Err(error) ==> error is Validation,
        (forall|i: int| 0 <= i < raw@.len() ==> #[trigger] raw@[i] != '\r') ==> fold_newlines(raw@)
            == raw@,
{
    let clean = clean_prompt(raw@);
    if r is Ok {
        assert forall|i: int| 0 <= i < clean.len() implies (unicode::control(#[trigger] clean[i])
            ==> clean[i] == '\n' || clean[i] == '\t') by {
            assert(!disallowed(clean[i]));
        }
    } else if 0 < clean.len() <= max_chars {
        let i = choose|i: int| 0 <= i < clean.len() && disallowed(#[trigger] clean[i]);
        assert(disallowed(clean[i]));
    }
    if forall|i: int| 0 <= i < raw@.len() ==> #[trigger] raw@[i] != '\r' {
        lemma_fold_without_returns(raw@);
    }
}

/// A media type reads back from its own string, and only the three strings are read.
pub proof fn law_media_strings_are_read(
    media_type: MediaType,
    text: &'static str,
    value: &str,
    r: Result<MediaType, DomainError>,
)
    requires
        call_ensures(MediaType::as_str, (media_type,), text),
        call_ensures(MediaType::from_text, (value,), r),
    ensures
        value@ == text@ ==> r == Ok::<MediaType, DomainError>(media_type),
        r is Ok <==> value@ == "image"@ || value@ == "audio"@ || value@ == "video"@,
        r matches Err(error) ==> error is Validation,
{
    law_media_types_read_back(media_type);
}

/// Line ends are folded where a `\r` stands right before a `\n`, and nothing else is
/// changed: a text without such a pair stays as it is, a `\r` on its own included.
pub proof fn law_only_line_ends_are_folded(before: Seq<char>, after: Seq<char>, s: Seq<char>)
    ensures
        fold_newlines(before + seq!['\r', '\n'] + after) == fold_newlines(before) + seq!['\n']
            + fold_newlines(after),
        (forall|i: int| 0 <= i < s.len() - 1 ==> !(#[trigger] s[i] == '\r' && s[i + 1] == '\n'))
            ==> fold_newlines(s) == s,
{
    lemma_fold_at_a_pair(before, after);
    if forall|i: int| 0 <= i < s.len() - 1 ==> !(#[trigger] s[i] == '\r' && s[i + 1] == '\n') {
        lemma_fold_without_pairs(s);
    }
}

proof fn lemma_fold_at_a_pair(before: Seq<char>, after: Seq<char>)
    ensures
        fold_newlines(before + seq!['\r', '\n'] + after) == fold_newlines(before) + seq!['\n']
            + fold_newlines(after),
    decreases before.len(),
{
    let pair = seq!['\r', '\n'];
    let all = before + pair + after;
    if before.len() == 0 {
        assert(all.skip(2) =~= after);
        assert(fold_newlines(before) =~= Seq::<char>::empty());
        assert(fold_newlines(all) =~= fold_newlines(before) + seq!['\n'] + fold_newlines(after));
    } else if before.len() >= 2 && before[0] == '\r' && before[1] == '\n' {
        lemma_fold_at_a_pair(before.skip(2), after);
        assert(all.skip(2) =~= before.skip(2) + pair + after);
        assert(fold_newlines(all) =~= fold_newlines(before) + seq!['\n'] + fold_newlines(after));
    } else {
        lemma_fold_at_a_pair(before.skip(1), after);
        assert(all.skip(1) =~= before.skip(1) + pair + after);
        assert(fold_newlines(all) =~= fold_newlines(before) + seq!['\n'] + fold_newlines(after));
    }
}

proof fn lemma_fold_without_pairs(s: Seq<char>)
    requires
        forall|i: int| 0 <= i < s.len() - 1 ==> !(#[trigger] s[i] == '\r' && s[i + 1] == '\n'),
    ensures
        fold_newlines(s) == s,
    decreases s.len(),
{
    if s.len() > 0 {
        let rest = s.skip(1);
        assert forall|i: int| 0 <= i < rest.len() - 1 implies !(#[trigger] rest[i] == '\r' && rest[i
            + 1] == '\n') by {
            assert(rest[i] == s[i + 1] && rest[i + 1] == s[i + 2]);
        }
        lemma_fold_without_pairs(rest);
        assert(s.len() >= 2 ==> !(s[0] == '\r' && s[1] == '\n'));
        assert(seq![s[0]] + rest =~= s);
    } else {
        assert(s =~= Seq::<char>::empty());
    }
}

} // verus!
