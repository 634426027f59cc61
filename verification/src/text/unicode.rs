//! Character classes, letter case and trimming.
use vstd::prelude::*;
use vstd::string::*;

use crate::text::chars::chars_of;

verus! {

/// Unicode gives `c` the `White_Space` property.
pub open spec fn white_space(c: char) -> bool {
    ||| '\t' <= c <= '\r'
    ||| c == ' '
    ||| c == '\u{85}'
    ||| c == '\u{a0}'
    ||| c == '\u{1680}'
    ||| '\u{2000}' <= c <= '\u{200a}'
    ||| c == '\u{2028}'
    ||| c == '\u{2029}'
    ||| c == '\u{202f}'
    ||| c == '\u{205f}'
    ||| c == '\u{3000}'
}

/// Whether Unicode gives `c` the `Alphabetic` property.
pub uninterp spec fn alphabetic(c: char) -> bool;

/// The Unicode lower-case form of a text.
pub uninterp spec fn lowercase(s: Seq<char>) -> Seq<char>;

/// The Unicode upper-case form of a text.
pub uninterp spec fn uppercase(s: Seq<char>) -> Seq<char>;

/// Whether `c` is white space.
pub fn is_white_space(c: char) -> (r: bool)
    ensures
        r == white_space(c),
{
    ('\t' <= c && c <= '\r') || c == ' ' || c == '\u{85}' || c == '\u{a0}' || c == '\u{1680}' || (
    '\u{2000}' <= c && c <= '\u{200a}') || c == '\u{2028}' || c == '\u{2029}' || c == '\u{202f}'
        || c == '\u{205f}' || c == '\u{3000}'
}

/// A character of ASCII.
pub open spec fn ascii(c: char) -> bool {
    c <= '\u{7f}'
}

/// A letter of ASCII.
pub open spec fn ascii_letter(c: char) -> bool {
    'a' <= c <= 'z' || 'A' <= c <= 'Z'
}

/// The lower-case form of an ASCII letter; any other character is its own.
pub open spec fn ascii_lower(c: char) -> char {
    if 'A' <= c <= 'Z' {
        (c as u32 + 32) as char
    } else {
        c
    }
}

/// The upper-case form of an ASCII letter; any other character is its own.
pub open spec fn ascii_upper(c: char) -> char {
    if 'a' <= c <= 'z' {
        (c as u32 - 32) as char
    } else {
        c
    }
}

/// A text in ASCII.
pub open spec fn all_ascii(s: Seq<char>) -> bool {
    forall|i: int| 0 <= i < s.len() ==> ascii(#[trigger] s[i])
}

/// `char::is_alphabetic`: the answer depends on the character alone, and within
/// ASCII it is the letters that are alphabetic.
#[verifier::external_body]
pub(crate) fn is_alphabetic(c: char) -> (r: bool)
    ensures
        r == alphabetic(c),
        ascii(c) ==> r == ascii_letter(c),
{
    c.is_alphabetic()
}

/// `str::to_lowercase`: the result depends on the text alone, and a text in ASCII
/// changes letter by letter.
#[verifier::external_body]
pub(crate) fn to_lowercase(s: &str) -> (r: String)
    ensures
        r@ == lowercase(s@),
        all_ascii(s@) ==> r@ == s@.map_values(|c: char| ascii_lower(c)),
{
    s.to_lowercase()
}

/// `str::to_uppercase`: the result depends on the text alone, a text in ASCII
/// changes letter by letter, and no character is lost, since each of them gives at
/// least one.
#[verifier::external_body]
pub(crate) fn to_uppercase(s: &str) -> (r: String)
    ensures
        r@ == uppercase(s@),
        r@.len() >= s@.len(),
        all_ascii(s@) ==> r@ == s@.map_values(|c: char| ascii_upper(c)),
{
    s.to_uppercase()
}

/// A control code: `C0`, `DEL` or `C1`.
pub open spec fn control(c: char) -> bool {
    c <= '\u{1f}' || '\u{7f}' <= c <= '\u{9f}'
}

/// Whether `c` is a control code.
pub fn is_control(c: char) -> (r: bool)
    ensures
        r == control(c),
{
    c <= '\u{1f}' || ('\u{7f}' <= c && c <= '\u{9f}')
}

/// `s` without its leading white space.
pub open spec fn trim_start(s: Seq<char>) -> Seq<char>
    decreases s.len(),
{
    if s.len() > 0 && white_space(s[0]) {
        trim_start(s.skip(1))
    } else {
        s
    }
}

/// `s` without its trailing white space.
pub open spec fn trim_end(s: Seq<char>) -> Seq<char>
    decreases s.len(),
{
    if s.len() > 0 && white_space(s.last()) {
        trim_end(s.drop_last())
    } else {
        s
    }
}

/// `s` without the white space around it.
pub open spec fn trimmed(s: Seq<char>) -> Seq<char> {
    trim_end(trim_start(s))
}

/// `s` without its leading `c`s.
pub open spec fn without_leading(s: Seq<char>, c: char) -> Seq<char>
    decreases s.len(),
{
    if s.len() > 0 && s[0] == c {
        without_leading(s.skip(1), c)
    } else {
        s
    }
}

/// Trimmed text does not begin or end with white space, and trimming it again
/// changes nothing.
pub proof fn law_trimming_is_idempotent(s: Seq<char>)
    ensures
        trimmed(trimmed(s)) == trimmed(s),
        trimmed(s).len() > 0 ==> !white_space(trimmed(s)[0]) && !white_space(trimmed(s).last()),
        trimmed(s).len() <= s.len(),
{
    lemma_trim_start(s);
    lemma_trim_end(trim_start(s));
}

proof fn lemma_trim_start(s: Seq<char>)
    ensures
        trim_start(s).len() > 0 ==> !white_space(trim_start(s)[0]),
        trim_start(s).len() <= s.len(),
    decreases s.len(),
{
    if s.len() > 0 && white_space(s[0]) {
        lemma_trim_start(s.skip(1));
    }
}

proof fn lemma_trim_end(s: Seq<char>)
    ensures
        trim_end(s).len() > 0 ==> !white_space(trim_end(s).last()) && trim_end(s)[0] == s[0],
        trim_end(s).len() <= s.len(),
    decreases s.len(),
{
    if s.len() > 0 && white_space(s.last()) {
        lemma_trim_end(s.drop_last());
    }
}

/// Trimmed text is a stretch of the text it came from.
pub proof fn lemma_trimmed_is_subrange(s: Seq<char>) -> (bounds: (int, int))
    ensures
        0 <= bounds.0 <= bounds.1 <= s.len(),
        trimmed(s) == s.subrange(bounds.0, bounds.1),
{
    let start = lemma_trim_start_is_suffix(s);
    let len = lemma_trim_end_is_prefix(trim_start(s));
    assert(trimmed(s) =~= s.subrange(start, start + len));
    (start, start + len)
}

proof fn lemma_trim_start_is_suffix(s: Seq<char>) -> (start: int)
    ensures
        0 <= start <= s.len(),
        trim_start(s) == s.skip(start),
    decreases s.len(),
{
    if s.len() > 0 && white_space(s[0]) {
        let start = lemma_trim_start_is_suffix(s.skip(1));
        assert(s.skip(1).skip(start) =~= s.skip(start + 1));
        start + 1
    } else {
        assert(s.skip(0) =~= s);
        0
    }
}

proof fn lemma_trim_end_is_prefix(s: Seq<char>) -> (len: int)
    ensures
        0 <= len <= s.len(),
        trim_end(s) == s.take(len),
    decreases s.len(),
{
    if s.len() > 0 && white_space(s.last()) {
        let len = lemma_trim_end_is_prefix(s.drop_last());
        assert(s.drop_last().take(len) =~= s.take(len));
        len
    } else {
        assert(s.take(s.len() as int) =~= s);
        s.len() as int
    }
}

/// Where the trimmed part of `chars` begins and ends.
pub fn trim_bounds(chars: &[char]) -> (r: (usize, usize))
    ensures
        r.0 <= r.1 <= chars@.len(),
        chars@.subrange(r.0 as int, r.1 as int) == trimmed(chars@),
{
    let n: usize = chars.len();
    let mut start: usize = 0;
    assert(chars@.skip(0) =~= chars@);
    while start < n && is_white_space(chars[start])
        invariant
            n == chars@.len(),
            start <= n,
            trim_start(chars@) == trim_start(chars@.skip(start as int)),
        decreases n - start,
    {
        assert(chars@.skip(start as int).skip(1) =~= chars@.skip(start + 1));
        start = start + 1;
    }
    let mut end: usize = n;
    let ghost rest = chars@.skip(start as int);
    assert(chars@.subrange(start as int, end as int) =~= rest);
    while end > start && is_white_space(chars[end - 1])
        invariant
            n == chars@.len(),
            start <= end <= n,
            trim_end(rest) == trim_end(chars@.subrange(start as int, end as int)),
        decreases end,
    {
        assert(chars@.subrange(start as int, end as int).drop_last() =~= chars@.subrange(
            start as int,
            end - 1,
        ));
        end = end - 1;
    }
    (start, end)
}

/// `s` without the white space around it.
pub fn trim_text<'a>(s: &'a str) -> (r: &'a str)
    ensures
        r@ == trimmed(s@),
{
    let chars: Vec<char> = chars_of(s);
    let bounds: (usize, usize) = trim_bounds(chars.as_slice());
    s.substring_char(bounds.0, bounds.1)
}

/// `s` without its leading `c`s.
pub fn strip_leading<'a>(s: &'a str, c: char) -> (r: &'a str)
    ensures
        r@ == without_leading(s@, c),
{
    let chars: Vec<char> = chars_of(s);
    let n: usize = chars.len();
    let mut start: usize = 0;
    assert(chars@.skip(0) =~= chars@);
    while start < n && chars[start] == c
        invariant
            n == chars@.len(),
            chars@ == s@,
            start <= n,
            without_leading(s@, c) == without_leading(s@.skip(start as int), c),
        decreases n - start,
    {
        assert(s@.skip(start as int).skip(1) =~= s@.skip(start + 1));
        start = start + 1;
    }
    assert(s@.subrange(start as int, n as int) =~= s@.skip(start as int));
    s.substring_char(start, n)
}

/// Every character is white space.
pub open spec fn blank(s: Seq<char>) -> bool {
    forall|i: int| 0 <= i < s.len() ==> white_space(#[trigger] s[i])
}

proof fn lemma_trim_start_over(before: Seq<char>, rest: Seq<char>)
    requires
        blank(before),
    ensures
        trim_start(before + rest) == trim_start(rest),
    decreases before.len(),
{
    if before.len() == 0 {
        assert(before + rest =~= rest);
    } else {
        let shorter = before.skip(1);
        assert forall|i: int| 0 <= i < shorter.len() implies white_space(#[trigger] shorter[i]) by {
            assert(shorter[i] == before[i + 1]);
        }
        assert(white_space(before[0]));
        assert((before + rest)[0] == before[0]);
        assert((before + rest).skip(1) =~= shorter + rest);
        lemma_trim_start_over(shorter, rest);
    }
}

proof fn lemma_trim_end_over(rest: Seq<char>, after: Seq<char>)
    requires
        blank(after),
    ensures
        trim_end(rest + after) == trim_end(rest),
    decreases after.len(),
{
    if after.len() == 0 {
        assert(rest + after =~= rest);
    } else {
        let shorter = after.drop_last();
        assert forall|i: int| 0 <= i < shorter.len() implies white_space(#[trigger] shorter[i]) by {
            assert(shorter[i] == after[i]);
        }
        assert(white_space(after[after.len() - 1]));
        assert((rest + after).last() == after.last());
        assert((rest + after).drop_last() =~= rest + shorter);
        lemma_trim_end_over(rest, shorter);
    }
}

/// Trimming takes away the white space around a text, all of it, and nothing else.
pub proof fn law_trimming_takes_white_space_only(
    before: Seq<char>,
    s: Seq<char>,
    after: Seq<char>,
)
    requires
        blank(before),
        blank(after),
        s.len() > 0 ==> !white_space(s[0]) && !white_space(s.last()),
    ensures
        trimmed(before + s + after) == s,
{
    assert(before + s + after =~= before + (s + after));
    lemma_trim_start_over(before, s + after);
    if s.len() == 0 {
        assert(s + after =~= after + Seq::empty());
        lemma_trim_start_over(after, Seq::empty());
        assert(s =~= Seq::empty());
    } else {
        assert((s + after)[0] == s[0]);
        lemma_trim_end_over(s, after);
    }
}

/// A text is trimmed to nothing exactly when it is all white space.
pub proof fn law_blank_texts_trim_to_nothing(s: Seq<char>)
    ensures
        trimmed(s).len() == 0 <==> blank(s),
    decreases s.len(),
{
    if blank(s) {
        assert(s =~= s + Seq::empty() + Seq::empty());
        law_trimming_takes_white_space_only(s, Seq::empty(), Seq::empty());
    } else {
        let i = choose|i: int| 0 <= i < s.len() && !white_space(#[trigger] s[i]);
        lemma_kept_when_trimmed(s, i);
    }
}

proof fn lemma_kept_when_trimmed(s: Seq<char>, i: int)
    requires
        0 <= i < s.len(),
        !white_space(s[i]),
    ensures
        trimmed(s).len() > 0,
    decreases s.len(),
{
    if white_space(s[0]) {
        assert(s.skip(1)[i - 1] == s[i]);
        lemma_kept_when_trimmed(s.skip(1), i - 1);
    } else {
        lemma_end_kept(s, 0);
    }
}

proof fn lemma_end_kept(s: Seq<char>, i: int)
    requires
        0 <= i < s.len(),
        !white_space(s[i]),
    ensures
        trim_end(s).len() > 0,
    decreases s.len(),
{
    if white_space(s.last()) {
        assert(s.drop_last()[i] == s[i]);
        lemma_end_kept(s.drop_last(), i);
    }
}

} // verus!
