//! Cutting text to a number of bytes without splitting a character.
use vstd::prelude::*;
use vstd::string::*;
use vstd::utf8::*;

use crate::text::chars;

verus! {

/// How many bytes `c` takes in UTF-8.
pub open spec fn width(c: char) -> nat {
    encode_scalar(c as u32).len()
}

/// The longest leading part of `s` that takes at most `max` bytes.
pub open spec fn fitting(s: Seq<char>, max: int) -> Seq<char>
    decreases s.len(),
{
    if s.len() == 0 || width(s[0]) > max {
        Seq::empty()
    } else {
        seq![s[0]] + fitting(s.drop_first(), max - width(s[0]))
    }
}

/// The last character boundary at or before `max` ends the fitting part.
proof fn lemma_boundary_ends_fitting(s: Seq<char>, end: int, max: int)
    requires
        0 <= end <= max,
        is_char_boundary(encode_utf8(s), end),
        forall|j: int|
            end < j <= max && j <= encode_utf8(s).len() ==> !#[trigger] is_char_boundary(
                encode_utf8(s),
                j,
            ),
    ensures
        encode_utf8(fitting(s, max)) == encode_utf8(s).subrange(0, end),
    decreases s.len(),
{
    let bytes = encode_utf8(s);
    encode_utf8_valid_utf8(s);
    if s.len() == 0 {
        assert(bytes.subrange(0, end) =~= Seq::<u8>::empty());
    } else {
        encode_utf8_first_scalar(s);
        let first = length_of_first_scalar(bytes);
        let rest = s.drop_first();
        encode_utf8_valid_utf8(rest);
        assert(pop_first_scalar(bytes) =~= encode_utf8(rest));
        if end == 0 {
            assert(is_char_boundary(bytes, first)) by {
                assert(is_char_boundary(encode_utf8(rest), 0));
            }
            assert(width(s[0]) > max);
            assert(bytes.subrange(0, 0) =~= Seq::<u8>::empty());
        } else {
            assert(is_char_boundary(encode_utf8(rest), end - first));
            assert(end - first >= 0);
            assert forall|j: int|
                end - first < j <= max - first && j <= encode_utf8(rest).len() implies !#[trigger]
            is_char_boundary(encode_utf8(rest), j) by {
                assert(!is_char_boundary(bytes, j + first));
            }
            lemma_boundary_ends_fitting(rest, end - first, max - first);
            let kept = fitting(s, max);
            assert(kept.drop_first() =~= fitting(rest, max - first));
            assert(encode_utf8(kept) =~= bytes.subrange(0, end));
        }
    }
}

/// What fits is a leading part of the text, takes at most `max` bytes, and one
/// more character would not fit.
pub proof fn law_fitting_is_the_longest_prefix(s: Seq<char>, max: nat)
    ensures
        fitting(s, max as int).is_prefix_of(s),
        encode_utf8(fitting(s, max as int)).len() <= max,
        fitting(s, max as int).len() < s.len() ==> encode_utf8(
            s.take(fitting(s, max as int).len() as int + 1),
        ).len() > max,
        encode_utf8(s).len() <= max ==> fitting(s, max as int) == s,
    decreases s.len(),
{
    let kept = fitting(s, max as int);
    if s.len() == 0 {
        assert(kept =~= s);
    } else if width(s[0]) > max {
        let one = s.take(1);
        assert(one[0] == s[0]);
        assert(encode_utf8(one).len() >= width(s[0]));
        assert(encode_utf8(s).len() >= width(s[0]));
    } else {
        let rest = s.drop_first();
        let left = (max - width(s[0])) as nat;
        law_fitting_is_the_longest_prefix(rest, left);
        let tail = fitting(rest, left as int);
        assert(kept =~= seq![s[0]] + tail);
        assert(kept.drop_first() =~= tail);
        if kept.len() < s.len() {
            let longer = s.take(kept.len() as int + 1);
            assert(longer.drop_first() =~= rest.take(tail.len() as int + 1));
            assert(longer[0] == s[0]);
        }
        if encode_utf8(s).len() <= max {
            assert(kept =~= s);
        }
        assert forall|i: int| 0 <= i < kept.len() implies kept[i] == s[i] by {
            if i > 0 {
                assert(tail[i - 1] == rest[i - 1]);
            }
        }
        assert(kept =~= s.take(kept.len() as int));
    }
}

/// The bytes of two texts one after the other are those of both together.
pub proof fn lemma_encode_concat(a: Seq<char>, b: Seq<char>)
    ensures
        encode_utf8(a + b) == encode_utf8(a) + encode_utf8(b),
    decreases a.len(),
{
    if a.len() == 0 {
        assert(a + b =~= b);
        assert(encode_utf8(a) + encode_utf8(b) =~= encode_utf8(b));
    } else {
        lemma_encode_concat(a.drop_first(), b);
        assert((a + b).drop_first() =~= a.drop_first() + b);
        assert(encode_utf8(a + b) =~= encode_utf8(a) + encode_utf8(b));
    }
}

/// The longest leading part of `s` that takes at most `max` bytes.
pub fn truncate_bytes<'a>(s: &'a str, max: usize) -> (r: &'a str)
    ensures
        r@ == fitting(s@, max as int),
{
    let length: usize = s.as_bytes().len();
    let ghost bytes = encode_utf8(s@);
    proof {
        encode_utf8_valid_utf8(s@);
        is_char_boundary_start_end_of_seq(bytes);
    }
    let mut end: usize = if length < max {
        length
    } else {
        max
    };
    while end > 0 && !s.is_char_boundary(end)
        invariant
            bytes == encode_utf8(s@),
            valid_utf8(bytes),
            end <= max,
            end <= bytes.len(),
            is_char_boundary(bytes, 0),
            forall|j: int|
                end < j <= max && j <= bytes.len() ==> !#[trigger] is_char_boundary(bytes, j),
        decreases end,
    {
        end = end - 1;
    }
    proof {
        assert(is_char_boundary(bytes, end as int));
        lemma_boundary_ends_fitting(s@, end as int, max as int);
    }
    let halves = s.split_at(end);
    proof {
        chars::lemma_bytes_determine_text(halves.0@, fitting(s@, max as int));
    }
    halves.0
}

} // verus!
