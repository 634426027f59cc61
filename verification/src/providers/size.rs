//! Frame sizes written as `WIDTHxHEIGHT`.
use vstd::prelude::*;
use vstd::string::*;

use crate::text::chars;
use crate::text::chars::{chars_of, find_text};
use crate::text::number;
use crate::text::number::parse_i32;

verus! {

/// The `i32` that a text writes.
pub open spec fn pixels(s: Seq<char>) -> Option<i32> {
    match number::within(number::signed_number(s), i32::MIN as int, i32::MAX as int) {
        Some(v) => Some(v as i32),
        None => None,
    }
}

/// Width and height of a size: the numbers before and after its first `x`, and
/// neither unless both can be read.
pub open spec fn dimensions(size: Seq<char>) -> (Option<i32>, Option<i32>) {
    match chars::first_occurrence(size, seq!['x'], 0) {
        Some(i) => match (pixels(size.take(i)), pixels(size.skip(i + 1))) {
            (Some(width), Some(height)) => (Some(width), Some(height)),
            _ => (None, None),
        },
        None => (None, None),
    }
}

/// Splits a `WIDTHxHEIGHT` size into its parts.
pub fn split_dimensions(size: &str) -> (r: (Option<i32>, Option<i32>))
    ensures
        r == dimensions(size@),
{
    let text: Vec<char> = chars_of(size);
    let mut mark: Vec<char> = Vec::new();
    mark.push('x');
    assert(mark@ =~= seq!['x']);
    match find_text(text.as_slice(), mark.as_slice(), 0) {
        Some(i) => {
            let length: usize = text.len();
            let width: &str = size.substring_char(0, i);
            let height: &str = size.substring_char(i + 1, length);
            assert(width@ =~= size@.take(i as int));
            assert(height@ =~= size@.skip(i + 1));
            match (parse_i32(width), parse_i32(height)) {
                (Some(w), Some(h)) => (Some(w), Some(h)),
                _ => (None, None),
            }
        },
        None => (None, None),
    }
}

/// A size that was put together from two numbers, of either sign, splits into them
/// again.
pub proof fn law_sizes_split_into_their_parts(width: i32, height: i32)
    ensures
        dimensions(
            number::signed_decimal(width as int) + seq!['x'] + number::signed_decimal(
                height as int,
            ),
        ) == (Some(width), Some(height)),
{
    let w = number::signed_decimal(width as int);
    let h = number::signed_decimal(height as int);
    let size = w + seq!['x'] + h;
    let n = w.len() as int;
    number::law_signed_decimal_reads_back(width as int);
    number::law_signed_decimal_reads_back(height as int);
    chars::lemma_first_occurrence(size, seq!['x'], 0);
    assert(size.subrange(n, n + 1) =~= seq!['x']);
    assert(chars::occurs_at(size, seq!['x'], n));
    assert forall|i: int| 0 <= i < n implies !#[trigger] chars::occurs_at(size, seq!['x'], i) by {
        assert(number::is_digit(w[i]) || w[i] == '-');
        assert(size.subrange(i, i + 1)[0] == w[i]);
    }
    assert(size.take(n) =~= w);
    assert(size.skip(n + 1) =~= h);
}

/// A size has both dimensions or neither: it has them when the text before its first `x`
/// and the text behind it are both numbers that are kept, and neither when it holds no `x`.
pub proof fn law_sizes_have_both_dimensions_or_neither(
    width: Seq<char>,
    height: Seq<char>,
    size: Seq<char>,
)
    requires
        chars::free_of(width, 'x'),
    ensures
        dimensions(size).0 is Some <==> dimensions(size).1 is Some,
        chars::free_of(size, 'x') ==> dimensions(size) == (None::<i32>, None::<i32>),
        dimensions(width + seq!['x'] + height).0 is Some <==> {
            &&& number::signed_number(width) matches Some(w) && i32::MIN <= w <= i32::MAX
            &&& number::signed_number(height) matches Some(h) && i32::MIN <= h <= i32::MAX
        },
{
    chars::lemma_first_occurrence(size, seq!['x'], 0);
    if chars::free_of(size, 'x') {
        assert forall|j: int| 0 <= j implies !#[trigger] chars::occurs_at(size, seq!['x'], j) by {
            if j < size.len() {
                assert(size.subrange(j, j + 1)[0] == size[j]);
            }
        }
    }
    let all = width + seq!['x'] + height;
    let n = width.len() as int;
    chars::lemma_first_occurrence(all, seq!['x'], 0);
    assert(all.subrange(n, n + 1) =~= seq!['x']);
    assert(chars::occurs_at(all, seq!['x'], n));
    assert forall|j: int| 0 <= j < n implies !#[trigger] chars::occurs_at(all, seq!['x'], j) by {
        assert(all.subrange(j, j + 1)[0] == width[j]);
    }
    assert(all.take(n) =~= width);
    assert(all.skip(n + 1) =~= height);
}

} // verus!
