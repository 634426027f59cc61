//! Decimal numbers as text.
use vstd::prelude::*;
use vstd::string::*;

use crate::text::chars::chars_of;

verus! {

/// The character for the digit `d`.
pub open spec fn digit(d: nat) -> char {
    (48 + d) as char
}

/// `n` in decimal, without leading zeros.
pub open spec fn decimal(n: nat) -> Seq<char>
    decreases n,
{
    if n < 10 {
        seq![digit(n)]
    } else {
        decimal(n / 10).push(digit(n % 10))
    }
}

/// `count` zeros.
pub open spec fn zeros(count: int) -> Seq<char> {
    Seq::new(
        if count < 0 {
            0
        } else {
            count as nat
        },
        |i: int| '0',
    )
}

/// `n` in decimal, filled up with leading zeros to at least `width` characters.
pub open spec fn padded(n: nat, width: int) -> Seq<char> {
    zeros(width - decimal(n).len()) + decimal(n)
}

/// `v` in decimal, filled up with zeros to at least `width` characters, the
/// sign counted and in front.
pub open spec fn padded_signed(v: int, width: int) -> Seq<char> {
    if v < 0 {
        seq!['-'] + padded((-v) as nat, width - 1)
    } else {
        padded(v as nat, width)
    }
}

/// `v` in decimal, without leading zeros, behind a sign when it is negative.
pub open spec fn signed_decimal(v: int) -> Seq<char> {
    if v < 0 {
        seq!['-'] + decimal((-v) as nat)
    } else {
        decimal(v as nat)
    }
}

/// The character for the digit `d`.
pub fn digit_char(d: u8) -> (r: char)
    requires
        d < 10,
    ensures
        r == digit(d as nat),
{
    (48 + d) as char
}

/// The digits of `n`, most significant first.
pub fn decimal_digits(n: u64) -> (r: Vec<char>)
    ensures
        r@ == decimal(n as nat),
    decreases n,
{
    if n < 10 {
        let mut out: Vec<char> = Vec::new();
        out.push(digit_char(n as u8));
        assert(out@ =~= decimal(n as nat));
        out
    } else {
        let mut out: Vec<char> = decimal_digits(n / 10);
        out.push(digit_char((n % 10) as u8));
        out
    }
}

/// Writes `n` in decimal at the end of `out`.
pub fn push_decimal(out: &mut String, n: u64)
    ensures
        final(out)@ == old(out)@ + decimal(n as nat),
{
    push_padded(out, n, 0);
    assert(zeros(0 - decimal(n as nat).len()) =~= Seq::<char>::empty());
    assert(out@ =~= old(out)@ + decimal(n as nat));
}

/// Writes `n` in decimal at the end of `out`, filled up with leading zeros to
/// at least `width` characters.
pub fn push_padded(out: &mut String, n: u64, width: usize)
    ensures
        final(out)@ == old(out)@ + padded(n as nat, width as int),
{
    let digits: Vec<char> = decimal_digits(n);
    let mut fill: usize = if digits.len() < width {
        width - digits.len()
    } else {
        0
    };
    let ghost all = fill;
    let ghost start = out@;
    assert(out@ =~= start + zeros(0));
    while fill > 0
        invariant
            fill <= all,
            out@ == start + zeros(all - fill),
        decreases fill,
    {
        out.push('0');
        assert(zeros(all - fill + 1) =~= zeros(all - fill as int).push('0'));
        assert(out@ =~= start + zeros(all - fill + 1));
        fill = fill - 1;
    }
    let ghost filled = out@;
    let mut i: usize = 0;
    assert(out@ =~= filled + digits@.take(0));
    while i < digits.len()
        invariant
            i <= digits@.len(),
            out@ == filled + digits@.take(i as int),
        decreases digits@.len() - i,
    {
        out.push(digits[i]);
        assert(digits@.take(i as int + 1) =~= digits@.take(i as int).push(digits@[i as int]));
        assert(out@ =~= filled + digits@.take(i as int + 1));
        i = i + 1;
    }
    assert(digits@.take(digits@.len() as int) =~= digits@);
    assert(zeros(all as int) =~= zeros(width - decimal(n as nat).len()));
    assert(out@ =~= start + padded(n as nat, width as int));
}

/// Writes `v` in decimal at the end of `out`, filled up with zeros to at least
/// `width` characters, the sign counted and in front.
pub fn push_padded_signed(out: &mut String, v: i32, width: usize)
    requires
        width > 0,
    ensures
        final(out)@ == old(out)@ + padded_signed(v as int, width as int),
{
    if v < 0 {
        out.push('-');
        push_padded(out, (-(v as i64)) as u64, width - 1);
        assert(out@ =~= old(out)@ + padded_signed(v as int, width as int));
    } else {
        push_padded(out, v as u64, width);
    }
}

/// `n` in decimal.
pub fn decimal_text(n: u64) -> (r: String)
    ensures
        r@ == decimal(n as nat),
{
    let mut out = String::new();
    push_decimal(&mut out, n);
    assert(out@ =~= decimal(n as nat));
    out
}

/// `c` is one of the ten digits.
pub open spec fn is_digit(c: char) -> bool {
    '0' <= c <= '9'
}

/// What the digit `c` counts for.
pub open spec fn digit_value(c: char) -> nat {
    (c as nat - 48) as nat
}

/// What a run of digits counts for.
pub open spec fn digits_value(s: Seq<char>) -> nat
    decreases s.len(),
{
    if s.len() == 0 {
        0
    } else {
        digits_value(s.drop_last()) * 10 + digit_value(s.last())
    }
}

/// `s` is made of digits only.
pub open spec fn all_digits(s: Seq<char>) -> bool {
    forall|i: int| 0 <= i < s.len() ==> is_digit(#[trigger] s[i])
}

/// The number that a run of at least one digit writes.
pub open spec fn number(s: Seq<char>) -> Option<nat> {
    if s.len() > 0 && all_digits(s) {
        Some(digits_value(s))
    } else {
        None
    }
}

/// The number that digits with at most one `+` in front write.
pub open spec fn unsigned_number(s: Seq<char>) -> Option<nat> {
    if s.len() > 0 && s[0] == '+' {
        number(s.skip(1))
    } else {
        number(s)
    }
}

/// The number that digits with at most one sign in front write.
pub open spec fn signed_number(s: Seq<char>) -> Option<int> {
    if s.len() > 0 && s[0] == '-' {
        match number(s.skip(1)) {
            Some(v) => Some(-(v as int)),
            None => None,
        }
    } else {
        match unsigned_number(s) {
            Some(v) => Some(v as int),
            None => None,
        }
    }
}

/// `v` when it lies between `low` and `high`.
pub open spec fn within(v: Option<int>, low: int, high: int) -> Option<int> {
    match v {
        Some(n) if low <= n <= high => Some(n),
        _ => None,
    }
}

/// The unsigned reading of `s`, as an integer.
pub open spec fn unsigned_reading(s: Seq<char>) -> Option<int> {
    match unsigned_number(s) {
        Some(v) => Some(v as int),
        None => None,
    }
}

/// A leading part of a run of digits never counts for more than the whole.
proof fn lemma_prefix_value(s: Seq<char>, i: int)
    requires
        0 <= i <= s.len(),
    ensures
        digits_value(s.take(i)) <= digits_value(s),
    decreases s.len() - i,
{
    if i == s.len() {
        assert(s.take(i) =~= s);
    } else {
        lemma_prefix_value(s, i + 1);
        assert(s.take(i + 1).drop_last() =~= s.take(i));
    }
}

/// Reads the digits from `from` on, when there is at least one and they count
/// for at most `max`.
fn read_digits(chars: &[char], from: usize, max: u64) -> (r: Option<u64>)
    requires
        from <= chars@.len(),
    ensures
        match number(chars@.skip(from as int)) {
            Some(v) if v <= max => r == Some(v as u64),
            _ => r is None,
        },
{
    let n: usize = chars.len();
    let ghost s = chars@.skip(from as int);
    if from == n {
        return None;
    }
    let mut value: u64 = 0;
    let mut i: usize = from;
    assert(s.take(0) =~= Seq::<char>::empty());
    while i < n
        invariant
            n == chars@.len(),
            from <= i <= n,
            s == chars@.skip(from as int),
            value <= max,
            value == digits_value(s.take(i - from)),
            forall|j: int| 0 <= j < i - from ==> is_digit(#[trigger] s[j]),
        decreases n - i,
    {
        let c: char = chars[i];
        assert(s[i - from] == c);
        if !('0' <= c && c <= '9') {
            return None;
        }
        let d: u64 = (c as u32 - 48) as u64;
        proof {
            assert(s.take(i - from + 1).drop_last() =~= s.take(i - from));
            assert(s.take(i - from + 1).last() == c);
            assert(digits_value(s.take(i - from + 1)) == value * 10 + d);
            lemma_prefix_value(s, i - from + 1);
        }
        if d > max || value > (max - d) / 10 {
            return None;
        }
        value = value * 10 + d;
        i = i + 1;
    }
    assert(s.take(n - from) =~= s);
    Some(value)
}

/// Reads an unsigned number of at most `max`.
fn parse_unsigned(s: &str, max: u64) -> (r: Option<u64>)
    ensures
        match within(unsigned_reading(s@), 0, max as int) {
            Some(v) => r == Some(v as u64),
            None => r is None,
        },
{
    let chars: Vec<char> = chars_of(s);
    if chars.len() > 0 && chars[0] == '+' {
        read_digits(chars.as_slice(), 1, max)
    } else {
        assert(s@.skip(0) =~= s@);
        read_digits(chars.as_slice(), 0, max)
    }
}

/// Reads `s` as a `u64`: digits, with at most one `+` in front.
pub fn parse_u64(s: &str) -> (r: Option<u64>)
    ensures
        match within(unsigned_reading(s@), 0, u64::MAX as int) {
            Some(v) => r == Some(v as u64),
            None => r is None,
        },
{
    parse_unsigned(s, u64::MAX)
}

/// Reads `s` as a `u32`: digits, with at most one `+` in front.
pub fn parse_u32(s: &str) -> (r: Option<u32>)
    ensures
        match within(unsigned_reading(s@), 0, u32::MAX as int) {
            Some(v) => r == Some(v as u32),
            None => r is None,
        },
{
    match parse_unsigned(s, u32::MAX as u64) {
        Some(v) => Some(v as u32),
        None => None,
    }
}

/// Reads `s` as an `i32`: digits, with at most one sign in front.
pub fn parse_i32(s: &str) -> (r: Option<i32>)
    ensures
        match within(signed_number(s@), i32::MIN as int, i32::MAX as int) {
            Some(v) => r == Some(v as i32),
            None => r is None,
        },
{
    let chars: Vec<char> = chars_of(s);
    if chars.len() > 0 && chars[0] == '-' {
        match read_digits(chars.as_slice(), 1, 2_147_483_648) {
            Some(v) => Some((-(v as i64)) as i32),
            None => None,
        }
    } else {
        match parse_unsigned(s, 2_147_483_647) {
            Some(v) => Some(v as i32),
            None => None,
        }
    }
}

/// Reading back what was written in decimal gives the number again.
pub proof fn law_decimal_reads_back(n: nat)
    ensures
        number(decimal(n)) == Some(n),
        unsigned_number(decimal(n)) == Some(n),
        signed_number(decimal(n)) == Some(n as int),
    decreases n,
{
    if n < 10 {
        assert(decimal(n).drop_last() =~= Seq::<char>::empty());
        assert(digits_value(decimal(n).drop_last()) == 0);
    } else {
        law_decimal_reads_back(n / 10);
        assert(decimal(n).drop_last() =~= decimal(n / 10));
        assert forall|i: int| 0 <= i < decimal(n).len() implies is_digit(#[trigger] decimal(n)[i]) by {
            if i < decimal(n / 10).len() {
                assert(decimal(n)[i] == decimal(n / 10)[i]);
            }
        }
    }
    assert(is_digit(decimal(n)[0]));
}

/// Reading back what was written in decimal gives the number again, sign and all.
pub proof fn law_signed_decimal_reads_back(v: int)
    ensures
        signed_number(signed_decimal(v)) == Some(v),
        signed_decimal(v).len() > 0,
        forall|i: int|
            0 <= i < signed_decimal(v).len() ==> is_digit(#[trigger] signed_decimal(v)[i])
                || signed_decimal(v)[i] == '-',
{
    if v < 0 {
        let digits = decimal((-v) as nat);
        law_decimal_reads_back((-v) as nat);
        assert(signed_decimal(v).skip(1) =~= digits);
        assert forall|i: int| 0 < i < signed_decimal(v).len() implies is_digit(
            #[trigger] signed_decimal(v)[i],
        ) by {
            assert(signed_decimal(v)[i] == digits[i - 1]);
        }
    } else {
        law_decimal_reads_back(v as nat);
    }
}

proof fn lemma_leading_zeros_count_for_nothing(k: int, s: Seq<char>)
    requires
        k >= 0,
    ensures
        digits_value(zeros(k) + s) == digits_value(s),
    decreases s.len() + k,
{
    let all = zeros(k) + s;
    if s.len() > 0 {
        assert(all.drop_last() =~= zeros(k) + s.drop_last());
        assert(all.last() == s.last());
        lemma_leading_zeros_count_for_nothing(k, s.drop_last());
    } else if k > 0 {
        assert(all.last() == '0');
        assert(all.drop_last() =~= zeros(k - 1) + s);
        lemma_leading_zeros_count_for_nothing(k - 1, s);
    } else {
        assert(all =~= s);
    }
}

/// A number that is filled up with zeros reads back as the same number, is at least as
/// long as was asked for, and exactly that long when its digits fit.
pub proof fn law_padding_reads_back(n: nat, width: int)
    ensures
        number(padded(n, width)) == Some(n),
        padded(n, width).len() >= width,
        width == 2 && n < 100 ==> padded(n, width).len() == 2,
        width == 4 && n < 10000 ==> padded(n, width).len() == 4,
{
    law_decimal_reads_back(n);
    let fill = if width > decimal(n).len() {
        width - decimal(n).len()
    } else {
        0
    };
    assert(padded(n, width) =~= zeros(fill) + decimal(n));
    lemma_leading_zeros_count_for_nothing(fill, decimal(n));
    assert forall|i: int| 0 <= i < padded(n, width).len() implies is_digit(
        #[trigger] padded(n, width)[i],
    ) by {
        if i >= fill {
            assert(padded(n, width)[i] == decimal(n)[i - fill]);
        }
    }
    reveal_with_fuel(decimal, 5);
}

/// A run of digits counts for what they are worth in their places, and nothing else is a
/// number: a sign may stand in front where one is allowed, and only there.
pub proof fn law_digits_count_by_their_place(s: Seq<char>, c: char)
    ensures
        number(Seq::empty()) is None,
        !is_digit(c) ==> number(s.push(c)) is None,
        is_digit(c) ==> number(seq![c]) == Some((c as nat - 48) as nat),
        is_digit(c) && number(s) is Some ==> number(s.push(c)) == Some(
            number(s)->0 * 10 + (c as nat - 48) as nat,
        ),
        unsigned_number(seq!['+'] + s) == number(s),
        number(s) matches Some(n) ==> {
            &&& unsigned_number(s) == Some(n)
            &&& signed_number(s) == Some(n as int)
            &&& signed_number(seq!['-'] + s) == Some(-(n as int))
            &&& signed_number(seq!['+'] + s) == Some(n as int)
        },
        number(s) is None ==> signed_number(seq!['-'] + s) is None && signed_number(
            seq!['+'] + s,
        ) is None,
{
    assert((seq!['+'] + s).skip(1) =~= s);
    assert((seq!['-'] + s).skip(1) =~= s);
    assert(s.push(c).drop_last() =~= s);
    assert(s.push(c).last() == c);
    assert(s.push(c)[s.len() as int] == c);
    assert(seq![c].drop_last() =~= Seq::<char>::empty());
    assert(seq![c].last() == c && seq![c][0] == c);
    assert(digits_value(Seq::<char>::empty()) == 0);
    if is_digit(c) && number(s) is Some {
        assert forall|i: int| 0 <= i < s.push(c).len() implies is_digit(#[trigger] s.push(c)[i]) by {
            if i < s.len() {
                assert(s.push(c)[i] == s[i]);
            }
        }
    }
    if number(s) is Some {
        assert(is_digit(s[0]));
    }
}

} // verus!
