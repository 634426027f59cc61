//! Strings as sequences of characters.
use vstd::prelude::*;
use vstd::string::*;
use vstd::utf8::*;

verus! {

/// `String::push` appends one character at the end.
pub assume_specification[ String::push ](s: &mut String, c: char)
    ensures
        final(s)@ == old(s)@.push(c),
;

/// The characters of `s`, in order.
pub fn chars_of(s: &str) -> (r: Vec<char>)
    ensures
        r@ == s@,
{
    let mut out: Vec<char> = Vec::new();
    for c in it: s.chars()
        invariant
            it.seq() == s@,
            out@ == s@.take(it.index() as int),
    {
        out.push(c);
        assert(s@.take(it.index() as int + 1) =~= s@.take(it.index() as int).push(c));
    }
    assert(s@.take(s@.len() as int) =~= s@);
    out
}

/// The string made of `chars`, in order.
pub fn string_of(chars: &[char]) -> (r: String)
    ensures
        r@ == chars@,
{
    let mut out = String::new();
    let mut i: usize = 0;
    while i < chars.len()
        invariant
            i <= chars@.len(),
            out@ == chars@.take(i as int),
        decreases chars@.len() - i,
    {
        out.push(chars[i]);
        assert(chars@.take(i as int + 1) =~= chars@.take(i as int).push(chars@[i as int]));
        i = i + 1;
    }
    assert(chars@.take(chars@.len() as int) =~= chars@);
    out
}

/// Two strings are the same text when their UTF-8 bytes agree.
pub proof fn lemma_bytes_determine_text(a: Seq<char>, b: Seq<char>)
    ensures
        encode_utf8(a) == encode_utf8(b) ==> a == b,
{
    encode_utf8_decode_utf8(a);
    encode_utf8_decode_utf8(b);
}

/// Whether `a` and `b` are the same text.
pub fn text_eq(a: &str, b: &str) -> (r: bool)
    ensures
        r == (a@ == b@),
{
    let left: &[u8] = a.as_bytes();
    let right: &[u8] = b.as_bytes();
    proof {
        lemma_bytes_determine_text(a@, b@);
    }
    if left.len() != right.len() {
        return false;
    }
    let mut i: usize = 0;
    while i < left.len()
        invariant
            i <= left@.len(),
            left@.len() == right@.len(),
            left@ == encode_utf8(a@),
            right@ == encode_utf8(b@),
            forall|j: int| 0 <= j < i ==> left@[j] == right@[j],
        decreases left@.len() - i,
    {
        if left[i] != right[i] {
            return false;
        }
        i = i + 1;
    }
    assert(left@ =~= right@);
    true
}

/// `t` stands in `s` at position `i`.
pub open spec fn occurs_at(s: Seq<char>, t: Seq<char>, i: int) -> bool {
    &&& 0 <= i <= s.len() - t.len()
    &&& s.subrange(i, i + t.len()) == t
}

/// `t` stands somewhere in `s`.
pub open spec fn has_text(s: Seq<char>, t: Seq<char>) -> bool {
    exists|i: int| occurs_at(s, t, i)
}

/// The first position at or after `from` where `t` stands in `s`.
pub open spec fn first_occurrence(s: Seq<char>, t: Seq<char>, from: int) -> Option<int>
    decreases s.len() + 1 - from,
{
    if from < 0 || from > s.len() - t.len() {
        None
    } else if s.subrange(from, from + t.len()) == t {
        Some(from)
    } else {
        first_occurrence(s, t, from + 1)
    }
}

/// A first occurrence is an occurrence, and nothing occurs before it.
pub proof fn lemma_first_occurrence(s: Seq<char>, t: Seq<char>, from: int)
    requires
        0 <= from,
    ensures
        match first_occurrence(s, t, from) {
            Some(i) => {
                &&& from <= i
                &&& occurs_at(s, t, i)
                &&& forall|j: int| from <= j < i ==> !occurs_at(s, t, j)
            },
            None => forall|j: int| from <= j ==> !occurs_at(s, t, j),
        },
    decreases s.len() + 1 - from,
{
    if from > s.len() - t.len() {
    } else if s.subrange(from, from + t.len()) == t {
    } else {
        lemma_first_occurrence(s, t, from + 1);
        assert(!occurs_at(s, t, from));
    }
}

/// Whether `t` stands in `s` at position `i`.
fn stands_at(s: &[char], t: &[char], i: usize) -> (r: bool)
    requires
        i + t@.len() <= s@.len(),
    ensures
        r == (s@.subrange(i as int, i + t@.len()) == t@),
{
    let n: usize = s.len();
    let mut k: usize = 0;
    while k < t.len()
        invariant
            n == s@.len(),
            i + t@.len() <= n,
            k <= t@.len(),
            forall|j: int| 0 <= j < k ==> s@[i + j] == t@[j],
        decreases t@.len() - k,
    {
        if s[i + k] != t[k] {
            assert(s@.subrange(i as int, i + t@.len())[k as int] != t@[k as int]);
            return false;
        }
        k = k + 1;
    }
    assert(s@.subrange(i as int, i + t@.len()) =~= t@);
    true
}

/// The first position at or after `from` where `t` stands in `s`.
pub fn find_text(s: &[char], t: &[char], from: usize) -> (r: Option<usize>)
    ensures
        match r {
            Some(i) => first_occurrence(s@, t@, from as int) == Some(i as int),
            None => first_occurrence(s@, t@, from as int) is None,
        },
        r matches Some(i) ==> from <= i && i + t@.len() <= s@.len(),
{
    proof {
        lemma_first_occurrence(s@, t@, from as int);
    }
    let mut i: usize = from;
    while i <= s.len() && s.len() - i >= t.len()
        invariant
            from <= i,
            first_occurrence(s@, t@, from as int) == first_occurrence(s@, t@, i as int),
        decreases s@.len() + 1 - i,
    {
        if stands_at(s, t, i) {
            return Some(i);
        }
        if i == s.len() {
            assert(first_occurrence(s@, t@, i + 1) is None);
            return None;
        }
        i = i + 1;
    }
    None
}

/// Whether `t` stands somewhere in `s`.
pub fn contains_text(s: &str, t: &str) -> (r: bool)
    ensures
        r == has_text(s@, t@),
{
    let hay: Vec<char> = chars_of(s);
    let needle: Vec<char> = chars_of(t);
    proof {
        lemma_first_occurrence(s@, t@, 0);
    }
    find_text(hay.as_slice(), needle.as_slice(), 0).is_some()
}

/// Whether `s` begins with `prefix`.
pub fn starts_with(s: &str, prefix: &str) -> (r: bool)
    ensures
        r == prefix@.is_prefix_of(s@),
{
    let whole: Vec<char> = chars_of(s);
    let head: Vec<char> = chars_of(prefix);
    if head.len() > whole.len() {
        return false;
    }
    proof {
        assert(s@.subrange(0, prefix@.len() as int) == prefix@ <==> prefix@.is_prefix_of(s@));
    }
    stands_at(whole.as_slice(), head.as_slice(), 0)
}

/// The first `n` characters of `s`, or all of them when there are fewer.
pub open spec fn leading(s: Seq<char>, n: nat) -> Seq<char> {
    if s.len() <= n {
        s
    } else {
        s.take(n as int)
    }
}

/// The first `n` characters of `s`, or all of them when there are fewer.
pub fn leading_text(s: &str, n: usize) -> (r: String)
    ensures
        r@ == leading(s@, n as nat),
{
    let count: usize = s.unicode_len();
    if count <= n {
        s.to_owned()
    } else {
        let head = s.substring_char(0, n);
        head.to_owned()
    }
}

/// `first`, then `second`.
pub fn concat_text(first: &str, second: &str) -> (r: String)
    ensures
        r@ == first@ + second@,
{
    let mut out = first.to_owned();
    out.append(second);
    out
}

/// The strings of `parts` one after the other, `separator` between each two.
pub open spec fn joined(parts: Seq<Seq<char>>, separator: Seq<char>) -> Seq<char>
    decreases parts.len(),
{
    if parts.len() == 0 {
        Seq::empty()
    } else if parts.len() == 1 {
        parts[0]
    } else {
        joined(parts.drop_last(), separator) + separator + parts.last()
    }
}

/// The texts of a list of strings.
pub open spec fn texts(parts: Seq<String>) -> Seq<Seq<char>> {
    parts.map_values(|s: String| s@)
}

/// The strings of `parts` one after the other, `separator` between each two.
pub fn join_text(parts: &Vec<String>, separator: &str) -> (r: String)
    ensures
        r@ == joined(texts(parts@), separator@),
{
    let mut out = String::new();
    let mut i: usize = 0;
    while i < parts.len()
        invariant
            i <= parts@.len(),
            out@ == joined(texts(parts@).take(i as int), separator@),
        decreases parts@.len() - i,
    {
        let ghost before = texts(parts@).take(i as int);
        let ghost after = texts(parts@).take(i as int + 1);
        proof {
            assert(after.drop_last() =~= before);
            assert(after.last() == parts@[i as int]@);
        }
        if i > 0 {
            out.append(separator);
        }
        out.append(parts[i].as_str());
        proof {
            if i == 0 {
                assert(after.len() == 1);
                assert(out@ =~= parts@[0]@);
            }
        }
        i = i + 1;
    }
    assert(texts(parts@).take(parts@.len() as int) =~= texts(parts@));
    out
}

/// `c` does not stand in `s`.
pub open spec fn free_of(s: Seq<char>, c: char) -> bool {
    forall|i: int| 0 <= i < s.len() ==> #[trigger] s[i] != c
}

/// A joined text says what was joined: as many strings, none of which holds the
/// separator, never join to the same text unless they are the same strings.
pub proof fn law_joined_is_unambiguous(a: Seq<Seq<char>>, b: Seq<Seq<char>>, c: char)
    requires
        a.len() == b.len(),
        forall|i: int| 0 <= i < a.len() ==> free_of(#[trigger] a[i], c),
        forall|i: int| 0 <= i < b.len() ==> free_of(#[trigger] b[i], c),
        joined(a, seq![c]) == joined(b, seq![c]),
    ensures
        a == b,
    decreases a.len(),
{
    if a.len() == 0 {
        assert(a =~= b);
    } else if a.len() == 1 {
        assert(a =~= b);
    } else {
        let whole = joined(a, seq![c]);
        let left = joined(a.drop_last(), seq![c]);
        let right = joined(b.drop_last(), seq![c]);
        let x = a.last();
        let y = b.last();
        assert(free_of(x, c) && free_of(y, c));
        assert(whole.len() == left.len() + 1 + x.len() && whole.len() == right.len() + 1 + y.len());
        assert(whole[left.len() as int] == c && whole[right.len() as int] == c);
        if x.len() < y.len() {
            assert(whole[left.len() as int] == y[left.len() - right.len() - 1]);
        } else if y.len() < x.len() {
            assert(whole[right.len() as int] == x[right.len() - left.len() - 1]);
        }
        assert(whole.subrange(0, left.len() as int) =~= left);
        assert(whole.subrange(0, right.len() as int) =~= right);
        assert(whole.subrange(left.len() as int + 1, whole.len() as int) =~= x);
        assert(whole.subrange(right.len() as int + 1, whole.len() as int) =~= y);
        assert forall|i: int| 0 <= i < a.len() - 1 implies free_of(
            #[trigger] a.drop_last()[i],
            c,
        ) by {
            assert(a.drop_last()[i] == a[i]);
        }
        assert forall|i: int| 0 <= i < b.len() - 1 implies free_of(
            #[trigger] b.drop_last()[i],
            c,
        ) by {
            assert(b.drop_last()[i] == b[i]);
        }
        law_joined_is_unambiguous(a.drop_last(), b.drop_last(), c);
        assert(a =~= a.drop_last().push(x));
        assert(b =~= b.drop_last().push(y));
    }
}

/// A part of a text is found in it, wherever it stands.
pub proof fn law_a_part_is_found(before: Seq<char>, part: Seq<char>, after: Seq<char>)
    ensures
        has_text(before + part + after, part),
{
    let whole = before + part + after;
    let n = before.len() as int;
    assert(whole.subrange(n, n + part.len()) =~= part);
    assert(occurs_at(whole, part, n));
}

/// The leading characters of a text are its beginning, as many as were asked for or as
/// there are.
pub proof fn law_leading_is_the_beginning(s: Seq<char>, n: nat)
    ensures
        leading(s, n).is_prefix_of(s),
        leading(s, n).len() == if s.len() < n {
            s.len()
        } else {
            n
        },
{
}

/// Strings are joined by putting the separator between each two of them, and nowhere
/// else.
pub proof fn law_joined_puts_the_separator_between(
    parts: Seq<Seq<char>>,
    more: Seq<char>,
    separator: Seq<char>,
)
    ensures
        joined(Seq::empty(), separator) == Seq::<char>::empty(),
        joined(seq![more], separator) == more,
        parts.len() > 0 ==> joined(parts.push(more), separator) == joined(parts, separator)
            + separator + more,
{
    assert(parts.push(more).drop_last() =~= parts);
}

} // verus!
