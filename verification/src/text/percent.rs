//! Percent-encoding of query values.
use vstd::prelude::*;
use vstd::string::*;
use vstd::utf8::*;

verus! {

/// A byte that stands for itself in a query value.
pub open spec fn unreserved(b: u8) -> bool {
    ||| 65 <= b <= 90
    ||| 97 <= b <= 122
    ||| 48 <= b <= 57
    ||| b == 45
    ||| b == 95
    ||| b == 46
    ||| b == 126
}

/// The upper-case hexadecimal digit for `d`.
pub open spec fn hex_digit(d: int) -> char {
    if d < 10 {
        (48 + d) as char
    } else {
        (55 + d) as char
    }
}

/// How one byte is written.
pub open spec fn encoded_byte(b: u8) -> Seq<char> {
    if unreserved(b) {
        seq![b as char]
    } else {
        seq!['%', hex_digit(b as int / 16), hex_digit(b as int % 16)]
    }
}

/// How a run of bytes is written.
pub open spec fn encoded_bytes(bytes: Seq<u8>) -> Seq<char>
    decreases bytes.len(),
{
    if bytes.len() == 0 {
        Seq::empty()
    } else {
        encoded_byte(bytes[0]) + encoded_bytes(bytes.skip(1))
    }
}

/// How a text is written: its UTF-8 bytes, each by itself.
pub open spec fn percent_encoded(s: Seq<char>) -> Seq<char> {
    encoded_bytes(encode_utf8(s))
}

/// What an upper-case hexadecimal digit counts for.
pub open spec fn hex_value(c: char) -> Option<int> {
    if '0' <= c <= '9' {
        Some(c as int - 48)
    } else if 'A' <= c <= 'F' {
        Some(c as int - 55)
    } else {
        None
    }
}

/// The bytes that an encoded value stands for.
pub open spec fn decoded_bytes(s: Seq<char>) -> Option<Seq<u8>>
    decreases s.len(),
{
    if s.len() == 0 {
        Some(Seq::empty())
    } else if s[0] == '%' {
        if s.len() < 3 {
            None
        } else {
            match (hex_value(s[1]), hex_value(s[2]), decoded_bytes(s.skip(3))) {
                (Some(high), Some(low), Some(rest)) => Some(
                    seq![(high * 16 + low) as u8] + rest,
                ),
                _ => None,
            }
        }
    } else if s[0] <= '\u{7f}' {
        match decoded_bytes(s.skip(1)) {
            Some(rest) => Some(seq![s[0] as u8] + rest),
            None => None,
        }
    } else {
        None
    }
}

/// A character that an encoded value may hold.
pub open spec fn query_safe(c: char) -> bool {
    ||| c == '%'
    ||| 'A' <= c <= 'Z'
    ||| 'a' <= c <= 'z'
    ||| '0' <= c <= '9'
    ||| c == '-'
    ||| c == '_'
    ||| c == '.'
    ||| c == '~'
}

/// Decoding what was encoded gives the same bytes again.
pub proof fn law_encoding_reads_back(bytes: Seq<u8>)
    ensures
        decoded_bytes(encoded_bytes(bytes)) == Some(bytes),
    decreases bytes.len(),
{
    if bytes.len() == 0 {
        assert(bytes =~= Seq::<u8>::empty());
    } else {
        let b = bytes[0];
        let rest = encoded_bytes(bytes.skip(1));
        law_encoding_reads_back(bytes.skip(1));
        let whole = encoded_bytes(bytes);
        if unreserved(b) {
            assert(whole.skip(1) =~= rest);
            assert(whole[0] == b as char);
            assert(seq![b] + bytes.skip(1) =~= bytes);
        } else {
            assert(whole.skip(3) =~= rest);
            assert(whole[1] == hex_digit(b as int / 16));
            assert(whole[2] == hex_digit(b as int % 16));
            assert(seq![b] + bytes.skip(1) =~= bytes);
        }
    }
}

/// An encoded value holds only unreserved characters and `%`, so none that
/// separates the parts of a URL.
pub proof fn law_encoding_is_query_safe(bytes: Seq<u8>)
    ensures
        forall|i: int|
            0 <= i < encoded_bytes(bytes).len() ==> query_safe(#[trigger] encoded_bytes(bytes)[i]),
    decreases bytes.len(),
{
    if bytes.len() > 0 {
        law_encoding_is_query_safe(bytes.skip(1));
        let head = encoded_byte(bytes[0]);
        let rest = encoded_bytes(bytes.skip(1));
        assert forall|i: int| 0 <= i < encoded_bytes(bytes).len() implies query_safe(
            #[trigger] encoded_bytes(bytes)[i],
        ) by {
            if i >= head.len() {
                assert(encoded_bytes(bytes)[i] == rest[i - head.len()]);
            }
        }
    }
}

/// The upper-case hexadecimal digit for `d`.
fn hex_char(d: u8) -> (r: char)
    requires
        d < 16,
    ensures
        r == hex_digit(d as int),
{
    if d < 10 {
        (48 + d) as char
    } else {
        (55 + d) as char
    }
}

/// Percent-encodes a string for use as a query parameter value.
pub fn percent_encode(value: &str) -> (r: String)
    ensures
        r@ == percent_encoded(value@),
{
    let bytes: &[u8] = value.as_bytes();
    let mut encoded = String::new();
    let mut i: usize = 0;
    assert(bytes@.skip(0) =~= bytes@);
    while i < bytes.len()
        invariant
            i <= bytes@.len(),
            encoded@ + encoded_bytes(bytes@.skip(i as int)) == encoded_bytes(bytes@),
        decreases bytes@.len() - i,
    {
        let b: u8 = bytes[i];
        let ghost before = encoded@;
        let ghost rest = encoded_bytes(bytes@.skip(i + 1));
        proof {
            assert(bytes@.skip(i as int)[0] == b);
            assert(bytes@.skip(i as int).skip(1) =~= bytes@.skip(i + 1));
        }
        if (65 <= b && b <= 90) || (97 <= b && b <= 122) || (48 <= b && b <= 57) || b == 45 || b
            == 95 || b == 46 || b == 126 {
            encoded.push(b as char);
        } else {
            encoded.push('%');
            encoded.push(hex_char(b / 16));
            encoded.push(hex_char(b % 16));
        }
        assert(encoded@ =~= before + encoded_byte(b));
        assert(encoded@ + rest =~= before + (encoded_byte(b) + rest));
        i = i + 1;
    }
    assert(encoded@ + encoded_bytes(bytes@.skip(bytes@.len() as int)) =~= encoded@);
    encoded
}

/// Letters, digits and `-_.~` stay as they are; every other byte becomes a percent sign
/// and two hexadecimal digits in upper case that name it. Bytes are encoded one after the
/// other, each on its own.
pub proof fn law_bytes_are_encoded_one_by_one(b: u8, first: Seq<u8>, second: Seq<u8>)
    ensures
        65 <= b <= 90 || 97 <= b <= 122 || 48 <= b <= 57 || b == 45 || b == 46 || b == 95 || b
            == 126 ==> encoded_bytes(seq![b]) == seq![b as char],
        !(65 <= b <= 90 || 97 <= b <= 122 || 48 <= b <= 57 || b == 45 || b == 46 || b == 95 || b
            == 126) ==> {
            &&& encoded_bytes(seq![b]).len() == 3
            &&& encoded_bytes(seq![b])[0] == '%'
            &&& hex_value(encoded_bytes(seq![b])[1]) == Some(b as int / 16)
            &&& hex_value(encoded_bytes(seq![b])[2]) == Some(b as int % 16)
        },
        encoded_bytes(first + second) == encoded_bytes(first) + encoded_bytes(second),
    decreases first.len(),
{
    assert(seq![b].skip(1) =~= Seq::<u8>::empty());
    assert(encoded_bytes(Seq::<u8>::empty()) =~= Seq::<char>::empty());
    assert(encoded_bytes(seq![b]) =~= encoded_byte(b));
    if first.len() == 0 {
        assert(first + second =~= second);
        assert(encoded_bytes(first) + encoded_bytes(second) =~= encoded_bytes(second));
    } else {
        law_bytes_are_encoded_one_by_one(b, first.skip(1), second);
        assert((first + second).skip(1) =~= first.skip(1) + second);
        assert(encoded_bytes(first + second) =~= encoded_bytes(first) + encoded_bytes(second));
    }
}

} // verus!
