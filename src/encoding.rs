//! Percent-encoding of URL query components.

use vstd::prelude::*;

use vstd::string::StringSliceAdditionalSpecFns;
use vstd::utf8::encode_utf8;

use crate::text::push_char;

verus! {

/// Bytes that percent-encoding passes through: `A-Z`, `a-z`, `0-9`, `-`, `_`, `.`, `~`.
pub open spec fn is_unreserved(b: u8) -> bool {
    ||| 65 <= b <= 90
    ||| 97 <= b <= 122
    ||| 48 <= b <= 57
    ||| b == 45
    ||| b == 95
    ||| b == 46
    ||| b == 126
}

/// The uppercase hexadecimal digit for a value below 16.
pub open spec fn hex_digit(n: u8) -> char {
    if n < 10 {
        (48 + n) as char
    } else {
        (55 + n) as char
    }
}

/// How one byte appears in percent-encoded text.
pub open spec fn encode_byte(b: u8) -> Seq<char> {
    if is_unreserved(b) {
        seq![b as char]
    } else {
        seq!['%', hex_digit(b / 16), hex_digit(b % 16)]
    }
}

/// Percent-encoding of a byte sequence, byte by byte.
pub open spec fn percent_encoded(bytes: Seq<u8>) -> Seq<char>
    decreases bytes.len(),
{
    if bytes.len() == 0 {
        Seq::empty()
    } else {
        percent_encoded(bytes.drop_last()) + encode_byte(bytes.last())
    }
}

/// Percent-encoding works byte by byte: the encoding of two byte sequences
/// one after the other is the encoding of the first followed by that of the
/// second.
pub proof fn percent_encoded_concat(a: Seq<u8>, b: Seq<u8>)
    ensures
        percent_encoded(a + b) == percent_encoded(a) + percent_encoded(b),
    decreases b.len(),
{
    if b.len() == 0 {
        assert(a + b == a);
    } else {
        percent_encoded_concat(a, b.drop_last());
        assert((a + b).drop_last() == a + b.drop_last());
        assert((a + b).last() == b.last());
    }
}

/// An unreserved byte appears as itself; any other byte as `%` and its two
/// uppercase hexadecimal digits.
pub proof fn percent_encoded_byte(b: u8)
    ensures
        percent_encoded(seq![b]) == encode_byte(b),
        is_unreserved(b) ==> percent_encoded(seq![b]) == seq![b as char],
        !is_unreserved(b) ==> percent_encoded(seq![b]) == seq!['%', hex_digit(b / 16), hex_digit(b % 16)],
{
    assert(seq![b].drop_last() == Seq::<u8>::empty());
    assert(percent_encoded(Seq::<u8>::empty()) == Seq::<char>::empty());
    assert(Seq::<char>::empty() + encode_byte(b) == encode_byte(b));
}

/// The length of the percent-encoding: one character for each unreserved
/// byte, three for every other byte.
pub open spec fn encoded_len(bytes: Seq<u8>) -> nat
    decreases bytes.len(),
{
    if bytes.len() == 0 {
        0
    } else {
        encoded_len(bytes.drop_last()) + if is_unreserved(bytes.last()) {
            1nat
        } else {
            3nat
        }
    }
}

/// An uppercase hexadecimal digit.
pub open spec fn is_upper_hex(c: char) -> bool {
    ('0' <= c <= '9') || ('A' <= c <= 'F')
}

/// A character that percent-encoded text can hold: an unreserved one or `%`.
pub open spec fn is_encoded_char(c: char) -> bool {
    ||| 'A' <= c <= 'Z'
    ||| 'a' <= c <= 'z'
    ||| '0' <= c <= '9'
    ||| c == '-' || c == '_' || c == '.' || c == '~' || c == '%'
}

/// Every `%` starts an escape of two uppercase hexadecimal digits.
pub open spec fn escapes_complete(r: Seq<char>) -> bool {
    forall|i: int|
        0 <= i < r.len() && #[trigger] r[i] == '%' ==> i + 2 < r.len() && is_upper_hex(r[i + 1])
            && is_upper_hex(r[i + 2])
}

proof fn hex_digit_shape(n: u8)
    requires
        n < 16,
    ensures
        is_upper_hex(hex_digit(n)),
        hex_digit(n) != '%',
{
}

/// The shape of percent-encoded text: its length counts one character per
/// unreserved byte and three per other byte, it holds only unreserved
/// characters and `%`, and every `%` is followed by two uppercase
/// hexadecimal digits.
pub proof fn percent_encoded_shape(bytes: Seq<u8>)
    ensures
        percent_encoded(bytes).len() == encoded_len(bytes),
        forall|i: int| 0 <= i < percent_encoded(bytes).len() ==> #[trigger] is_encoded_char(percent_encoded(bytes)[i]),
        escapes_complete(percent_encoded(bytes)),
    decreases bytes.len(),
{
    if bytes.len() > 0 {
        let prev = percent_encoded(bytes.drop_last());
        let b = bytes.last();
        let e = encode_byte(b);
        percent_encoded_shape(bytes.drop_last());
        hex_digit_shape(b / 16);
        hex_digit_shape(b % 16);
        let r = prev + e;
        assert(percent_encoded(bytes) == r);
        assert forall|i: int| 0 <= i < r.len() implies #[trigger] is_encoded_char(r[i]) by {
            if i >= prev.len() {
                assert(r[i] == e[i - prev.len()]);
            } else {
                assert(r[i] == prev[i]);
            }
        }
        assert forall|i: int| 0 <= i < r.len() && #[trigger] r[i] == '%' implies i + 2 < r.len()
            && is_upper_hex(r[i + 1]) && is_upper_hex(r[i + 2]) by {
            if i >= prev.len() {
                assert(r[i] == e[i - prev.len()]);
                assert(r[i + 1] == e[i + 1 - prev.len()]);
                assert(r[i + 2] == e[i + 2 - prev.len()]);
            } else {
                assert(r[i] == prev[i]);
                assert(r[i + 1] == prev[i + 1]);
                assert(r[i + 2] == prev[i + 2]);
            }
        }
    }
}

fn hex_char(n: u8) -> (c: char)
    requires
        n < 16,
    ensures
        c == hex_digit(n),
{
    if n < 10 {
        (48 + n) as char
    } else {
        (55 + n) as char
    }
}

/// Percent-encoding of a text: of its UTF-8 bytes.
pub open spec fn encoded_text(s: Seq<char>) -> Seq<char> {
    percent_encoded(encode_utf8(s))
}

/// Percent-encodes the UTF-8 bytes of `s`: unreserved bytes pass through,
/// every other byte becomes `%` and two uppercase hexadecimal digits.
pub fn urlencoding_encode(s: &str) -> (r: String)
    ensures
        r@ == encoded_text(s@),
{
    let bytes = s.as_bytes();
    let mut out = String::new();
    let mut i: usize = 0;
    while i < bytes.len()
        invariant
            i <= bytes@.len(),
            bytes@ == s.spec_bytes(),
            out@ == percent_encoded(bytes@.subrange(0, i as int)),
        decreases bytes@.len() - i,
    {
        let b = bytes[i];
        proof {
            assert(bytes@.subrange(0, i + 1).drop_last() == bytes@.subrange(0, i as int));
        }
        if (65 <= b && b <= 90) || (97 <= b && b <= 122) || (48 <= b && b <= 57) || b == 45
            || b == 95 || b == 46 || b == 126 {
            push_char(&mut out, b as char);
        } else {
            push_char(&mut out, '%');
            push_char(&mut out, hex_char(b / 16));
            push_char(&mut out, hex_char(b % 16));
        }
        i = i + 1;
    }
    proof {
        assert(bytes@.subrange(0, bytes@.len() as int) == bytes@);
    }
    out
}

} // verus!
