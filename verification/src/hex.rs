//! Hexadecimal text encoding of byte strings: lowercase encoding, and decoding
//! that accepts both letter cases.

use vstd::prelude::*;
use vstd::string::StringSliceAdditionalSpecFns;
use vstd::utf8::{encode_utf8, is_ascii_chars, is_ascii_chars_encode_utf8};

verus! {

broadcast use vstd::string::group_string_axioms;

/// Why a text is not the hexadecimal encoding of a byte string.
#[derive(Debug, Clone, Copy, PartialEq, Eq, Structural)]
pub enum HexError {
    /// The text has an odd number of bytes.
    OddLength,
    /// The byte at `index` is not a hexadecimal digit.
    InvalidHexCharacter { c: char, index: usize },
}

/// The lowercase hexadecimal digit for `d < 16`.
pub open spec fn hex_digit(d: nat) -> char {
    if d < 10 {
        ((48 + d) as u8) as char
    } else {
        ((87 + d) as u8) as char
    }
}

/// Lowercase hexadecimal encoding: two digits per byte, high nibble first.
pub open spec fn hex_encoding(b: Seq<u8>) -> Seq<char>
    decreases b.len(),
{
    if b.len() == 0 {
        Seq::empty()
    } else {
        hex_encoding(b.drop_last()).push(hex_digit(b.last() as nat / 16)).push(
            hex_digit(b.last() as nat % 16),
        )
    }
}

/// `c` is an ASCII hexadecimal digit of either case.
pub open spec fn is_hex_byte(c: u8) -> bool {
    (48 <= c <= 57) || (65 <= c <= 70) || (97 <= c <= 102)
}

/// Value of a hexadecimal digit byte.
pub open spec fn hex_value(c: u8) -> nat {
    if 48 <= c <= 57 {
        (c - 48) as nat
    } else if 65 <= c <= 70 {
        (c - 55) as nat
    } else {
        (c - 87) as nat
    }
}

/// Every byte before position `n` is a hexadecimal digit.
pub open spec fn hex_prefix(t: Seq<u8>, n: int) -> bool {
    forall|i: int| 0 <= i < n ==> is_hex_byte(#[trigger] t[i])
}

/// The bytes that an even-length all-digit text denotes.
pub open spec fn hex_bytes(t: Seq<u8>) -> Seq<u8> {
    Seq::new(
        t.len() / 2,
        |i: int| (hex_value(t[2 * i]) * 16 + hex_value(t[2 * i + 1])) as u8,
    )
}

/// What decoding the text `t` gives: an odd length is refused first, then
/// the first byte that is not a hexadecimal digit, else the denoted bytes.
pub open spec fn hex_decoding(t: Seq<u8>) -> Result<Seq<u8>, HexError> {
    if t.len() % 2 == 1 {
        Err(HexError::OddLength)
    } else if hex_prefix(t, t.len() as int) {
        Ok(hex_bytes(t))
    } else {
        let i = choose|i: int| 0 <= i < t.len() && !is_hex_byte(t[i]) && hex_prefix(t, i);
        Err(HexError::InvalidHexCharacter { c: t[i] as char, index: i as usize })
    }
}

fn nibble_char(d: u8) -> (c: char)
    requires
        d < 16,
    ensures
        c == hex_digit(d as nat),
{
    if d < 10 {
        let b: u8 = 48 + d;
        b as char
    } else {
        let b: u8 = 87 + d;
        b as char
    }
}

/// The lowercase hexadecimal encoding of `data`, as `hex::encode` writes it.
pub fn hex_encode(data: &[u8]) -> (r: String)
    ensures
        r@ == hex_encoding(data@),
{
    let mut r = String::new();
    let mut i: usize = 0;
    while i < data.len()
        invariant
            i <= data@.len(),
            r@ == hex_encoding(data@.take(i as int)),
        decreases data@.len() - i,
    {
        let b = data[i];
        r.push(nibble_char(b / 16));
        r.push(nibble_char(b % 16));
        assert(data@.take(i + 1).drop_last() =~= data@.take(i as int));
        i = i + 1;
    }
    assert(data@.take(data@.len() as int) =~= data@);
    r
}

fn digit_value(c: u8) -> (r: Option<u8>)
    ensures
        match r {
            Some(v) => is_hex_byte(c) && v == hex_value(c),
            None => !is_hex_byte(c),
        },
{
    if 48 <= c && c <= 57 {
        Some(c - 48)
    } else if 65 <= c && c <= 70 {
        Some(c - 55)
    } else if 97 <= c && c <= 102 {
        Some(c - 87)
    } else {
        None
    }
}

/// Decodes hexadecimal text given as bytes, as `hex::decode` does.
pub fn hex_decode_bytes(t: &[u8]) -> (r: Result<Vec<u8>, HexError>)
    ensures
        match r {
            Ok(v) => hex_decoding(t@) == Ok::<Seq<u8>, HexError>(v@),
            Err(e) => hex_decoding(t@) == Err::<Seq<u8>, HexError>(e),
        },
{
    let n = t.len();
    if n % 2 == 1 {
        return Err(HexError::OddLength);
    }
    let mut out: Vec<u8> = Vec::new();
    let mut i: usize = 0;
    while i < n / 2
        invariant
            n == t@.len(),
            n % 2 == 0,
            i <= n / 2,
            hex_prefix(t@, 2 * i),
            out@ =~= hex_bytes(t@).take(i as int),
        decreases n / 2 - i,
    {
        let hi = digit_value(t[2 * i]);
        let hi = match hi {
            Some(v) => v,
            None => {
                let k = 2 * i;
                assert(!is_hex_byte(t@[k as int]) && hex_prefix(t@, k as int));
                assert(!hex_prefix(t@, n as int));
                let e = HexError::InvalidHexCharacter { c: t[k] as char, index: k };
                proof {
                    lemma_first_invalid_unique(t@, k as int);
                }
                return Err(e);
            },
        };
        let lo = digit_value(t[2 * i + 1]);
        let lo = match lo {
            Some(v) => v,
            None => {
                let k = 2 * i + 1;
                assert(hex_prefix(t@, k as int));
                assert(!is_hex_byte(t@[k as int]));
                assert(!hex_prefix(t@, n as int));
                let e = HexError::InvalidHexCharacter { c: t[k] as char, index: k };
                proof {
                    lemma_first_invalid_unique(t@, k as int);
                }
                return Err(e);
            },
        };
        out.push(hi * 16 + lo);
        assert(hex_prefix(t@, 2 * (i + 1)));
        i = i + 1;
    }
    assert(out@ =~= hex_bytes(t@));
    Ok(out)
}

proof fn lemma_first_invalid_unique(t: Seq<u8>, k: int)
    requires
        0 <= k < t.len(),
        !is_hex_byte(t[k]),
        hex_prefix(t, k),
    ensures
        (choose|i: int| 0 <= i < t.len() && !is_hex_byte(t[i]) && hex_prefix(t, i)) == k,
{
    let j = choose|i: int| 0 <= i < t.len() && !is_hex_byte(t[i]) && hex_prefix(t, i);
    assert(0 <= j < t.len() && !is_hex_byte(t[j]) && hex_prefix(t, j));
    if j < k {
        assert(is_hex_byte(t[j]));
    } else if j > k {
        assert(is_hex_byte(t[k]));
    }
}

/// Decodes hexadecimal text, as `hex::decode` does on the text's UTF-8 bytes.
pub fn hex_decode(s: &str) -> (r: Result<Vec<u8>, HexError>)
    ensures
        match r {
            Ok(v) => hex_decoding(s.spec_bytes()) == Ok::<Seq<u8>, HexError>(v@),
            Err(e) => hex_decoding(s.spec_bytes()) == Err::<Seq<u8>, HexError>(e),
        },
{
    hex_decode_bytes(s.as_bytes())
}

proof fn lemma_hex_encoding_shape(b: Seq<u8>)
    ensures
        hex_encoding(b).len() == 2 * b.len(),
        forall|i: int|
            0 <= i < b.len() ==> hex_encoding(b)[2 * i] == hex_digit(#[trigger] b[i] as nat / 16)
                && hex_encoding(b)[2 * i + 1] == hex_digit(b[i] as nat % 16),
    decreases b.len(),
{
    if b.len() > 0 {
        let p = b.drop_last();
        lemma_hex_encoding_shape(p);
        assert forall|i: int| 0 <= i < b.len() implies hex_encoding(b)[2 * i] == hex_digit(
            #[trigger] b[i] as nat / 16,
        ) && hex_encoding(b)[2 * i + 1] == hex_digit(b[i] as nat % 16) by {
            if i < b.len() - 1 {
                assert(p[i] == b[i]);
            }
        }
    }
}

proof fn lemma_hex_digit(d: nat)
    requires
        d < 16,
    ensures
        (hex_digit(d) as u32) < 128,
        is_hex_byte(hex_digit(d) as u8),
        hex_value(hex_digit(d) as u8) == d,
{
}

/// Decoding gives back what encoding wrote: the lowercase hexadecimal text
/// of any byte string, read as UTF-8 bytes, decodes to that byte string.
pub proof fn lemma_hex_round_trip(b: Seq<u8>)
    ensures
        hex_decoding(encode_utf8(hex_encoding(b))) == Ok::<Seq<u8>, HexError>(b),
{
    let e = hex_encoding(b);
    lemma_hex_encoding_shape(b);
    assert forall|j: int| 0 <= j < e.len() implies ('\0' <= #[trigger] e[j] <= '\u{7f}') && is_hex_byte(
        e[j] as u8,
    ) && hex_value(e[j] as u8) == (if j % 2 == 0 {
        b[j / 2] as nat / 16
    } else {
        b[j / 2] as nat % 16
    }) by {
        let i = j / 2;
        assert(0 <= i < b.len());
        if j % 2 == 0 {
            assert(j == 2 * i);
            lemma_hex_digit(b[i] as nat / 16);
        } else {
            assert(j == 2 * i + 1);
            lemma_hex_digit(b[i] as nat % 16);
        }
    }
    assert(is_ascii_chars(e));
    is_ascii_chars_encode_utf8(e);
    let t = encode_utf8(e);
    assert(t.len() == e.len());
    assert(t.len() % 2 == 0);
    assert(hex_prefix(t, t.len() as int)) by {
        assert forall|j: int| 0 <= j < t.len() implies is_hex_byte(#[trigger] t[j]) by {
            assert(e[j] as u8 == t[j]);
        }
    }
    assert(hex_bytes(t) =~= b) by {
        assert forall|i: int| 0 <= i < b.len() implies #[trigger] hex_bytes(t)[i] == b[i] by {
            assert(e[2 * i] as u8 == t[2 * i]);
            assert(e[2 * i + 1] as u8 == t[2 * i + 1]);
            assert(hex_value(t[2 * i]) == b[i] as nat / 16);
            assert(hex_value(t[2 * i + 1]) == b[i] as nat % 16);
            assert((b[i] as nat / 16) * 16 + b[i] as nat % 16 == b[i] as nat);
        }
    }
}

proof fn lemma_hex_digit_range(d: nat)
    requires
        d < 16,
    ensures
        ('0' <= hex_digit(d) <= '9') || ('a' <= hex_digit(d) <= 'f'),
{
}

/// The encoding writes two characters per byte, each a digit or a lowercase
/// letter from `a` to `f`, and each pair denotes its byte, high nibble first.
pub proof fn lemma_hex_encoding_lowercase(b: Seq<u8>)
    ensures
        hex_encoding(b).len() == 2 * b.len(),
        forall|j: int|
            0 <= j < hex_encoding(b).len() ==> ('0' <= #[trigger] hex_encoding(b)[j] <= '9') || ('a'
                <= hex_encoding(b)[j] <= 'f'),
        forall|i: int|
            0 <= i < b.len() ==> crate::quantity::hex_char_value(hex_encoding(b)[2 * i]) * 16
                + crate::quantity::hex_char_value(hex_encoding(b)[2 * i + 1]) == #[trigger] b[i],
{
    lemma_hex_encoding_shape(b);
    let e = hex_encoding(b);
    assert forall|j: int| 0 <= j < e.len() implies ('0' <= #[trigger] e[j] <= '9') || ('a' <= e[j]
        <= 'f') by {
        let i = j / 2;
        let x = b[i];
        if j % 2 == 0 {
            assert(j == 2 * i);
            assert(e[j] == hex_digit(x as nat / 16));
            lemma_hex_digit_range(x as nat / 16);
        } else {
            assert(j == 2 * i + 1);
            assert(e[j] == hex_digit(x as nat % 16));
            lemma_hex_digit_range(x as nat % 16);
        }
    }
    assert forall|i: int| 0 <= i < b.len() implies crate::quantity::hex_char_value(e[2 * i]) * 16
        + crate::quantity::hex_char_value(e[2 * i + 1]) == #[trigger] b[i] by {
        assert(crate::quantity::hex_char_value(hex_digit(b[i] as nat / 16)) == b[i] as nat / 16);
        assert(crate::quantity::hex_char_value(hex_digit(b[i] as nat % 16)) == b[i] as nat % 16);
        assert((b[i] as nat / 16) * 16 + b[i] as nat % 16 == b[i] as nat);
    }
}

/// A text of even length is refused at its first byte that is not a
/// hexadecimal digit, and that byte is the one reported.
pub proof fn lemma_hex_error_is_first_bad_byte(t: Seq<u8>, c: char, index: usize)
    requires
        t.len() <= usize::MAX,
        hex_decoding(t) == Err::<Seq<u8>, HexError>(HexError::InvalidHexCharacter { c, index }),
    ensures
        t.len() % 2 == 0,
        index < t.len(),
        !is_hex_byte(t[index as int]),
        c == t[index as int] as char,
        forall|i: int| 0 <= i < index ==> is_hex_byte(#[trigger] t[i]),
{
    assert(t.len() % 2 == 0);
    assert(!hex_prefix(t, t.len() as int));
    let w = choose|w: int| 0 <= w < t.len() && !is_hex_byte(t[w]);
    let k = lemma_first_bad_byte(t, w);
    lemma_first_invalid_unique(t, k);
    assert(index as int == k);
}

proof fn lemma_first_bad_byte(t: Seq<u8>, w: int) -> (k: int)
    requires
        0 <= w < t.len(),
        !is_hex_byte(t[w]),
    ensures
        0 <= k <= w,
        !is_hex_byte(t[k]),
        hex_prefix(t, k),
    decreases w,
{
    if hex_prefix(t, w) {
        w
    } else {
        let j = choose|j: int| 0 <= j < w && !is_hex_byte(t[j]);
        lemma_first_bad_byte(t, j)
    }
}

} // verus!
