//! Hexadecimal quantities as the node's RPC interface writes them (`0x1a`).

use vstd::prelude::*;
use crate::text::{chars_of, starts_with};
use crate::hex::hex_digit;

verus! {

/// `c` is a hexadecimal digit of either case.
pub open spec fn is_hex_char(c: char) -> bool {
    ('0' <= c <= '9') || ('a' <= c <= 'f') || ('A' <= c <= 'F')
}

/// Value of a hexadecimal digit.
pub open spec fn hex_char_value(c: char) -> nat {
    if '0' <= c <= '9' {
        (c as int - 48) as nat
    } else if 'a' <= c <= 'f' {
        (c as int - 87) as nat
    } else {
        (c as int - 55) as nat
    }
}

/// The number that a string of hexadecimal digits denotes.
pub open spec fn hex_number(d: Seq<char>) -> nat
    decreases d.len(),
{
    if d.len() == 0 {
        0
    } else {
        hex_number(d.drop_last()) * 16 + hex_char_value(d.last())
    }
}

/// The digits of a quantity: the text after a leading `0x`, if any.
pub open spec fn quantity_digits(s: Seq<char>) -> Seq<char> {
    if starts_with(s, "0x"@) {
        s.skip(2)
    } else {
        s
    }
}

/// The value of a quantity: its digits read in base 16 when there is at
/// least one, all are hexadecimal digits and the number fits in 64 bits;
/// zero otherwise.
pub open spec fn quantity_value(s: Seq<char>) -> u64 {
    let d = quantity_digits(s);
    if d.len() > 0 && (forall|i: int| 0 <= i < d.len() ==> is_hex_char(#[trigger] d[i]))
        && hex_number(d) <= u64::MAX {
        hex_number(d) as u64
    } else {
        0
    }
}

fn hex_char_digit(c: char) -> (r: Option<u64>)
    ensures
        match r {
            Some(v) => is_hex_char(c) && v == hex_char_value(c) && v < 16,
            None => !is_hex_char(c),
        },
{
    if '0' <= c && c <= '9' {
        Some((c as u32 - 48) as u64)
    } else if 'a' <= c && c <= 'f' {
        Some((c as u32 - 87) as u64)
    } else if 'A' <= c && c <= 'F' {
        Some((c as u32 - 55) as u64)
    } else {
        None
    }
}

proof fn lemma_hex_number_grows(d: Seq<char>, j: int)
    requires
        0 <= j <= d.len(),
    ensures
        hex_number(d) >= hex_number(d.take(j)),
    decreases d.len() - j,
{
    if j < d.len() {
        lemma_hex_number_grows(d, j + 1);
        assert(d.take(j + 1).drop_last() =~= d.take(j));
    } else {
        assert(d.take(j) =~= d);
    }
}

/// Reads a hexadecimal quantity such as `0x1a`; text that is not one reads
/// as zero.
pub fn parse_hex_u64(s: &str) -> (r: u64)
    ensures
        r == quantity_value(s@),
{
    let cs = chars_of(s);
    let n = cs.len();
    let start: usize = if n >= 2 && cs[0] == '0' && cs[1] == 'x' {
        2
    } else {
        0
    };
    let ghost d = quantity_digits(s@);
    proof {
        if start == 2 {
            assert(s@.subrange(0, 2) =~= "0x"@) by {
                reveal_strlit("0x");
            }
        } else {
            reveal_strlit("0x");
            if starts_with(s@, "0x"@) {
                assert(s@.subrange(0, 2)[0] == '0' && s@.subrange(0, 2)[1] == 'x');
            }
        }
        assert(d =~= cs@.skip(start as int));
    }
    if start == n {
        return 0;
    }
    let mut acc: u64 = 0;
    let mut i: usize = start;
    while i < n
        invariant
            n == cs@.len(),
            start <= i <= n,
            start < n,
            d =~= cs@.skip(start as int),
            d == quantity_digits(s@),
            forall|k: int| 0 <= k < i - start ==> is_hex_char(#[trigger] d[k]),
            acc == hex_number(d.take(i - start)),
        decreases n - i,
    {
        let ghost k = i - start;
        assert(d[k] == cs@[i as int]);
        match hex_char_digit(cs[i]) {
            Some(v) => {
                assert(d.take(k + 1).drop_last() =~= d.take(k));
                if acc >= 0x1000_0000_0000_0000 {
                    proof {
                        lemma_hex_number_grows(d, k + 1);
                        assert(hex_number(d.take(k + 1)) == acc * 16 + v);
                        assert(acc * 16 + v > u64::MAX) by (nonlinear_arith)
                            requires
                                acc >= 0x1000_0000_0000_0000,
                                v >= 0,
                        ;
                        assert(hex_number(d) > u64::MAX);
                    }
                    return 0;
                }
                acc = acc * 16 + v;
            },
            None => {
                assert(!is_hex_char(d[k]));
                assert(!(forall|j: int| 0 <= j < d.len() ==> is_hex_char(#[trigger] d[j])));
                return 0;
            },
        }
        i = i + 1;
    }
    assert(d.take(n - start) =~= d);
    acc
}

/// Lowercase base-16 digits of a number, without leading zeros.
pub open spec fn hex_digits(n: nat) -> Seq<char>
    decreases n,
{
    if n < 16 {
        seq![hex_digit(n)]
    } else {
        hex_digits(n / 16).push(hex_digit(n % 16))
    }
}

proof fn lemma_hex_digits(n: nat)
    ensures
        hex_digits(n).len() > 0,
        forall|i: int| 0 <= i < hex_digits(n).len() ==> is_hex_char(#[trigger] hex_digits(n)[i]),
        hex_number(hex_digits(n)) == n,
    decreases n,
{
    if n < 16 {
        let d = hex_digits(n);
        assert(d.drop_last() =~= Seq::<char>::empty());
        assert(hex_char_value(hex_digit(n)) == n);
        assert(hex_number(d.drop_last()) == 0);
        assert(hex_number(d) == hex_number(d.drop_last()) * 16 + hex_char_value(d.last()));
    } else {
        lemma_hex_digits(n / 16);
        let d = hex_digits(n);
        assert(d.drop_last() =~= hex_digits(n / 16));
        assert(hex_char_value(hex_digit(n % 16)) == n % 16);
        assert((n / 16) * 16 + n % 16 == n) by (nonlinear_arith);
        assert(hex_number(d) == hex_number(d.drop_last()) * 16 + hex_char_value(d.last()));
        assert forall|i: int| 0 <= i < d.len() implies is_hex_char(#[trigger] d[i]) by {
            if i < d.len() - 1 {
                assert(d[i] == hex_digits(n / 16)[i]);
            }
        }
    }
}

/// A quantity written the way the node writes one, `0x` and the lowercase
/// digits, reads back as the number written.
pub proof fn lemma_quantity_round_trip(n: u64)
    ensures
        quantity_value("0x"@ + hex_digits(n as nat)) == n,
{
    reveal_strlit("0x");
    let s = "0x"@ + hex_digits(n as nat);
    lemma_hex_digits(n as nat);
    assert(s.subrange(0, 2) =~= "0x"@);
    assert(quantity_digits(s) =~= hex_digits(n as nat));
}

} // verus!
