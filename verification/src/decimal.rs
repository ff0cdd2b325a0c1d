//! Reading an amount from its decimal text.

use vstd::prelude::*;
use vstd::string::StrSliceExecFns;

verus! {

/// The value of one decimal digit character.
pub open spec fn dec_digit_val(c: char) -> Option<u8> {
    let x = c as u32;
    if 48 <= x <= 57 {
        Some((x - 48) as u8)
    } else {
        None
    }
}

/// A non-empty text of decimal digits alone.
pub open spec fn is_dec_digits(s: Seq<char>) -> bool {
    s.len() > 0 && (forall|i: int| 0 <= i < s.len() ==> dec_digit_val(#[trigger] s[i]) is Some)
}

/// The number a digit text denotes.
pub open spec fn dec_val(s: Seq<char>) -> nat
    decreases s.len(),
{
    if s.len() == 0 {
        0
    } else {
        (dec_val(s.drop_last()) * 10 + (match dec_digit_val(s.last()) {
            Some(d) => d,
            None => 0,
        })) as nat
    }
}

/// A digit text's value dominates each of its prefixes' values.
proof fn lemma_dec_val_prefix(s: Seq<char>, j: int)
    requires
        0 <= j <= s.len(),
    ensures
        dec_val(s) >= dec_val(s.subrange(0, j)),
    decreases s.len() - j,
{
    if j == s.len() {
        assert(s.subrange(0, j) =~= s);
    } else {
        lemma_dec_val_prefix(s, j + 1);
        let t = s.subrange(0, j + 1);
        assert(t.drop_last() =~= s.subrange(0, j));
        assert(dec_val(t) >= dec_val(s.subrange(0, j)) * 10);
        assert(dec_val(s.subrange(0, j)) * 10 >= dec_val(s.subrange(0, j)));
    }
}

/// A decimal digit is an ASCII character.
proof fn lemma_dec_digit_is_ascii(c: char)
    requires
        dec_digit_val(c) is Some,
    ensures
        '\0' <= c <= '\u{7f}',
{
    assert((c as u32) <= 57);
}

/// A text with a character outside ASCII is no digit text.
proof fn lemma_non_ascii_not_digits(s: Seq<char>)
    requires
        !vstd::utf8::is_ascii_chars(s),
    ensures
        !is_dec_digits(s),
{
    if is_dec_digits(s) {
        assert forall|i: int| 0 <= i < s.len() implies '\0' <= #[trigger] s[i] <= '\u{7f}' by {
            assert(dec_digit_val(s[i]) is Some);
            lemma_dec_digit_is_ascii(s[i]);
        }
        assert(vstd::utf8::is_ascii_chars(s));
        assert(false);
    }
}

/// Reads a number from its decimal text: the digits' value when the text
/// is one or more decimal digits denoting a number that fits in 128
/// bits, and nothing otherwise.
pub fn parse_u128(text: &str) -> (r: Option<u128>)
    ensures
        match r {
            Some(v) => is_dec_digits(text@) && dec_val(text@) == v,
            None => !is_dec_digits(text@) || dec_val(text@) > u128::MAX,
        },
{
    if !text.is_ascii() {
        proof {
            lemma_non_ascii_not_digits(text@);
        }
        return None;
    }
    let bs: Vec<u8> = text.as_bytes_vec();
    proof {
        broadcast use vstd::string::is_ascii_spec_bytes;

        assert(bs@ =~= Seq::new(text@.len(), |i: int| text@[i] as u8));
    }
    let n: usize = bs.len();
    if n == 0 {
        return None;
    }
    let mut v: u128 = 0;
    let mut i: usize = 0;
    while i < n
        invariant
            text@.len() == n,
            bs@.len() == n,
            bs@ == Seq::new(text@.len(), |j: int| text@[j] as u8),
            vstd::utf8::is_ascii_chars(text@),
            i <= n,
            forall|j: int| 0 <= j < i ==> dec_digit_val(#[trigger] text@[j]) is Some,
            v as nat == dec_val(text@.subrange(0, i as int)),
        decreases n - i,
    {
        let b: u8 = bs[i];
        proof {
            assert((text@[i as int] as u32) < 128);
        }
        if b < 48 || b > 57 {
            proof {
                assert(dec_digit_val(text@[i as int]) is None);
            }
            return None;
        }
        let d: u8 = b - 48;
        let stepped: Option<u128> = match v.checked_mul(10) {
            Some(m) => m.checked_add(d as u128),
            None => None,
        };
        proof {
            assert(text@.subrange(0, i + 1).drop_last() =~= text@.subrange(0, i as int));
            assert(dec_digit_val(text@.subrange(0, i + 1).last()) == Some(d));
        }
        match stepped {
            Some(next) => {
                v = next;
            },
            None => {
                proof {
                    assert(dec_val(text@.subrange(0, i + 1)) > u128::MAX);
                    lemma_dec_val_prefix(text@, i + 1);
                }
                return None;
            },
        }
        i += 1;
    }
    proof {
        assert(text@.subrange(0, n as int) =~= text@);
    }
    Some(v)
}

} // verus!
