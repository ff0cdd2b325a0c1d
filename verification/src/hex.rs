//! The fixed-prefix hexadecimal text form of byte buffers: `0x` followed
//! by two lowercase digits per byte.

use vstd::prelude::*;
use vstd::arithmetic::div_mod::lemma_fundamental_div_mod;

verus! {

/// The lowercase hexadecimal digit for a value below 16.
pub open spec fn hex_char_of(v: u8) -> char {
    (if v < 10 {
        (48 + v) as u8
    } else {
        (87 + v) as u8
    }) as char
}

/// The `0x`-prefixed lowercase hexadecimal text of a byte buffer.
pub open spec fn prefixed_hex_of(b: Seq<u8>) -> Seq<char> {
    seq!['0', 'x'] + Seq::new(
        2 * b.len(),
        |i: int|
            if i % 2 == 0 {
                hex_char_of((b[i / 2] / 16) as u8)
            } else {
                hex_char_of((b[i / 2] % 16) as u8)
            },
    )
}

/// The value of one hexadecimal digit character, upper or lower case.
pub open spec fn hex_digit_val(c: char) -> Option<u8> {
    let x = c as u32;
    if 48 <= x <= 57 {
        Some((x - 48) as u8)
    } else if 97 <= x <= 102 {
        Some((x - 87) as u8)
    } else if 65 <= x <= 70 {
        Some((x - 55) as u8)
    } else {
        None
    }
}

pub open spec fn is_hex_digit(c: char) -> bool {
    hex_digit_val(c) is Some
}

/// The bytes denoted by a `0x`-prefixed hexadecimal text, or nothing if
/// the text lacks the prefix, has an odd number of digits, or holds a
/// character that is no hexadecimal digit.
pub open spec fn hex_decode(s: Seq<char>) -> Option<Seq<u8>> {
    if s.len() >= 2 && s[0] == '0' && s[1] == 'x' && (s.len() - 2) % 2 == 0 && (forall|i: int|
        2 <= i < s.len() ==> is_hex_digit(s[i]))
     {
        Some(
            Seq::new(
                ((s.len() - 2) / 2) as nat,
                |k: int|
                    (hex_digit_val(s[2 + 2 * k]).unwrap() * 16 + hex_digit_val(
                        s[2 + 2 * k + 1],
                    ).unwrap()) as u8,
            ),
        )
    } else {
        None
    }
}

/// The view of an optional byte buffer, for stating contracts.
pub open spec fn opt_bytes_view(o: Option<Vec<u8>>) -> Option<Seq<u8>> {
    match o {
        Some(v) => Some(v@),
        None => None,
    }
}

/// Relies on `String::from_utf8`: a buffer of bytes below 128 is valid
/// UTF-8 and decodes to exactly those characters, one per byte.
#[verifier::external_body]
fn ascii_to_string(bytes: Vec<u8>) -> (r: String)
    requires
        forall|i: int| 0 <= i < bytes@.len() ==> bytes@[i] < 128,
    ensures
        r@ == bytes@.map_values(|b: u8| b as char),
{
    String::from_utf8(bytes).unwrap()
}

/// The ASCII code of the lowercase hexadecimal digit for `v`.
fn hex_digit_byte(v: u8) -> (r: u8)
    requires
        v < 16,
    ensures
        r < 128,
        r as char == hex_char_of(v),
{
    if v < 10 {
        48 + v
    } else {
        87 + v
    }
}

/// Encodes a byte buffer as its `0x`-prefixed lowercase hexadecimal text.
pub fn encode_prefixed_hex(b: &Vec<u8>) -> (r: String)
    ensures
        r@ == prefixed_hex_of(b@),
{
    let mut a: Vec<u8> = Vec::new();
    a.push(48u8);
    a.push(120u8);
    let mut i: usize = 0;
    while i < b.len()
        invariant
            i <= b@.len(),
            a@.len() == 2 + 2 * i,
            a@[0] == 48u8,
            a@[1] == 120u8,
            forall|j: int| 0 <= j < a@.len() ==> a@[j] < 128,
            forall|k: int|
                0 <= k < i ==> (a@[2 + 2 * k] as char) == hex_char_of((b@[k] / 16) as u8) && (a@[2
                    + 2 * k + 1] as char) == hex_char_of((b@[k] % 16) as u8),
        decreases b@.len() - i,
    {
        let hi: u8 = b[i] / 16;
        let lo: u8 = b[i] % 16;
        a.push(hex_digit_byte(hi));
        a.push(hex_digit_byte(lo));
        i += 1;
    }
    let r = ascii_to_string(a);
    proof {
        assert(r@ =~= prefixed_hex_of(b@));
    }
    r
}

/// The value of one ASCII hexadecimal digit byte.
fn hex_val_of_byte(b: u8) -> (r: Option<u8>)
    requires
        b < 128,
    ensures
        r == hex_digit_val(b as char),
        r matches Some(v) ==> v < 16,
{
    if 48 <= b && b <= 57 {
        Some(b - 48)
    } else if 97 <= b && b <= 102 {
        Some(b - 87)
    } else if 65 <= b && b <= 70 {
        Some(b - 55)
    } else {
        None
    }
}

/// A hexadecimal digit is an ASCII character.
proof fn lemma_hex_digit_is_ascii(c: char)
    requires
        is_hex_digit(c),
    ensures
        '\0' <= c <= '\u{7f}',
{
    assert((c as u32) <= 102);
}

/// A text that decodes as hexadecimal holds ASCII characters only.
proof fn lemma_non_ascii_not_hex(s: Seq<char>)
    requires
        !vstd::utf8::is_ascii_chars(s),
    ensures
        hex_decode(s) is None,
{
    if hex_decode(s) is Some {
        assert forall|i: int| 0 <= i < s.len() implies '\0' <= #[trigger] s[i] <= '\u{7f}' by {
            if i == 0 {
                assert(s[0] == '0');
            } else if i == 1 {
                assert(s[1] == 'x');
            } else {
                assert(is_hex_digit(s[i]));
                lemma_hex_digit_is_ascii(s[i]);
            }
        }
        assert(vstd::utf8::is_ascii_chars(s));
        assert(false);
    }
}

/// An ASCII character is determined by its byte code.
proof fn lemma_char_code(c: char, b: u8)
    requires
        '\0' <= c <= '\u{7f}',
        (c as u8) == b,
    ensures
        c == (b as char),
{
    assert((c as u32) == (b as u32));
}

/// Decodes a `0x`-prefixed hexadecimal text into the bytes it denotes.
pub fn decode_hex_to_vec(text: String) -> (r: Option<Vec<u8>>)
    ensures
        opt_bytes_view(r) == hex_decode(text@),
{
    let s: &str = text.as_str();
    if !s.is_ascii() {
        proof {
            lemma_non_ascii_not_hex(s@);
        }
        return None;
    }
    let bs: Vec<u8> = s.as_bytes_vec();
    proof {
        broadcast use vstd::string::is_ascii_spec_bytes;

        assert(bs@ =~= Seq::new(s@.len(), |i: int| s@[i] as u8));
    }
    let n: usize = bs.len();
    if n < 2 || (n - 2) % 2 != 0 {
        return None;
    }
    if bs[0] != 48 || bs[1] != 120 {
        return None;
    }
    proof {
        lemma_char_code(s@[0], 48);
        lemma_char_code(s@[1], 120);
        assert(s@[0] == '0');
        assert(s@[1] == 'x');
    }
    let count: usize = (n - 2) / 2;
    let mut out: Vec<u8> = Vec::new();
    let mut k: usize = 0;
    while k < count
        invariant
            s@ == text@,
            s@[0] == '0',
            s@[1] == 'x',
            s@.len() == n,
            bs@.len() == n,
            bs@ == Seq::new(s@.len(), |i: int| s@[i] as u8),
            vstd::utf8::is_ascii_chars(s@),
            n >= 2,
            count == (n - 2) / 2,
            2 + 2 * count == n,
            k <= count,
            out@.len() == k,
            forall|j: int| 0 <= j < 2 * k + 2 ==> 2 <= j < n ==> is_hex_digit(s@[j]),
            forall|j: int|
                0 <= j < k ==> out@[j] == (hex_digit_val(s@[2 + 2 * j]).unwrap() * 16
                    + hex_digit_val(s@[2 + 2 * j + 1]).unwrap()) as u8,
        decreases count - k,
    {
        let hb: u8 = bs[2 + 2 * k];
        let lb: u8 = bs[2 + 2 * k + 1];
        proof {
            assert((s@[2 + 2 * k as int] as u32) < 128);
            assert((s@[2 + 2 * k as int + 1] as u32) < 128);
        }
        let hv: Option<u8> = hex_val_of_byte(hb);
        let lv: Option<u8> = hex_val_of_byte(lb);
        match (hv, lv) {
            (Some(h), Some(l)) => {
                out.push(h * 16 + l);
            },
            _ => {
                proof {
                    let bad: int = if hv is None {
                        2 + 2 * k
                    } else {
                        2 + 2 * k + 1
                    };
                    assert(!is_hex_digit(s@[bad]));
                    assert(hex_decode(s@) is None);
                }
                return None;
            },
        }
        k += 1;
    }
    proof {
        assert(s@[0] == '0' && s@[1] == 'x');
        assert(forall|i: int| 2 <= i < s@.len() ==> is_hex_digit(s@[i]));
        let d = hex_decode(s@).unwrap();
        assert(out@ =~= d);
    }
    Some(out)
}

/// Decoding the hexadecimal text of a buffer yields the buffer back.
pub proof fn lemma_hex_round_trip(b: Seq<u8>)
    ensures
        hex_decode(prefixed_hex_of(b)) == Some(b),
{
    let s = prefixed_hex_of(b);
    assert(s.len() == 2 + 2 * b.len());
    assert forall|i: int| 2 <= i < s.len() implies is_hex_digit(s[i]) by {
        let k = (i - 2) / 2;
        lemma_fundamental_div_mod(b[k] as int, 16);
    }
    let d = hex_decode(s).unwrap();
    assert forall|k: int| 0 <= k < b.len() implies d[k] == b[k] by {
        lemma_fundamental_div_mod(b[k] as int, 16);
        assert(s[2 + 2 * k] == hex_char_of((b[k] / 16) as u8));
        assert(s[2 + 2 * k + 1] == hex_char_of((b[k] % 16) as u8));
    }
    assert(d =~= b);
}

} // verus!

