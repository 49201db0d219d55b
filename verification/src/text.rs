//! Exact models of the two text encodings the kernel touches: decimal
//! renderings of small integers and well-formed UTF-8.

use vstd::prelude::*;

verus! {

/// The ASCII byte of a single decimal digit.
pub open spec fn dec_digit(n: nat) -> u8
    recommends
        n < 10,
{
    (48 + n) as u8
}

/// The shortest decimal rendering of `n` as a sequence of ASCII digit bytes.
pub open spec fn dec_digits(n: nat) -> Seq<u8>
    decreases n,
{
    if n < 10 {
        seq![dec_digit(n)]
    } else {
        dec_digits(n / 10).push(dec_digit(n % 10))
    }
}

/// Appends the decimal rendering of `n` to `out`.
pub fn push_decimal(out: &mut Vec<u8>, n: u8)
    ensures
        final(out)@ == old(out)@ + dec_digits(n as nat),
{
    if n >= 100 {
        out.push(48 + n / 100);
    }
    if n >= 10 {
        out.push(48 + (n / 10) % 10);
    }
    out.push(48 + n % 10);
    proof {
        let m = n as nat;
        if n >= 10 {
            assert(dec_digits(m) == dec_digits(m / 10).push(dec_digit(m % 10)));
            if n >= 100 {
                assert(m / 10 / 10 == m / 100) by (nonlinear_arith);
                assert(dec_digits(m / 10) == dec_digits(m / 100).push(dec_digit(m / 10 % 10)));
            }
        }
        assert(out@ =~= old(out)@ + dec_digits(m));
    }
}

/// Whether `b` is a UTF-8 continuation byte.
pub open spec fn is_cont_byte(b: u8) -> bool {
    0x80 <= b && b <= 0xBF
}

/// The length of the well-formed UTF-8 scalar-value encoding that starts at
/// position `i` of `s`, or 0 if no well-formed encoding starts there.
pub open spec fn utf8_char_len(s: Seq<u8>, i: int) -> int
    recommends
        0 <= i < s.len(),
{
    let b0 = s[i];
    if b0 < 0x80 {
        1
    } else if 0xC2 <= b0 && b0 <= 0xDF {
        if i + 1 < s.len() && is_cont_byte(s[i + 1]) {
            2
        } else {
            0
        }
    } else if b0 == 0xE0 {
        if i + 2 < s.len() && 0xA0 <= s[i + 1] && s[i + 1] <= 0xBF && is_cont_byte(s[i + 2]) {
            3
        } else {
            0
        }
    } else if (0xE1 <= b0 && b0 <= 0xEC) || b0 == 0xEE || b0 == 0xEF {
        if i + 2 < s.len() && is_cont_byte(s[i + 1]) && is_cont_byte(s[i + 2]) {
            3
        } else {
            0
        }
    } else if b0 == 0xED {
        if i + 2 < s.len() && 0x80 <= s[i + 1] && s[i + 1] <= 0x9F && is_cont_byte(s[i + 2]) {
            3
        } else {
            0
        }
    } else if b0 == 0xF0 {
        if i + 3 < s.len() && 0x90 <= s[i + 1] && s[i + 1] <= 0xBF && is_cont_byte(s[i + 2])
            && is_cont_byte(s[i + 3]) {
            4
        } else {
            0
        }
    } else if 0xF1 <= b0 && b0 <= 0xF3 {
        if i + 3 < s.len() && is_cont_byte(s[i + 1]) && is_cont_byte(s[i + 2])
            && is_cont_byte(s[i + 3]) {
            4
        } else {
            0
        }
    } else if b0 == 0xF4 {
        if i + 3 < s.len() && 0x80 <= s[i + 1] && s[i + 1] <= 0x8F && is_cont_byte(s[i + 2])
            && is_cont_byte(s[i + 3]) {
            4
        } else {
            0
        }
    } else {
        0
    }
}

/// Whether the bytes of `s` from position `i` on are a well-formed UTF-8
/// encoding of some character sequence.
pub open spec fn utf8_valid_from(s: Seq<u8>, i: int) -> bool
    recommends
        0 <= i <= s.len(),
    decreases s.len() - i,
{
    if i >= s.len() {
        true
    } else if utf8_char_len(s, i) == 0 {
        false
    } else {
        utf8_valid_from(s, i + utf8_char_len(s, i))
    }
}

/// Whether `s` is well-formed UTF-8.
pub open spec fn utf8_valid(s: Seq<u8>) -> bool {
    utf8_valid_from(s, 0)
}

/// The length of the well-formed encoding starting at `i`, or 0 if there is
/// none.
fn utf8_len_at(bytes: &[u8], i: usize) -> (l: usize)
    requires
        i < bytes@.len(),
    ensures
        l == utf8_char_len(bytes@, i as int),
{
    let n = bytes.len();
    let rem = n - i;
    let b0 = bytes[i];
    if b0 < 0x80 {
        1
    } else if 0xC2 <= b0 && b0 <= 0xDF {
        if rem >= 2 && 0x80 <= bytes[i + 1] && bytes[i + 1] <= 0xBF {
            2
        } else {
            0
        }
    } else if b0 == 0xE0 {
        if rem >= 3 && 0xA0 <= bytes[i + 1] && bytes[i + 1] <= 0xBF && 0x80 <= bytes[i + 2]
            && bytes[i + 2] <= 0xBF {
            3
        } else {
            0
        }
    } else if (0xE1 <= b0 && b0 <= 0xEC) || b0 == 0xEE || b0 == 0xEF {
        if rem >= 3 && 0x80 <= bytes[i + 1] && bytes[i + 1] <= 0xBF && 0x80 <= bytes[i + 2]
            && bytes[i + 2] <= 0xBF {
            3
        } else {
            0
        }
    } else if b0 == 0xED {
        if rem >= 3 && 0x80 <= bytes[i + 1] && bytes[i + 1] <= 0x9F && 0x80 <= bytes[i + 2]
            && bytes[i + 2] <= 0xBF {
            3
        } else {
            0
        }
    } else if b0 == 0xF0 {
        if rem >= 4 && 0x90 <= bytes[i + 1] && bytes[i + 1] <= 0xBF && 0x80 <= bytes[i + 2]
            && bytes[i + 2] <= 0xBF && 0x80 <= bytes[i + 3] && bytes[i + 3] <= 0xBF {
            4
        } else {
            0
        }
    } else if 0xF1 <= b0 && b0 <= 0xF3 {
        if rem >= 4 && 0x80 <= bytes[i + 1] && bytes[i + 1] <= 0xBF && 0x80 <= bytes[i + 2]
            && bytes[i + 2] <= 0xBF && 0x80 <= bytes[i + 3] && bytes[i + 3] <= 0xBF {
            4
        } else {
            0
        }
    } else if b0 == 0xF4 {
        if rem >= 4 && 0x80 <= bytes[i + 1] && bytes[i + 1] <= 0x8F && 0x80 <= bytes[i + 2]
            && bytes[i + 2] <= 0xBF && 0x80 <= bytes[i + 3] && bytes[i + 3] <= 0xBF {
            4
        } else {
            0
        }
    } else {
        0
    }
}

/// Whether `bytes` is well-formed UTF-8.
pub fn is_utf8(bytes: &[u8]) -> (r: bool)
    ensures
        r == utf8_valid(bytes@),
{
    let n = bytes.len();
    let mut i: usize = 0;
    while i < n
        invariant
            i <= n,
            n == bytes@.len(),
            utf8_valid(bytes@) == utf8_valid_from(bytes@, i as int),
        decreases n - i,
    {
        let l = utf8_len_at(bytes, i);
        if l == 0 {
            return false;
        }
        i = i + l;
    }
    true
}

} // verus!
