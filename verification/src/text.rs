//! Character-level text utilities: conversions between `String` and
//! `Vec<char>`, and decimal rendering of integers.

use vstd::prelude::*;

verus! {

/// The characters of `s`, as a vector.
pub fn chars_of_str(s: &str) -> (r: Vec<char>)
    ensures
        r@ == s@,
{
    let len = s.unicode_len();
    let mut r: Vec<char> = Vec::new();
    let mut i: usize = 0;
    while i < len
        invariant
            len == s@.len(),
            i <= len,
            r@ == s@.subrange(0, i as int),
        decreases len - i,
    {
        r.push(s.get_char(i));
        i = i + 1;
        proof {
            assert(r@ =~= s@.subrange(0, i as int));
        }
    }
    proof {
        assert(s@.subrange(0, len as int) =~= s@);
    }
    r
}

/// Relies on `String`'s `FromIterator<char>` implementation: collecting
/// characters yields the string of exactly those characters in order.
#[verifier::external_body]
pub(crate) fn string_from_chars(v: &Vec<char>) -> (r: String)
    ensures
        r@ == v@,
{
    v.iter().collect()
}

/// The decimal digit character for `d` (meaningful for `0 <= d <= 9`).
pub open spec fn digit_char(d: int) -> char {
    if d == 0 {
        '0'
    } else if d == 1 {
        '1'
    } else if d == 2 {
        '2'
    } else if d == 3 {
        '3'
    } else if d == 4 {
        '4'
    } else if d == 5 {
        '5'
    } else if d == 6 {
        '6'
    } else if d == 7 {
        '7'
    } else if d == 8 {
        '8'
    } else {
        '9'
    }
}

/// The decimal rendering of a non-negative integer, without a sign and
/// without leading zeros.
pub open spec fn dec_nat(n: int) -> Seq<char>
    decreases n,
{
    if n <= 9 {
        seq![digit_char(n)]
    } else {
        dec_nat(n / 10) + seq![digit_char(n % 10)]
    }
}

/// The decimal rendering of a signed integer: a leading `-` for negative
/// values, then the digits of the magnitude.
pub open spec fn dec_int(n: int) -> Seq<char> {
    if n < 0 {
        seq!['-'] + dec_nat(-n)
    } else {
        dec_nat(n)
    }
}

/// Appends the decimal digits of `n` to `out`.
pub fn push_dec_u64(out: &mut Vec<char>, n: u64)
    ensures
        final(out)@ == old(out)@ + dec_nat(n as int),
{
    if n == 0 {
        out.push('0');
        proof {
            assert(out@ =~= old(out)@ + dec_nat(0));
        }
        return ;
    }
    let mut digits: Vec<char> = Vec::new();
    let mut m: u64 = n;
    while m > 0
        invariant
            m > 0 ==> dec_nat(n as int) == dec_nat(m as int) + digits@,
            m == 0 ==> dec_nat(n as int) == digits@,
        decreases m,
    {
        let d: u64 = m % 10;
        let c = digit_char_exec(d);
        digits.insert(0, c);
        proof {
            if m >= 10 {
                assert(dec_nat(m as int) == dec_nat(m as int / 10) + seq![
                    digit_char(m as int % 10),
                ]);
                assert(dec_nat(m as int) + digits@.subrange(1, digits@.len() as int) =~= dec_nat(
                    m as int / 10,
                ) + digits@);
            } else {
                assert(dec_nat(m as int) == seq![digit_char(m as int)]);
                assert(dec_nat(m as int) + digits@.subrange(1, digits@.len() as int) =~= digits@);
            }
            assert(digits@.subrange(1, digits@.len() as int) =~= digits@.drop_first());
        }
        m = m / 10;
    }
    let mut digits2 = digits;
    out.append(&mut digits2);
}

/// Appends the decimal rendering of `n`, with a `-` sign when negative.
pub fn push_dec_i64(out: &mut Vec<char>, n: i64)
    ensures
        final(out)@ == old(out)@ + dec_int(n as int),
{
    if n < 0 {
        out.push('-');
        let mag: u64 = ((-(n as i128)) as u64);
        assert(mag as int == -(n as int)) by {
            assert(-(n as int) <= u64::MAX as int);
        };
        push_dec_u64(out, mag);
        proof {
            assert(out@ =~= old(out)@ + dec_int(n as int));
        }
    } else {
        push_dec_u64(out, n as u64);
    }
}

/// The decimal rendering of `n` as a string.
pub fn i64_to_string(n: i64) -> (r: String)
    ensures
        r@ == dec_int(n as int),
{
    let mut out: Vec<char> = Vec::new();
    push_dec_i64(&mut out, n);
    string_from_chars(&out)
}

/// Whether `u` is a Unicode scalar value, that is, a valid `char`.
pub open spec fn valid_scalar(u: u32) -> bool {
    u < 0xD800 || (0xE000 <= u && u <= 0x10FFFF)
}

/// Relies on `char::from_u32`: it returns the character for every Unicode
/// scalar value and nothing for surrogates and out-of-range codes.
#[verifier::external_body]
pub(crate) fn char_from_u32(u: u32) -> (r: Option<char>)
    ensures
        r == (if valid_scalar(u) {
            Some(u as char)
        } else {
            Option::<char>::None
        }),
{
    char::from_u32(u)
}

/// The digit character for `d` (meaningful for `0 <= d <= 9`).
pub fn digit_char_exec(d: u64) -> (r: char)
    ensures
        r == digit_char(d as int),
{
    if d == 0 {
        '0'
    } else if d == 1 {
        '1'
    } else if d == 2 {
        '2'
    } else if d == 3 {
        '3'
    } else if d == 4 {
        '4'
    } else if d == 5 {
        '5'
    } else if d == 6 {
        '6'
    } else if d == 7 {
        '7'
    } else if d == 8 {
        '8'
    } else {
        '9'
    }
}

} // verus!
