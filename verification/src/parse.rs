//! The JSON parser: the grammar the library accepts, as spec functions over
//! character sequences, and the executable parser proved to implement it.
//!
//! The grammar is JSON with two restrictions: numbers must be integers in
//! the signed 64-bit range (fractions and exponents are refused), and a
//! `\uXXXX` escape must denote a Unicode scalar value (surrogates, paired
//! or not, are refused).

use vstd::prelude::*;

use crate::json::{Json, JsonV};

verus! {

/// Whether `c` is JSON whitespace.
pub open spec fn is_ws(c: char) -> bool {
    c == ' ' || c == '\n' || c == '\r' || c == '\t'
}

/// The first position at or after `i` holding no whitespace.
pub open spec fn skip_ws(s: Seq<char>, i: int) -> int
    decreases s.len() - i,
{
    if 0 <= i < s.len() && is_ws(s[i]) {
        skip_ws(s, i + 1)
    } else {
        i
    }
}

/// Whether `c` is a decimal digit.
pub open spec fn is_digit(c: char) -> bool {
    48 <= (c as u32) <= 57
}

/// The value of the digit `c`.
pub open spec fn digit_val(c: char) -> int {
    (c as u32) - 48
}

/// The first position at or after `i` holding no digit.
pub open spec fn digits_end(s: Seq<char>, i: int) -> int
    decreases s.len() - i,
{
    if 0 <= i < s.len() && is_digit(s[i]) {
        digits_end(s, i + 1)
    } else {
        i
    }
}

/// The value of the digit run `s[i..end]`.
pub open spec fn dec_val(s: Seq<char>, i: int, end: int) -> int
    decreases end - i,
{
    if i >= end {
        0
    } else {
        dec_val(s, i, end - 1) * 10 + digit_val(s[end - 1])
    }
}

/// The value of the hexadecimal digit `c`, if it is one.
pub open spec fn hex_val(c: char) -> Option<int> {
    let u = c as u32;
    if 48 <= u <= 57 {
        Some((u - 48) as int)
    } else if 97 <= u <= 102 {
        Some((u - 87) as int)
    } else if 65 <= u <= 70 {
        Some((u - 55) as int)
    } else {
        None
    }
}

/// The character a single-letter escape stands for, if the letter is one of
/// the eight JSON escapes.
pub open spec fn unescape(e: char) -> Option<char> {
    if e == '"' {
        Some('"')
    } else if e == '\\' {
        Some('\\')
    } else if e == '/' {
        Some('/')
    } else if e == 'b' {
        Some('\u{0008}')
    } else if e == 'f' {
        Some('\u{000C}')
    } else if e == 'n' {
        Some('\n')
    } else if e == 'r' {
        Some('\r')
    } else if e == 't' {
        Some('\t')
    } else {
        None
    }
}

/// Parses a number at `i`: an optional minus sign and a digit run without a
/// leading zero, whose value must fit a signed 64-bit integer.
pub open spec fn parse_number(s: Seq<char>, i: int) -> Option<(JsonV, int)> {
    let neg = 0 <= i < s.len() && s[i] == '-';
    let d0 = if neg {
        i + 1
    } else {
        i
    };
    let end = digits_end(s, d0);
    if end == d0 {
        None
    } else if s[d0] == '0' && end > d0 + 1 {
        None
    } else {
        let v = dec_val(s, d0, end);
        if neg {
            if v > 0x8000_0000_0000_0000 {
                None
            } else {
                Some((JsonV::Int((-v) as i64), end))
            }
        } else {
            if v > 0x7fff_ffff_ffff_ffff {
                None
            } else {
                Some((JsonV::Int(v as i64), end))
            }
        }
    }
}

/// Parses the rest of a string after the opening quote, accumulating the
/// unescaped characters seen so far into `acc`.
pub open spec fn parse_string_body(s: Seq<char>, i: int, acc: Seq<char>) -> Option<
    (Seq<char>, int),
>
    decreases s.len() - i,
{
    if i < 0 || i >= s.len() {
        None
    } else if s[i] == '"' {
        Some((acc, i + 1))
    } else if s[i] == '\\' {
        if i + 2 > s.len() {
            None
        } else if s[i + 1] == 'u' {
            if i + 6 > s.len() {
                None
            } else {
                let h = (hex_val(s[i + 2]), hex_val(s[i + 3]), hex_val(s[i + 4]), hex_val(
                    s[i + 5],
                ));
                if h.0 is Some && h.1 is Some && h.2 is Some && h.3 is Some {
                    let code = h.0->0 * 4096 + h.1->0 * 256 + h.2->0 * 16 + h.3->0;
                    if 0xD800 <= code < 0xE000 {
                        None
                    } else {
                        parse_string_body(s, i + 6, acc.push((code as u32) as char))
                    }
                } else {
                    None
                }
            }
        } else {
            match unescape(s[i + 1]) {
                Some(c) => parse_string_body(s, i + 2, acc.push(c)),
                None => None,
            }
        }
    } else if (s[i] as u32) < 0x20 {
        None
    } else {
        parse_string_body(s, i + 1, acc.push(s[i]))
    }
}

/// Parses one JSON value at `i` (no leading whitespace), returning it and
/// the position just after it.
pub open spec fn parse_value(s: Seq<char>, i: int) -> Option<(JsonV, int)>
    decreases s.len() - i, 0int,
{
    if i < 0 || i >= s.len() {
        None
    } else if s[i] == 'n' {
        if i + 4 <= s.len() && s[i + 1] == 'u' && s[i + 2] == 'l' && s[i + 3] == 'l' {
            Some((JsonV::Null, i + 4))
        } else {
            None
        }
    } else if s[i] == 't' {
        if i + 4 <= s.len() && s[i + 1] == 'r' && s[i + 2] == 'u' && s[i + 3] == 'e' {
            Some((JsonV::Bool(true), i + 4))
        } else {
            None
        }
    } else if s[i] == 'f' {
        if i + 5 <= s.len() && s[i + 1] == 'a' && s[i + 2] == 'l' && s[i + 3] == 's' && s[i + 4]
            == 'e' {
            Some((JsonV::Bool(false), i + 5))
        } else {
            None
        }
    } else if s[i] == '"' {
        match parse_string_body(s, i + 1, Seq::empty()) {
            Some((t, j)) => Some((JsonV::Str(t), j)),
            None => None,
        }
    } else if s[i] == '[' {
        let k = skip_ws(s, i + 1);
        if k < s.len() && s[k] == ']' {
            Some((JsonV::Arr(Seq::empty()), k + 1))
        } else if i + 1 <= k <= s.len() {
            parse_elems(s, k, Seq::empty())
        } else {
            None
        }
    } else if s[i] == '{' {
        let k = skip_ws(s, i + 1);
        if k < s.len() && s[k] == '}' {
            Some((JsonV::Obj(Seq::empty()), k + 1))
        } else if i + 1 <= k <= s.len() {
            parse_members(s, k, Seq::empty())
        } else {
            None
        }
    } else if s[i] == '-' || is_digit(s[i]) {
        parse_number(s, i)
    } else {
        None
    }
}

/// Parses the items of an array from the first character of an item on,
/// with `acc` holding the items already parsed.
pub open spec fn parse_elems(s: Seq<char>, i: int, acc: Seq<JsonV>) -> Option<(JsonV, int)>
    decreases s.len() - i, 1int,
{
    match parse_value(s, i) {
        None => None,
        Some((v, j)) => {
            let acc2 = acc.push(v);
            let k = skip_ws(s, j);
            if k < s.len() && s[k] == ']' {
                Some((JsonV::Arr(acc2), k + 1))
            } else if k < s.len() && s[k] == ',' {
                let m = skip_ws(s, k + 1);
                if i < m <= s.len() {
                    parse_elems(s, m, acc2)
                } else {
                    None
                }
            } else {
                None
            }
        },
    }
}

/// Parses the members of an object from the opening quote of a key on,
/// with `acc` holding the members already parsed.
pub open spec fn parse_members(s: Seq<char>, i: int, acc: Seq<(Seq<char>, JsonV)>) -> Option<
    (JsonV, int),
>
    decreases s.len() - i, 1int,
{
    if !(0 <= i < s.len() && s[i] == '"') {
        None
    } else {
        match parse_string_body(s, i + 1, Seq::empty()) {
            None => None,
            Some((key, j)) => {
                let k = skip_ws(s, j);
                if !(k < s.len() && s[k] == ':') {
                    None
                } else {
                    let m = skip_ws(s, k + 1);
                    if !(i < m <= s.len()) {
                        None
                    } else {
                        match parse_value(s, m) {
                            None => None,
                            Some((v, p)) => {
                                let acc2 = acc.push((key, v));
                                let q = skip_ws(s, p);
                                if q < s.len() && s[q] == '}' {
                                    Some((JsonV::Obj(acc2), q + 1))
                                } else if q < s.len() && s[q] == ',' {
                                    let t = skip_ws(s, q + 1);
                                    if i < t <= s.len() {
                                        parse_members(s, t, acc2)
                                    } else {
                                        None
                                    }
                                } else {
                                    None
                                }
                            },
                        }
                    }
                }
            },
        }
    }
}

/// Parses a whole document: one value, surrounded by optional whitespace,
/// spanning the entire text.
pub open spec fn parse_json(s: Seq<char>) -> Option<JsonV> {
    let i = skip_ws(s, 0);
    match parse_value(s, i) {
        None => None,
        Some((v, j)) => if skip_ws(s, j) == s.len() {
            Some(v)
        } else {
            None
        },
    }
}

/// Ten to the power `n` (1 for non-positive `n`).
pub open spec fn pow10(n: int) -> int
    decreases n,
{
    if n <= 0 {
        1
    } else {
        10 * pow10(n - 1)
    }
}

proof fn lemma_pow10_pos(n: int)
    ensures
        pow10(n) >= 1,
    decreases n,
{
    if n > 0 {
        lemma_pow10_pos(n - 1);
    }
}

proof fn lemma_pow10_mono(a: int, b: int)
    requires
        a <= b,
    ensures
        pow10(a) <= pow10(b),
    decreases b - a,
{
    if a < b {
        lemma_pow10_mono(a, b - 1);
        lemma_pow10_pos(b - 1);
    }
}

proof fn lemma_digits_end_props(s: Seq<char>, i: int)
    requires
        0 <= i <= s.len(),
    ensures
        i <= digits_end(s, i) <= s.len(),
        forall|j: int| i <= j < digits_end(s, i) ==> is_digit(s[j]),
    decreases s.len() - i,
{
    if 0 <= i < s.len() && is_digit(s[i]) {
        lemma_digits_end_props(s, i + 1);
    }
}

proof fn lemma_dec_val_bounds(s: Seq<char>, i: int, end: int)
    requires
        i <= end,
        forall|j: int| i <= j < end ==> is_digit(s[j]),
    ensures
        0 <= dec_val(s, i, end) < pow10(end - i),
        end > i && digit_val(s[i]) >= 1 ==> dec_val(s, i, end) >= pow10(end - i - 1),
    decreases end - i,
{
    if i < end {
        lemma_dec_val_bounds(s, i, end - 1);
        assert(is_digit(s[end - 1]));
        assert(0 <= digit_val(s[end - 1]) <= 9);
    }
}

/// Whether `c` is JSON whitespace.
fn is_ws_exec(c: char) -> (r: bool)
    ensures
        r == is_ws(c),
{
    c == ' ' || c == '\n' || c == '\r' || c == '\t'
}

/// Whether `c` is a decimal digit.
fn is_digit_exec(c: char) -> (r: bool)
    ensures
        r == is_digit(c),
{
    let u = c as u32;
    u >= 48 && u <= 57
}

/// The value of the hexadecimal digit `c`, if it is one.
fn hex_val_exec(c: char) -> (r: Option<u32>)
    ensures
        (match r {
            Some(v) => hex_val(c) == Some(v as int) && v <= 15,
            None => hex_val(c) is None,
        }),
{
    let u = c as u32;
    if u >= 48 && u <= 57 {
        Some(u - 48)
    } else if u >= 97 && u <= 102 {
        Some(u - 87)
    } else if u >= 65 && u <= 70 {
        Some(u - 55)
    } else {
        None
    }
}

/// The character a single-letter escape stands for, if any.
fn unescape_exec(e: char) -> (r: Option<char>)
    ensures
        r == unescape(e),
{
    if e == '"' {
        Some('"')
    } else if e == '\\' {
        Some('\\')
    } else if e == '/' {
        Some('/')
    } else if e == 'b' {
        Some('\u{0008}')
    } else if e == 'f' {
        Some('\u{000C}')
    } else if e == 'n' {
        Some('\n')
    } else if e == 'r' {
        Some('\r')
    } else if e == 't' {
        Some('\t')
    } else {
        None
    }
}

/// The first position at or after `i` holding no whitespace.
fn sw(s: &Vec<char>, i: usize) -> (r: usize)
    requires
        i <= s@.len(),
    ensures
        r as int == skip_ws(s@, i as int),
        i <= r <= s@.len(),
{
    let mut k = i;
    while k < s.len() && is_ws_exec(s[k])
        invariant
            i <= k <= s@.len(),
            skip_ws(s@, i as int) == skip_ws(s@, k as int),
        decreases s@.len() - k,
    {
        k = k + 1;
    }
    k
}

/// Parses a number at `i`.
fn pnum(s: &Vec<char>, i: usize) -> (r: Option<(Json, usize)>)
    requires
        i < s@.len(),
    ensures
        (match r {
            Some(p) => parse_number(s@, i as int) == Some((p.0@, p.1 as int)) && p.1 <= s@.len(),
            None => parse_number(s@, i as int) is None,
        }),
{
    let n = s.len();
    let neg = s[i] == '-';
    let d0: usize = if neg {
        i + 1
    } else {
        i
    };
    let mut k: usize = d0;
    while k < s.len() && is_digit_exec(s[k])
        invariant
            d0 <= k <= s@.len(),
            digits_end(s@, d0 as int) == digits_end(s@, k as int),
        decreases s@.len() - k,
    {
        k = k + 1;
    }
    let end = k;
    proof {
        assert(digits_end(s@, d0 as int) == end as int);
        lemma_digits_end_props(s@, d0 as int);
    }
    if end == d0 {
        return None;
    }
    if s[d0] == '0' && end > d0 + 1 {
        return None;
    }
    proof {
        lemma_dec_val_bounds(s@, d0 as int, end as int);
        assert(is_digit(s@[d0 as int]));
        if s@[d0 as int] as u32 == 48 {
            vstd::utf8::char_u32_cast(s@[d0 as int], 48);
            vstd::utf8::char_u32_cast('0', 48);
            assert(s@[d0 as int] == '0');
        }
        assert(digit_val(s@[d0 as int]) >= 1 || end == d0 + 1);
    }
    let n_digits = end - d0;
    if n_digits > 19 {
        proof {
            reveal_with_fuel(pow10, 21);
            lemma_pow10_mono(19, n_digits as int - 1);
            assert(dec_val(s@, d0 as int, end as int) >= pow10(19));
        }
        return None;
    }
    let mut acc: u64 = 0;
    let mut k2: usize = d0;
    while k2 < end
        invariant
            d0 <= k2 <= end,
            end <= s@.len(),
            end - d0 <= 19,
            forall|j: int| d0 <= j < end ==> is_digit(s@[j]),
            acc as int == dec_val(s@, d0 as int, k2 as int),
            acc < pow10(k2 - d0),
        decreases end - k2,
    {
        let c = s[k2];
        let dv: u32 = (c as u32) - 48;
        proof {
            reveal_with_fuel(pow10, 21);
            lemma_pow10_mono(k2 - d0 + 1, 19);
            assert(acc * 10 + dv <= (pow10(k2 - d0) - 1) * 10 + 9);
        }
        acc = acc * 10 + (dv as u64);
        k2 = k2 + 1;
    }
    let ghost v = dec_val(s@, d0 as int, end as int);
    if neg {
        if acc > 0x8000_0000_0000_0000u64 {
            None
        } else {
            let val: i64 = ((-(acc as i128)) as i64);
            proof {
                assert(val as int == -(acc as int));
            }
            Some((Json::Int(val), end))
        }
    } else {
        if acc > 0x7fff_ffff_ffff_ffffu64 {
            None
        } else {
            Some((Json::Int(acc as i64), end))
        }
    }
}

/// Parses the rest of a string after the opening quote.
fn pstr(s: &Vec<char>, i: usize, acc: Vec<char>) -> (r: Option<(Vec<char>, usize)>)
    requires
        i <= s@.len(),
    ensures
        (match r {
            Some(p) => parse_string_body(s@, i as int, acc@) == Some((p.0@, p.1 as int)) && p.1
                <= s@.len(),
            None => parse_string_body(s@, i as int, acc@) is None,
        }),
    decreases s@.len() - i,
{
    if i >= s.len() {
        return None;
    }
    let c = s[i];
    if c == '"' {
        return Some((acc, i + 1));
    }
    if c == '\\' {
        if s.len() - i < 2 {
            return None;
        }
        let e = s[i + 1];
        if e == 'u' {
            if s.len() - i < 6 {
                return None;
            }
            let h0 = hex_val_exec(s[i + 2]);
            let h1 = hex_val_exec(s[i + 3]);
            let h2 = hex_val_exec(s[i + 4]);
            let h3 = hex_val_exec(s[i + 5]);
            match (h0, h1, h2, h3) {
                (Some(a), Some(b), Some(c2), Some(d)) => {
                    let code: u32 = a * 4096 + b * 256 + c2 * 16 + d;
                    if code >= 0xD800 && code < 0xE000 {
                        return None;
                    }
                    match crate::text::char_from_u32(code) {
                        Some(ch) => {
                            let mut acc2 = acc;
                            acc2.push(ch);
                            pstr(s, i + 6, acc2)
                        },
                        None => {
                            proof {
                                assert(false);
                            }
                            None
                        },
                    }
                },
                _ => None,
            }
        } else {
            match unescape_exec(e) {
                Some(c2) => {
                    let mut acc2 = acc;
                    acc2.push(c2);
                    pstr(s, i + 2, acc2)
                },
                None => None,
            }
        }
    } else if (c as u32) < 0x20 {
        None
    } else {
        let mut acc2 = acc;
        acc2.push(c);
        pstr(s, i + 1, acc2)
    }
}

/// Parses one JSON value at `i` (no leading whitespace).
fn pv(s: &Vec<char>, i: usize) -> (r: Option<(Json, usize)>)
    requires
        i <= s@.len(),
    ensures
        (match r {
            Some(p) => parse_value(s@, i as int) == Some((p.0@, p.1 as int)) && p.1 <= s@.len(),
            None => parse_value(s@, i as int) is None,
        }),
    decreases s@.len() - i, 0int,
{
    if i >= s.len() {
        return None;
    }
    let c = s[i];
    if c == 'n' {
        if s.len() - i >= 4 && s[i + 1] == 'u' && s[i + 2] == 'l' && s[i + 3] == 'l' {
            Some((Json::Null, i + 4))
        } else {
            None
        }
    } else if c == 't' {
        if s.len() - i >= 4 && s[i + 1] == 'r' && s[i + 2] == 'u' && s[i + 3] == 'e' {
            Some((Json::Bool(true), i + 4))
        } else {
            None
        }
    } else if c == 'f' {
        if s.len() - i >= 5 && s[i + 1] == 'a' && s[i + 2] == 'l' && s[i + 3] == 's' && s[i + 4]
            == 'e' {
            Some((Json::Bool(false), i + 5))
        } else {
            None
        }
    } else if c == '"' {
        match pstr(s, i + 1, Vec::new()) {
            Some((t, j)) => {
                let st = crate::text::string_from_chars(&t);
                Some((Json::Str(st), j))
            },
            None => None,
        }
    } else if c == '[' {
        let k = sw(s, i + 1);
        if k < s.len() && s[k] == ']' {
            let items: Vec<Json> = Vec::new();
            proof {
                crate::json::lemma_json_v_arr(items);
                assert(crate::json::arr_v(items@) =~= Seq::<JsonV>::empty());
            }
            Some((Json::Arr(items), k + 1))
        } else {
            let acc: Vec<Json> = Vec::new();
            proof {
                assert(crate::json::arr_v(acc@) =~= Seq::<JsonV>::empty());
            }
            pe(s, k, acc)
        }
    } else if c == '{' {
        let k = sw(s, i + 1);
        if k < s.len() && s[k] == '}' {
            let fields: Vec<(String, Json)> = Vec::new();
            proof {
                crate::json::lemma_json_v_obj(fields);
                assert(crate::json::obj_v(fields@) =~= Seq::<(Seq<char>, JsonV)>::empty());
            }
            Some((Json::Obj(fields), k + 1))
        } else {
            let acc: Vec<(String, Json)> = Vec::new();
            proof {
                assert(crate::json::obj_v(acc@) =~= Seq::<(Seq<char>, JsonV)>::empty());
            }
            pm(s, k, acc)
        }
    } else if c == '-' || is_digit_exec(c) {
        pnum(s, i)
    } else {
        None
    }
}

/// Parses the items of an array from the first character of an item on.
fn pe(s: &Vec<char>, i: usize, acc: Vec<Json>) -> (r: Option<(Json, usize)>)
    requires
        i <= s@.len(),
    ensures
        (match r {
            Some(p) => parse_elems(s@, i as int, crate::json::arr_v(acc@)) == Some(
                (p.0@, p.1 as int),
            ) && p.1 <= s@.len(),
            None => parse_elems(s@, i as int, crate::json::arr_v(acc@)) is None,
        }),
    decreases s@.len() - i, 1int,
{
    let ghost acc0 = crate::json::arr_v(acc@);
    match pv(s, i) {
        None => None,
        Some((v, j)) => {
            proof {
                crate::json::lemma_arr_v_push(acc@, v);
            }
            let mut acc2 = acc;
            acc2.push(v);
            let k = sw(s, j);
            if k < s.len() && s[k] == ']' {
                proof {
                    crate::json::lemma_json_v_arr(acc2);
                }
                Some((Json::Arr(acc2), k + 1))
            } else if k < s.len() && s[k] == ',' {
                let m = sw(s, k + 1);
                if m > i {
                    pe(s, m, acc2)
                } else {
                    None
                }
            } else {
                None
            }
        },
    }
}

/// Parses the members of an object from the opening quote of a key on.
fn pm(s: &Vec<char>, i: usize, acc: Vec<(String, Json)>) -> (r: Option<(Json, usize)>)
    requires
        i <= s@.len(),
    ensures
        (match r {
            Some(p) => parse_members(s@, i as int, crate::json::obj_v(acc@)) == Some(
                (p.0@, p.1 as int),
            ) && p.1 <= s@.len(),
            None => parse_members(s@, i as int, crate::json::obj_v(acc@)) is None,
        }),
    decreases s@.len() - i, 1int,
{
    if !(i < s.len() && s[i] == '"') {
        return None;
    }
    match pstr(s, i + 1, Vec::new()) {
        None => None,
        Some((key, j)) => {
            let k = sw(s, j);
            if !(k < s.len() && s[k] == ':') {
                return None;
            }
            let m = sw(s, k + 1);
            if !(m > i) {
                return None;
            }
            match pv(s, m) {
                None => None,
                Some((v, p)) => {
                    let keystr = crate::text::string_from_chars(&key);
                    proof {
                        crate::json::lemma_obj_v_push(acc@, keystr, v);
                    }
                    let mut acc2 = acc;
                    acc2.push((keystr, v));
                    let q = sw(s, p);
                    if q < s.len() && s[q] == '}' {
                        proof {
                            crate::json::lemma_json_v_obj(acc2);
                        }
                        Some((Json::Obj(acc2), q + 1))
                    } else if q < s.len() && s[q] == ',' {
                        let t = sw(s, q + 1);
                        if t > i {
                            pm(s, t, acc2)
                        } else {
                            None
                        }
                    } else {
                        None
                    }
                },
            }
        },
    }
}

/// Parses a whole document, exactly as the grammar [`parse_json`] admits.
pub fn parse_json_str(body: &str) -> (r: Option<Json>)
    ensures
        (match r {
            Some(j) => parse_json(body@) == Some(j@),
            None => parse_json(body@) is None,
        }),
{
    let s = crate::text::chars_of_str(body);
    let i = sw(&s, 0);
    match pv(&s, i) {
        None => None,
        Some((v, j)) => {
            let e = sw(&s, j);
            if e == s.len() {
                Some(v)
            } else {
                None
            }
        },
    }
}

/// Whether the text `t` stands in `s` at position `i`.
pub open spec fn text_at(s: Seq<char>, i: int, t: Seq<char>) -> bool {
    0 <= i && i + t.len() <= s.len() && s.subrange(i, i + t.len()) == t
}

proof fn lemma_text_at_split(s: Seq<char>, i: int, a: Seq<char>, b: Seq<char>)
    requires
        text_at(s, i, a + b),
    ensures
        text_at(s, i, a),
        text_at(s, i + a.len(), b),
{
    assert(s.subrange(i, i + a.len()) =~= a) by {
        assert forall|k: int| 0 <= k < a.len() implies s.subrange(i, i + a.len())[k] == a[k] by {
            assert(s.subrange(i, i + (a + b).len())[k] == (a + b)[k]);
        }
    }
    assert(s.subrange(i + a.len(), i + a.len() + b.len()) =~= b) by {
        assert forall|k: int|
            0 <= k < b.len() implies s.subrange(i + a.len(), i + a.len() + b.len())[k] == b[k] by {
            assert(s.subrange(i, i + (a + b).len())[k + a.len()] == (a + b)[k + a.len()]);
        }
    }
}

proof fn lemma_text_at_char(s: Seq<char>, i: int, t: Seq<char>, k: int)
    requires
        text_at(s, i, t),
        0 <= k < t.len(),
    ensures
        s[i + k] == t[k],
{
    assert(s.subrange(i, i + t.len())[k] == t[k]);
}

/// Skipping whitespace stops at once on anything that is not whitespace.
proof fn lemma_skip_ws_stop(s: Seq<char>, i: int)
    requires
        i >= s.len() || !is_ws(s[i]),
    ensures
        skip_ws(s, i) == i,
{
}

/// The decimal digits: their values and classes.
proof fn lemma_digit_char_val(d: int)
    requires
        0 <= d <= 9,
    ensures
        is_digit(crate::text::digit_char(d)),
        digit_val(crate::text::digit_char(d)) == d,
        d >= 1 ==> crate::text::digit_char(d) != '0',
{
}

proof fn lemma_hex_char_val(d: int)
    requires
        0 <= d <= 15,
    ensures
        hex_val(crate::json::hex_char(d)) == Some(d),
{
}

/// The decimal rendering of a non-negative integer is one or more digits,
/// and starts with a nonzero digit when the value is nonzero.
proof fn lemma_dec_nat_shape(n: int)
    requires
        n >= 0,
    ensures
        crate::text::dec_nat(n).len() >= 1,
        forall|k: int|
            0 <= k < crate::text::dec_nat(n).len() ==> is_digit(#[trigger] crate::text::dec_nat(n)[k]),
        n >= 1 ==> crate::text::dec_nat(n)[0] != '0',
    decreases n,
{
    if n <= 9 {
        lemma_digit_char_val(n);
    } else {
        lemma_dec_nat_shape(n / 10);
        lemma_digit_char_val(n % 10);
        let t = crate::text::dec_nat(n);
        let a = crate::text::dec_nat(n / 10);
        assert(t == a + seq![crate::text::digit_char(n % 10)]);
        assert forall|k: int| 0 <= k < t.len() implies is_digit(t[k]) by {
            if k < a.len() {
                assert(t[k] == a[k]);
            } else {
                assert(t[k] == crate::text::digit_char(n % 10));
            }
        }
        assert(t[0] == a[0]);
    }
}

/// Reading the decimal rendering of `n` back yields `n`.
proof fn lemma_dec_val_of_dec_nat(s: Seq<char>, i: int, n: int)
    requires
        n >= 0,
        text_at(s, i, crate::text::dec_nat(n)),
    ensures
        dec_val(s, i, i + crate::text::dec_nat(n).len()) == n,
    decreases n,
{
    let t = crate::text::dec_nat(n);
    if n <= 9 {
        lemma_digit_char_val(n);
        lemma_text_at_char(s, i, t, 0);
        assert(dec_val(s, i, i + 1) == dec_val(s, i, i) * 10 + digit_val(s[i]));
    } else {
        let a = crate::text::dec_nat(n / 10);
        let b = seq![crate::text::digit_char(n % 10)];
        assert(t == a + b);
        lemma_text_at_split(s, i, a, b);
        lemma_dec_val_of_dec_nat(s, i, n / 10);
        lemma_digit_char_val(n % 10);
        lemma_text_at_char(s, i + a.len(), b, 0);
        assert(dec_val(s, i, i + t.len()) == dec_val(s, i, i + t.len() - 1) * 10 + digit_val(
            s[i + t.len() - 1],
        ));
        assert(s[i + a.len()] == crate::text::digit_char(n % 10));
    }
}

/// A digit run ends exactly where the digits end.
proof fn lemma_digits_end_exact(s: Seq<char>, i: int, e: int)
    requires
        0 <= i <= e <= s.len(),
        forall|k: int| i <= k < e ==> is_digit(#[trigger] s[k]),
        e == s.len() || !is_digit(s[e]),
    ensures
        digits_end(s, i) == e,
    decreases e - i,
{
    if i < e {
        assert(is_digit(s[i]));
        lemma_digits_end_exact(s, i + 1, e);
    }
}

/// Reading a printed number back yields the number, as long as no digit
/// follows it directly.
proof fn lemma_parse_number_print(s: Seq<char>, i: int, n: i64)
    requires
        text_at(s, i, crate::text::dec_int(n as int)),
        i + crate::text::dec_int(n as int).len() == s.len() || !is_digit(
            s[i + crate::text::dec_int(n as int).len()],
        ),
    ensures
        parse_number(s, i) == Some((JsonV::Int(n), i + crate::text::dec_int(n as int).len())),
{
    let t = crate::text::dec_int(n as int);
    if n >= 0 {
        let d = crate::text::dec_nat(n as int);
        assert(t == d);
        lemma_dec_nat_shape(n as int);
        assert forall|k: int| i <= k < i + d.len() implies is_digit(#[trigger] s[k]) by {
            lemma_text_at_char(s, i, d, k - i);
        }
        lemma_text_at_char(s, i, d, 0);
        assert(is_digit(s[i]));
        assert(s[i] != '-') by {
            if s[i] == '-' {
                assert((s[i] as u32) == ('-' as u32));
            }
        }
        lemma_digits_end_exact(s, i, i + d.len());
        lemma_dec_val_of_dec_nat(s, i, n as int);
        if d.len() > 1 {
            assert(n >= 10) by {
                if n as int <= 9 {
                    assert(d.len() == 1);
                }
            }
            assert(s[i] != '0');
        }
    } else {
        let d = crate::text::dec_nat(-(n as int));
        assert(t == seq!['-'] + d);
        lemma_text_at_split(s, i, seq!['-'], d);
        lemma_text_at_char(s, i, seq!['-'], 0);
        assert(s[i] == '-');
        lemma_dec_nat_shape(-(n as int));
        assert forall|k: int| i + 1 <= k < i + 1 + d.len() implies is_digit(#[trigger] s[k]) by {
            lemma_text_at_char(s, i + 1, d, k - (i + 1));
        }
        lemma_digits_end_exact(s, i + 1, i + 1 + d.len());
        lemma_dec_val_of_dec_nat(s, i + 1, -(n as int));
        if d.len() > 1 {
            assert(-(n as int) >= 10) by {
                if -(n as int) <= 9 {
                    assert(d.len() == 1);
                }
            }
            lemma_text_at_char(s, i + 1, d, 0);
            assert(s[i + 1] != '0');
        }
    }
}

/// Reading a printed string body back yields the original characters
/// appended to the accumulator.
proof fn lemma_parse_string_print(s: Seq<char>, i: int, t: Seq<char>, acc: Seq<char>)
    requires
        text_at(s, i, crate::json::escape_str(t) + seq!['"']),
    ensures
        parse_string_body(s, i, acc) == Some(
            (acc + t, i + crate::json::escape_str(t).len() + 1),
        ),
    decreases t.len(),
{
    let es = crate::json::escape_str(t);
    if t.len() == 0 {
        assert(es.len() == 0);
        lemma_text_at_char(s, i, es + seq!['"'], 0);
        assert(s[i] == '"');
        assert(acc + t =~= acc);
    } else {
        let c = t[0];
        let t2 = t.drop_first();
        let ec = crate::json::escape_char(c);
        let es2 = crate::json::escape_str(t2);
        assert(es == ec + es2);
        assert(es + seq!['"'] =~= ec + (es2 + seq!['"']));
        lemma_text_at_split(s, i, ec, es2 + seq!['"']);
        let i2 = i + ec.len();
        if c == '"' {
            lemma_text_at_char(s, i, ec, 0);
            lemma_text_at_char(s, i, ec, 1);
            assert(s[i] == '\\' && s[i + 1] == '"');
            lemma_parse_string_print(s, i2, t2, acc.push(c));
            assert(acc.push(c) + t2 =~= acc + t);
        } else if c == '\\' {
            lemma_text_at_char(s, i, ec, 0);
            lemma_text_at_char(s, i, ec, 1);
            assert(s[i] == '\\' && s[i + 1] == '\\');
            lemma_parse_string_print(s, i2, t2, acc.push(c));
            assert(acc.push(c) + t2 =~= acc + t);
        } else if (c as u32) < 0x20 {
            lemma_text_at_char(s, i, ec, 0);
            lemma_text_at_char(s, i, ec, 1);
            lemma_text_at_char(s, i, ec, 2);
            lemma_text_at_char(s, i, ec, 3);
            lemma_text_at_char(s, i, ec, 4);
            lemma_text_at_char(s, i, ec, 5);
            assert(s[i] == '\\' && s[i + 1] == 'u' && s[i + 2] == '0' && s[i + 3] == '0');
            lemma_hex_char_val(0);
            lemma_hex_char_val((c as u32) as int / 16);
            lemma_hex_char_val((c as u32) as int % 16);
            assert(hex_val(s[i + 2]) == Some(0int));
            assert(hex_val(s[i + 4]) == Some((c as u32) as int / 16));
            assert(hex_val(s[i + 5]) == Some((c as u32) as int % 16));
            let code = 0 * 4096 + 0 * 256 + ((c as u32) as int / 16) * 16 + (c as u32) as int
                % 16;
            assert(code == (c as u32) as int);
            assert((code as u32) as char == c) by {
                vstd::utf8::char_u32_cast(c, c as u32);
            }
            lemma_parse_string_print(s, i2, t2, acc.push(c));
            assert(acc.push(c) + t2 =~= acc + t);
        } else {
            lemma_text_at_char(s, i, ec, 0);
            assert(s[i] == c);
            lemma_parse_string_print(s, i2, t2, acc.push(c));
            assert(acc.push(c) + t2 =~= acc + t);
        }
    }
}

/// The characters a printed value can start with: never whitespace, a
/// separator or a closing bracket.
pub open spec fn is_value_start(c: char) -> bool {
    c == 'n' || c == 't' || c == 'f' || c == '"' || c == '[' || c == '{' || c == '-' || is_digit(
        c,
    )
}

proof fn lemma_print_json_start(j: JsonV)
    ensures
        crate::json::print_json(j).len() >= 1,
        is_value_start(crate::json::print_json(j)[0]),
        !is_ws(crate::json::print_json(j)[0]),
        crate::json::print_json(j)[0] != ']',
        crate::json::print_json(j)[0] != '}',
        crate::json::print_json(j)[0] != ',',
        crate::json::print_json(j)[0] != ':',
{
    reveal_strlit("null");
    reveal_strlit("true");
    reveal_strlit("false");
    match j {
        JsonV::Null => {
            assert(crate::json::print_json(j)[0] == 'n');
        },
        JsonV::Bool(b) => {
            if b {
                assert(crate::json::print_json(j)[0] == 't');
            } else {
                assert(crate::json::print_json(j)[0] == 'f');
            }
        },
        JsonV::Int(n) => {
            if n < 0 {
                assert(crate::json::print_json(j)[0] == '-');
            } else {
                lemma_dec_nat_shape(n as int);
                assert(crate::json::print_json(j)[0] == crate::text::dec_nat(n as int)[0]);
                let c = crate::json::print_json(j)[0];
                assert(is_digit(c));
                assert(c != ']' && c != '}' && c != ',' && c != ':' && !is_ws(c)) by {
                    if c == ']' || c == '}' || c == ',' || c == ':' || c == ' ' || c == '\n'
                        || c == '\r' || c == '\t' {
                        assert(!(48 <= (c as u32) <= 57));
                    }
                }
            }
        },
        JsonV::Str(t) => {
            assert(crate::json::print_json(j)[0] == '"');
        },
        JsonV::Arr(items) => {
            assert(crate::json::print_json(j)[0] == '[');
        },
        JsonV::Obj(fields) => {
            assert(crate::json::print_json(j)[0] == '{');
        },
    }
}

/// A printed value parses back to itself, consuming exactly its own text,
/// as long as no digit follows it directly.
proof fn lemma_pv_print(s: Seq<char>, i: int, j: JsonV)
    requires
        text_at(s, i, crate::json::print_json(j)),
        i + crate::json::print_json(j).len() == s.len() || !is_digit(
            s[i + crate::json::print_json(j).len()],
        ),
    ensures
        parse_value(s, i) == Some((j, i + crate::json::print_json(j).len())),
    decreases j, 0int,
{
    reveal_strlit("null");
    reveal_strlit("true");
    reveal_strlit("false");
    let t = crate::json::print_json(j);
    lemma_print_json_start(j);
    lemma_text_at_char(s, i, t, 0);
    match j {
        JsonV::Null => {
            lemma_text_at_char(s, i, t, 1);
            lemma_text_at_char(s, i, t, 2);
            lemma_text_at_char(s, i, t, 3);
            assert(s[i] == 'n' && s[i + 1] == 'u' && s[i + 2] == 'l' && s[i + 3] == 'l');
        },
        JsonV::Bool(b) => {
            if b {
                lemma_text_at_char(s, i, t, 1);
                lemma_text_at_char(s, i, t, 2);
                lemma_text_at_char(s, i, t, 3);
                assert(s[i] == 't' && s[i + 1] == 'r' && s[i + 2] == 'u' && s[i + 3] == 'e');
            } else {
                lemma_text_at_char(s, i, t, 1);
                lemma_text_at_char(s, i, t, 2);
                lemma_text_at_char(s, i, t, 3);
                lemma_text_at_char(s, i, t, 4);
                assert(s[i] == 'f' && s[i + 1] == 'a' && s[i + 2] == 'l' && s[i + 3] == 's' && s[i
                    + 4] == 'e');
            }
        },
        JsonV::Int(n) => {
            let c = s[i];
            assert(c == '-' || is_digit(c)) by {
                if n < 0 {
                    assert(t[0] == '-');
                } else {
                    lemma_dec_nat_shape(n as int);
                    assert(t[0] == crate::text::dec_nat(n as int)[0]);
                }
            }
            assert(c != 'n' && c != 't' && c != 'f' && c != '"' && c != '[' && c != '{') by {
                if c == '-' {
                } else {
                    if c == 'n' || c == 't' || c == 'f' || c == '"' || c == '[' || c == '{' {
                        assert(!(48 <= (c as u32) <= 57));
                    }
                }
            }
            lemma_parse_number_print(s, i, n);
        },
        JsonV::Str(str0) => {
            let es = crate::json::escape_str(str0);
            assert(t =~= seq!['"'] + (es + seq!['"']));
            lemma_text_at_split(s, i, seq!['"'], es + seq!['"']);
            lemma_parse_string_print(s, i + 1, str0, Seq::empty());
            assert(Seq::empty() + str0 =~= str0);
        },
        JsonV::Arr(items) => {
            let pi = crate::json::print_items(items, 0);
            assert(t =~= seq!['['] + (pi + seq![']']));
            lemma_text_at_split(s, i, seq!['['], pi + seq![']']);
            if items.len() == 0 {
                assert(pi.len() == 0);
                lemma_text_at_char(s, i + 1, pi + seq![']'], 0);
                assert(s[i + 1] == ']');
                lemma_skip_ws_stop(s, i + 1);
                assert(items =~= Seq::<JsonV>::empty());
            } else {
                lemma_print_items_head(items, 0);
                lemma_print_json_start(items[0]);
                lemma_text_at_char(s, i + 1, pi + seq![']'], 0);
                assert(s[i + 1] == crate::json::print_json(items[0])[0]);
                lemma_skip_ws_stop(s, i + 1);
                lemma_pe_print(s, i + 1, items, 0, Seq::empty());
                assert(Seq::empty() + items.skip(0) =~= items);
                assert(JsonV::Arr(Seq::empty() + items.skip(0)) == j);
            }
        },
        JsonV::Obj(fields) => {
            let pf = crate::json::print_fields(fields, 0);
            assert(t =~= seq!['{'] + (pf + seq!['}']));
            lemma_text_at_split(s, i, seq!['{'], pf + seq!['}']);
            if fields.len() == 0 {
                assert(pf.len() == 0);
                lemma_text_at_char(s, i + 1, pf + seq!['}'], 0);
                assert(s[i + 1] == '}');
                lemma_skip_ws_stop(s, i + 1);
                assert(fields =~= Seq::<(Seq<char>, JsonV)>::empty());
            } else {
                lemma_print_fields_head(fields, 0);
                lemma_text_at_char(s, i + 1, pf + seq!['}'], 0);
                assert(s[i + 1] == '"');
                lemma_skip_ws_stop(s, i + 1);
                lemma_pm_print(s, i + 1, fields, 0, Seq::empty());
                assert(Seq::empty() + fields.skip(0) =~= fields);
                assert(JsonV::Obj(Seq::empty() + fields.skip(0)) == j);
            }
        },
    }
}

/// A nonempty item list prints starting with its first item's text.
proof fn lemma_print_items_head(items: Seq<JsonV>, k: int)
    requires
        0 <= k < items.len(),
    ensures
        crate::json::print_items(items, k).len() >= crate::json::print_json(items[k]).len(),
        forall|x: int|
            0 <= x < crate::json::print_json(items[k]).len() ==> #[trigger] crate::json::print_items(
                items,
                k,
            )[x] == crate::json::print_json(items[k])[x],
{
}

/// A nonempty member list prints starting with its first key's quote.
proof fn lemma_print_fields_head(fields: Seq<(Seq<char>, JsonV)>, k: int)
    requires
        0 <= k < fields.len(),
    ensures
        crate::json::print_fields(fields, k).len() >= 1,
        crate::json::print_fields(fields, k)[0] == '"',
{
    let ps = crate::json::print_string(fields[k].0);
    assert(ps[0] == '"');
    if k == fields.len() - 1 {
        assert(crate::json::print_fields(fields, k)[0] == ps[0]);
    } else {
        assert(crate::json::print_fields(fields, k)[0] == ps[0]);
    }
}

/// Printed items from position `k` on, followed by a closing bracket,
/// parse back to the whole array.
proof fn lemma_pe_print(s: Seq<char>, i: int, items: Seq<JsonV>, k: int, acc: Seq<JsonV>)
    requires
        0 <= k < items.len(),
        text_at(s, i, crate::json::print_items(items, k) + seq![']']),
    ensures
        parse_elems(s, i, acc) == Some(
            (JsonV::Arr(acc + items.skip(k)), i + crate::json::print_items(items, k).len() + 1),
        ),
    decreases items, 1int, items.len() - k,
{
    let pi = crate::json::print_items(items, k);
    let pj = crate::json::print_json(items[k]);
    lemma_print_json_start(items[k]);
    if k == items.len() - 1 {
        assert(pi == pj);
        assert(pi + seq![']'] =~= pj + seq![']']);
        lemma_text_at_split(s, i, pj, seq![']']);
        lemma_text_at_char(s, i + pj.len(), seq![']'], 0);
        assert(s[i + pj.len()] == ']');
        assert(!is_digit(']')) by {
            assert((']' as u32) == 93);
        }
        lemma_pv_print(s, i, items[k]);
        let p = i + pj.len();
        lemma_skip_ws_stop(s, p);
        assert(acc.push(items[k]) =~= acc + items.skip(k));
    } else {
        let rest = crate::json::print_items(items, k + 1);
        assert(pi == pj + seq![','] + rest);
        assert(pi + seq![']'] =~= pj + (seq![','] + (rest + seq![']'])));
        lemma_text_at_split(s, i, pj, seq![','] + (rest + seq![']']));
        lemma_text_at_split(s, i + pj.len(), seq![','], rest + seq![']']);
        lemma_text_at_char(s, i + pj.len(), seq![','], 0);
        assert(s[i + pj.len()] == ',');
        assert(!is_digit(',')) by {
            assert((',' as u32) == 44);
        }
        lemma_pv_print(s, i, items[k]);
        let p = i + pj.len();
        lemma_skip_ws_stop(s, p);
        assert(s[p] != ']');
        let m = p + 1;
        lemma_print_items_head(items, k + 1);
        lemma_print_json_start(items[k + 1]);
        lemma_text_at_char(s, m, rest + seq![']'], 0);
        assert(s[m] == crate::json::print_json(items[k + 1])[0]);
        lemma_skip_ws_stop(s, m);
        lemma_pe_print(s, m, items, k + 1, acc.push(items[k]));
        assert(acc.push(items[k]) + items.skip(k + 1) =~= acc + items.skip(k));
    }
}

/// Printed members from position `k` on, followed by a closing brace,
/// parse back to the whole object.
proof fn lemma_pm_print(
    s: Seq<char>,
    i: int,
    fields: Seq<(Seq<char>, JsonV)>,
    k: int,
    acc: Seq<(Seq<char>, JsonV)>,
)
    requires
        0 <= k < fields.len(),
        text_at(s, i, crate::json::print_fields(fields, k) + seq!['}']),
    ensures
        parse_members(s, i, acc) == Some(
            (
                JsonV::Obj(acc + fields.skip(k)),
                i + crate::json::print_fields(fields, k).len() + 1,
            ),
        ),
    decreases fields, 1int, fields.len() - k,
{
    let pf = crate::json::print_fields(fields, k);
    let key = fields[k].0;
    let val = fields[k].1;
    let ps = crate::json::print_string(key);
    let es = crate::json::escape_str(key);
    let pj = crate::json::print_json(val);
    let head = ps + seq![':'] + pj;
    lemma_print_json_start(val);
    if k == fields.len() - 1 {
        assert(pf == head);
        assert(pf + seq!['}'] =~= seq!['"'] + ((es + seq!['"']) + (seq![':'] + (pj + seq![
            '}',
        ]))));
        lemma_text_at_split(s, i, seq!['"'], (es + seq!['"']) + (seq![':'] + (pj + seq!['}'])));
        lemma_text_at_split(s, i + 1, es + seq!['"'], seq![':'] + (pj + seq!['}']));
        let jpos = i + 1 + es.len() + 1;
        lemma_text_at_split(s, jpos, seq![':'], pj + seq!['}']);
        lemma_text_at_char(s, i, seq!['"'], 0);
        assert(s[i] == '"');
        lemma_parse_string_print(s, i + 1, key, Seq::empty());
        assert(Seq::empty() + key =~= key);
        lemma_text_at_char(s, jpos, seq![':'], 0);
        assert(s[jpos] == ':');
        lemma_skip_ws_stop(s, jpos);
        let m = jpos + 1;
        lemma_text_at_split(s, m, pj, seq!['}']);
        lemma_text_at_char(s, m + pj.len(), seq!['}'], 0);
        assert(s[m + pj.len()] == '}');
        assert(!is_digit('}')) by {
            assert(('}' as u32) == 125);
        }
        lemma_text_at_char(s, m, pj, 0);
        lemma_skip_ws_stop(s, m);
        lemma_pv_print(s, m, val);
        let p = m + pj.len();
        lemma_skip_ws_stop(s, p);
        assert((key, val) == fields[k]);
        assert(acc.push(fields[k]) =~= acc + fields.skip(k));
    } else {
        let rest = crate::json::print_fields(fields, k + 1);
        assert(pf == head + seq![','] + rest);
        assert(pf + seq!['}'] =~= seq!['"'] + ((es + seq!['"']) + (seq![':'] + (pj + (seq![
            ',',
        ] + (rest + seq!['}']))))));
        lemma_text_at_split(
            s,
            i,
            seq!['"'],
            (es + seq!['"']) + (seq![':'] + (pj + (seq![','] + (rest + seq!['}'])))),
        );
        lemma_text_at_split(
            s,
            i + 1,
            es + seq!['"'],
            seq![':'] + (pj + (seq![','] + (rest + seq!['}']))),
        );
        let jpos = i + 1 + es.len() + 1;
        lemma_text_at_split(s, jpos, seq![':'], pj + (seq![','] + (rest + seq!['}'])));
        lemma_text_at_char(s, i, seq!['"'], 0);
        assert(s[i] == '"');
        lemma_parse_string_print(s, i + 1, key, Seq::empty());
        assert(Seq::empty() + key =~= key);
        lemma_text_at_char(s, jpos, seq![':'], 0);
        assert(s[jpos] == ':');
        lemma_skip_ws_stop(s, jpos);
        let m = jpos + 1;
        lemma_text_at_split(s, m, pj, seq![','] + (rest + seq!['}']));
        let p = m + pj.len();
        lemma_text_at_split(s, p, seq![','], rest + seq!['}']);
        lemma_text_at_char(s, p, seq![','], 0);
        assert(s[p] == ',');
        assert(!is_digit(',')) by {
            assert((',' as u32) == 44);
        }
        lemma_text_at_char(s, m, pj, 0);
        lemma_skip_ws_stop(s, m);
        lemma_pv_print(s, m, val);
        lemma_skip_ws_stop(s, p);
        assert(s[p] != '}');
        let q = p + 1;
        lemma_print_fields_head(fields, k + 1);
        lemma_text_at_char(s, q, rest + seq!['}'], 0);
        assert(s[q] == '"');
        lemma_skip_ws_stop(s, q);
        assert((key, val) == fields[k]);
        lemma_pm_print(s, q, fields, k + 1, acc.push(fields[k]));
        assert(acc.push(fields[k]) + fields.skip(k + 1) =~= acc + fields.skip(k));
    }
}

/// Parsing inverts printing: the wire text of any document parses back to
/// exactly that document.
pub proof fn lemma_print_parse_round_trip(j: JsonV)
    ensures
        parse_json(crate::json::print_json(j)) == Some(j),
{
    let s = crate::json::print_json(j);
    lemma_print_json_start(j);
    assert(s.subrange(0, s.len() as int) =~= s);
    assert(text_at(s, 0, s));
    lemma_skip_ws_stop(s, 0);
    lemma_pv_print(s, 0, j);
    lemma_skip_ws_stop(s, s.len() as int);
}

} // verus!
