//! The JSON document tree that payloads are encoded into and decoded from,
//! with a verified printer and parser for the wire text.
//!
//! The grammar is JSON with numbers restricted to signed 64-bit integers:
//! fractions, exponents, and numbers out of that range are refused, as are
//! escaped surrogate code points.  Everything the printer emits is parsed
//! back exactly.

use vstd::prelude::*;

use crate::text::{dec_int, digit_char_exec, push_dec_i64};

verus! {

/// One JSON value: the wire format of every request body and response body.
///
/// Numbers are restricted to signed 64-bit integers, which covers every
/// numeric field of the API's resources.
#[derive(Debug, PartialEq)]
pub enum Json {
    Null,
    Bool(bool),
    Int(i64),
    Str(String),
    Arr(Vec<Json>),
    Obj(Vec<(String, Json)>),
}

/// The mathematical model of a [`Json`] value.
pub enum JsonV {
    Null,
    Bool(bool),
    Int(i64),
    Str(Seq<char>),
    Arr(Seq<JsonV>),
    Obj(Seq<(Seq<char>, JsonV)>),
}

/// The mathematical model of a [`Json`] value: the same tree over `Seq`.
pub open spec fn json_v(j: Json) -> JsonV
    decreases j,
{
    match j {
        Json::Null => JsonV::Null,
        Json::Bool(b) => JsonV::Bool(b),
        Json::Int(i) => JsonV::Int(i),
        Json::Str(s) => JsonV::Str(s@),
        Json::Arr(items) => JsonV::Arr(
            Seq::new(
                items@.len(),
                |i: int|
                    if 0 <= i < items@.len() {
                        json_v(items@[i])
                    } else {
                        JsonV::Null
                    },
            ),
        ),
        Json::Obj(fields) => JsonV::Obj(
            Seq::new(
                fields@.len(),
                |i: int|
                    if 0 <= i < fields@.len() {
                        (fields@[i].0@, json_v(fields@[i].1))
                    } else {
                        (Seq::empty(), JsonV::Null)
                    },
            ),
        ),
    }
}

impl View for Json {
    type V = JsonV;

    open spec fn view(&self) -> JsonV {
        json_v(*self)
    }
}

impl DeepView for Json {
    type V = JsonV;

    open spec fn deep_view(&self) -> JsonV {
        self.view()
    }
}

/// The hexadecimal digit character for `d` (meaningful for `0 <= d <= 15`),
/// lower case.
pub open spec fn hex_char(d: int) -> char {
    if d < 10 {
        crate::text::digit_char(d)
    } else if d == 10 {
        'a'
    } else if d == 11 {
        'b'
    } else if d == 12 {
        'c'
    } else if d == 13 {
        'd'
    } else if d == 14 {
        'e'
    } else {
        'f'
    }
}

/// How one character of a string is rendered inside quotes: quotes and
/// backslashes are escaped, control characters take the `\u00XX` form, and
/// every other character stands for itself.
pub open spec fn escape_char(c: char) -> Seq<char> {
    if c == '"' {
        seq!['\\', '"']
    } else if c == '\\' {
        seq!['\\', '\\']
    } else if (c as u32) < 0x20 {
        seq!['\\', 'u', '0', '0', hex_char((c as u32) as int / 16), hex_char((c as u32) as int % 16)]
    } else {
        seq![c]
    }
}

/// The rendering of the characters of a string, without the quotes.
pub open spec fn escape_str(s: Seq<char>) -> Seq<char>
    decreases s.len(),
{
    if s.len() == 0 {
        Seq::empty()
    } else {
        escape_char(s[0]) + escape_str(s.drop_first())
    }
}

/// The rendering of a string: its escaped characters inside quotes.
pub open spec fn print_string(s: Seq<char>) -> Seq<char> {
    seq!['"'] + escape_str(s) + seq!['"']
}

/// The rendering of a JSON document as wire text: compact, with no spacing
/// between tokens.
pub open spec fn print_json(j: JsonV) -> Seq<char>
    decreases j, 0int,
{
    match j {
        JsonV::Null => "null"@,
        JsonV::Bool(b) => if b {
            "true"@
        } else {
            "false"@
        },
        JsonV::Int(i) => dec_int(i as int),
        JsonV::Str(s) => print_string(s),
        JsonV::Arr(items) => seq!['['] + print_items(items, 0) + seq![']'],
        JsonV::Obj(fields) => seq!['{'] + print_fields(fields, 0) + seq!['}'],
    }
}

/// The comma-separated rendering of the array items from position `k` on.
pub open spec fn print_items(items: Seq<JsonV>, k: int) -> Seq<char>
    decreases items, 1int, items.len() - k,
{
    if k < 0 || k >= items.len() {
        Seq::empty()
    } else if k == items.len() - 1 {
        print_json(items[k])
    } else {
        print_json(items[k]) + seq![','] + print_items(items, k + 1)
    }
}

/// The comma-separated rendering of the object members from position `k`
/// on: each member is its quoted key, a colon, and its value.
pub open spec fn print_fields(fields: Seq<(Seq<char>, JsonV)>, k: int) -> Seq<char>
    decreases fields, 1int, fields.len() - k,
{
    if k < 0 || k >= fields.len() {
        Seq::empty()
    } else if k == fields.len() - 1 {
        print_string(fields[k].0) + seq![':'] + print_json(fields[k].1)
    } else {
        print_string(fields[k].0) + seq![':'] + print_json(fields[k].1) + seq![','] + print_fields(
            fields,
            k + 1,
        )
    }
}

/// The hexadecimal digit character for `d` (meaningful for `0 <= d <= 15`).
fn hex_char_exec(d: u32) -> (r: char)
    ensures
        r == hex_char(d as int),
{
    if d < 10 {
        digit_char_exec(d as u64)
    } else if d == 10 {
        'a'
    } else if d == 11 {
        'b'
    } else if d == 12 {
        'c'
    } else if d == 13 {
        'd'
    } else if d == 14 {
        'e'
    } else {
        'f'
    }
}

/// Appends the characters of the literal `s` to `out`.
fn push_str_chars(out: &mut Vec<char>, s: &str)
    ensures
        final(out)@ == old(out)@ + s@,
{
    let mut v = crate::text::chars_of_str(s);
    out.append(&mut v);
}

proof fn lemma_escape_str_snoc(s: Seq<char>, i: int)
    requires
        0 <= i < s.len(),
    ensures
        escape_str(s.subrange(0, i + 1)) == escape_str(s.subrange(0, i)) + escape_char(s[i]),
    decreases i,
{
    let a = s.subrange(0, i + 1);
    let b = s.subrange(0, i);
    if i == 0 {
        assert(a =~= seq![s[0]]);
        assert(b =~= Seq::<char>::empty());
        assert(escape_str(b) == Seq::<char>::empty());
        assert(a.drop_first() =~= b);
        assert(escape_str(a) == escape_char(a[0]) + escape_str(a.drop_first()));
        assert(a[0] == s[0]);
        assert(escape_str(a) =~= escape_str(b) + escape_char(s[i]));
    } else {
        lemma_escape_str_snoc(s.drop_first(), i - 1);
        assert(a.drop_first() =~= s.drop_first().subrange(0, i));
        assert(b.drop_first() =~= s.drop_first().subrange(0, i - 1));
        assert(s.drop_first()[i - 1] == s[i]);
        assert(escape_str(a) == escape_char(s[0]) + escape_str(s.drop_first().subrange(0, i)));
        assert(escape_str(a) =~= escape_str(b) + escape_char(s[i]));
    }
}

/// Appends the quoted, escaped rendering of `s` to `out`.
fn write_json_string(s: &str, out: &mut Vec<char>)
    ensures
        final(out)@ == old(out)@ + print_string(s@),
{
    let chars = crate::text::chars_of_str(s);
    out.push('"');
    let ghost base = out@;
    let mut i: usize = 0;
    while i < chars.len()
        invariant
            chars@ == s@,
            i <= chars@.len(),
            base == old(out)@ + seq!['"'],
            out@ == base + escape_str(s@.subrange(0, i as int)),
        decreases chars@.len() - i,
    {
        proof {
            lemma_escape_str_snoc(s@, i as int);
        }
        let c = chars[i];
        if c == '"' {
            out.push('\\');
            out.push('"');
        } else if c == '\\' {
            out.push('\\');
            out.push('\\');
        } else if (c as u32) < 0x20 {
            out.push('\\');
            out.push('u');
            out.push('0');
            out.push('0');
            out.push(hex_char_exec((c as u32) / 16));
            out.push(hex_char_exec((c as u32) % 16));
        } else {
            out.push(c);
        }
        i = i + 1;
        proof {
            assert(out@ =~= base + escape_str(s@.subrange(0, i as int)));
        }
    }
    out.push('"');
    proof {
        assert(s@.subrange(0, s@.len() as int) =~= s@);
        assert(out@ =~= old(out)@ + print_string(s@));
    }
}

/// Appends the wire text of `j` to `out`.
pub fn write_json(j: &Json, out: &mut Vec<char>)
    ensures
        final(out)@ == old(out)@ + print_json(j@),
    decreases *j, 0int,
{
    match j {
        Json::Null => {
            push_str_chars(out, "null");
        },
        Json::Bool(b) => {
            if *b {
                push_str_chars(out, "true");
            } else {
                push_str_chars(out, "false");
            }
        },
        Json::Int(i) => {
            push_dec_i64(out, *i);
        },
        Json::Str(s) => {
            write_json_string(s.as_str(), out);
        },
        Json::Arr(items) => {
            proof {
                assert(*j == Json::Arr(*items));
                let jm = json_v(*j)->Arr_0;
                let m = arr_v(items@);
                assert(jm.len() == m.len());
                assert forall|i: int| 0 <= i < m.len() implies jm[i] == m[i] by {
                    assert(jm[i] == json_v(items@[i]));
                    assert(m[i] == json_v(items@[i]));
                }
                assert(jm =~= m);
                assert(j@ == JsonV::Arr(m));
            }
            out.push('[');
            write_items(items, out);
            out.push(']');
            proof {
                assert(out@ =~= old(out)@ + print_json(j@));
            }
        },
        Json::Obj(fields) => {
            proof {
                assert(*j == Json::Obj(*fields));
                let jm = json_v(*j)->Obj_0;
                let m = obj_v(fields@);
                assert(jm.len() == m.len());
                assert forall|i: int| 0 <= i < m.len() implies jm[i] == m[i] by {
                    assert(jm[i] == (fields@[i].0@, json_v(fields@[i].1)));
                    assert(m[i] == (fields@[i].0@, json_v(fields@[i].1)));
                }
                assert(jm =~= m);
                assert(j@ == JsonV::Obj(m));
            }
            out.push('{');
            write_fields(fields, out);
            out.push('}');
            proof {
                assert(out@ =~= old(out)@ + print_json(j@));
            }
        },
    }
}

/// Appends the comma-separated wire text of all the array items to `out`.
fn write_items(items: &Vec<Json>, out: &mut Vec<char>)
    ensures
        final(out)@ == old(out)@ + print_items(arr_v(items@), 0),
    decreases *items, 1int,
{
    let ghost m = arr_v(items@);
    let mut k: usize = 0;
    while k < items.len()
        invariant
            m == arr_v(items@),
            m.len() == items@.len(),
            k <= items@.len(),
            out@ + print_items(m, k as int) == old(out)@ + print_items(m, 0),
        decreases items@.len() - k,
    {
        proof {
            assert(m[k as int] == items@[k as int]@);
        }
        write_json(&items[k], out);
        if k + 1 < items.len() {
            out.push(',');
        }
        k = k + 1;
        proof {
            assert(out@ + print_items(m, k as int) =~= old(out)@ + print_items(m, 0));
        }
    }
    proof {
        assert(out@ + print_items(m, items@.len() as int) =~= out@);
    }
}

/// Appends the comma-separated wire text of all the object members to `out`.
fn write_fields(fields: &Vec<(String, Json)>, out: &mut Vec<char>)
    ensures
        final(out)@ == old(out)@ + print_fields(obj_v(fields@), 0),
    decreases *fields, 1int,
{
    let ghost m = obj_v(fields@);
    let mut k: usize = 0;
    while k < fields.len()
        invariant
            m == obj_v(fields@),
            m.len() == fields@.len(),
            k <= fields@.len(),
            out@ + print_fields(m, k as int) == old(out)@ + print_fields(m, 0),
        decreases fields@.len() - k,
    {
        proof {
            assert(m[k as int] == (fields@[k as int].0@, fields@[k as int].1@));
        }
        write_json_string(fields[k].0.as_str(), out);
        out.push(':');
        write_json(&fields[k].1, out);
        if k + 1 < fields.len() {
            out.push(',');
        }
        k = k + 1;
        proof {
            assert(out@ + print_fields(m, k as int) =~= old(out)@ + print_fields(m, 0));
        }
    }
    proof {
        assert(out@ + print_fields(m, fields@.len() as int) =~= out@);
    }
}

/// The wire text of `j`, as characters.
pub fn json_to_chars(j: &Json) -> (r: Vec<char>)
    ensures
        r@ == print_json(j@),
{
    let mut out: Vec<char> = Vec::new();
    write_json(j, &mut out);
    out
}

/// The model of the items of an array node.
pub open spec fn arr_v(items: Seq<Json>) -> Seq<JsonV> {
    Seq::new(
        items.len(),
        |i: int|
            if 0 <= i < items.len() {
                json_v(items[i])
            } else {
                JsonV::Null
            },
    )
}

/// An array node models to exactly the arrow of its items.
pub proof fn lemma_json_v_arr(items: Vec<Json>)
    ensures
        json_v(Json::Arr(items)) == JsonV::Arr(arr_v(items@)),
{
    let jm = json_v(Json::Arr(items))->Arr_0;
    let m = arr_v(items@);
    assert(jm.len() == m.len());
    assert forall|i: int| 0 <= i < m.len() implies jm[i] == m[i] by {
        assert(jm[i] == json_v(items@[i]));
        assert(m[i] == json_v(items@[i]));
    }
    assert(jm =~= m);
}

/// An object node models to exactly the members of its field list.
pub proof fn lemma_json_v_obj(fields: Vec<(String, Json)>)
    ensures
        json_v(Json::Obj(fields)) == JsonV::Obj(obj_v(fields@)),
{
    let jm = json_v(Json::Obj(fields))->Obj_0;
    let m = obj_v(fields@);
    assert(jm.len() == m.len());
    assert forall|i: int| 0 <= i < m.len() implies jm[i] == m[i] by {
        assert(jm[i] == (fields@[i].0@, json_v(fields@[i].1)));
        assert(m[i] == (fields@[i].0@, json_v(fields@[i].1)));
    }
    assert(jm =~= m);
}

/// Appending an item to an array node appends its model.
pub proof fn lemma_arr_v_push(items: Seq<Json>, x: Json)
    ensures
        arr_v(items.push(x)) == arr_v(items).push(json_v(x)),
{
    assert(arr_v(items.push(x)) =~= arr_v(items).push(json_v(x)));
}

/// Appending a member to an object node appends its model.
pub proof fn lemma_obj_v_push(fields: Seq<(String, Json)>, k: String, x: Json)
    ensures
        obj_v(fields.push((k, x))) == obj_v(fields).push((k@, json_v(x))),
{
    assert(obj_v(fields.push((k, x))) =~= obj_v(fields).push((k@, json_v(x))));
}

/// The model of the members of an object node.
pub open spec fn obj_v(fields: Seq<(String, Json)>) -> Seq<(Seq<char>, JsonV)> {
    Seq::new(
        fields.len(),
        |i: int|
            if 0 <= i < fields.len() {
                (fields[i].0@, json_v(fields[i].1))
            } else {
                (Seq::empty(), JsonV::Null)
            },
    )
}

} // verus!
