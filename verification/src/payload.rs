//! The payload contract: what a resource type must provide to travel over
//! the wire, and the helpers every payload implementation builds on.
//!
//! A payload encodes itself into a [`Json`] document and decodes back from
//! one, and proves that decoding inverts encoding.

use vstd::prelude::*;

use crate::json::{json_v, obj_v, Json, JsonV};

verus! {

/// A resource type that can be sent and received as a JSON document.
pub trait Payload: DeepView + Sized {
    /// The JSON document that a value models to.
    spec fn to_jv(v: <Self as DeepView>::V) -> JsonV;

    /// The value a JSON document decodes to, when it has the right shape.
    spec fn of_jv(j: JsonV) -> Option<<Self as DeepView>::V>;

    /// Encodes `self` as a JSON document.
    fn to_json(&self) -> (r: Json)
        ensures
            r@ == Self::to_jv(self.deep_view()),
    ;

    /// Decodes a JSON document, exactly when it has the shape of `Self`.
    fn from_json(j: &Json) -> (r: Option<Self>)
        ensures
            (match r {
                Some(t) => Self::of_jv(j@) == Some(t.deep_view()),
                None => Self::of_jv(j@) is None,
            }),
    ;

    /// Decoding inverts encoding: every value decodes back from its own
    /// document, with absent optional fields staying absent.
    proof fn lemma_round_trip(v: <Self as DeepView>::V)
        ensures
            Self::of_jv(Self::to_jv(v)) == Some(v),
    ;
}

/// The value of the first member named `k`, if any.
pub open spec fn jv_lookup(fields: Seq<(Seq<char>, JsonV)>, k: Seq<char>) -> Option<JsonV>
    decreases fields.len(),
{
    if fields.len() == 0 {
        None
    } else if fields[0].0 == k {
        Some(fields[0].1)
    } else {
        jv_lookup(fields.drop_first(), k)
    }
}

/// A lookup over concatenated member lists takes the first hit.
pub broadcast proof fn lemma_jv_lookup_append(
    a: Seq<(Seq<char>, JsonV)>,
    b: Seq<(Seq<char>, JsonV)>,
    k: Seq<char>,
)
    ensures
        #[trigger] jv_lookup(a + b, k) == (if jv_lookup(a, k) is Some {
            jv_lookup(a, k)
        } else {
            jv_lookup(b, k)
        }),
    decreases a.len(),
{
    if a.len() == 0 {
        assert(a + b =~= b);
    } else {
        lemma_jv_lookup_append(a.drop_first(), b, k);
        assert((a + b).drop_first() =~= a.drop_first() + b);
        assert((a + b)[0] == a[0]);
    }
}

/// One member, always present.
pub open spec fn sfield(k: Seq<char>, j: JsonV) -> Seq<(Seq<char>, JsonV)> {
    seq![(k, j)]
}

/// One member carrying a JSON document, present only when the value is.
pub open spec fn opt_field(k: Seq<char>, o: Option<JsonV>) -> Seq<(Seq<char>, JsonV)> {
    match o {
        Some(j) => seq![(k, j)],
        None => Seq::empty(),
    }
}

/// One string member, present only when the value is.
pub open spec fn opt_str_field(k: Seq<char>, o: Option<Seq<char>>) -> Seq<(Seq<char>, JsonV)> {
    match o {
        Some(s) => seq![(k, JsonV::Str(s))],
        None => Seq::empty(),
    }
}

/// One integer member, present only when the value is.
pub open spec fn opt_i64_field(k: Seq<char>, o: Option<i64>) -> Seq<(Seq<char>, JsonV)> {
    match o {
        Some(n) => seq![(k, JsonV::Int(n))],
        None => Seq::empty(),
    }
}

/// One boolean member, present only when the value is.
pub open spec fn opt_bool_field(k: Seq<char>, o: Option<bool>) -> Seq<(Seq<char>, JsonV)> {
    match o {
        Some(b) => seq![(k, JsonV::Bool(b))],
        None => Seq::empty(),
    }
}

/// What a lookup finds in a one-member list.
pub broadcast proof fn lemma_lookup_sfield(k: Seq<char>, j: JsonV, k2: Seq<char>)
    ensures
        #[trigger] jv_lookup(sfield(k, j), k2) == (if k2 == k {
            Some(j)
        } else {
            Option::<JsonV>::None
        }),
{
    assert(sfield(k, j).len() == 1);
    assert(sfield(k, j)[0] == (k, j));
    assert(sfield(k, j).drop_first() =~= Seq::<(Seq<char>, JsonV)>::empty());
    assert(jv_lookup(Seq::<(Seq<char>, JsonV)>::empty(), k2) is None);
}

/// What a lookup finds in an optional member.
pub broadcast proof fn lemma_lookup_opt_field(k: Seq<char>, o: Option<JsonV>, k2: Seq<char>)
    ensures
        #[trigger] jv_lookup(opt_field(k, o), k2) == (if k2 == k && o is Some {
            o
        } else {
            Option::<JsonV>::None
        }),
{
    if o is Some {
        lemma_lookup_sfield(k, o->0, k2);
        assert(opt_field(k, o) =~= sfield(k, o->0));
    }
}

/// What a lookup finds in an optional string member.
pub broadcast proof fn lemma_lookup_opt_str_field(
    k: Seq<char>,
    o: Option<Seq<char>>,
    k2: Seq<char>,
)
    ensures
        #[trigger] jv_lookup(opt_str_field(k, o), k2) == (if k2 == k && o is Some {
            Some(JsonV::Str(o->0))
        } else {
            Option::<JsonV>::None
        }),
{
    if o is Some {
        lemma_lookup_sfield(k, JsonV::Str(o->0), k2);
        assert(opt_str_field(k, o) =~= sfield(k, JsonV::Str(o->0)));
    }
}

/// What a lookup finds in an optional integer member.
pub broadcast proof fn lemma_lookup_opt_i64_field(k: Seq<char>, o: Option<i64>, k2: Seq<char>)
    ensures
        #[trigger] jv_lookup(opt_i64_field(k, o), k2) == (if k2 == k && o is Some {
            Some(JsonV::Int(o->0))
        } else {
            Option::<JsonV>::None
        }),
{
    if o is Some {
        lemma_lookup_sfield(k, JsonV::Int(o->0), k2);
        assert(opt_i64_field(k, o) =~= sfield(k, JsonV::Int(o->0)));
    }
}

/// What a lookup finds in an optional boolean member.
pub broadcast proof fn lemma_lookup_opt_bool_field(k: Seq<char>, o: Option<bool>, k2: Seq<char>)
    ensures
        #[trigger] jv_lookup(opt_bool_field(k, o), k2) == (if k2 == k && o is Some {
            Some(JsonV::Bool(o->0))
        } else {
            Option::<JsonV>::None
        }),
{
    if o is Some {
        lemma_lookup_sfield(k, JsonV::Bool(o->0), k2);
        assert(opt_bool_field(k, o) =~= sfield(k, JsonV::Bool(o->0)));
    }
}

/// All the lookup rules of the member combinators.
pub broadcast group group_lookup_rules {
    lemma_jv_lookup_append,
    lemma_lookup_sfield,
    lemma_lookup_opt_field,
    lemma_lookup_opt_str_field,
    lemma_lookup_opt_i64_field,
    lemma_lookup_opt_bool_field,
}

/// The value of the member named `k`, if any.
pub fn obj_get<'a>(fields: &'a Vec<(String, Json)>, k: &String) -> (r: Option<&'a Json>)
    ensures
        (match r {
            Some(x) => jv_lookup(obj_v(fields@), k@) == Some(x@),
            None => jv_lookup(obj_v(fields@), k@) is None,
        }),
{
    let ghost m = obj_v(fields@);
    proof {
        assert(m.subrange(0, m.len() as int) =~= m);
    }
    let mut idx: usize = 0;
    while idx < fields.len()
        invariant
            idx <= fields@.len(),
            m == obj_v(fields@),
            m.len() == fields@.len(),
            jv_lookup(m, k@) == jv_lookup(m.subrange(idx as int, m.len() as int), k@),
        decreases fields@.len() - idx,
    {
        let ghost sub = m.subrange(idx as int, m.len() as int);
        proof {
            assert(sub[0] == m[idx as int]);
            assert(m[idx as int] == (fields@[idx as int].0@, json_v(fields@[idx as int].1)));
        }
        if fields[idx].0 == *k {
            return Some(&fields[idx].1);
        }
        proof {
            assert(sub.drop_first() =~= m.subrange(idx as int + 1, m.len() as int));
        }
        idx = idx + 1;
    }
    proof {
        assert(m.subrange(m.len() as int, m.len() as int) =~= Seq::<(Seq<char>, JsonV)>::empty());
    }
    None
}

/// The documents of a sequence of payload values.
pub open spec fn to_jv_seq<T: Payload>(items: Seq<<T as DeepView>::V>) -> Seq<JsonV> {
    Seq::new(
        items.len(),
        |i: int|
            if 0 <= i < items.len() {
                T::to_jv(items[i])
            } else {
                JsonV::Null
            },
    )
}

/// The values of a sequence of documents, when every one has the right
/// shape.
pub open spec fn of_jv_seq<T: Payload>(js: Seq<JsonV>) -> Option<Seq<<T as DeepView>::V>>
    decreases js.len(),
{
    if js.len() == 0 {
        Some(Seq::empty())
    } else {
        match of_jv_seq::<T>(js.drop_last()) {
            None => None,
            Some(pre) => match T::of_jv(js.last()) {
                None => None,
                Some(v) => Some(pre.push(v)),
            },
        }
    }
}

/// Decoding a sequence inverts encoding it.
pub proof fn lemma_seq_round_trip<T: Payload>(items: Seq<<T as DeepView>::V>)
    ensures
        of_jv_seq::<T>(to_jv_seq::<T>(items)) == Some(items),
    decreases items.len(),
{
    let js = to_jv_seq::<T>(items);
    if items.len() == 0 {
        assert(js.len() == 0);
    } else {
        lemma_seq_round_trip::<T>(items.drop_last());
        assert(to_jv_seq::<T>(items.drop_last()) =~= js.drop_last());
        T::lemma_round_trip(items.last());
        assert(js.last() == T::to_jv(items.last()));
        assert(items.drop_last().push(items.last()) =~= items);
    }
}

/// A sequence of documents fails to decode when any one of them does.
proof fn lemma_of_jv_seq_fail<T: Payload>(js: Seq<JsonV>, k: int)
    requires
        0 <= k < js.len(),
        T::of_jv(js[k]) is None,
    ensures
        of_jv_seq::<T>(js) is None,
    decreases js.len(),
{
    if k < js.len() - 1 {
        lemma_of_jv_seq_fail::<T>(js.drop_last(), k);
    }
}

/// The document of a map with string values, one member per entry, in entry
/// order.
pub open spec fn strmap_jv(m: Seq<(Seq<char>, Seq<char>)>) -> Seq<(Seq<char>, JsonV)> {
    Seq::new(
        m.len(),
        |i: int|
            if 0 <= i < m.len() {
                (m[i].0, JsonV::Str(m[i].1))
            } else {
                (Seq::empty(), JsonV::Null)
            },
    )
}

/// The entries of a document whose members must all carry strings.
pub open spec fn strmap_of_jv(fs: Seq<(Seq<char>, JsonV)>) -> Option<Seq<(Seq<char>, Seq<char>)>>
    decreases fs.len(),
{
    if fs.len() == 0 {
        Some(Seq::empty())
    } else {
        match strmap_of_jv(fs.drop_last()) {
            None => None,
            Some(pre) => match fs.last().1 {
                JsonV::Str(s) => Some(pre.push((fs.last().0, s))),
                _ => None,
            },
        }
    }
}

/// Decoding a string map inverts encoding it.
pub proof fn lemma_strmap_round_trip(m: Seq<(Seq<char>, Seq<char>)>)
    ensures
        strmap_of_jv(strmap_jv(m)) == Some(m),
    decreases m.len(),
{
    let fs = strmap_jv(m);
    if m.len() == 0 {
        assert(fs.len() == 0);
    } else {
        lemma_strmap_round_trip(m.drop_last());
        assert(strmap_jv(m.drop_last()) =~= fs.drop_last());
        assert(fs.last() == (m.last().0, JsonV::Str(m.last().1)));
        assert(m.drop_last().push(m.last()) =~= m);
    }
}

proof fn lemma_strmap_of_jv_fail(fs: Seq<(Seq<char>, JsonV)>, k: int)
    requires
        0 <= k < fs.len(),
        !(fs[k].1 is Str),
    ensures
        strmap_of_jv(fs) is None,
    decreases fs.len(),
{
    if k < fs.len() - 1 {
        lemma_strmap_of_jv_fail(fs.drop_last(), k);
    }
}

/// A required string member: its characters, or nothing when it is absent
/// or not a string.
pub open spec fn jv_str(m: Seq<(Seq<char>, JsonV)>, k: Seq<char>) -> Option<Seq<char>> {
    match jv_lookup(m, k) {
        Some(JsonV::Str(s)) => Some(s),
        _ => None,
    }
}

/// A required integer member.
pub open spec fn jv_i64(m: Seq<(Seq<char>, JsonV)>, k: Seq<char>) -> Option<i64> {
    match jv_lookup(m, k) {
        Some(JsonV::Int(n)) => Some(n),
        _ => None,
    }
}

/// An optional string member: absent and null both decode to nothing; a
/// non-string value is a shape error.
pub open spec fn jv_opt_str(m: Seq<(Seq<char>, JsonV)>, k: Seq<char>) -> Option<
    Option<Seq<char>>,
> {
    match jv_lookup(m, k) {
        None => Some(None),
        Some(JsonV::Null) => Some(None),
        Some(JsonV::Str(s)) => Some(Some(s)),
        Some(_) => None,
    }
}

/// An optional integer member.
pub open spec fn jv_opt_i64(m: Seq<(Seq<char>, JsonV)>, k: Seq<char>) -> Option<Option<i64>> {
    match jv_lookup(m, k) {
        None => Some(None),
        Some(JsonV::Null) => Some(None),
        Some(JsonV::Int(n)) => Some(Some(n)),
        Some(_) => None,
    }
}

/// An optional boolean member.
pub open spec fn jv_opt_bool(m: Seq<(Seq<char>, JsonV)>, k: Seq<char>) -> Option<Option<bool>> {
    match jv_lookup(m, k) {
        None => Some(None),
        Some(JsonV::Null) => Some(None),
        Some(JsonV::Bool(b)) => Some(Some(b)),
        Some(_) => None,
    }
}

/// An optional member of any shape: absent and null both decode to
/// nothing.
pub open spec fn jv_opt(m: Seq<(Seq<char>, JsonV)>, k: Seq<char>) -> Option<JsonV> {
    match jv_lookup(m, k) {
        None => None,
        Some(JsonV::Null) => None,
        Some(j) => Some(j),
    }
}

/// Appends the member `k` to an object under construction.
pub fn push_field(out: &mut Vec<(String, Json)>, k: &str, j: Json)
    ensures
        obj_v(final(out)@) == obj_v(old(out)@) + sfield(k@, json_v(j)),
{
    let ghost j0 = json_v(j);
    out.push((String::from_str(k), j));
    proof {
        assert(obj_v(out@) =~= obj_v(old(out)@) + sfield(k@, j0));
    }
}

/// Appends the string member `k`.
pub fn push_str_field(out: &mut Vec<(String, Json)>, k: &str, s: &String)
    ensures
        obj_v(final(out)@) == obj_v(old(out)@) + sfield(k@, JsonV::Str(s@)),
{
    push_field(out, k, Json::Str(s.clone()));
}

/// Appends the string member `k` when a value is present.
pub fn push_opt_str_field(out: &mut Vec<(String, Json)>, k: &str, o: &Option<String>)
    ensures
        obj_v(final(out)@) == obj_v(old(out)@) + opt_str_field(k@, o.deep_view()),
{
    match o {
        Option::Some(s) => {
            push_field(out, k, Json::Str(s.clone()));
            proof {
                assert(obj_v(out@) =~= obj_v(old(out)@) + opt_str_field(k@, o.deep_view()));
            }
        },
        Option::None => {
            proof {
                assert(obj_v(out@) =~= obj_v(old(out)@) + opt_str_field(k@, o.deep_view()));
            }
        },
    }
}

/// Appends the integer member `k` when a value is present.
pub fn push_opt_i64_field(out: &mut Vec<(String, Json)>, k: &str, o: Option<i64>)
    ensures
        obj_v(final(out)@) == obj_v(old(out)@) + opt_i64_field(k@, o),
{
    match o {
        Option::Some(n) => {
            push_field(out, k, Json::Int(n));
            proof {
                assert(obj_v(out@) =~= obj_v(old(out)@) + opt_i64_field(k@, o));
            }
        },
        Option::None => {
            proof {
                assert(obj_v(out@) =~= obj_v(old(out)@) + opt_i64_field(k@, o));
            }
        },
    }
}

/// Appends the boolean member `k` when a value is present.
pub fn push_opt_bool_field(out: &mut Vec<(String, Json)>, k: &str, o: Option<bool>)
    ensures
        obj_v(final(out)@) == obj_v(old(out)@) + opt_bool_field(k@, o),
{
    match o {
        Option::Some(b) => {
            push_field(out, k, Json::Bool(b));
            proof {
                assert(obj_v(out@) =~= obj_v(old(out)@) + opt_bool_field(k@, o));
            }
        },
        Option::None => {
            proof {
                assert(obj_v(out@) =~= obj_v(old(out)@) + opt_bool_field(k@, o));
            }
        },
    }
}

/// Appends the member `k` carrying a document when one is present.
pub fn push_opt_json_field(out: &mut Vec<(String, Json)>, k: &str, o: Option<Json>)
    ensures
        obj_v(final(out)@) == obj_v(old(out)@) + opt_field(k@, o.deep_view()),
{
    match o {
        Option::Some(j) => {
            push_field(out, k, j);
            proof {
                assert(obj_v(out@) =~= obj_v(old(out)@) + opt_field(k@, o.deep_view()));
            }
        },
        Option::None => {
            proof {
                assert(obj_v(out@) =~= obj_v(old(out)@) + opt_field(k@, o.deep_view()));
            }
        },
    }
}

/// The member named `k`, if any.
pub fn get_json<'a>(fields: &'a Vec<(String, Json)>, k: &str) -> (r: Option<&'a Json>)
    ensures
        (match r {
            Some(x) => jv_lookup(obj_v(fields@), k@) == Some(x@),
            None => jv_lookup(obj_v(fields@), k@) is None,
        }),
{
    let ks = String::from_str(k);
    obj_get(fields, &ks)
}

/// The required string member named `k`.
pub fn get_str(fields: &Vec<(String, Json)>, k: &str) -> (r: Option<String>)
    ensures
        (match r {
            Some(s) => jv_str(obj_v(fields@), k@) == Some(s@),
            None => jv_str(obj_v(fields@), k@) is None,
        }),
{
    match get_json(fields, k) {
        Option::Some(j) => {
            match j {
                Json::Str(s) => Some(s.clone()),
                _ => None,
            }
        },
        Option::None => None,
    }
}

/// The required integer member named `k`.
pub fn get_i64(fields: &Vec<(String, Json)>, k: &str) -> (r: Option<i64>)
    ensures
        (match r {
            Some(n) => jv_i64(obj_v(fields@), k@) == Some(n),
            None => jv_i64(obj_v(fields@), k@) is None,
        }),
{
    match get_json(fields, k) {
        Option::Some(j) => {
            match j {
                Json::Int(n) => Some(*n),
                _ => None,
            }
        },
        Option::None => None,
    }
}

/// The optional string member named `k`.
pub fn get_opt_str(fields: &Vec<(String, Json)>, k: &str) -> (r: Option<Option<String>>)
    ensures
        (match r {
            Some(o) => jv_opt_str(obj_v(fields@), k@) == Some(o.deep_view()),
            None => jv_opt_str(obj_v(fields@), k@) is None,
        }),
{
    match get_json(fields, k) {
        Option::Some(j) => {
            match j {
                Json::Str(s) => Some(Some(s.clone())),
                Json::Null => Some(None),
                _ => None,
            }
        },
        Option::None => Some(None),
    }
}

/// The optional integer member named `k`.
pub fn get_opt_i64(fields: &Vec<(String, Json)>, k: &str) -> (r: Option<Option<i64>>)
    ensures
        (match r {
            Some(o) => jv_opt_i64(obj_v(fields@), k@) == Some(o),
            None => jv_opt_i64(obj_v(fields@), k@) is None,
        }),
{
    match get_json(fields, k) {
        Option::Some(j) => {
            match j {
                Json::Int(n) => Some(Some(*n)),
                Json::Null => Some(None),
                _ => None,
            }
        },
        Option::None => Some(None),
    }
}

/// The optional boolean member named `k`.
pub fn get_opt_bool(fields: &Vec<(String, Json)>, k: &str) -> (r: Option<Option<bool>>)
    ensures
        (match r {
            Some(o) => jv_opt_bool(obj_v(fields@), k@) == Some(o),
            None => jv_opt_bool(obj_v(fields@), k@) is None,
        }),
{
    match get_json(fields, k) {
        Option::Some(j) => {
            match j {
                Json::Bool(b) => Some(Some(*b)),
                Json::Null => Some(None),
                _ => None,
            }
        },
        Option::None => Some(None),
    }
}

/// The optional member named `k`, with null read as absent.
pub fn get_opt_json<'a>(fields: &'a Vec<(String, Json)>, k: &str) -> (r: Option<&'a Json>)
    ensures
        (match r {
            Some(x) => jv_opt(obj_v(fields@), k@) == Some(x@) && !(x@ is Null),
            None => jv_opt(obj_v(fields@), k@) is None,
        }),
{
    match get_json(fields, k) {
        Option::Some(j) => {
            match j {
                Json::Null => None,
                _ => Some(j),
            }
        },
        Option::None => None,
    }
}

/// What an array document decodes to as a sequence of `T`.
pub open spec fn arr_of_jv<T: Payload>(j: JsonV) -> Option<Seq<<T as DeepView>::V>> {
    match j {
        JsonV::Arr(js) => of_jv_seq::<T>(js),
        _ => None,
    }
}

/// What an object document decodes to as a string map.
pub open spec fn strmap_of_doc(j: JsonV) -> Option<Seq<(Seq<char>, Seq<char>)>> {
    match j {
        JsonV::Obj(fs) => strmap_of_jv(fs),
        _ => None,
    }
}

/// Encodes the items as an array document.
pub fn seq_to_json<T: Payload>(items: &Vec<T>) -> (r: Json)
    ensures
        r@ == JsonV::Arr(to_jv_seq::<T>(items.deep_view())),
{
    let ghost target = to_jv_seq::<T>(items.deep_view());
    let mut out: Vec<Json> = Vec::new();
    let mut k: usize = 0;
    proof {
        assert(crate::json::arr_v(out@) =~= target.take(0));
    }
    while k < items.len()
        invariant
            k <= items@.len(),
            target == to_jv_seq::<T>(items.deep_view()),
            target.len() == items@.len(),
            crate::json::arr_v(out@) == target.take(k as int),
        decreases items@.len() - k,
    {
        let j = items[k].to_json();
        proof {
            crate::json::lemma_arr_v_push(out@, j);
            assert(items@[k as int].deep_view() == items.deep_view()[k as int]);
            assert(target.take(k as int).push(target[k as int]) =~= target.take(k as int + 1));
        }
        out.push(j);
        k = k + 1;
    }
    proof {
        assert(target.take(target.len() as int) =~= target);
        crate::json::lemma_json_v_arr(out);
    }
    Json::Arr(out)
}

/// Decodes an array document as a vector of `T`, exactly when every item
/// has the right shape.
pub fn json_to_seq<T: Payload>(j: &Json) -> (r: Option<Vec<T>>)
    ensures
        (match r {
            Some(v) => arr_of_jv::<T>(j@) == Some(v.deep_view()),
            None => arr_of_jv::<T>(j@) is None,
        }),
{
    match j {
        Json::Arr(items) => {
            proof {
                assert(*j == Json::Arr(*items));
                crate::json::lemma_json_v_arr(*items);
            }
            let ghost js = crate::json::arr_v(items@);
            let mut out: Vec<T> = Vec::new();
            let mut k: usize = 0;
            proof {
                assert(js.take(0) =~= Seq::<JsonV>::empty());
                assert(out.deep_view() =~= Seq::<<T as DeepView>::V>::empty());
            }
            while k < items.len()
                invariant
                    k <= items@.len(),
                    js == crate::json::arr_v(items@),
                    js.len() == items@.len(),
                    j@ == JsonV::Arr(js),
                    of_jv_seq::<T>(js.take(k as int)) == Some(out.deep_view()),
                decreases items@.len() - k,
            {
                proof {
                    assert(js[k as int] == crate::json::json_v(items@[k as int]));
                }
                match T::from_json(&items[k]) {
                    Option::Some(t) => {
                        let ghost pre = out.deep_view();
                        out.push(t);
                        proof {
                            assert(out.deep_view() =~= pre.push(t.deep_view()));
                            assert(js.take(k as int + 1).drop_last() =~= js.take(k as int));
                            assert(js.take(k as int + 1).last() == js[k as int]);
                        }
                        k = k + 1;
                    },
                    Option::None => {
                        proof {
                            assert(T::of_jv(js[k as int]) is None);
                            lemma_of_jv_seq_fail::<T>(js, k as int);
                            assert(of_jv_seq::<T>(js) is None);
                            assert(j@ == JsonV::Arr(js));
                            assert(arr_of_jv::<T>(j@) is None);
                        }
                        return None;
                    },
                }
            }
            proof {
                assert(js.take(js.len() as int) =~= js);
                assert(arr_of_jv::<T>(j@) == Some(out.deep_view()));
            }
            Some(out)
        },
        _ => {
            proof {
                assert(!(j@ is Arr));
            }
            None
        },
    }
}

/// Encodes the entries as an object document with string values, in entry
/// order.
pub fn strmap_to_json(entries: &Vec<(String, String)>) -> (r: Json)
    ensures
        r@ == JsonV::Obj(strmap_jv(entries.deep_view())),
{
    let ghost target = strmap_jv(entries.deep_view());
    let mut out: Vec<(String, Json)> = Vec::new();
    let mut k: usize = 0;
    proof {
        assert(obj_v(out@) =~= target.take(0));
    }
    while k < entries.len()
        invariant
            k <= entries@.len(),
            target == strmap_jv(entries.deep_view()),
            target.len() == entries@.len(),
            obj_v(out@) == target.take(k as int),
        decreases entries@.len() - k,
    {
        let key = entries[k].0.clone();
        let val = Json::Str(entries[k].1.clone());
        proof {
            crate::json::lemma_obj_v_push(out@, key, val);
            assert(target[k as int] == (entries@[k as int].0@, JsonV::Str(entries@[k as int].1@)));
            assert(target.take(k as int).push(target[k as int]) =~= target.take(k as int + 1));
        }
        out.push((key, val));
        k = k + 1;
    }
    proof {
        assert(target.take(target.len() as int) =~= target);
        crate::json::lemma_json_v_obj(out);
    }
    Json::Obj(out)
}

/// Decodes an object document as string-valued entries, exactly when every
/// member carries a string.
pub fn json_to_strmap(j: &Json) -> (r: Option<Vec<(String, String)>>)
    ensures
        (match r {
            Some(v) => strmap_of_doc(j@) == Some(v.deep_view()),
            None => strmap_of_doc(j@) is None,
        }),
{
    match j {
        Json::Obj(fields) => {
            proof {
                assert(*j == Json::Obj(*fields));
                crate::json::lemma_json_v_obj(*fields);
            }
            let ghost fs = obj_v(fields@);
            let mut out: Vec<(String, String)> = Vec::new();
            let mut k: usize = 0;
            proof {
                assert(fs.take(0) =~= Seq::<(Seq<char>, JsonV)>::empty());
                assert(out.deep_view() =~= Seq::<(Seq<char>, Seq<char>)>::empty());
            }
            while k < fields.len()
                invariant
                    k <= fields@.len(),
                    fs == obj_v(fields@),
                    fs.len() == fields@.len(),
                    j@ == JsonV::Obj(fs),
                    strmap_of_jv(fs.take(k as int)) == Some(out.deep_view()),
                decreases fields@.len() - k,
            {
                proof {
                    assert(fs[k as int] == (fields@[k as int].0@, crate::json::json_v(
                        fields@[k as int].1,
                    )));
                }
                match &fields[k].1 {
                    Json::Str(sv) => {
                        let ghost pre = out.deep_view();
                        out.push((fields[k].0.clone(), sv.clone()));
                        proof {
                            assert(out.deep_view() =~= pre.push(
                                (fields@[k as int].0@, fields@[k as int].1->Str_0@),
                            ));
                            assert(fs.take(k as int + 1).drop_last() =~= fs.take(k as int));
                            assert(fs.take(k as int + 1).last() == fs[k as int]);
                        }
                        k = k + 1;
                    },
                    _ => {
                        proof {
                            assert(!(fs[k as int].1 is Str));
                            lemma_strmap_of_jv_fail(fs, k as int);
                            assert(strmap_of_jv(fs) is None);
                            assert(j@ == JsonV::Obj(fs));
                            assert(strmap_of_doc(j@) is None);
                        }
                        return None;
                    },
                }
            }
            proof {
                assert(fs.take(fs.len() as int) =~= fs);
                assert(strmap_of_doc(j@) == Some(out.deep_view()));
            }
            Some(out)
        },
        _ => {
            proof {
                assert(!(j@ is Obj));
            }
            None
        },
    }
}

impl Payload for String {
    open spec fn to_jv(v: Seq<char>) -> JsonV {
        JsonV::Str(v)
    }

    open spec fn of_jv(j: JsonV) -> Option<Seq<char>> {
        match j {
            JsonV::Str(s) => Some(s),
            _ => None,
        }
    }

    fn to_json(&self) -> (r: Json) {
        Json::Str(self.clone())
    }

    fn from_json(j: &Json) -> (r: Option<Self>) {
        match j {
            Json::Str(s) => Some(s.clone()),
            _ => None,
        }
    }

    proof fn lemma_round_trip(v: Seq<char>) {
    }
}

/// One member holding another payload, present only when the value is.
pub open spec fn opt_payload_field<T: Payload>(
    k: Seq<char>,
    o: Option<<T as DeepView>::V>,
) -> Seq<(Seq<char>, JsonV)> {
    opt_field(
        k,
        match o {
            Some(v) => Some(T::to_jv(v)),
            None => None,
        },
    )
}

/// One member holding an array of payloads, present only when the value
/// is.
pub open spec fn opt_arr_field<T: Payload>(
    k: Seq<char>,
    o: Option<Seq<<T as DeepView>::V>>,
) -> Seq<(Seq<char>, JsonV)> {
    opt_field(
        k,
        match o {
            Some(its) => Some(JsonV::Arr(to_jv_seq::<T>(its))),
            None => None,
        },
    )
}

/// One member holding a map with string values, present only when the
/// value is.
pub open spec fn opt_strmap_field(k: Seq<char>, o: Option<Seq<(Seq<char>, Seq<char>)>>) -> Seq<
    (Seq<char>, JsonV),
> {
    opt_field(
        k,
        match o {
            Some(m) => Some(JsonV::Obj(strmap_jv(m))),
            None => None,
        },
    )
}

/// A required member holding another payload.
pub open spec fn jv_req_payload<T: Payload>(m: Seq<(Seq<char>, JsonV)>, k: Seq<char>) -> Option<
    <T as DeepView>::V,
> {
    match jv_lookup(m, k) {
        Some(j) => T::of_jv(j),
        None => None,
    }
}

/// An optional member holding another payload: absent and null decode to
/// nothing, a malformed value is a shape error.
pub open spec fn jv_opt_payload<T: Payload>(m: Seq<(Seq<char>, JsonV)>, k: Seq<char>) -> Option<
    Option<<T as DeepView>::V>,
> {
    match jv_lookup(m, k) {
        None => Some(None),
        Some(JsonV::Null) => Some(None),
        Some(j) => match T::of_jv(j) {
            Some(v) => Some(Some(v)),
            None => None,
        },
    }
}

/// An optional member holding an array of payloads.
pub open spec fn jv_opt_arr<T: Payload>(m: Seq<(Seq<char>, JsonV)>, k: Seq<char>) -> Option<
    Option<Seq<<T as DeepView>::V>>,
> {
    match jv_lookup(m, k) {
        None => Some(None),
        Some(JsonV::Null) => Some(None),
        Some(JsonV::Arr(js)) => match of_jv_seq::<T>(js) {
            Some(its) => Some(Some(its)),
            None => None,
        },
        Some(_) => None,
    }
}

/// An optional member holding a map with string values.
pub open spec fn jv_opt_strmap(m: Seq<(Seq<char>, JsonV)>, k: Seq<char>) -> Option<
    Option<Seq<(Seq<char>, Seq<char>)>>,
> {
    match jv_lookup(m, k) {
        None => Some(None),
        Some(JsonV::Null) => Some(None),
        Some(JsonV::Obj(fs)) => match strmap_of_jv(fs) {
            Some(m2) => Some(Some(m2)),
            None => None,
        },
        Some(_) => None,
    }
}

/// Appends the member `k` holding another payload.
pub fn push_payload_field<T: Payload>(out: &mut Vec<(String, Json)>, k: &str, t: &T)
    ensures
        obj_v(final(out)@) == obj_v(old(out)@) + sfield(k@, T::to_jv(t.deep_view())),
{
    push_field(out, k, t.to_json());
}

/// Appends the member `k` holding another payload when a value is present.
pub fn push_opt_payload_field<T: Payload>(out: &mut Vec<(String, Json)>, k: &str, o: &Option<T>)
    ensures
        obj_v(final(out)@) == obj_v(old(out)@) + opt_payload_field::<T>(k@, o.deep_view()),
{
    let oj: Option<Json> = match o {
        Option::Some(t) => Option::Some(t.to_json()),
        Option::None => Option::None,
    };
    proof {
        assert(oj.deep_view() == (match o.deep_view() {
            Some(v) => Some(T::to_jv(v)),
            None => Option::<JsonV>::None,
        }));
    }
    push_opt_json_field(out, k, oj);
}

/// Appends the member `k` holding an array of payloads when a value is
/// present.
pub fn push_opt_arr_field<T: Payload>(out: &mut Vec<(String, Json)>, k: &str, o: &Option<Vec<T>>)
    ensures
        obj_v(final(out)@) == obj_v(old(out)@) + opt_arr_field::<T>(k@, o.deep_view()),
{
    let oj: Option<Json> = match o {
        Option::Some(its) => Option::Some(seq_to_json::<T>(its)),
        Option::None => Option::None,
    };
    proof {
        assert(oj.deep_view() == (match o.deep_view() {
            Some(its) => Some(JsonV::Arr(to_jv_seq::<T>(its))),
            None => Option::<JsonV>::None,
        }));
    }
    push_opt_json_field(out, k, oj);
}

/// Appends the member `k` holding a string map when a value is present.
pub fn push_opt_strmap_field(out: &mut Vec<(String, Json)>, k: &str, o: &Option<
    Vec<(String, String)>,
>)
    ensures
        obj_v(final(out)@) == obj_v(old(out)@) + opt_strmap_field(k@, o.deep_view()),
{
    let oj: Option<Json> = match o {
        Option::Some(m) => Option::Some(strmap_to_json(m)),
        Option::None => Option::None,
    };
    proof {
        assert(oj.deep_view() == (match o.deep_view() {
            Some(m) => Some(JsonV::Obj(strmap_jv(m))),
            None => Option::<JsonV>::None,
        }));
    }
    push_opt_json_field(out, k, oj);
}

/// The required member `k` decoded as another payload.
pub fn get_req_payload<T: Payload>(fields: &Vec<(String, Json)>, k: &str) -> (r: Option<T>)
    ensures
        (match r {
            Some(t) => jv_req_payload::<T>(obj_v(fields@), k@) == Some(t.deep_view()),
            None => jv_req_payload::<T>(obj_v(fields@), k@) is None,
        }),
{
    match get_json(fields, k) {
        Option::Some(x) => T::from_json(x),
        Option::None => None,
    }
}

/// The optional member `k` decoded as another payload.
pub fn get_opt_payload<T: Payload>(fields: &Vec<(String, Json)>, k: &str) -> (r: Option<
    Option<T>,
>)
    ensures
        (match r {
            Some(o) => jv_opt_payload::<T>(obj_v(fields@), k@) == Some(o.deep_view()),
            None => jv_opt_payload::<T>(obj_v(fields@), k@) is None,
        }),
{
    match get_opt_json(fields, k) {
        Option::Some(x) => {
            match T::from_json(x) {
                Option::Some(t) => Some(Some(t)),
                Option::None => None,
            }
        },
        Option::None => Some(None),
    }
}

/// The optional member `k` decoded as an array of payloads.
pub fn get_opt_arr<T: Payload>(fields: &Vec<(String, Json)>, k: &str) -> (r: Option<
    Option<Vec<T>>,
>)
    ensures
        (match r {
            Some(o) => jv_opt_arr::<T>(obj_v(fields@), k@) == Some(o.deep_view()),
            None => jv_opt_arr::<T>(obj_v(fields@), k@) is None,
        }),
{
    match get_opt_json(fields, k) {
        Option::Some(x) => {
            match json_to_seq::<T>(x) {
                Option::Some(its) => Some(Some(its)),
                Option::None => None,
            }
        },
        Option::None => Some(None),
    }
}

/// The optional member `k` decoded as a string map.
pub fn get_opt_strmap(fields: &Vec<(String, Json)>, k: &str) -> (r: Option<
    Option<Vec<(String, String)>>,
>)
    ensures
        (match r {
            Some(o) => jv_opt_strmap(obj_v(fields@), k@) == Some(o.deep_view()),
            None => jv_opt_strmap(obj_v(fields@), k@) is None,
        }),
{
    match get_opt_json(fields, k) {
        Option::Some(x) => {
            match json_to_strmap(x) {
                Option::Some(m) => Some(Some(m)),
                Option::None => None,
            }
        },
        Option::None => Some(None),
    }
}

/// The document of a map with payload values, one member per entry, in
/// entry order.
pub open spec fn map_jv<T: Payload>(m: Seq<(Seq<char>, <T as DeepView>::V)>) -> Seq<
    (Seq<char>, JsonV),
> {
    Seq::new(
        m.len(),
        |i: int|
            if 0 <= i < m.len() {
                (m[i].0, T::to_jv(m[i].1))
            } else {
                (Seq::empty(), JsonV::Null)
            },
    )
}

/// The entries of a document whose members must all decode as `T`.
pub open spec fn map_of_jv<T: Payload>(fs: Seq<(Seq<char>, JsonV)>) -> Option<
    Seq<(Seq<char>, <T as DeepView>::V)>,
>
    decreases fs.len(),
{
    if fs.len() == 0 {
        Some(Seq::empty())
    } else {
        match map_of_jv::<T>(fs.drop_last()) {
            None => None,
            Some(pre) => match T::of_jv(fs.last().1) {
                None => None,
                Some(v) => Some(pre.push((fs.last().0, v))),
            },
        }
    }
}

/// Decoding a payload map inverts encoding it.
pub proof fn lemma_map_round_trip<T: Payload>(m: Seq<(Seq<char>, <T as DeepView>::V)>)
    ensures
        map_of_jv::<T>(map_jv::<T>(m)) == Some(m),
    decreases m.len(),
{
    let fs = map_jv::<T>(m);
    if m.len() == 0 {
        assert(fs.len() == 0);
    } else {
        lemma_map_round_trip::<T>(m.drop_last());
        assert(map_jv::<T>(m.drop_last()) =~= fs.drop_last());
        T::lemma_round_trip(m.last().1);
        assert(fs.last() == (m.last().0, T::to_jv(m.last().1)));
        assert(m.drop_last().push(m.last()) =~= m);
    }
}

proof fn lemma_map_of_jv_fail<T: Payload>(fs: Seq<(Seq<char>, JsonV)>, k: int)
    requires
        0 <= k < fs.len(),
        T::of_jv(fs[k].1) is None,
    ensures
        map_of_jv::<T>(fs) is None,
    decreases fs.len(),
{
    if k < fs.len() - 1 {
        lemma_map_of_jv_fail::<T>(fs.drop_last(), k);
    }
}

/// One member holding a map with payload values, present only when the
/// value is.
pub open spec fn opt_map_field<T: Payload>(
    k: Seq<char>,
    o: Option<Seq<(Seq<char>, <T as DeepView>::V)>>,
) -> Seq<(Seq<char>, JsonV)> {
    opt_field(
        k,
        match o {
            Some(m) => Some(JsonV::Obj(map_jv::<T>(m))),
            None => None,
        },
    )
}

/// An optional member holding a map with payload values.
pub open spec fn jv_opt_map<T: Payload>(m: Seq<(Seq<char>, JsonV)>, k: Seq<char>) -> Option<
    Option<Seq<(Seq<char>, <T as DeepView>::V)>>,
> {
    match jv_lookup(m, k) {
        None => Some(None),
        Some(JsonV::Null) => Some(None),
        Some(JsonV::Obj(fs)) => match map_of_jv::<T>(fs) {
            Some(m2) => Some(Some(m2)),
            None => None,
        },
        Some(_) => None,
    }
}

/// A required member holding a map with string values.
pub open spec fn jv_req_strmap(m: Seq<(Seq<char>, JsonV)>, k: Seq<char>) -> Option<
    Seq<(Seq<char>, Seq<char>)>,
> {
    match jv_lookup(m, k) {
        Some(JsonV::Obj(fs)) => strmap_of_jv(fs),
        _ => None,
    }
}

/// Encodes the entries as an object document with payload values, in entry
/// order.
pub fn map_to_json<T: Payload>(entries: &Vec<(String, T)>) -> (r: Json)
    ensures
        r@ == JsonV::Obj(map_jv::<T>(entries.deep_view())),
{
    let ghost target = map_jv::<T>(entries.deep_view());
    let mut out: Vec<(String, Json)> = Vec::new();
    let mut k: usize = 0;
    proof {
        assert(obj_v(out@) =~= target.take(0));
    }
    while k < entries.len()
        invariant
            k <= entries@.len(),
            target == map_jv::<T>(entries.deep_view()),
            target.len() == entries@.len(),
            obj_v(out@) == target.take(k as int),
        decreases entries@.len() - k,
    {
        let key = entries[k].0.clone();
        let val = entries[k].1.to_json();
        proof {
            crate::json::lemma_obj_v_push(out@, key, val);
            assert(entries@[k as int].1.deep_view() == entries.deep_view()[k as int].1);
            assert(target[k as int] == (entries@[k as int].0@, T::to_jv(
                entries.deep_view()[k as int].1,
            )));
            assert(target.take(k as int).push(target[k as int]) =~= target.take(k as int + 1));
        }
        out.push((key, val));
        k = k + 1;
    }
    proof {
        assert(target.take(target.len() as int) =~= target);
        crate::json::lemma_json_v_obj(out);
    }
    Json::Obj(out)
}

/// Decodes an object document as payload-valued entries, exactly when every
/// member decodes as a `T`.
pub fn json_to_map<T: Payload>(j: &Json) -> (r: Option<Vec<(String, T)>>)
    ensures
        (match r {
            Some(v) => (j@ matches JsonV::Obj(fs) && map_of_jv::<T>(fs) == Some(v.deep_view())),
            None => (match j@ {
                JsonV::Obj(fs) => map_of_jv::<T>(fs) is None,
                _ => true,
            }),
        }),
{
    match j {
        Json::Obj(fields) => {
            proof {
                assert(*j == Json::Obj(*fields));
                crate::json::lemma_json_v_obj(*fields);
            }
            let ghost fs = obj_v(fields@);
            let mut out: Vec<(String, T)> = Vec::new();
            let mut k: usize = 0;
            proof {
                assert(fs.take(0) =~= Seq::<(Seq<char>, JsonV)>::empty());
                assert(out.deep_view() =~= Seq::<(Seq<char>, <T as DeepView>::V)>::empty());
            }
            while k < fields.len()
                invariant
                    k <= fields@.len(),
                    fs == obj_v(fields@),
                    fs.len() == fields@.len(),
                    j@ == JsonV::Obj(fs),
                    map_of_jv::<T>(fs.take(k as int)) == Some(out.deep_view()),
                decreases fields@.len() - k,
            {
                proof {
                    assert(fs[k as int] == (fields@[k as int].0@, crate::json::json_v(
                        fields@[k as int].1,
                    )));
                }
                match T::from_json(&fields[k].1) {
                    Option::Some(t) => {
                        let ghost pre = out.deep_view();
                        out.push((fields[k].0.clone(), t));
                        proof {
                            assert(out.deep_view() =~= pre.push(
                                (fields@[k as int].0@, t.deep_view()),
                            ));
                            assert(fs.take(k as int + 1).drop_last() =~= fs.take(k as int));
                            assert(fs.take(k as int + 1).last() == fs[k as int]);
                        }
                        k = k + 1;
                    },
                    Option::None => {
                        proof {
                            lemma_map_of_jv_fail::<T>(fs, k as int);
                        }
                        return None;
                    },
                }
            }
            proof {
                assert(fs.take(fs.len() as int) =~= fs);
            }
            Some(out)
        },
        _ => None,
    }
}

/// Appends the member `k` holding a payload map when a value is present.
pub fn push_opt_map_field<T: Payload>(out: &mut Vec<(String, Json)>, k: &str, o: &Option<
    Vec<(String, T)>,
>)
    ensures
        obj_v(final(out)@) == obj_v(old(out)@) + opt_map_field::<T>(k@, o.deep_view()),
{
    let oj: Option<Json> = match o {
        Option::Some(m) => Option::Some(map_to_json::<T>(m)),
        Option::None => Option::None,
    };
    proof {
        assert(oj.deep_view() == (match o.deep_view() {
            Some(m) => Some(JsonV::Obj(map_jv::<T>(m))),
            None => Option::<JsonV>::None,
        }));
    }
    push_opt_json_field(out, k, oj);
}

/// The optional member `k` decoded as a payload map.
pub fn get_opt_map<T: Payload>(fields: &Vec<(String, Json)>, k: &str) -> (r: Option<
    Option<Vec<(String, T)>>,
>)
    ensures
        (match r {
            Some(o) => jv_opt_map::<T>(obj_v(fields@), k@) == Some(o.deep_view()),
            None => jv_opt_map::<T>(obj_v(fields@), k@) is None,
        }),
{
    match get_opt_json(fields, k) {
        Option::Some(x) => {
            match json_to_map::<T>(x) {
                Option::Some(m) => Some(Some(m)),
                Option::None => None,
            }
        },
        Option::None => Some(None),
    }
}

/// The required member `k` decoded as a string map.
pub fn get_req_strmap(fields: &Vec<(String, Json)>, k: &str) -> (r: Option<
    Vec<(String, String)>,
>)
    ensures
        (match r {
            Some(m) => jv_req_strmap(obj_v(fields@), k@) == Some(m.deep_view()),
            None => jv_req_strmap(obj_v(fields@), k@) is None,
        }),
{
    match get_json(fields, k) {
        Option::Some(x) => {
            match json_to_strmap(x) {
                Option::Some(m) => Some(m),
                Option::None => None,
            }
        },
        Option::None => None,
    }
}

/// A required member holding an array of payloads.
pub open spec fn jv_req_arr<T: Payload>(m: Seq<(Seq<char>, JsonV)>, k: Seq<char>) -> Option<
    Seq<<T as DeepView>::V>,
> {
    match jv_lookup(m, k) {
        Some(JsonV::Arr(js)) => of_jv_seq::<T>(js),
        _ => None,
    }
}

/// The required member `k` decoded as an array of payloads.
pub fn get_req_arr<T: Payload>(fields: &Vec<(String, Json)>, k: &str) -> (r: Option<Vec<T>>)
    ensures
        (match r {
            Some(v) => jv_req_arr::<T>(obj_v(fields@), k@) == Some(v.deep_view()),
            None => jv_req_arr::<T>(obj_v(fields@), k@) is None,
        }),
{
    match get_json(fields, k) {
        Option::Some(x) => {
            match json_to_seq::<T>(x) {
                Option::Some(v) => Some(v),
                Option::None => None,
            }
        },
        Option::None => None,
    }
}

} // verus!
