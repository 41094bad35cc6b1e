//! A generic, re-inspectable JSON value tree.
//!
//! The API does not tag whether a document is a success or an error payload,
//! so a response has to be parsed once into a tree that both shapes can then
//! be tried against. This module holds that tree, the key lookup used by the
//! decoders, and the trusted bridge to the JSON parser.

use vstd::prelude::*;

verus! {

/// A JSON document as a plain value tree.
///
/// Numbers keep their integer value when they have one; a number that fits
/// neither `u64` nor `i64` is carried as [`Json::InexactNum`], which the
/// decoders uniformly reject where an integer is required. Object entries
/// stand in the order the parser yields them — its default map iterates
/// sorted by key, with a duplicated key collapsed to its last value — and
/// a key is looked up by first match.
#[derive(Debug, PartialEq)]
pub enum Json {
    Null,
    Bool(bool),
    /// A non-negative integer.
    UInt(u64),
    /// A negative integer.
    Int(i64),
    /// A number with no exact 64-bit integer value.
    InexactNum,
    Str(String),
    Arr(Vec<Json>),
    Obj(Vec<(String, Json)>),
}

/// The value under the first entry of `entries` whose key equals `key`,
/// or `None` when no entry matches.
pub open spec fn obj_lookup(entries: Seq<(String, Json)>, key: Seq<char>) -> Option<Json>
    decreases entries.len(),
{
    if entries.len() == 0 {
        None
    } else if entries[0].0@ == key {
        Some(entries[0].1)
    } else {
        obj_lookup(entries.skip(1), key)
    }
}

/// Scans the entries of a JSON object for `key`, first match wins.
pub fn obj_get<'a>(entries: &'a Vec<(String, Json)>, key: &String) -> (r: Option<&'a Json>)
    ensures
        match r {
            Some(v) => obj_lookup(entries@, key@) == Some(*v),
            None => obj_lookup(entries@, key@) is None,
        },
{
    let n: usize = entries.len();
    let mut i: usize = 0;
    proof {
        assert(entries@.skip(0) =~= entries@);
    }
    while i < n
        invariant
            n == entries@.len(),
            0 <= i <= n,
            obj_lookup(entries@, key@) == obj_lookup(entries@.skip(i as int), key@),
        decreases n - i,
    {
        if entries[i].0.eq(key) {
            proof {
                let s = entries@.skip(i as int);
                assert(s[0] == entries@[i as int]);
                assert(obj_lookup(s, key@) == Some(s[0].1));
            }
            return Some(&entries[i].1);
        }
        proof {
            let s = entries@.skip(i as int);
            assert(s[0] == entries@[i as int]);
            assert(obj_lookup(s, key@) == obj_lookup(s.skip(1), key@));
            assert(s.skip(1) =~= entries@.skip(i as int + 1));
        }
        i = i + 1;
    }
    proof {
        assert(entries@.skip(i as int) =~= Seq::<(String, Json)>::empty());
    }
    None
}

/// The views of a sequence of values, element by element.
pub open spec fn views_of<T: View>(s: Seq<T>) -> Seq<T::V> {
    s.map_values(|t: T| t@)
}

/// A type that can be decoded from a JSON value.
///
/// This is the decoding strategy that the envelope decoder and the
/// keyed-content extractor are parameterized by: `from_json_spec` is the
/// mathematical decode, stated over the type's view, and `from_json` is its
/// executable form.
pub trait FromJson: View + Sized {
    /// What this type decodes to from a given JSON value, or `None` when the
    /// value does not have the required shape.
    spec fn from_json_spec(v: Json) -> Option<Self::V>;

    /// Decodes a JSON value, exactly as `from_json_spec` says.
    fn from_json(v: &Json) -> (r: Option<Self>)
        ensures
            r matches Some(t) ==> Self::from_json_spec(*v) == Some(t@),
            r is None ==> Self::from_json_spec(*v) is None;
}

/// The decode of a whole content array: every element must decode, in order.
pub open spec fn decode_items_spec<T: FromJson>(a: Seq<Json>) -> Option<Seq<T::V>>
    decreases a.len(),
{
    if a.len() == 0 {
        Some(Seq::empty())
    } else {
        match T::from_json_spec(a[0]) {
            None => None,
            Some(t) => match decode_items_spec::<T>(a.skip(1)) {
                None => None,
                Some(rest) => Some(seq![t] + rest),
            },
        }
    }
}

/// When every element of `a` decodes, the array decodes to exactly those
/// elements, one for one and in order.
pub proof fn lemma_decode_items_all<T: FromJson>(a: Seq<Json>)
    requires
        forall|j: int| 0 <= j < a.len() ==> T::from_json_spec(#[trigger] a[j]) is Some,
    ensures
        decode_items_spec::<T>(a) is Some,
        decode_items_spec::<T>(a)->Some_0.len() == a.len(),
        forall|j: int| 0 <= j < a.len() ==> decode_items_spec::<T>(a)->Some_0[j]
            == T::from_json_spec(#[trigger] a[j])->Some_0,
    decreases a.len(),
{
    if a.len() > 0 {
        assert(forall|j: int| 0 <= j < a.skip(1).len() ==> #[trigger] a.skip(1)[j] == a[j + 1]);
        lemma_decode_items_all::<T>(a.skip(1));
        let t = T::from_json_spec(a[0])->Some_0;
        let rest = decode_items_spec::<T>(a.skip(1))->Some_0;
        assert(decode_items_spec::<T>(a)->Some_0 =~= seq![t] + rest);
        assert forall|j: int| 0 <= j < a.len() implies decode_items_spec::<T>(a)->Some_0[j]
            == T::from_json_spec(#[trigger] a[j])->Some_0 by {
            if j > 0 {
                assert(a.skip(1)[j - 1] == a[j]);
                assert((seq![t] + rest)[j] == rest[j - 1]);
            }
        }
    }
}

/// When some element of `a` fails to decode, the whole array fails.
pub proof fn lemma_decode_items_none<T: FromJson>(a: Seq<Json>, k: int)
    requires
        0 <= k < a.len(),
        T::from_json_spec(a[k]) is None,
    ensures
        decode_items_spec::<T>(a) is None,
    decreases a.len(),
{
    if k > 0 {
        assert(a.skip(1)[k - 1] == a[k]);
        lemma_decode_items_none::<T>(a.skip(1), k - 1);
    }
}

/// Decodes every element of a JSON array, failing if any element fails.
pub fn items_from_json<T: FromJson>(a: &Vec<Json>) -> (r: Option<Vec<T>>)
    ensures
        match r {
            Some(v) => decode_items_spec::<T>(a@) matches Some(s) && s =~= views_of(v@),
            None => decode_items_spec::<T>(a@) is None,
        },
{
    let n: usize = a.len();
    let mut out: Vec<T> = Vec::new();
    let mut i: usize = 0;
    while i < n
        invariant
            n == a@.len(),
            0 <= i <= n,
            out@.len() == i,
            forall|j: int| 0 <= j < i ==> T::from_json_spec(#[trigger] a@[j]) is Some
                && out@[j]@ == T::from_json_spec(a@[j])->Some_0,
        decreases n - i,
    {
        match T::from_json(&a[i]) {
            Some(t) => {
                out.push(t);
            },
            None => {
                proof {
                    lemma_decode_items_none::<T>(a@, i as int);
                }
                return None;
            },
        }
        i = i + 1;
    }
    proof {
        lemma_decode_items_all::<T>(a@);
        assert forall|j: int| 0 <= j < out@.len() implies decode_items_spec::<T>(a@)->Some_0[j]
            == views_of(out@)[j] by {
            assert(T::from_json_spec(a@[j]) is Some);
            assert(views_of(out@)[j] == out@[j]@);
        }
        assert(decode_items_spec::<T>(a@)->Some_0 =~= views_of(out@));
    }
    Some(out)
}

#[verifier::external_type_specification]
#[verifier::external_body]
pub struct ExValue(serde_json::Value);

/// The result of parsing a byte sequence as JSON: the parse is a function of
/// the bytes alone, so it is given a name rather than a definition. `Err`
/// carries the parser's diagnostic message.
pub uninterp spec fn json_of(b: Seq<u8>) -> Result<Json, Seq<char>>;

/// Relies on serde_json::from_slice: parsing is deterministic in the input
/// bytes; the body converts the parsed tree into [`Json`], variant by
/// variant, through [`convert_value`].
#[verifier::external_body]
pub(crate) fn parse_json(b: &[u8]) -> (r: Result<Json, String>)
    ensures
        r is Ok <==> json_of(b@) is Ok,
        r is Ok ==> json_of(b@)->Ok_0 == r->Ok_0,
        r is Err ==> json_of(b@)->Err_0 == r->Err_0@,
{
    match serde_json::from_slice::<serde_json::Value>(b) {
        Ok(v) => Ok(convert_value(v)),
        Err(e) => Err(format!("{e}")),
    }
}

/// Relies on serde_json::Value and serde_json::Number: tells the parsed
/// tree's variants apart and moves each across into [`Json`], recursing into
/// arrays and objects; integer classification comes from Number::as_u64 and
/// Number::as_i64. Called only from [`parse_json`].
#[verifier::external_body]
fn convert_value(v: serde_json::Value) -> Json {
    match v {
        serde_json::Value::Null => Json::Null,
        serde_json::Value::Bool(b) => Json::Bool(b),
        serde_json::Value::Number(n) => match (n.as_u64(), n.as_i64()) {
            (Some(u), _) => Json::UInt(u),
            (None, Some(i)) => Json::Int(i),
            (None, None) => Json::InexactNum,
        },
        serde_json::Value::String(s) => Json::Str(s),
        serde_json::Value::Array(a) => Json::Arr(a.into_iter().map(convert_value).collect()),
        serde_json::Value::Object(m) => Json::Obj(
            m.into_iter().map(|(k, w)| (k, convert_value(w))).collect(),
        ),
    }
}

} // verus!
