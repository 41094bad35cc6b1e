//! Domain value types and the field-level decoding rules they share.
//!
//! The API transmits numbers and booleans as strings, so the decoders here
//! are built on a small set of coercion primitives: whitespace trimming,
//! ASCII lowercasing, string-to-boolean and string-to-integer conversion.

use vstd::prelude::*;

pub mod image;
pub mod track;
pub mod user;

use crate::json::{obj_lookup, Json};

verus! {

/// Whether `c` is a whitespace character, as Unicode defines the property.
pub open spec fn is_space(c: char) -> bool {
    c == ' ' || c == '\t' || c == '\n' || c == '\r' || c == '\u{b}' || c == '\u{c}'
        || c == '\u{85}' || c == '\u{a0}' || c == '\u{1680}'
        || ('\u{2000}' <= c && c <= '\u{200a}')
        || c == '\u{2028}' || c == '\u{2029}' || c == '\u{202f}' || c == '\u{205f}'
        || c == '\u{3000}'
}

fn is_space_exec(c: char) -> (r: bool)
    ensures
        r == is_space(c),
{
    c == ' ' || c == '\t' || c == '\n' || c == '\r' || c == '\u{b}' || c == '\u{c}'
        || c == '\u{85}' || c == '\u{a0}' || c == '\u{1680}'
        || ('\u{2000}' <= c && c <= '\u{200a}')
        || c == '\u{2028}' || c == '\u{2029}' || c == '\u{202f}' || c == '\u{205f}'
        || c == '\u{3000}'
}

/// `s` with leading and trailing whitespace removed.
pub open spec fn trim_spec(s: Seq<char>) -> Seq<char>
    decreases s.len(),
{
    if s.len() == 0 {
        s
    } else if is_space(s[0]) {
        trim_spec(s.skip(1))
    } else if is_space(s.last()) {
        trim_spec(s.drop_last())
    } else {
        s
    }
}

proof fn lemma_trim_subrange(s: Seq<char>, a: int, b: int)
    requires
        0 <= a <= b <= s.len(),
        forall|k: int| 0 <= k < a ==> is_space(#[trigger] s[k]),
        forall|k: int| b <= k < s.len() ==> is_space(#[trigger] s[k]),
        a < b ==> !is_space(s[a]) && !is_space(s[b - 1]),
    ensures
        trim_spec(s) =~= s.subrange(a, b),
    decreases s.len(),
{
    if s.len() == 0 {
    } else if is_space(s[0]) {
        if a == 0 {
            // then a == b == 0 and every character of s is whitespace
            assert(forall|k: int| 0 <= k < s.skip(1).len() ==> #[trigger] s.skip(1)[k] == s[k + 1]);
            lemma_trim_subrange(s.skip(1), 0, 0);
        } else {
            assert(forall|k: int| 0 <= k < s.skip(1).len() ==> #[trigger] s.skip(1)[k] == s[k + 1]);
            lemma_trim_subrange(s.skip(1), a - 1, b - 1);
            assert(s.skip(1).subrange(a - 1, b - 1) =~= s.subrange(a, b));
        }
    } else if is_space(s.last()) {
        assert(b < s.len());
        assert(forall|k: int| 0 <= k < s.drop_last().len() ==> #[trigger] s.drop_last()[k] == s[k]);
        lemma_trim_subrange(s.drop_last(), a, b);
        assert(s.drop_last().subrange(a, b) =~= s.subrange(a, b));
    } else {
        assert(a == 0);
        assert(b == s.len());
        assert(s.subrange(0, s.len() as int) =~= s);
    }
}

/// Returns `s` without its leading and trailing whitespace.
pub fn trim_str<'a>(s: &'a str) -> (r: &'a str)
    ensures
        r@ == trim_spec(s@),
{
    let n: usize = s.unicode_len();
    let mut a: usize = 0;
    while a < n && is_space_exec(s.get_char(a))
        invariant
            n == s@.len(),
            0 <= a <= n,
            forall|k: int| 0 <= k < a ==> is_space(#[trigger] s@[k]),
        decreases n - a,
    {
        a = a + 1;
    }
    let mut b: usize = n;
    while b > a && is_space_exec(s.get_char(b - 1))
        invariant
            n == s@.len(),
            a <= b <= n,
            forall|k: int| b <= k < n ==> is_space(#[trigger] s@[k]),
        decreases b,
    {
        b = b - 1;
    }
    proof {
        lemma_trim_subrange(s@, a as int, b as int);
    }
    s.substring_char(a, b)
}

/// `c` with an ASCII capital letter mapped to its small form; any other
/// character is unchanged.
pub open spec fn lower_char(c: char) -> char {
    if 'A' <= c && c <= 'Z' {
        ((c as u32) + 32) as char
    } else {
        c
    }
}

/// `s` lowercased character by character, ASCII letters only.
pub open spec fn lower(s: Seq<char>) -> Seq<char> {
    s.map_values(|c: char| lower_char(c))
}

fn lower_char_exec(c: char) -> (r: char)
    ensures
        r == lower_char(c),
{
    if 'A' <= c && c <= 'Z' {
        (((c as u8) + 32)) as char
    } else {
        c
    }
}

/// Whether `s`, lowercased, equals `lit` (which callers pass already in
/// small letters).
fn str_eq_lower(s: &str, lit: &str) -> (r: bool)
    ensures
        r == (lower(s@) == lit@),
{
    let n: usize = s.unicode_len();
    if n != lit.unicode_len() {
        proof {
            assert(lower(s@).len() == s@.len());
        }
        return false;
    }
    let mut i: usize = 0;
    while i < n
        invariant
            n == s@.len(),
            n == lit@.len(),
            0 <= i <= n,
            forall|j: int| 0 <= j < i ==> lower(s@)[j] == lit@[j],
        decreases n - i,
    {
        if lower_char_exec(s.get_char(i)) != lit.get_char(i) {
            proof {
                assert(lower(s@)[i as int] == lower_char(s@[i as int]));
            }
            return false;
        }
        proof {
            assert(lower(s@)[i as int] == lower_char(s@[i as int]));
        }
        i = i + 1;
    }
    proof {
        assert(lower(s@) =~= lit@);
    }
    true
}

/// The boolean a wire string stands for: compared case-insensitively,
/// `"1"`, `"true"`, `"t"`, `"yes"` and `"y"` mean true and `"0"`,
/// `"false"`, `"f"`, `"no"` and `"n"` mean false. Any other string — a
/// whitespace-padded variant included — is not a boolean.
pub open spec fn bool_from_str_spec(s: Seq<char>) -> Option<bool> {
    let t = lower(s);
    if t == "1"@ || t == "true"@ || t == "t"@ || t == "yes"@ || t == "y"@ {
        Some(true)
    } else if t == "0"@ || t == "false"@ || t == "f"@ || t == "no"@ || t == "n"@ {
        Some(false)
    } else {
        None
    }
}

/// Decodes a wire boolean from a string, exactly as [`bool_from_str_spec`]
/// says.
pub fn bool_from_str(s: &str) -> (r: Option<bool>)
    ensures
        r == bool_from_str_spec(s@),
{
    if str_eq_lower(s, "1") || str_eq_lower(s, "true") || str_eq_lower(s, "t") || str_eq_lower(
        s,
        "yes",
    ) || str_eq_lower(s, "y") {
        Some(true)
    } else if str_eq_lower(s, "0") || str_eq_lower(s, "false") || str_eq_lower(s, "f")
        || str_eq_lower(s, "no") || str_eq_lower(s, "n") {
        Some(false)
    } else {
        None
    }
}

/// The boolean a JSON value stands for under the API's string encoding: the
/// value must be a string, and its text must name a boolean.
pub open spec fn bool_from_strnum_spec(v: Json) -> Option<bool> {
    match v {
        Json::Str(s) => bool_from_str_spec(s@),
        _ => None,
    }
}

/// Decodes a wire boolean from a JSON value, exactly as
/// [`bool_from_strnum_spec`] says.
pub fn bool_from_strnum(v: &Json) -> (r: Option<bool>)
    ensures
        r == bool_from_strnum_spec(*v),
{
    match v {
        Json::Str(s) => bool_from_str(s.as_str()),
        _ => None,
    }
}

/// Whether `c` is a decimal digit.
pub open spec fn is_digit(c: char) -> bool {
    '0' <= c && c <= '9'
}

/// The value of the decimal digit `c`.
pub open spec fn digit_val(c: char) -> nat {
    (c as int - '0' as int) as nat
}

/// Whether every character of `s` is a decimal digit.
pub open spec fn all_digits(s: Seq<char>) -> bool {
    forall|i: int| 0 <= i < s.len() ==> is_digit(#[trigger] s[i])
}

/// The number the digit string `s` writes in decimal.
pub open spec fn digits_val(s: Seq<char>) -> nat
    decreases s.len(),
{
    if s.len() == 0 {
        0
    } else {
        digits_val(s.drop_last()) * 10 + digit_val(s.last())
    }
}

proof fn lemma_digits_val_prefix(s: Seq<char>, k: int)
    requires
        0 <= k <= s.len(),
    ensures
        digits_val(s) >= digits_val(s.subrange(0, k)),
    decreases s.len(),
{
    if k < s.len() {
        assert(s.drop_last().subrange(0, k) =~= s.subrange(0, k));
        lemma_digits_val_prefix(s.drop_last(), k);
    } else {
        assert(s.subrange(0, k) =~= s);
    }
}

fn digit_of(c: char) -> (r: u64)
    requires
        is_digit(c),
    ensures
        r == digit_val(c),
{
    if c == '0' {
        0
    } else if c == '1' {
        1
    } else if c == '2' {
        2
    } else if c == '3' {
        3
    } else if c == '4' {
        4
    } else if c == '5' {
        5
    } else if c == '6' {
        6
    } else if c == '7' {
        7
    } else if c == '8' {
        8
    } else {
        9
    }
}

/// Reads the digit string starting at character `start` of `s` as a decimal
/// `u64`: all remaining characters must be digits, at least one, and the
/// value must fit.
fn parse_digits_u64(s: &str, start: usize) -> (r: Option<u64>)
    requires
        start <= s@.len(),
    ensures
        ({
            let d = s@.skip(start as int);
            &&& r is Some <==> (d.len() > 0 && all_digits(d) && digits_val(d) <= u64::MAX)
            &&& r is Some ==> r->Some_0 == digits_val(d)
        }),
{
    let ghost d = s@.skip(start as int);
    let n: usize = s.unicode_len();
    if start == n {
        return None;
    }
    let mut val: u64 = 0;
    let mut i: usize = start;
    while i < n
        invariant
            n == s@.len(),
            start <= i <= n,
            start < n,
            d == s@.skip(start as int),
            all_digits(d.subrange(0, i - start)),
            val == digits_val(d.subrange(0, i - start)),
        decreases n - i,
    {
        let c = s.get_char(i);
        proof {
            assert(d[i - start] == s@[i as int]);
        }
        if !('0' <= c && c <= '9') {
            proof {
                assert(!is_digit(d[i - start]));
            }
            return None;
        }
        let dg = digit_of(c);
        let stepped = match val.checked_mul(10) {
            Some(m) => m.checked_add(dg),
            None => None,
        };
        proof {
            assert(d.subrange(0, i - start + 1).drop_last() =~= d.subrange(0, i - start));
            assert(d.subrange(0, i - start + 1).last() == d[i - start]);
        }
        match stepped {
            Some(nv) => {
                val = nv;
            },
            None => {
                proof {
                    assert(digits_val(d.subrange(0, i - start + 1)) > u64::MAX);
                    lemma_digits_val_prefix(d, i - start + 1);
                }
                return None;
            },
        }
        i = i + 1;
    }
    proof {
        assert(d.subrange(0, n - start) =~= d);
    }
    Some(val)
}

/// The `u32` a wire string writes in decimal, with an optional leading `+`,
/// or nothing when the string is not such a number or it does not fit.
pub open spec fn str_to_u32_spec(s: Seq<char>) -> Option<u32> {
    let d = if s.len() > 0 && s[0] == '+' {
        s.skip(1)
    } else {
        s
    };
    if d.len() > 0 && all_digits(d) && digits_val(d) <= u32::MAX {
        Some(digits_val(d) as u32)
    } else {
        None
    }
}

/// Parses a decimal `u32`, exactly as [`str_to_u32_spec`] says.
pub fn str_to_u32(s: &str) -> (r: Option<u32>)
    ensures
        r == str_to_u32_spec(s@),
{
    let n: usize = s.unicode_len();
    let start: usize = if n > 0 && s.get_char(0) == '+' {
        1
    } else {
        0
    };
    proof {
        if start == 0 {
            assert(s@.skip(0) =~= s@);
        }
    }
    match parse_digits_u64(s, start) {
        Some(v) => {
            if v <= 0xffff_ffff {
                Some(v as u32)
            } else {
                None
            }
        },
        None => None,
    }
}

/// The `i64` a wire string writes in decimal, with an optional leading `+`
/// or `-`, or nothing when the string is not such a number or it does not
/// fit.
pub open spec fn str_to_i64_spec(s: Seq<char>) -> Option<i64> {
    let signed = s.len() > 0 && (s[0] == '+' || s[0] == '-');
    let neg = s.len() > 0 && s[0] == '-';
    let d = if signed {
        s.skip(1)
    } else {
        s
    };
    if d.len() > 0 && all_digits(d) {
        if neg {
            if digits_val(d) <= 0x8000_0000_0000_0000 {
                Some((-(digits_val(d) as int)) as i64)
            } else {
                None
            }
        } else {
            if digits_val(d) <= i64::MAX {
                Some(digits_val(d) as i64)
            } else {
                None
            }
        }
    } else {
        None
    }
}

/// Parses a decimal `i64`, exactly as [`str_to_i64_spec`] says.
pub fn str_to_i64(s: &str) -> (r: Option<i64>)
    ensures
        r == str_to_i64_spec(s@),
{
    let n: usize = s.unicode_len();
    let signed = n > 0 && (s.get_char(0) == '+' || s.get_char(0) == '-');
    let neg = n > 0 && s.get_char(0) == '-';
    let start: usize = if signed {
        1
    } else {
        0
    };
    proof {
        if start == 0 {
            assert(s@.skip(0) =~= s@);
        }
    }
    match parse_digits_u64(s, start) {
        Some(v) => {
            if neg {
                if v == 0x8000_0000_0000_0000 {
                    Some(i64::MIN)
                } else if v < 0x8000_0000_0000_0000 {
                    Some(-(v as i64))
                } else {
                    None
                }
            } else {
                if v <= 0x7fff_ffff_ffff_ffff {
                    Some(v as i64)
                } else {
                    None
                }
            }
        },
        None => None,
    }
}

/// Whether a string parses as a URL: a function of the characters alone,
/// named rather than defined.
pub uninterp spec fn url_ok(s: Seq<char>) -> bool;

/// Relies on url::Url::parse: whether a string is a well-formed absolute
/// URL depends on its characters alone.
#[verifier::external_body]
pub(crate) fn is_valid_url(s: &str) -> (r: bool)
    ensures
        r == url_ok(s@),
{
    url::Url::parse(s).is_ok()
}

/// The view of an optional owned string.
pub open spec fn opt_str_view(o: Option<String>) -> Option<Seq<char>> {
    match o {
        Some(s) => Some(s@),
        None => None,
    }
}

/// A required string field: present and holding a string.
pub open spec fn req_str_spec(entries: Seq<(String, Json)>, key: Seq<char>) -> Option<Seq<char>> {
    match obj_lookup(entries, key) {
        Some(Json::Str(s)) => Some(s@),
        _ => None,
    }
}

/// Reads a required string field, exactly as [`req_str_spec`] says.
pub fn req_str(entries: &Vec<(String, Json)>, key: &String) -> (r: Option<String>)
    ensures
        match r {
            Some(s) => req_str_spec(entries@, key@) == Some(s@),
            None => req_str_spec(entries@, key@) is None,
        },
{
    match crate::json::obj_get(entries, key) {
        Some(Json::Str(s)) => Some(s.clone()),
        _ => None,
    }
}

/// An optional string field: absent or null means no value; any other
/// non-string value is a decode failure (the outer `None`).
pub open spec fn opt_str_spec(entries: Seq<(String, Json)>, key: Seq<char>) -> Option<
    Option<Seq<char>>,
> {
    match obj_lookup(entries, key) {
        None => Some(None),
        Some(Json::Null) => Some(None),
        Some(Json::Str(s)) => Some(Some(s@)),
        Some(_) => None,
    }
}

/// Reads an optional string field, exactly as [`opt_str_spec`] says.
pub fn opt_str(entries: &Vec<(String, Json)>, key: &String) -> (r: Option<Option<String>>)
    ensures
        match r {
            Some(o) => opt_str_spec(entries@, key@) == Some(opt_str_view(o)),
            None => opt_str_spec(entries@, key@) is None,
        },
{
    match crate::json::obj_get(entries, key) {
        None => Some(None),
        Some(Json::Null) => Some(None),
        Some(Json::Str(s)) => Some(Some(s.clone())),
        Some(_) => None,
    }
}

/// An optional identifier field: like [`opt_str_spec`], but the text is
/// trimmed and an empty trimmed text counts as no value.
pub open spec fn opt_trimmed_spec(entries: Seq<(String, Json)>, key: Seq<char>) -> Option<
    Option<Seq<char>>,
> {
    match obj_lookup(entries, key) {
        None => Some(None),
        Some(Json::Null) => Some(None),
        Some(Json::Str(s)) => if trim_spec(s@).len() == 0 {
            Some(None)
        } else {
            Some(Some(trim_spec(s@)))
        },
        Some(_) => None,
    }
}

/// Reads an optional identifier field, exactly as [`opt_trimmed_spec`]
/// says.
pub fn opt_trimmed(entries: &Vec<(String, Json)>, key: &String) -> (r: Option<Option<String>>)
    ensures
        match r {
            Some(o) => opt_trimmed_spec(entries@, key@) == Some(opt_str_view(o)),
            None => opt_trimmed_spec(entries@, key@) is None,
        },
{
    match crate::json::obj_get(entries, key) {
        None => Some(None),
        Some(Json::Null) => Some(None),
        Some(Json::Str(s)) => {
            let t = trim_str(s.as_str());
            if t.unicode_len() == 0 {
                Some(None)
            } else {
                Some(Some(t.to_owned()))
            }
        },
        Some(_) => None,
    }
}

/// A required wire-boolean field: present, a string, and naming a boolean.
pub open spec fn req_bool_spec(entries: Seq<(String, Json)>, key: Seq<char>) -> Option<bool> {
    match obj_lookup(entries, key) {
        Some(v) => bool_from_strnum_spec(v),
        None => None,
    }
}

/// Reads a required wire-boolean field, exactly as [`req_bool_spec`] says.
pub fn req_bool(entries: &Vec<(String, Json)>, key: &String) -> (r: Option<bool>)
    ensures
        r == req_bool_spec(entries@, key@),
{
    match crate::json::obj_get(entries, key) {
        Some(v) => bool_from_strnum(v),
        None => None,
    }
}

/// A required wire-number field: present and holding a decimal string that
/// fits `u32`.
pub open spec fn req_u32_str_spec(entries: Seq<(String, Json)>, key: Seq<char>) -> Option<u32> {
    match obj_lookup(entries, key) {
        Some(Json::Str(s)) => str_to_u32_spec(s@),
        _ => None,
    }
}

/// Reads a required wire-number field, exactly as [`req_u32_str_spec`]
/// says.
pub fn req_u32_str(entries: &Vec<(String, Json)>, key: &String) -> (r: Option<u32>)
    ensures
        r == req_u32_str_spec(entries@, key@),
{
    match crate::json::obj_get(entries, key) {
        Some(Json::Str(s)) => str_to_u32(s.as_str()),
        _ => None,
    }
}

/// A required URL field: present, a string, and a well-formed URL.
pub open spec fn req_url_spec(entries: Seq<(String, Json)>, key: Seq<char>) -> Option<Seq<char>> {
    match obj_lookup(entries, key) {
        Some(Json::Str(s)) => if url_ok(s@) {
            Some(s@)
        } else {
            None
        },
        _ => None,
    }
}

/// Reads a required URL field, exactly as [`req_url_spec`] says.
pub fn req_url(entries: &Vec<(String, Json)>, key: &String) -> (r: Option<String>)
    ensures
        match r {
            Some(s) => req_url_spec(entries@, key@) == Some(s@),
            None => req_url_spec(entries@, key@) is None,
        },
{
    match crate::json::obj_get(entries, key) {
        Some(Json::Str(s)) => {
            if is_valid_url(s.as_str()) {
                Some(s.clone())
            } else {
                None
            }
        },
        _ => None,
    }
}

/// An optional URL field: absent or null means no value; a string must be
/// a well-formed URL; any other value is a decode failure.
pub open spec fn opt_url_spec(entries: Seq<(String, Json)>, key: Seq<char>) -> Option<
    Option<Seq<char>>,
> {
    match obj_lookup(entries, key) {
        None => Some(None),
        Some(Json::Null) => Some(None),
        Some(Json::Str(s)) => if url_ok(s@) {
            Some(Some(s@))
        } else {
            None
        },
        Some(_) => None,
    }
}

/// Reads an optional URL field, exactly as [`opt_url_spec`] says.
pub fn opt_url(entries: &Vec<(String, Json)>, key: &String) -> (r: Option<Option<String>>)
    ensures
        match r {
            Some(o) => opt_url_spec(entries@, key@) == Some(opt_str_view(o)),
            None => opt_url_spec(entries@, key@) is None,
        },
{
    match crate::json::obj_get(entries, key) {
        None => Some(None),
        Some(Json::Null) => Some(None),
        Some(Json::Str(s)) => {
            if is_valid_url(s.as_str()) {
                Some(Some(s.clone()))
            } else {
                None
            }
        },
        Some(_) => None,
    }
}

} // verus!
