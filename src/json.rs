//! Reading JSON response bodies through serde_json. What is read is named
//! after the body text it was read from, so contracts can speak of it.
use vstd::prelude::*;
use crate::http::opt_view;
use crate::text::{chars_of, lit, slice_of, text_of};

verus! {

/// The message serde_json gives when `text` is not one JSON document, or
/// `None` when it is.
pub uninterp spec fn json_parse_error(text: Seq<char>) -> Option<Seq<char>>;

/// The contents of the string member `key` of the JSON document `text`.
pub uninterp spec fn json_str_at(text: Seq<char>, key: Seq<char>) -> Option<Seq<char>>;

/// The member `key` of the JSON document `text`, when it is a `u64`.
pub uninterp spec fn json_u64_at(text: Seq<char>, key: Seq<char>) -> Option<u64>;

/// The value reached in the JSON document `text` by following the members
/// `path`, as text: a string's contents, else its compact JSON.
pub uninterp spec fn json_text_at(text: Seq<char>, path: Seq<Seq<char>>) -> Option<Seq<char>>;

/// A reading of `body` fails exactly when `body` is not JSON, with serde_json's message.
pub open spec fn read_ok<T>(body: Seq<char>, r: Result<T, String>) -> bool {
    &&& (r is Err <==> json_parse_error(body) is Some)
    &&& (r is Err ==> r->Err_0@ == json_parse_error(body)->0)
}

/// Relies on `serde_json::from_str::<serde_json::Value>`, whose outcome depends
/// on the text alone; a failure is reported through `serde_json::Error`'s `Display`.
#[verifier::external_body]
pub(crate) fn json_error(text: &str) -> (r: Option<String>)
    ensures
        opt_view(r) == json_parse_error(text@),
{
    match serde_json::from_str::<serde_json::Value>(text) {
        Ok(_) => None,
        Err(e) => Some(e.to_string()),
    }
}

/// Relies on `serde_json::from_str::<serde_json::Value>`, then `Value::get`
/// with `key` and `Value::as_str`.
#[verifier::external_body]
pub fn str_field(body: &str, key: &str) -> (r: Result<Option<String>, String>)
    ensures
        read_ok(body@, r),
        r is Ok ==> opt_view(r->Ok_0) == json_str_at(body@, key@),
{
    match serde_json::from_str::<serde_json::Value>(body) {
        Ok(v) => Ok(v.get(key).and_then(serde_json::Value::as_str).map(String::from)),
        Err(e) => Err(e.to_string()),
    }
}

/// Relies on `serde_json::from_str::<serde_json::Value>`, then `Value::get`
/// with `key` and `Value::as_u64`.
#[verifier::external_body]
pub fn u64_field(body: &str, key: &str) -> (r: Result<Option<u64>, String>)
    ensures
        read_ok(body@, r),
        r is Ok ==> r->Ok_0 == json_u64_at(body@, key@),
{
    match serde_json::from_str::<serde_json::Value>(body) {
        Ok(v) => Ok(v.get(key).and_then(serde_json::Value::as_u64)),
        Err(e) => Err(e.to_string()),
    }
}

/// Relies on `serde_json::from_str::<serde_json::Value>`, then `Value::get`
/// for each member of `path` in turn, then `Value`'s `Display` (a string
/// gives its contents instead).
#[verifier::external_body]
pub(crate) fn text_at_path(body: &str, path: &Vec<String>) -> (r: Result<Option<String>, String>)
    ensures
        read_ok(body@, r),
        r is Ok ==> opt_view(r->Ok_0) == json_text_at(body@, strings_view(path@)),
{
    match serde_json::from_str::<serde_json::Value>(body) {
        Ok(v) => Ok(path.iter().try_fold(&v, |cur, p| cur.get(p.as_str())).map(|x| match x {
            serde_json::Value::String(s) => s.clone(),
            other => other.to_string(),
        })),
        Err(e) => Err(e.to_string()),
    }
}

pub open spec fn strings_view(v: Seq<String>) -> Seq<Seq<char>> {
    v.map_values(|s: String| s@)
}

/// The pieces of `s` between its dots, scanning from `k` with the current
/// piece starting at `start`.
pub open spec fn dots_from(s: Seq<char>, start: int, k: int) -> Seq<Seq<char>>
    decreases s.len() - k,
{
    if k >= s.len() {
        seq![s.subrange(start, s.len() as int)]
    } else if s[k] == '.' {
        seq![s.subrange(start, k)] + dots_from(s, k + 1, k + 1)
    } else {
        dots_from(s, start, k + 1)
    }
}

/// `path` split at every `'.'`, as `str::split('.')` splits it.
pub open spec fn dot_parts(path: Seq<char>) -> Seq<Seq<char>> {
    dots_from(path, 0, 0)
}

/// The pieces of a dot-separated field path, in order.
pub fn split_dots(path: &str) -> (r: Vec<String>)
    ensures
        strings_view(r@) == dot_parts(path@),
{
    let v = chars_of(path);
    let mut out: Vec<String> = Vec::new();
    let mut start: usize = 0;
    let mut k: usize = 0;
    let n = v.len();
    while k < n
        invariant
            n == v@.len(),
            v@ == path@,
            start <= k <= n,
            dot_parts(path@) == strings_view(out@) + dots_from(v@, start as int, k as int),
        decreases n - k,
    {
        if v[k] == '.' {
            let piece = text_of(slice_of(&v, start, k).as_slice());
            let ghost before = strings_view(out@);
            out.push(piece);
            assert(strings_view(out@) =~= before + seq![piece@]);
            assert(before + (seq![piece@] + dots_from(v@, k + 1, k + 1)) =~= (before + seq![
                piece@,
            ]) + dots_from(v@, k + 1, k + 1));
            start = k + 1;
        }
        k = k + 1;
    }
    let piece = text_of(slice_of(&v, start, n).as_slice());
    let ghost before = strings_view(out@);
    out.push(piece);
    assert(strings_view(out@) =~= before + seq![piece@]);
    out
}

/// The top-level member `key` of `body`, as text.
pub fn member_text(body: &str, key: &str) -> (r: Result<Option<String>, String>)
    ensures
        read_ok(body@, r),
        r is Ok ==> opt_view(r->Ok_0) == json_text_at(body@, seq![key@]),
{
    let path = vec![lit(key)];
    assert(strings_view(path@) =~= seq![key@]);
    text_at_path(body, &path)
}

/// The value at a dot-separated path of `body`, as text.
pub fn path_text(body: &str, path: &str) -> (r: Result<Option<String>, String>)
    ensures
        read_ok(body@, r),
        r is Ok ==> opt_view(r->Ok_0) == json_text_at(body@, dot_parts(path@)),
{
    text_at_path(body, &split_dots(path))
}

/// Whether `body` has a value at a dot-separated path.
pub fn has_path(body: &str, path: &str) -> (r: Result<bool, String>)
    ensures
        read_ok(body@, r),
        r is Ok ==> r->Ok_0 == json_text_at(body@, dot_parts(path@)) is Some,
{
    match path_text(body, path) {
        Ok(t) => Ok(t.is_some()),
        Err(e) => Err(e),
    }
}

pub open spec fn keys_view(keys: Seq<&str>) -> Seq<Seq<char>> {
    keys.map_values(|k: &str| k@)
}

/// The first of `keys` that is a member of `text`.
pub open spec fn first_present(text: Seq<char>, keys: Seq<Seq<char>>) -> Option<Seq<char>>
    decreases keys.len(),
{
    if keys.len() == 0 {
        None
    } else if json_text_at(text, seq![keys[0]]) is Some {
        Some(keys[0])
    } else {
        first_present(text, keys.drop_first())
    }
}

/// Index of the first of `keys` that is a member of `body`, if any.
fn first_present_index(body: &str, keys: &Vec<&str>) -> (r: Result<Option<usize>, String>)
    ensures
        read_ok(body@, r),
        r is Ok ==> match first_present(body@, keys_view(keys@)) {
            Some(k) => r->Ok_0 is Some && r->Ok_0->0 < keys@.len() && keys@[r->Ok_0->0 as int]@ == k,
            None => r->Ok_0 is None,
        },
{
    let ghost kv = keys_view(keys@);
    match json_error(body) {
        Some(e) => {
            return Err(e);
        },
        None => {},
    }
    let mut k: usize = 0;
    assert(kv.subrange(0, kv.len() as int) =~= kv);
    while k < keys.len()
        invariant
            k <= keys@.len(),
            kv == keys_view(keys@),
            json_parse_error(body@) is None,
            first_present(body@, kv) == first_present(body@, kv.subrange(k as int, kv.len() as int)),
        decreases keys@.len() - k,
    {
        let ghost rest = kv.subrange(k as int, kv.len() as int);
        assert(rest[0] == keys@[k as int]@);
        assert(rest.drop_first() =~= kv.subrange(k + 1, kv.len() as int));
        match member_text(body, keys[k]) {
            Ok(Some(_)) => {
                return Ok(Some(k));
            },
            Ok(None) => {},
            Err(e) => {
                return Err(e);
            },
        }
        k = k + 1;
    }
    assert(kv.subrange(k as int, kv.len() as int) =~= Seq::<Seq<char>>::empty());
    Ok(None)
}

/// The first member of `keys` present in `body`, read as a string.
pub fn first_str_field(body: &str, keys: &Vec<&str>) -> (r: Result<Option<String>, String>)
    ensures
        read_ok(body@, r),
        r is Ok ==> opt_view(r->Ok_0) == match first_present(body@, keys_view(keys@)) {
            Some(k) => json_str_at(body@, k),
            None => None,
        },
{
    match first_present_index(body, keys) {
        Ok(Some(i)) => str_field(body, keys[i]),
        Ok(None) => Ok(None),
        Err(e) => Err(e),
    }
}

/// The first member of `keys` present in `body`, read as an unsigned integer.
pub fn first_u64_field(body: &str, keys: &Vec<&str>) -> (r: Result<Option<u64>, String>)
    ensures
        read_ok(body@, r),
        r is Ok ==> r->Ok_0 == match first_present(body@, keys_view(keys@)) {
            Some(k) => json_u64_at(body@, k),
            None => None,
        },
{
    match first_present_index(body, keys) {
        Ok(Some(i)) => u64_field(body, keys[i]),
        Ok(None) => Ok(None),
        Err(e) => Err(e),
    }
}

} // verus!
