use vstd::prelude::*;
use crate::text::same_text;

verus! {

/// The string-valued objects of a JSON array, each with its entries in key
/// order; None where the text is not an array of such objects.
pub uninterp spec fn json_string_objects(s: Seq<char>) -> Option<Seq<Seq<(Seq<char>, Seq<char>)>>>;

/// Relies on `serde_json::from_str` into a `Vec` of `BTreeMap<String, String>`:
/// it fails unless the text is a JSON array of objects whose values are all
/// strings, and depends on the text alone.
#[verifier::external_body]
pub(crate) fn parse_string_objects(s: &str) -> (r: Option<Vec<Vec<(String, String)>>>)
    ensures
        match r {
            Some(v) => json_string_objects(s@) == Some(v.deep_view()),
            None => json_string_objects(s@) is None,
        },
{
    serde_json::from_str::<Vec<std::collections::BTreeMap<String, String>>>(s).ok().map(
        |v| v.into_iter().map(|m| m.into_iter().collect()).collect(),
    )
}

/// The value of the first entry of `obj` under `key`.
pub open spec fn lookup(obj: Seq<(Seq<char>, Seq<char>)>, key: Seq<char>) -> Option<Seq<char>>
    decreases obj.len(),
{
    if obj.len() == 0 {
        None
    } else if obj[0].0 == key {
        Some(obj[0].1)
    } else {
        lookup(obj.drop_first(), key)
    }
}

pub open spec fn or_empty(v: Option<Seq<char>>) -> Seq<char> {
    match v {
        Some(s) => s,
        None => Seq::empty(),
    }
}

/// The value stored under `key` in `obj`, copied.
pub fn find_value(obj: &Vec<(String, String)>, key: &str) -> (r: Option<String>)
    ensures
        match r {
            Some(v) => lookup(obj.deep_view(), key@) == Some(v@),
            None => lookup(obj.deep_view(), key@) is None,
        },
{
    let ghost dv = obj.deep_view();
    let n = obj.len();
    let mut i: usize = 0;
    assert(dv.subrange(0, n as int) =~= dv);
    while i < n
        invariant
            n == obj@.len(),
            dv == obj.deep_view(),
            i <= n,
            lookup(dv, key@) == lookup(dv.subrange(i as int, n as int), key@),
        decreases n - i,
    {
        let ghost rest = dv.subrange(i as int, n as int);
        assert(rest[0] == (obj@[i as int].0@, obj@[i as int].1@));
        if same_text(obj[i].0.as_str(), key) {
            return Some(obj[i].1.clone());
        }
        assert(rest.drop_first() =~= dv.subrange(i + 1, n as int));
        i = i + 1;
    }
    None
}

} // verus!
