//! Turning the remote blacklist response into the cycle's blacklist. The
//! response body is a JSON object with three string arrays, one per
//! severity tier; the tiers are flattened and deduplicated into one mapping
//! with every count at zero.

use crate::blacklist::{all_counts, has_key, has_str, Blacklist};
use vstd::prelude::*;

verus! {

/// The strings of the array member named `key` of the JSON document written
/// in `s`: a function of the text alone. `None` where `s` is not a JSON
/// document, has no such member, the member is not an array, or some
/// element is not a string.
pub uninterp spec fn json_string_array(s: Seq<char>, key: Seq<char>) -> Option<Seq<Seq<char>>>;

/// Relies on serde_json::from_str and serde_json::Value::{get, as_array,
/// as_str}: the strings of the named array member of the JSON document the
/// body holds, or nothing where the body, the member, or an element has the
/// wrong shape.
#[verifier::external_body]
fn body_string_array(body: &str, key: &str) -> (r: Option<Vec<String>>)
    ensures
        r.deep_view() == json_string_array(body@, key@),
{
    let doc: serde_json::Value = serde_json::from_str(body).ok()?;
    let arr = doc.get(key)?.as_array()?;
    arr.iter().map(|v| v.as_str().map(|s| s.to_string())).collect()
}

/// Builds the blacklist from the response body of the remote keyword list:
/// succeeds exactly when the body holds the three tier arrays, and then the
/// keywords are their strings, flattened and deduplicated, every count
/// zero.
pub fn parse_blacklist_body(body: &str) -> (r: Option<Blacklist>)
    ensures
        (r is Some) == (json_string_array(body@, "keywords_high"@) is Some && json_string_array(
            body@,
            "keywords_mid"@,
        ) is Some && json_string_array(body@, "keywords_low"@) is Some),
        r matches Some(bl) ==> bl.wf() && all_counts(bl@, 0) && (forall|k: Seq<char>|
            #[trigger] has_key(bl@, k) <==> ((json_string_array(body@, "keywords_high"@) matches
            Some(a) && a.contains(k)) || (json_string_array(body@, "keywords_mid"@) matches Some(
                a,
            ) && a.contains(k)) || (json_string_array(body@, "keywords_low"@) matches Some(a)
                && a.contains(k)))),
{
    let high = match body_string_array(body, "keywords_high") {
        Some(v) => v,
        None => {
            return None;
        },
    };
    let mid = match body_string_array(body, "keywords_mid") {
        Some(v) => v,
        None => {
            return None;
        },
    };
    let low = match body_string_array(body, "keywords_low") {
        Some(v) => v,
        None => {
            return None;
        },
    };
    proof {
        lemma_has_str_is_contains(high@);
        lemma_has_str_is_contains(mid@);
        lemma_has_str_is_contains(low@);
        assert(high.deep_view() =~= Seq::new(high@.len(), |i: int| high@[i]@));
        assert(mid.deep_view() =~= Seq::new(mid@.len(), |i: int| mid@[i]@));
        assert(low.deep_view() =~= Seq::new(low@.len(), |i: int| low@[i]@));
    }
    Some(Blacklist::from_keywords(high, mid, low))
}

/// A key occurs among a vector of strings exactly when the vector's view
/// holds it.
proof fn lemma_has_str_is_contains(v: Seq<String>)
    ensures
        forall|k: Seq<char>|
            #[trigger] has_str(v, k) == Seq::new(v.len(), |i: int| v[i]@).contains(k),
{
    let dv = Seq::new(v.len(), |i: int| v[i]@);
    assert forall|k: Seq<char>| #[trigger] has_str(v, k) == dv.contains(k) by {
        if has_str(v, k) {
            let w = choose|i: int| #![auto] 0 <= i < v.len() && v[i]@ == k;
            assert(dv[w] == k);
            assert(dv.contains(k));
        }
        if dv.contains(k) {
            let w = choose|i: int| #![auto] 0 <= i < dv.len() && dv[i] == k;
            assert(v[w]@ == k);
            assert(has_str(v, k));
        }
    }
}

} // verus!
