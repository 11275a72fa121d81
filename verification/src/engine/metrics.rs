//! The metrics that a workload attaches to its result.
//!
//! A result carries them as a `serde_json::Value`, which the engine never
//! looks into: it makes the empty map for a synthesized failure and hands the
//! entries out, as text, to whoever renders a report.

use vstd::prelude::*;

verus! {

/// `serde_json::Value`, carried through as it is.
#[verifier::external_type_specification]
#[verifier::external_body]
pub struct ExJsonValue(serde_json::Value);

/// The entries of a metrics value: for a JSON object its keys, in the order
/// in which the object walks them, each with its value written as JSON text;
/// for any other value, none.
pub uninterp spec fn metric_entries(metrics: serde_json::Value) -> Seq<(Seq<char>, Seq<char>)>;

/// A clone of a metrics value holds the same entries.
pub assume_specification[ <serde_json::Value as Clone>::clone ](metrics: &serde_json::Value) -> (copy: serde_json::Value)
    ensures
        metric_entries(copy) == metric_entries(*metrics),
;

/// What a vector of owned pairs holds, as plain text.
pub open spec fn pairs_view(pairs: Seq<(String, String)>) -> Seq<(Seq<char>, Seq<char>)> {
    Seq::new(pairs.len(), |i: int| (pairs[i].0@, pairs[i].1@))
}

/// The metrics of a result that measured nothing: `serde_json::Map::new()`
/// wrapped as a JSON object, which has no entries.
#[verifier::external_body]
pub(crate) fn empty_metrics() -> (metrics: serde_json::Value)
    ensures
        metric_entries(metrics) == Seq::<(Seq<char>, Seq<char>)>::empty(),
{
    serde_json::Value::Object(serde_json::Map::new())
}

/// Hands out the entries of a metrics value: walks the object with
/// `serde_json::Map::iter` and writes each value with its `to_string`.
#[verifier::external_body]
pub(crate) fn metric_pairs(metrics: &serde_json::Value) -> (pairs: Vec<(String, String)>)
    ensures
        pairs_view(pairs@) == metric_entries(*metrics),
{
    match metrics {
        serde_json::Value::Object(map) => {
            map.iter().map(|(key, value)| (key.clone(), value.to_string())).collect()
        },
        _ => Vec::new(),
    }
}

} // verus!
