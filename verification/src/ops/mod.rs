//! The operations on the services of Google Cloud. Each has a function for the request that it
//! sends, whose name ends in `_request`, and one for its result, whose name begins with `op_` and
//! which takes what the service answered.

use vstd::prelude::*;
use vstd::string::*;

use crate::json::{items_view, Json, JsonView};
use crate::resource_name::{leaf, leaf_name};

pub mod bigquery;
pub mod compute;
pub mod documents;
pub mod functions;
pub mod iam;
pub mod logging;
pub mod monitoring;
pub mod run;
pub mod secrets;
pub mod storage;
pub mod topics;

verus! {

/// The name of an item, where it is a text.
pub open spec fn named(o: JsonView) -> Option<JsonView> {
    text_item(o.at("name"@))
}

pub(crate) fn named_json(o: &Json) -> (r: Option<Json>)
    ensures
        match r {
            Some(j) => named(o@) == Some(j@),
            None => named(o@) is None,
        },
{
    text_item_json(&o.at("name"))
}

/// What the name of an item ends in, where it is a text.
pub open spec fn named_leaf(o: JsonView) -> Option<JsonView> {
    leaf_item(o.at("name"@))
}

pub(crate) fn named_leaf_json(o: &Json) -> (r: Option<Json>)
    ensures
        match r {
            Some(j) => named_leaf(o@) == Some(j@),
            None => named_leaf(o@) is None,
        },
{
    leaf_item_json(&o.at("name"))
}

/// The item, where it is a text.
pub open spec fn text_item(o: JsonView) -> Option<JsonView> {
    match o.as_str() {
        Some(s) => Some(JsonView::Str(s)),
        None => None,
    }
}

pub(crate) fn text_item_json(o: &Json) -> (r: Option<Json>)
    ensures
        match r {
            Some(j) => text_item(o@) == Some(j@),
            None => text_item(o@) is None,
        },
{
    match o.as_str() {
        Some(s) => Some(Json::text(s)),
        None => None,
    }
}

/// What the item ends in, where it is a text.
pub open spec fn leaf_item(o: JsonView) -> Option<JsonView> {
    match o.as_str() {
        Some(s) => Some(JsonView::Str(leaf(s))),
        None => None,
    }
}

pub(crate) fn leaf_item_json(o: &Json) -> (r: Option<Json>)
    ensures
        match r {
            Some(j) => leaf_item(o@) == Some(j@),
            None => leaf_item(o@) is None,
        },
{
    match o.as_str() {
        Some(s) => Some(Json::text(leaf_name(s))),
        None => None,
    }
}

/// The texts that a sequence of strings holds.
pub open spec fn strings(v: Seq<String>) -> Seq<Seq<char>> {
    v.map_values(|s: String| s@)
}

/// An array with copies of the items.
pub(crate) fn copied(items: &Vec<Json>) -> (r: Json)
    ensures
        r@ == JsonView::Arr(items_view(items@)),
{
    let mut out: Vec<Json> = Vec::new();
    let mut i: usize = 0;
    while i < items.len()
        invariant
            i <= items.len(),
            out@.len() == i,
            forall|k: int| 0 <= k < i ==> (#[trigger] out@[k])@ == items@[k]@,
        decreases items.len() - i,
    {
        out.push(items[i].copy());
        i += 1;
    }
    assert(items_view(out@) =~= items_view(items@));
    Json::array(out)
}

/// A copy of the array member of that name, an empty array where it is none.
pub(crate) fn list_json(v: &Json, key: &str) -> (r: Json)
    ensures
        r@ == JsonView::Arr(v@.list(key@)),
{
    match v.array_at(key) {
        Some(a) => copied(a),
        None => {
            let none: Vec<Json> = Vec::new();
            assert(items_view(none@) =~= Seq::empty());
            Json::array(none)
        },
    }
}

/// The array with that one element.
pub(crate) fn single(item: Json) -> (r: Json)
    ensures
        r@ == JsonView::Arr(seq![item@]),
{
    let mut items: Vec<Json> = Vec::new();
    items.push(item);
    assert(items_view(items@) =~= seq![item@]);
    Json::array(items)
}

} // verus!
