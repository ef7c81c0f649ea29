//! Firestore values: how they are written and read.

use vstd::prelude::*;
use vstd::string::*;

use crate::decimal::{denoted_i64, signed_decimal};
use crate::firestore::{decoded, encoded, fields_decoded, fields_encoded, operator};
use crate::json::JsonView;
use super::has_members;

verus! {

proof fn lemma_tags()
    ensures
        "nullValue"@.len() == 9,
        "booleanValue"@.len() == 12,
        "integerValue"@.len() == 12,
        "doubleValue"@.len() == 11,
        "stringValue"@.len() == 11,
        "timestampValue"@.len() == 14,
        "referenceValue"@.len() == 14,
        "arrayValue"@.len() == 10,
        "mapValue"@.len() == 8,
        "booleanValue"@ != "integerValue"@,
        "doubleValue"@ != "stringValue"@,
        "timestampValue"@ != "referenceValue"@,
{
    reveal_strlit("nullValue");
    reveal_strlit("booleanValue");
    reveal_strlit("integerValue");
    reveal_strlit("doubleValue");
    reveal_strlit("stringValue");
    reveal_strlit("timestampValue");
    reveal_strlit("referenceValue");
    reveal_strlit("arrayValue");
    reveal_strlit("mapValue");
    assert("booleanValue"@[0] != "integerValue"@[0]);
    assert("doubleValue"@[0] != "stringValue"@[0]);
    assert("timestampValue"@[0] != "referenceValue"@[0]);
}

/// A value is written under the one tag of its kind. A number is written as a text, and the
/// elements and members of a collection are written each in its place.
pub proof fn values_are_tagged_by_kind(v: JsonView)
    ensures
        v is Null ==> has_members(encoded(v), set!["nullValue"@]) && encoded(v).at("nullValue"@)
            == JsonView::Null,
        v is Bool ==> has_members(encoded(v), set!["booleanValue"@]) && encoded(v).at(
            "booleanValue"@,
        ) == v,
        v matches JsonView::Int(i) ==> has_members(encoded(v), set!["integerValue"@]) && encoded(
            v,
        ).at("integerValue"@) == JsonView::Str(signed_decimal(i)),
        v is Float ==> has_members(encoded(v), set!["doubleValue"@]) && encoded(v).at(
            "doubleValue"@,
        ) == v,
        v is Str ==> has_members(encoded(v), set!["stringValue"@]) && encoded(v).at(
            "stringValue"@,
        ) == v,
        v matches JsonView::Arr(a) ==> ({
            let values = encoded(v).at("arrayValue"@).at("values"@);
            &&& has_members(encoded(v), set!["arrayValue"@])
            &&& has_members(encoded(v).at("arrayValue"@), set!["values"@])
            &&& values is Arr
            &&& values->Arr_0.len() == a.len()
            &&& forall|i: int|
                0 <= i < a.len() ==> #[trigger] values->Arr_0[i] == encoded(a[i])
        }),
        v matches JsonView::Obj(m) ==> ({
            let fields = encoded(v).at("mapValue"@).at("fields"@);
            &&& has_members(encoded(v), set!["mapValue"@])
            &&& has_members(encoded(v).at("mapValue"@), set!["fields"@])
            &&& has_members(fields, m.dom())
            &&& forall|k: Seq<char>|
                m.dom().contains(k) ==> #[trigger] fields->Obj_0[k] == encoded(m[k])
        }),
{
}

/// A value is read by its tag: a text, a number, a flag, a time and a reference are what the tag
/// holds, and an integer is read from its text where that denotes one.
pub proof fn values_are_read_by_tag(tag: Seq<char>, held: JsonView)
    ensures
        ({
            let read = decoded(JsonView::Obj(map![tag => held]));
            &&& tag == "stringValue"@ || tag == "doubleValue"@ || tag == "booleanValue"@ || tag
                == "timestampValue"@ || tag == "referenceValue"@ ==> read == held
            &&& tag == "nullValue"@ ==> read == JsonView::Null
            &&& tag == "integerValue"@ && held is Str && denoted_i64(held->Str_0) is Some ==> read
                == JsonView::Int(denoted_i64(held->Str_0)->0)
            &&& tag == "integerValue"@ && held is Str && denoted_i64(held->Str_0) is None ==> read
                == held
            &&& tag == "integerValue"@ && !(held is Str) ==> read == held
            &&& tag == "arrayValue"@ ==> read is Arr && read->Arr_0.len() == held.list(
                "values"@,
            ).len() && forall|i: int|
                0 <= i < held.list("values"@).len() ==> #[trigger] read->Arr_0[i] == decoded(
                    held.list("values"@)[i],
                )
            &&& tag == "mapValue"@ && held.at("fields"@) is Obj ==> has_members(
                read,
                held.at("fields"@)->Obj_0.dom(),
            ) && forall|k: Seq<char>|
                held.at("fields"@)->Obj_0.dom().contains(k) ==> #[trigger] read->Obj_0[k]
                    == decoded(held.at("fields"@)->Obj_0[k])
            &&& tag == "mapValue"@ && !(held.at("fields"@) is Obj) ==> read == JsonView::Obj(
                Map::empty(),
            )
            &&& tag != "stringValue"@ && tag != "doubleValue"@ && tag != "booleanValue"@ && tag
                != "timestampValue"@ && tag != "referenceValue"@ && tag != "integerValue"@ && tag
                != "arrayValue"@ && tag != "mapValue"@ ==> read == JsonView::Null
        }),
{
    lemma_tags();
}

/// What is no object has no tag, and is read as null.
pub proof fn values_without_a_tag_are_null(v: JsonView)
    requires
        !(v is Obj),
    ensures
        decoded(v) == JsonView::Null,
{
}

/// The tags of values, in the order in which they are looked for.
pub open spec fn tags() -> Seq<Seq<char>> {
    seq![
        "stringValue"@,
        "integerValue"@,
        "doubleValue"@,
        "booleanValue"@,
        "nullValue"@,
        "timestampValue"@,
        "referenceValue"@,
        "arrayValue"@,
        "mapValue"@,
    ]
}

/// Where a value has several tags, it is read by the first of them.
pub proof fn first_tag_is_read(m: Map<Seq<char>, JsonView>, i: int)
    requires
        0 <= i < tags().len(),
        m.dom().contains(tags()[i]),
        forall|j: int| 0 <= j < i ==> !m.dom().contains(#[trigger] tags()[j]),
    ensures
        decoded(JsonView::Obj(m)) == decoded(JsonView::Obj(map![tags()[i] => m[tags()[i]]])),
{
    lemma_tags();
    assert(0 < i ==> !m.dom().contains(tags()[0]));
    assert(1 < i ==> !m.dom().contains(tags()[1]));
    assert(2 < i ==> !m.dom().contains(tags()[2]));
    assert(3 < i ==> !m.dom().contains(tags()[3]));
    assert(4 < i ==> !m.dom().contains(tags()[4]));
    assert(5 < i ==> !m.dom().contains(tags()[5]));
    assert(6 < i ==> !m.dom().contains(tags()[6]));
    assert(7 < i ==> !m.dom().contains(tags()[7]));
}

/// The fields of a document are written and read one by one, under their names.
pub proof fn fields_keep_their_names(v: JsonView)
    ensures
        v is Obj ==> has_members(fields_encoded(v), v->Obj_0.dom()) && has_members(
            fields_decoded(v),
            v->Obj_0.dom(),
        ),
        v is Obj ==> forall|k: Seq<char>|
            v->Obj_0.dom().contains(k) ==> #[trigger] fields_encoded(v).at(k) == encoded(v.at(k))
                && fields_decoded(v).at(k) == decoded(v.at(k)),
        !(v is Obj) ==> fields_encoded(v) == JsonView::Obj(Map::empty()) && fields_decoded(v)
            == JsonView::Obj(Map::empty()),
{
}

/// The names of operators differ.
proof fn lemma_operators()
    ensures
        "=="@ != "eq"@,
        "=="@ != "!="@,
        "=="@ != "ne"@,
        "=="@ != "lt"@,
        "=="@ != "<="@,
        "=="@ != "le"@,
        "=="@ != "gt"@,
        "=="@ != ">="@,
        "=="@ != "ge"@,
        "=="@ != "in"@,
        "=="@ != "IN"@,
        "eq"@ != "!="@,
        "eq"@ != "ne"@,
        "eq"@ != "lt"@,
        "eq"@ != "<="@,
        "eq"@ != "le"@,
        "eq"@ != "gt"@,
        "eq"@ != ">="@,
        "eq"@ != "ge"@,
        "eq"@ != "in"@,
        "eq"@ != "IN"@,
        "!="@ != "ne"@,
        "!="@ != "lt"@,
        "!="@ != "<="@,
        "!="@ != "le"@,
        "!="@ != "gt"@,
        "!="@ != ">="@,
        "!="@ != "ge"@,
        "!="@ != "in"@,
        "!="@ != "IN"@,
        "ne"@ != "lt"@,
        "ne"@ != "<="@,
        "ne"@ != "le"@,
        "ne"@ != "gt"@,
        "ne"@ != ">="@,
        "ne"@ != "ge"@,
        "ne"@ != "in"@,
        "ne"@ != "IN"@,
        "lt"@ != "<="@,
        "lt"@ != "le"@,
        "lt"@ != "gt"@,
        "lt"@ != ">="@,
        "lt"@ != "ge"@,
        "lt"@ != "in"@,
        "lt"@ != "IN"@,
        "<="@ != "le"@,
        "<="@ != "gt"@,
        "<="@ != ">="@,
        "<="@ != "ge"@,
        "<="@ != "in"@,
        "<="@ != "IN"@,
        "le"@ != "gt"@,
        "le"@ != ">="@,
        "le"@ != "ge"@,
        "le"@ != "in"@,
        "le"@ != "IN"@,
        "gt"@ != ">="@,
        "gt"@ != "ge"@,
        "gt"@ != "in"@,
        "gt"@ != "IN"@,
        ">="@ != "ge"@,
        ">="@ != "in"@,
        ">="@ != "IN"@,
        "ge"@ != "in"@,
        "ge"@ != "IN"@,
        "in"@ != "IN"@,
        "<"@ != ">"@,
        "NOT_EQUAL"@ != "LESS_THAN"@,
        "array_contains"@ != "ARRAY_CONTAINS"@,
        "=="@.len() == 2,
        "eq"@.len() == 2,
        "!="@.len() == 2,
        "ne"@.len() == 2,
        "lt"@.len() == 2,
        "<="@.len() == 2,
        "le"@.len() == 2,
        "gt"@.len() == 2,
        ">="@.len() == 2,
        "ge"@.len() == 2,
        "in"@.len() == 2,
        "IN"@.len() == 2,
        "<"@.len() == 1,
        ">"@.len() == 1,
        "EQUAL"@.len() == 5,
        "NOT_EQUAL"@.len() == 9,
        "LESS_THAN"@.len() == 9,
        "LESS_THAN_OR_EQUAL"@.len() == 18,
        "GREATER_THAN"@.len() == 12,
        "GREATER_THAN_OR_EQUAL"@.len() == 21,
        "array_contains"@.len() == 14,
        "ARRAY_CONTAINS"@.len() == 14,
{
    reveal_strlit("==");
    reveal_strlit("eq");
    reveal_strlit("!=");
    reveal_strlit("ne");
    reveal_strlit("lt");
    reveal_strlit("<=");
    reveal_strlit("le");
    reveal_strlit("gt");
    reveal_strlit(">=");
    reveal_strlit("ge");
    reveal_strlit("in");
    reveal_strlit("IN");
    reveal_strlit("<");
    reveal_strlit(">");
    reveal_strlit("EQUAL");
    reveal_strlit("NOT_EQUAL");
    reveal_strlit("LESS_THAN");
    reveal_strlit("LESS_THAN_OR_EQUAL");
    reveal_strlit("GREATER_THAN");
    reveal_strlit("GREATER_THAN_OR_EQUAL");
    reveal_strlit("array_contains");
    reveal_strlit("ARRAY_CONTAINS");
    assert("=="@[0] != "eq"@[0]);
    assert("=="@[0] != "!="@[0]);
    assert("=="@[0] != "ne"@[0]);
    assert("=="@[0] != "lt"@[0]);
    assert("=="@[0] != "<="@[0]);
    assert("=="@[0] != "le"@[0]);
    assert("=="@[0] != "gt"@[0]);
    assert("=="@[0] != ">="@[0]);
    assert("=="@[0] != "ge"@[0]);
    assert("=="@[0] != "in"@[0]);
    assert("=="@[0] != "IN"@[0]);
    assert("eq"@[0] != "!="@[0]);
    assert("eq"@[0] != "ne"@[0]);
    assert("eq"@[0] != "lt"@[0]);
    assert("eq"@[0] != "<="@[0]);
    assert("eq"@[0] != "le"@[0]);
    assert("eq"@[0] != "gt"@[0]);
    assert("eq"@[0] != ">="@[0]);
    assert("eq"@[0] != "ge"@[0]);
    assert("eq"@[0] != "in"@[0]);
    assert("eq"@[0] != "IN"@[0]);
    assert("!="@[0] != "ne"@[0]);
    assert("!="@[0] != "lt"@[0]);
    assert("!="@[0] != "<="@[0]);
    assert("!="@[0] != "le"@[0]);
    assert("!="@[0] != "gt"@[0]);
    assert("!="@[0] != ">="@[0]);
    assert("!="@[0] != "ge"@[0]);
    assert("!="@[0] != "in"@[0]);
    assert("!="@[0] != "IN"@[0]);
    assert("ne"@[0] != "lt"@[0]);
    assert("ne"@[0] != "<="@[0]);
    assert("ne"@[0] != "le"@[0]);
    assert("ne"@[0] != "gt"@[0]);
    assert("ne"@[0] != ">="@[0]);
    assert("ne"@[0] != "ge"@[0]);
    assert("ne"@[0] != "in"@[0]);
    assert("ne"@[0] != "IN"@[0]);
    assert("lt"@[0] != "<="@[0]);
    assert("lt"@[1] != "le"@[1]);
    assert("lt"@[0] != "gt"@[0]);
    assert("lt"@[0] != ">="@[0]);
    assert("lt"@[0] != "ge"@[0]);
    assert("lt"@[0] != "in"@[0]);
    assert("lt"@[0] != "IN"@[0]);
    assert("<="@[0] != "le"@[0]);
    assert("<="@[0] != "gt"@[0]);
    assert("<="@[0] != ">="@[0]);
    assert("<="@[0] != "ge"@[0]);
    assert("<="@[0] != "in"@[0]);
    assert("<="@[0] != "IN"@[0]);
    assert("le"@[0] != "gt"@[0]);
    assert("le"@[0] != ">="@[0]);
    assert("le"@[0] != "ge"@[0]);
    assert("le"@[0] != "in"@[0]);
    assert("le"@[0] != "IN"@[0]);
    assert("gt"@[0] != ">="@[0]);
    assert("gt"@[1] != "ge"@[1]);
    assert("gt"@[0] != "in"@[0]);
    assert("gt"@[0] != "IN"@[0]);
    assert(">="@[0] != "ge"@[0]);
    assert(">="@[0] != "in"@[0]);
    assert(">="@[0] != "IN"@[0]);
    assert("ge"@[0] != "in"@[0]);
    assert("ge"@[0] != "IN"@[0]);
    assert("in"@[0] != "IN"@[0]);
    assert("<"@[0] != ">"@[0]);
    assert("NOT_EQUAL"@[0] != "LESS_THAN"@[0]);
    assert("array_contains"@[0] != "ARRAY_CONTAINS"@[0]);
}

/// Each operator of a query is named by its sign, by its short name and by its full name. What
/// names none stands for equality.
pub proof fn operators_are_named(op: Seq<char>)
    ensures
        op == "=="@ || op == "eq"@ || op == "EQUAL"@ ==> operator(op) == "EQUAL"@,
        op == "!="@ || op == "ne"@ || op == "NOT_EQUAL"@ ==> operator(op) == "NOT_EQUAL"@,
        op == "<"@ || op == "lt"@ || op == "LESS_THAN"@ ==> operator(op) == "LESS_THAN"@,
        op == "<="@ || op == "le"@ || op == "LESS_THAN_OR_EQUAL"@ ==> operator(op)
            == "LESS_THAN_OR_EQUAL"@,
        op == ">"@ || op == "gt"@ || op == "GREATER_THAN"@ ==> operator(op) == "GREATER_THAN"@,
        op == ">="@ || op == "ge"@ || op == "GREATER_THAN_OR_EQUAL"@ ==> operator(op)
            == "GREATER_THAN_OR_EQUAL"@,
        op == "in"@ || op == "IN"@ ==> operator(op) == "IN"@,
        op == "array_contains"@ || op == "ARRAY_CONTAINS"@ ==> operator(op) == "ARRAY_CONTAINS"@,
        operator(op) != "EQUAL"@ ==> op == "!="@ || op == "ne"@ || op == "NOT_EQUAL"@ || op == "<"@
            || op == "lt"@ || op == "LESS_THAN"@ || op == "<="@ || op == "le"@ || op
            == "LESS_THAN_OR_EQUAL"@ || op == ">"@ || op == "gt"@ || op == "GREATER_THAN"@ || op
            == ">="@ || op == "ge"@ || op == "GREATER_THAN_OR_EQUAL"@ || op == "in"@ || op == "IN"@
            || op == "array_contains"@ || op == "ARRAY_CONTAINS"@,
{
    lemma_operators();
}

} // verus!
