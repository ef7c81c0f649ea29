//! Firestore's typed values: plain JSON in both directions, and query operators.

use vstd::prelude::*;
use vstd::string::*;

use crate::codec::url_encoded;
use crate::decimal::{
    decimal_text, denoted_i64, parse_i64, signed_decimal, signed_decimal_reads_back,
    signed_decimal_text,
};
use crate::json::{array_view, items_view, members_view, Json, JsonView, Members, Number};
use crate::request::Draft;
use crate::text::same;

verus! {

/// The object whose only member is `value` under the name `key`.
pub open spec fn tagged(key: Seq<char>, value: JsonView) -> JsonView {
    JsonView::Obj(map![key => value])
}

/// A plain value in Firestore's typed form. Integers travel as texts.
pub open spec fn encoded(v: JsonView) -> JsonView
    decreases v,
{
    match v {
        JsonView::Null => tagged("nullValue"@, JsonView::Null),
        JsonView::Bool(_) => tagged("booleanValue"@, v),
        JsonView::Int(i) => tagged("integerValue"@, JsonView::Str(signed_decimal(i))),
        JsonView::Float(_) => tagged("doubleValue"@, v),
        JsonView::Str(_) => tagged("stringValue"@, v),
        JsonView::Arr(a) => tagged(
            "arrayValue"@,
            tagged(
                "values"@,
                JsonView::Arr(
                    Seq::new(
                        a.len(),
                        |i: int|
                            if 0 <= i < a.len() {
                                encoded(a[i])
                            } else {
                                JsonView::Null
                            },
                    ),
                ),
            ),
        ),
        JsonView::Obj(m) => tagged(
            "mapValue"@,
            tagged(
                "fields"@,
                JsonView::Obj(
                    Map::new(
                        |k: Seq<char>| m.dom().contains(k),
                        |k: Seq<char>|
                            if m.dom().contains(k) {
                                encoded(m[k])
                            } else {
                                JsonView::Null
                            },
                    ),
                ),
            ),
        ),
    }
}

/// The members of an object, each in typed form.
pub open spec fn encoded_fields(m: Map<Seq<char>, JsonView>) -> Map<Seq<char>, JsonView> {
    Map::new(|k: Seq<char>| m.dom().contains(k), |k: Seq<char>| encoded(m[k]))
}

/// The plain value that a typed value stands for; null where it is no typed value.
pub open spec fn decoded(v: JsonView) -> JsonView
    decreases v,
{
    match v {
        JsonView::Obj(m) => if m.dom().contains("stringValue"@) {
            m["stringValue"@]
        } else if m.dom().contains("integerValue"@) {
            decoded_integer(m["integerValue"@])
        } else if m.dom().contains("doubleValue"@) {
            m["doubleValue"@]
        } else if m.dom().contains("booleanValue"@) {
            m["booleanValue"@]
        } else if m.dom().contains("nullValue"@) {
            JsonView::Null
        } else if m.dom().contains("timestampValue"@) {
            m["timestampValue"@]
        } else if m.dom().contains("referenceValue"@) {
            m["referenceValue"@]
        } else if m.dom().contains("arrayValue"@) {
            match m["arrayValue"@] {
                JsonView::Obj(inner) => if inner.dom().contains("values"@) {
                    match inner["values"@] {
                        JsonView::Arr(a) => JsonView::Arr(
                            Seq::new(
                                a.len(),
                                |i: int|
                                    if 0 <= i < a.len() {
                                        decoded(a[i])
                                    } else {
                                        JsonView::Null
                                    },
                            ),
                        ),
                        _ => JsonView::Arr(Seq::empty()),
                    }
                } else {
                    JsonView::Arr(Seq::empty())
                },
                _ => JsonView::Arr(Seq::empty()),
            }
        } else if m.dom().contains("mapValue"@) {
            match m["mapValue"@] {
                JsonView::Obj(inner) => if inner.dom().contains("fields"@) {
                    match inner["fields"@] {
                        JsonView::Obj(f) => JsonView::Obj(
                            Map::new(
                                |k: Seq<char>| f.dom().contains(k),
                                |k: Seq<char>|
                                    if f.dom().contains(k) {
                                        decoded(f[k])
                                    } else {
                                        JsonView::Null
                                    },
                            ),
                        ),
                        _ => JsonView::Obj(Map::empty()),
                    }
                } else {
                    JsonView::Obj(Map::empty())
                },
                _ => JsonView::Obj(Map::empty()),
            }
        } else {
            JsonView::Null
        },
        _ => JsonView::Null,
    }
}

/// The members of an object of typed values, each as a plain value.
pub open spec fn decoded_fields(m: Map<Seq<char>, JsonView>) -> Map<Seq<char>, JsonView> {
    Map::new(|k: Seq<char>| m.dom().contains(k), |k: Seq<char>| decoded(m[k]))
}

/// The integer that `v` denotes; `v` itself where it is no text of an `i64`.
pub open spec fn decoded_integer(v: JsonView) -> JsonView {
    match v {
        JsonView::Str(s) => match denoted_i64(s) {
            Some(i) => JsonView::Int(i),
            None => v,
        },
        _ => v,
    }
}

/// Every integer in the value fits in an `i64`.
pub open spec fn integers_fit(v: JsonView) -> bool
    decreases v,
{
    match v {
        JsonView::Int(i) => i64::MIN <= i <= i64::MAX,
        JsonView::Arr(a) => forall|i: int| 0 <= i < a.len() ==> integers_fit(#[trigger] a[i]),
        JsonView::Obj(m) => forall|k: Seq<char>| #[trigger]
            m.dom().contains(k) ==> integers_fit(m[k]),
        _ => true,
    }
}

proof fn lemma_tags()
    ensures
        "stringValue"@[0] == 's',
        "integerValue"@[0] == 'i',
        "doubleValue"@[0] == 'd',
        "booleanValue"@[0] == 'b',
        "nullValue"@[0] == 'n',
        "timestampValue"@[0] == 't',
        "referenceValue"@[0] == 'r',
        "arrayValue"@[0] == 'a',
        "mapValue"@[0] == 'm',
{
    reveal_strlit("stringValue");
    reveal_strlit("integerValue");
    reveal_strlit("doubleValue");
    reveal_strlit("booleanValue");
    reveal_strlit("nullValue");
    reveal_strlit("timestampValue");
    reveal_strlit("referenceValue");
    reveal_strlit("arrayValue");
    reveal_strlit("mapValue");
}

/// Decoding the typed form of a value gives the value back, as long as its integers fit in an
/// `i64`.
pub proof fn decoding_undoes_encoding(v: JsonView)
    requires
        integers_fit(v),
    ensures
        decoded(encoded(v)) == v,
    decreases v,
{
    lemma_tags();
    match v {
        JsonView::Int(i) => {
            signed_decimal_reads_back(i);
        },
        JsonView::Arr(a) => {
            assert forall|i: int| 0 <= i < a.len() implies decoded(
                encoded(#[trigger] a[i]),
            ) == a[i] by {
                decoding_undoes_encoding(a[i]);
            }
            assert(decoded(encoded(v))->Arr_0 =~= a);
        },
        JsonView::Obj(m) => {
            assert forall|k: Seq<char>| #[trigger] m.dom().contains(k) implies decoded(
                encoded(m[k]),
            ) == m[k] by {
                decoding_undoes_encoding(m[k]);
            }
            assert(decoded(encoded(v))->Obj_0 =~= m);
        },
        _ => {},
    }
}

/// Decoding the typed fields of a document gives its plain fields back, as long as their
/// integers fit in an `i64`.
pub proof fn decoding_fields_undoes_encoding(m: Map<Seq<char>, JsonView>)
    requires
        integers_fit(JsonView::Obj(m)),
    ensures
        decoded_fields(encoded_fields(m)) == m,
{
    let v = JsonView::Obj(m);
    assert forall|k: Seq<char>| #[trigger] m.dom().contains(k) implies decoded(encoded(m[k]))
        == m[k] by {
        assert(v->Obj_0.dom().contains(k) && integers_fit(v));
        decoding_undoes_encoding(m[k]);
    }
    assert(decoded_fields(encoded_fields(m)) =~= m);
}

/// The typed form of a value, in terms of those of its parts.
proof fn lemma_encoded_parts(v: JsonView)
    ensures
        v matches JsonView::Arr(a) ==> encoded(v) == tagged(
            "arrayValue"@,
            tagged("values"@, JsonView::Arr(a.map_values(|x: JsonView| encoded(x)))),
        ),
        v matches JsonView::Obj(m) ==> encoded(v) == tagged(
            "mapValue"@,
            tagged("fields"@, JsonView::Obj(encoded_fields(m))),
        ),
{
    match v {
        JsonView::Arr(a) => {
            assert(encoded(v)->Obj_0["arrayValue"@]->Obj_0["values"@]->Arr_0 =~= a.map_values(
                |x: JsonView| encoded(x),
            ));
        },
        JsonView::Obj(m) => {
            assert(encoded(v)->Obj_0["mapValue"@]->Obj_0["fields"@]->Obj_0 =~= encoded_fields(m));
        },
        _ => {},
    }
}

/// An object with one member.
pub fn tag(key: &str, value: Json) -> (r: Json)
    ensures
        r@ == tagged(key@, value@),
{
    Json::Object(Members::new().with(key, value))
}

/// Encodes a plain value in Firestore's typed form (`{"stringValue": ...}`,
/// `{"integerValue": "N"}` and so on).
pub fn fs_encode(v: &Json) -> (r: Json)
    ensures
        r@ == encoded(v@),
    decreases v, 1nat,
{
    match v {
        Json::Null => tag("nullValue", Json::Null),
        Json::Bool(b) => tag("booleanValue", Json::Bool(*b)),
        Json::Number(n) => match n {
            Number::PosInt(u) => tag("integerValue", Json::String(decimal_text(*u))),
            Number::NegInt(i) => tag("integerValue", Json::String(signed_decimal_text(*i))),
            Number::Float(bits) => tag("doubleValue", Json::Number(Number::Float(*bits))),
        },
        Json::String(s) => tag("stringValue", Json::text(s.as_str())),
        Json::Array(a) => {
            let mut out: Vec<Json> = Vec::new();
            let mut i: usize = 0;
            while i < a.len()
                invariant
                    *v matches Json::Array(b) && *a == b,
                    i <= a.len(),
                    out@.len() == i,
                    forall|k: int| 0 <= k < i ==> (#[trigger] out@[k])@ == encoded(a@[k]@),
                decreases a.len() - i,
            {
                out.push(fs_encode(&a[i]));
                i += 1;
            }
            proof {
                array_view(*a);
                lemma_encoded_parts(v@);
                assert(items_view(out@) =~= items_view(a@).map_values(|x: JsonView| encoded(x)));
            }
            tag("arrayValue", tag("values", Json::array(out)))
        },
        Json::Object(_) => {
            proof {
                lemma_encoded_parts(v@);
            }
            tag("mapValue", tag("fields", fs_fields_encode(v)))
        },
    }
}

/// The typed fields of a document with that data; none where it is no object.
pub open spec fn fields_encoded(data: JsonView) -> JsonView {
    JsonView::Obj(
        match data {
            JsonView::Obj(m) => encoded_fields(m),
            _ => Map::empty(),
        },
    )
}

/// Encodes the members of an object as the typed fields of a document.
pub fn fs_fields_encode(data: &Json) -> (r: Json)
    ensures
        r@ == fields_encoded(data@),
    decreases data, 0nat,
{
    let mut out: Members = Members::new();
    match data {
        Json::Object(m) => {
            let mut i: usize = 0;
            assert(out@ =~= encoded_fields(members_view(m.entries@.take(0))));
            while i < m.entries.len()
                invariant
                    *data matches Json::Object(n) && *m == n,
                    i <= m.entries.len(),
                    out@ == encoded_fields(members_view(m.entries@.take(i as int))),
                decreases m.entries.len() - i,
            {
                let value: Json = fs_encode(&m.entries[i].1);
                out = out.with(m.entries[i].0.as_str(), value);
                proof {
                    let next = m.entries@.take(i + 1);
                    assert(next.drop_last() =~= m.entries@.take(i as int));
                    assert(next.last() == m.entries@[i as int]);
                    assert(out@ =~= encoded_fields(members_view(next)));
                }
                i += 1;
            }
            assert(m.entries@.take(m.entries.len() as int) =~= m.entries@);
        },
        _ => {},
    }
    Json::Object(out)
}

/// Decodes a typed value to plain JSON; null where it is no typed value.
pub fn fs_decode(v: &Json) -> (r: Json)
    ensures
        r@ == decoded(v@),
    decreases v, 1nat,
{
    if !v.is_object() {
        return Json::Null;
    }
    if let Some(s) = v.get("stringValue") {
        return s.copy();
    }
    if let Some(s) = v.get("integerValue") {
        if let Some(x) = s.as_str() {
            if let Some(n) = parse_i64(x) {
                return Json::integer(n);
            }
        }
        return s.copy();
    }
    if let Some(d) = v.get("doubleValue") {
        return d.copy();
    }
    if let Some(b) = v.get("booleanValue") {
        return b.copy();
    }
    if v.get("nullValue").is_some() {
        return Json::Null;
    }
    if let Some(ts) = v.get("timestampValue") {
        return ts.copy();
    }
    if let Some(rv) = v.get("referenceValue") {
        return rv.copy();
    }
    if let Some(av) = v.get("arrayValue") {
        let mut out: Vec<Json> = Vec::new();
        if let Some(values) = av.get("values") {
            if let Some(a) = values.as_array() {
                let mut i: usize = 0;
                while i < a.len()
                    invariant
                        *values == Json::Array(*a),
                        decreases_to!(*v => *values),
                        i <= a.len(),
                        out@.len() == i,
                        forall|k: int| 0 <= k < i ==> (#[trigger] out@[k])@ == decoded(a@[k]@),
                    decreases a.len() - i,
                {
                    assert(decreases_to!(*values => values->Array_0));
                    assert(decreases_to!(a@ => a@[i as int]));
                    out.push(fs_decode(&a[i]));
                    i += 1;
                }
            }
        }
        assert(items_view(out@) =~= decoded(v@)->Arr_0);
        return Json::array(out);
    }
    if let Some(mv) = v.get("mapValue") {
        let r: Json = match mv.get("fields") {
            Some(fields) => fs_fields_decode(fields),
            None => Json::Object(Members::new()),
        };
        assert(r@->Obj_0 =~= decoded(v@)->Obj_0);
        return r;
    }
    Json::Null
}

/// The data of a document with those typed fields; empty where they are no object.
pub open spec fn fields_decoded(fields: JsonView) -> JsonView {
    JsonView::Obj(
        match fields {
            JsonView::Obj(m) => decoded_fields(m),
            _ => Map::empty(),
        },
    )
}

/// Decodes the typed fields of a document to a plain object.
pub fn fs_fields_decode(fields: &Json) -> (r: Json)
    ensures
        r@ == fields_decoded(fields@),
    decreases fields, 0nat,
{
    let mut out: Members = Members::new();
    match fields {
        Json::Object(m) => {
            let mut i: usize = 0;
            assert(out@ =~= decoded_fields(members_view(m.entries@.take(0))));
            while i < m.entries.len()
                invariant
                    *fields matches Json::Object(n) && *m == n,
                    i <= m.entries.len(),
                    out@ == decoded_fields(members_view(m.entries@.take(i as int))),
                decreases m.entries.len() - i,
            {
                let value: Json = fs_decode(&m.entries[i].1);
                out = out.with(m.entries[i].0.as_str(), value);
                proof {
                    let next = m.entries@.take(i + 1);
                    assert(next.drop_last() =~= m.entries@.take(i as int));
                    assert(next.last() == m.entries@[i as int]);
                    assert(out@ =~= decoded_fields(members_view(next)));
                }
                i += 1;
            }
            assert(m.entries@.take(m.entries.len() as int) =~= m.entries@);
        },
        _ => {},
    }
    Json::Object(out)
}

/// Where the documents of a project are.
pub open spec fn base_url(project: Seq<char>) -> Seq<char> {
    "https://firestore.googleapis.com/v1/projects/"@ + url_encoded(project)
        + "/databases/(default)/documents"@
}

/// The URL of the documents of a project.
pub fn fs_base(project: &str) -> (r: String)
    ensures
        r@ == base_url(project@),
{
    Draft::new("https://firestore.googleapis.com/v1/projects/").enc(project).lit(
        "/databases/(default)/documents",
    ).text
}

/// The name of the query operator that `op` stands for; equality where it is unknown.
pub open spec fn operator(op: Seq<char>) -> Seq<char> {
    if op == "=="@ || op == "EQUAL"@ || op == "eq"@ {
        "EQUAL"@
    } else if op == "!="@ || op == "NOT_EQUAL"@ || op == "ne"@ {
        "NOT_EQUAL"@
    } else if op == "<"@ || op == "LESS_THAN"@ || op == "lt"@ {
        "LESS_THAN"@
    } else if op == "<="@ || op == "LESS_THAN_OR_EQUAL"@ || op == "le"@ {
        "LESS_THAN_OR_EQUAL"@
    } else if op == ">"@ || op == "GREATER_THAN"@ || op == "gt"@ {
        "GREATER_THAN"@
    } else if op == ">="@ || op == "GREATER_THAN_OR_EQUAL"@ || op == "ge"@ {
        "GREATER_THAN_OR_EQUAL"@
    } else if op == "in"@ || op == "IN"@ {
        "IN"@
    } else if op == "array_contains"@ || op == "ARRAY_CONTAINS"@ {
        "ARRAY_CONTAINS"@
    } else {
        "EQUAL"@
    }
}

/// Normalizes a caller's operator to the name of a `fieldFilter` operator.
pub fn fs_op(op: &str) -> (r: &'static str)
    ensures
        r@ == operator(op@),
{
    if same(op, "==") || same(op, "EQUAL") || same(op, "eq") {
        "EQUAL"
    } else if same(op, "!=") || same(op, "NOT_EQUAL") || same(op, "ne") {
        "NOT_EQUAL"
    } else if same(op, "<") || same(op, "LESS_THAN") || same(op, "lt") {
        "LESS_THAN"
    } else if same(op, "<=") || same(op, "LESS_THAN_OR_EQUAL") || same(op, "le") {
        "LESS_THAN_OR_EQUAL"
    } else if same(op, ">") || same(op, "GREATER_THAN") || same(op, "gt") {
        "GREATER_THAN"
    } else if same(op, ">=") || same(op, "GREATER_THAN_OR_EQUAL") || same(op, "ge") {
        "GREATER_THAN_OR_EQUAL"
    } else if same(op, "in") || same(op, "IN") {
        "IN"
    } else if same(op, "array_contains") || same(op, "ARRAY_CONTAINS") {
        "ARRAY_CONTAINS"
    } else {
        "EQUAL"
    }
}

/// The name of an operator stands for itself.
pub proof fn operator_names_are_stable(op: Seq<char>)
    ensures
        operator(operator(op)) == operator(op),
{
    reveal_strlit("==");
    reveal_strlit("EQUAL");
    reveal_strlit("eq");
    reveal_strlit("!=");
    reveal_strlit("NOT_EQUAL");
    reveal_strlit("ne");
    reveal_strlit("<");
    reveal_strlit("LESS_THAN");
    reveal_strlit("lt");
    reveal_strlit("<=");
    reveal_strlit("LESS_THAN_OR_EQUAL");
    reveal_strlit("le");
    reveal_strlit(">");
    reveal_strlit("GREATER_THAN");
    reveal_strlit("gt");
    reveal_strlit(">=");
    reveal_strlit("GREATER_THAN_OR_EQUAL");
    reveal_strlit("ge");
    reveal_strlit("in");
    reveal_strlit("IN");
    reveal_strlit("array_contains");
    reveal_strlit("ARRAY_CONTAINS");
    assert("array_contains"@[0] == 'a');
    assert("ARRAY_CONTAINS"@[0] == 'A');
    assert("NOT_EQUAL"@[0] == 'N');
    assert("LESS_THAN"@[0] == 'L');
    assert("in"@[0] == 'i');
    assert("IN"@[0] == 'I');
    assert("=="@[0] == '=');
    assert("!="@[0] == '!');
    assert("<="@[0] == '<');
    assert(">="@[0] == '>');
    assert("eq"@[0] == 'e');
    assert("ne"@[0] == 'n');
    assert("lt"@[0] == 'l');
    assert("le"@[0] == 'l');
    assert("gt"@[0] == 'g');
    assert("ge"@[0] == 'g');
}

} // verus!
