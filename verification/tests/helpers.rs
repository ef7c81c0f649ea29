use serde_json::Value;
use stryke_gcp::firestore::{
    fs_base, fs_decode, fs_encode, fs_fields_decode, fs_fields_encode, fs_op,
};
use stryke_gcp::gs_uri::{op_build_gs_uri, op_gs_uri_to_url, op_parse_gs_uri, op_url_to_gs_uri};
use stryke_gcp::json::{Json, Members, Number};
use stryke_gcp::naming::{
    op_region_for_zone, op_valid_bucket_name, op_valid_dataset_id, op_valid_label,
    op_valid_object_name, op_valid_project_id, op_valid_pubsub_id, op_valid_secret_id,
    op_valid_service_account_id, op_valid_table_id,
};
use stryke_gcp::options::truthy;
use stryke_gcp::request::Error;
use stryke_gcp::resource_name::{
    leaf_name, op_build_resource_name, op_parse_resource_name, op_resource_name_parent,
};
use stryke_gcp::table_ref::{op_build_table_ref, op_parse_table_ref};

/// The library's form of a JSON value.
fn json_of(v: &Value) -> Json {
    match v {
        Value::Null => Json::Null,
        Value::Bool(b) => Json::Bool(*b),
        Value::Number(n) => Json::Number(if let Some(u) = n.as_u64() {
            Number::PosInt(u)
        } else if let Some(i) = n.as_i64() {
            Number::NegInt(i)
        } else {
            Number::Float(n.as_f64().unwrap().to_bits())
        }),
        Value::String(s) => Json::String(s.clone()),
        Value::Array(a) => Json::Array(a.iter().map(json_of).collect()),
        Value::Object(m) => {
            let mut members = Members::new();
            for (k, v) in m {
                members = members.with(k, json_of(v));
            }
            Json::Object(members)
        }
    }
}

/// The plain form of a value of the library.
fn value_of(j: &Json) -> Value {
    match j {
        Json::Null => Value::Null,
        Json::Bool(b) => Value::Bool(*b),
        Json::Number(Number::PosInt(u)) => Value::from(*u),
        Json::Number(Number::NegInt(i)) => Value::from(*i),
        Json::Number(Number::Float(bits)) => Value::from(f64::from_bits(*bits)),
        Json::String(s) => Value::String(s.clone()),
        Json::Array(a) => Value::Array(a.iter().map(value_of).collect()),
        Json::Object(m) => {
            let mut map = serde_json::Map::new();
            for (k, v) in &m.entries {
                map.insert(k.clone(), value_of(v));
            }
            Value::Object(map)
        }
    }
}

/// Parses a JSON text.
fn parsed(text: &str) -> Value {
    serde_json::from_str(text).unwrap()
}

/// Parses a JSON text to a value of the library.
fn json(text: &str) -> Json {
    json_of(&parsed(text))
}

/// Runs a pure operation.
fn run(op: fn(Json) -> Result<Json, Error>, args: &str) -> Value {
    value_of(&op(json(args)).unwrap())
}

/// Runs a pure operation on an object with texts.
fn run_with(op: fn(Json) -> Result<Json, Error>, args: &[(&str, &str)]) -> Value {
    value_of(&op(texts(args)).unwrap())
}

/// An object with texts.
fn texts(args: &[(&str, &str)]) -> Json {
    let mut members = Members::new();
    for (k, v) in args {
        members = members.with(k, Json::text(v));
    }
    Json::Object(members)
}

/// The message with which a pure operation refuses.
fn refused(op: fn(Json) -> Result<Json, Error>, args: &str) -> String {
    op(json(args)).unwrap_err().to_text().to_string()
}

/// Whether a pure operation refuses.
fn fails(op: fn(Json) -> Result<Json, Error>, args: &str) -> bool {
    op(json(args)).is_err()
}

// Firestore values

#[test]
fn fs_encode_scalars_use_correct_typed_tags() {
    let encoded = |text: &str| value_of(&fs_encode(&json(text)));
    assert_eq!(encoded(r#""x""#), parsed(r#"{"stringValue": "x"}"#));
    assert_eq!(encoded("7"), parsed(r#"{"integerValue": "7"}"#));
    assert_eq!(encoded("1.5"), parsed(r#"{"doubleValue": 1.5}"#));
    assert_eq!(encoded("true"), parsed(r#"{"booleanValue": true}"#));
    assert_eq!(encoded("null"), parsed(r#"{"nullValue": null}"#));
}

#[test]
fn fs_encode_decode_round_trips_nested() {
    let original = parsed(
        r#"{
            "name": "ada",
            "age": 36,
            "scores": [1, 2.5, "z"],
            "meta": { "active": true, "tags": ["x", "y"] }
        }"#,
    );
    let encoded = fs_encode(&json_of(&original));
    let wire = value_of(&encoded);
    assert!(wire["mapValue"]["fields"]["name"]["stringValue"] == "ada");
    assert!(wire["mapValue"]["fields"]["age"]["integerValue"] == "36");
    assert_eq!(value_of(&fs_decode(&encoded)), original);
}

#[test]
fn fs_fields_encode_decode_are_inverses() {
    let data = parsed(r#"{ "a": 1, "b": "two", "c": [true, null] }"#);
    let fields = fs_fields_encode(&json_of(&data));
    assert_eq!(value_of(&fields)["a"], parsed(r#"{"integerValue": "1"}"#));
    assert_eq!(value_of(&fs_fields_decode(&fields)), data);
}

#[test]
fn fs_decode_reads_what_is_no_plain_value() {
    let decoded = |text: &str| value_of(&fs_decode(&json(text)));
    assert_eq!(decoded(r#"{"timestampValue": "2024-01-01T00:00:00Z"}"#), "2024-01-01T00:00:00Z");
    assert_eq!(decoded(r#"{"integerValue": "-9223372036854775808"}"#), i64::MIN);
    assert_eq!(decoded(r#"{"integerValue": "12x"}"#), "12x");
    assert_eq!(decoded(r#"{"arrayValue": {}}"#), parsed("[]"));
    assert_eq!(decoded(r#"{"mapValue": {}}"#), parsed("{}"));
    assert_eq!(decoded("17"), Value::Null);
}

#[test]
fn fs_round_trip_makes_texts_of_integers_beyond_i64() {
    let big = json("18446744073709551615");
    assert_eq!(value_of(&fs_encode(&big)), parsed(r#"{"integerValue": "18446744073709551615"}"#));
    assert_eq!(value_of(&fs_decode(&fs_encode(&big))), "18446744073709551615");
    let least = json("-9223372036854775808");
    assert_eq!(value_of(&fs_decode(&fs_encode(&least))), i64::MIN);
}

#[test]
fn fs_op_knows_the_operators() {
    for (given, name) in [
        ("==", "EQUAL"),
        ("eq", "EQUAL"),
        ("!=", "NOT_EQUAL"),
        ("ne", "NOT_EQUAL"),
        ("<", "LESS_THAN"),
        ("lt", "LESS_THAN"),
        ("<=", "LESS_THAN_OR_EQUAL"),
        ("le", "LESS_THAN_OR_EQUAL"),
        (">", "GREATER_THAN"),
        ("gt", "GREATER_THAN"),
        (">=", "GREATER_THAN_OR_EQUAL"),
        ("ge", "GREATER_THAN_OR_EQUAL"),
        ("in", "IN"),
        ("array_contains", "ARRAY_CONTAINS"),
        ("near", "EQUAL"),
    ] {
        assert_eq!(fs_op(given), name);
        assert_eq!(fs_op(name), name);
    }
}

#[test]
fn fs_base_encodes_the_project() {
    assert_eq!(
        fs_base("a b"),
        "https://firestore.googleapis.com/v1/projects/a%20b/databases/(default)/documents"
    );
}

// Flags and names

#[test]
fn truthy_accepts_bool_number_and_string_forms() {
    assert!(truthy(&json("true")));
    assert!(truthy(&json("1")));
    assert!(truthy(&json(r#""1""#)));
    assert!(truthy(&json(r#""true""#)));
    assert!(truthy(&json(r#""TRUE""#)));
    assert!(!truthy(&json("false")));
    assert!(!truthy(&json("0")));
    assert!(!truthy(&json(r#""0""#)));
    assert!(!truthy(&json(r#""no""#)));
    assert!(!truthy(&Json::Null));
}

#[test]
fn truthy_refuses_what_is_no_small_integer() {
    assert!(!truthy(&json("1.0")));
    assert!(!truthy(&json("18446744073709551615")));
    assert!(truthy(&json("-1")));
    assert!(!truthy(&json("[1]")));
}

#[test]
fn leaf_name_strips_resource_path() {
    assert_eq!(leaf_name("projects/my-proj/topics/orders"), "orders");
    assert_eq!(leaf_name("projects/my-proj/subscriptions/sub-1"), "sub-1");
    assert_eq!(leaf_name("orders"), "orders");
    assert_eq!(leaf_name(""), "");
}

#[test]
fn leaf_name_of_a_path_with_a_slash_at_its_end_is_empty() {
    assert_eq!(leaf_name("projects/p/"), "");
}

#[test]
fn leaf_name_is_the_same_under_any_path() {
    for name in ["t", "topics/t", "t/", ""] {
        assert_eq!(leaf_name(&format!("projects/p/{name}")), leaf_name(name));
    }
}

// gs:// URIs

#[test]
fn parse_gs_uri_splits_bucket_and_object() {
    let v = run(op_parse_gs_uri, r#"{"uri": "gs://my-bucket/path/to/file.json"}"#);
    assert_eq!(v["bucket"], "my-bucket");
    assert_eq!(v["object"], "path/to/file.json");
    let bucket_only = run(op_parse_gs_uri, r#"{"uri": "gs://my-bucket"}"#);
    assert_eq!(bucket_only["object"], Value::Null);
    assert!(fails(op_parse_gs_uri, r#"{"uri": "s3://x/y"}"#));
}

#[test]
fn build_gs_uri_round_trips_through_parse() {
    let built =
        run(op_build_gs_uri, r#"{"bucket": "my-bucket", "object": "path/to/file.json"}"#)["uri"]
            .clone();
    assert_eq!(built, "gs://my-bucket/path/to/file.json");
    let back = run_with(op_parse_gs_uri, &[("uri", built.as_str().unwrap())]);
    assert_eq!(back["bucket"], "my-bucket");
    assert_eq!(back["object"], "path/to/file.json");
    assert_eq!(run(op_build_gs_uri, r#"{"bucket": "b"}"#)["uri"], "gs://b");
    assert_eq!(run(op_build_gs_uri, r#"{"bucket": "b", "object": ""}"#)["uri"], "gs://b");
    assert_eq!(
        run(op_build_gs_uri, r#"{"bucket": "b", "object": "/leading"}"#)["uri"],
        "gs://b/leading"
    );
    assert!(fails(op_build_gs_uri, r#"{"bucket": ""}"#));
}

#[test]
fn gs_uri_to_url_maps_to_path_style_public_url() {
    let obj = run(op_gs_uri_to_url, r#"{"uri": "gs://my-bucket/path/to/file.json"}"#);
    assert_eq!(obj["url"], "https://storage.googleapis.com/my-bucket/path/to/file.json");
    assert_eq!(obj["bucket"], "my-bucket");
    assert_eq!(obj["object"], "path/to/file.json");
    let buck = run(op_gs_uri_to_url, r#"{"uri": "gs://my-bucket"}"#);
    assert_eq!(buck["url"], "https://storage.googleapis.com/my-bucket");
    assert_eq!(buck["object"], Value::Null);
    assert_eq!(
        run(op_gs_uri_to_url, r#"{"uri": "gs://b/"}"#)["url"],
        "https://storage.googleapis.com/b"
    );
    assert!(fails(op_gs_uri_to_url, r#"{"uri": "s3://x/y"}"#));
}

#[test]
fn url_to_gs_uri_inverts_gs_uri_to_url() {
    let obj = run(
        op_url_to_gs_uri,
        r#"{"url": "https://storage.googleapis.com/my-bucket/path/to/file.json"}"#,
    );
    assert_eq!(obj["uri"], "gs://my-bucket/path/to/file.json");
    assert_eq!(obj["bucket"], "my-bucket");
    assert_eq!(obj["object"], "path/to/file.json");
    let vh = run(
        op_url_to_gs_uri,
        r#"{"url": "https://my-bucket.storage.googleapis.com/a/b.txt"}"#,
    );
    assert_eq!(vh["uri"], "gs://my-bucket/a/b.txt");
    assert_eq!(vh["bucket"], "my-bucket");
    assert_eq!(
        run(op_url_to_gs_uri, r#"{"url": "https://commondatastorage.googleapis.com/b"}"#)["uri"],
        "gs://b"
    );
    for uri in ["gs://b/k", "gs://b", "gs://my-bucket/deep/key.bin"] {
        let url = run_with(op_gs_uri_to_url, &[("uri", uri)])["url"].as_str().unwrap().to_string();
        assert_eq!(run_with(op_url_to_gs_uri, &[("url", &url)])["uri"], uri);
    }
    assert!(fails(op_url_to_gs_uri, r#"{"url": "https://example.com/b/k"}"#));
    assert!(fails(op_url_to_gs_uri, r#"{"url": "gs://b/k"}"#));
}

#[test]
fn both_url_styles_lead_to_one_uri() {
    for (bucket, object) in [("b", "k"), ("my-bucket", "a/b.txt"), ("commondata", ""), ("x.y", "/")]
    {
        let hosted = format!("https://{bucket}.storage.googleapis.com/{object}");
        let path = format!("https://storage.googleapis.com/{bucket}/{object}");
        assert_eq!(
            run_with(op_url_to_gs_uri, &[("url", &hosted)]),
            run_with(op_url_to_gs_uri, &[("url", &path)])
        );
    }
}

#[test]
fn gs_uris_are_refused_with_a_reason() {
    assert_eq!(refused(op_parse_gs_uri, "{}"), "missing uri");
    assert_eq!(refused(op_parse_gs_uri, r#"{"uri": "s3://x"}"#), "not a gs:// URI: s3://x");
    assert_eq!(refused(op_gs_uri_to_url, r#"{"uri": "gs:///k"}"#), "gs URI missing bucket: gs:///k");
    assert_eq!(refused(op_build_gs_uri, r#"{"bucket": 1}"#), "missing bucket");
    assert_eq!(refused(op_build_gs_uri, r#"{"bucket": ""}"#), "bucket must not be empty");
    assert_eq!(refused(op_url_to_gs_uri, "{}"), "missing url");
    assert_eq!(
        refused(op_url_to_gs_uri, r#"{"url": "ftp://b/k"}"#),
        "not an http(s) URL: ftp://b/k"
    );
    assert_eq!(
        refused(op_url_to_gs_uri, r#"{"url": "http://example.com/b"}"#),
        "not a GCS URL: http://example.com/b"
    );
    assert_eq!(
        refused(op_url_to_gs_uri, r#"{"url": "http://storage.googleapis.com"}"#),
        "GCS URL missing bucket: http://storage.googleapis.com"
    );
}

#[test]
fn built_uris_of_odd_objects_are_not_what_was_parsed() {
    for (uri, rebuilt) in [("gs://b/", "gs://b"), ("gs://b//k", "gs://b/k"), ("gs://b/k", "gs://b/k")]
    {
        let parts = op_parse_gs_uri(texts(&[("uri", uri)])).unwrap();
        assert_eq!(value_of(&op_build_gs_uri(parts).unwrap())["uri"], rebuilt);
    }
}

// Resource names

#[test]
fn parse_resource_name_pairs_collections_with_ids() {
    let v = run(op_parse_resource_name, r#"{"name": "projects/my-proj/topics/orders"}"#);
    assert_eq!(v["pairs"]["projects"], "my-proj");
    assert_eq!(v["pairs"]["topics"], "orders");
    assert_eq!(v["trailing"], Value::Null, "even path has no trailing segment");
    let odd = run(op_parse_resource_name, r#"{"name": "projects/p/secrets"}"#);
    assert_eq!(odd["pairs"]["projects"], "p");
    assert_eq!(odd["trailing"], "secrets");
}

#[test]
fn parse_resource_name_keeps_the_last_of_equal_collections() {
    let v = run(op_parse_resource_name, r#"{"resource": "//a/1//b/2/a/3"}"#);
    assert_eq!(v["parts"], parsed(r#"["a", "1", "b", "2", "a", "3"]"#));
    assert_eq!(v["pairs"], parsed(r#"{"a": "3", "b": "2"}"#));
    assert_eq!(refused(op_parse_resource_name, "{}"), "missing name");
    assert_eq!(refused(op_parse_resource_name, r#"{"name": "//"}"#), "empty resource name");
    assert_eq!(
        refused(op_parse_resource_name, r#"{"name": 7, "resource": "a/b"}"#),
        "missing name"
    );
}

#[test]
fn resource_name_parent_drops_the_leaf_pair() {
    let v = run(op_resource_name_parent, r#"{"name": "projects/p/locations/l/clusters/c"}"#);
    assert_eq!(v["parent"], "projects/p/locations/l");
    assert_eq!(v["collection"], "clusters");
    assert_eq!(v["id"], "c");
    assert_eq!(v["has_parent"], true);
    let top = run(op_resource_name_parent, r#"{"name": "projects/my-proj"}"#);
    assert_eq!(top["parent"], "");
    assert_eq!(top["has_parent"], false);
    assert_eq!(top["collection"], "projects");
    assert_eq!(top["id"], "my-proj");
    assert_eq!(
        run(op_resource_name_parent, r#"{"resource": "/projects/p/topics/t/"}"#)["parent"],
        "projects/p"
    );
    assert!(fails(op_resource_name_parent, r#"{"name": "projects/p/secrets"}"#));
    assert!(fails(op_resource_name_parent, r#"{"name": ""}"#));
    assert!(fails(op_resource_name_parent, "{}"));
}

#[test]
fn resource_name_parent_says_what_it_wants() {
    assert_eq!(
        refused(op_resource_name_parent, r#"{"name": "projects/p/secrets"}"#),
        "not a relative resource name (expected `collection/id` pairs): `projects/p/secrets`"
    );
}

#[test]
fn build_resource_name_inverts_parse_resource_name() {
    assert_eq!(
        run(op_build_resource_name, r#"{"parts": ["projects", "p", "topics", "t"]}"#)["name"],
        "projects/p/topics/t"
    );
    assert_eq!(
        run(
            op_build_resource_name,
            r#"{"pairs": [["projects", "p"], ["secrets", "s"]], "trailing": "versions"}"#
        )["name"],
        "projects/p/secrets/s/versions"
    );
    assert_eq!(
        run(op_build_resource_name, r#"{"pairs": [{"collection": "projects", "id": "p"}]}"#)
            ["name"],
        "projects/p"
    );
    for name in ["projects/p/topics/t", "projects/p/secrets", "buckets/b"] {
        let parts = op_parse_resource_name(texts(&[("name", name)])).unwrap().at("parts");
        let rebuilt =
            op_build_resource_name(Json::Object(Members::new().with("parts", parts))).unwrap();
        assert_eq!(value_of(&rebuilt)["name"], name, "round-trip for {name}");
    }
    assert!(fails(op_build_resource_name, r#"{"parts": []}"#));
    assert!(fails(op_build_resource_name, r#"{"parts": ["a/b", "c"]}"#));
    assert!(fails(op_build_resource_name, "{}"));
}

#[test]
fn build_resource_name_refuses_with_a_reason() {
    for (args, message) in [
        (r#"{"parts": []}"#, "parts must not be empty"),
        (r#"{"parts": ["a", 1]}"#, "parts entries must be strings"),
        (r#"{"parts": ["a", ""]}"#, "invalid segment `` (non-empty, no `/`)"),
        (r#"{"parts": ["a/b"]}"#, "invalid segment `a/b` (non-empty, no `/`)"),
        (r#"{"pairs": [["a"]]}"#, "each pair must be [collection, id] or {collection, id}"),
        (r#"{"pairs": ["a"]}"#, "each pair must be [collection, id] or {collection, id}"),
        (r#"{"pairs": [[1, "b"]]}"#, "pair missing collection"),
        (r#"{"pairs": [{"collection": "a"}]}"#, "pair missing id"),
        (r#"{"pairs": [], "trailing": "a/b"}"#, "invalid segment `a/b` (non-empty, no `/`)"),
        (r#"{"pairs": []}"#, "no segments to build"),
        (r#"{"parts": "a", "pairs": 1}"#, "missing parts or pairs"),
    ] {
        assert_eq!(refused(op_build_resource_name, args), message);
    }
}

// Table references

#[test]
fn parse_table_ref_handles_standard_and_legacy_forms() {
    let std = run(op_parse_table_ref, r#"{"table_ref": "my-proj.sales.orders"}"#);
    assert_eq!(std["project"], "my-proj");
    assert_eq!(std["dataset"], "sales");
    assert_eq!(std["table"], "orders");
    assert_eq!(std["legacy"], false);
    let leg = run(op_parse_table_ref, r#"{"table_ref": "my-proj:sales.orders"}"#);
    assert_eq!(leg["project"], "my-proj");
    assert_eq!(leg["dataset"], "sales");
    assert_eq!(leg["table"], "orders");
    assert_eq!(leg["legacy"], true);
    let bare = run(op_parse_table_ref, r#"{"table_ref": "sales.orders"}"#);
    assert_eq!(bare["project"], Value::Null);
    assert_eq!(bare["dataset"], "sales");
    assert_eq!(bare["table"], "orders");
    assert_eq!(run(op_parse_table_ref, r#"{"value": "p.d.t"}"#)["table"], "t");
    assert!(fails(op_parse_table_ref, r#"{"table_ref": "orders"}"#));
    assert!(fails(op_parse_table_ref, r#"{"table_ref": "proj..table"}"#));
    assert!(fails(op_parse_table_ref, r#"{"table_ref": "a:b:c.d"}"#));
    assert!(fails(op_parse_table_ref, r#"{"table_ref": "p.d.t.extra"}"#));
    assert!(fails(op_parse_table_ref, "{}"));
}

#[test]
fn build_table_ref_inverts_parse_table_ref() {
    assert_eq!(
        run(op_build_table_ref, r#"{"project": "p", "dataset": "d", "table": "t"}"#)["table_ref"],
        "p.d.t"
    );
    assert_eq!(
        run(
            op_build_table_ref,
            r#"{"project": "p", "dataset": "d", "table": "t", "legacy": true}"#
        )["table_ref"],
        "p:d.t"
    );
    assert_eq!(
        run(op_build_table_ref, r#"{"dataset": "d", "table": "t"}"#)["table_ref"],
        "d.t"
    );
    for av in ["my-proj.sales.orders", "my-proj:sales.orders", "sales.orders"] {
        let p = op_parse_table_ref(texts(&[("table_ref", av)])).unwrap();
        let rebuilt = op_build_table_ref(Json::Object(
            Members::new()
                .with("project", p.at("project"))
                .with("dataset", p.at("dataset"))
                .with("table", p.at("table"))
                .with("legacy", p.at("legacy")),
        ))
        .unwrap();
        assert_eq!(value_of(&rebuilt)["table_ref"], av, "round-trip {av}");
    }
    assert!(fails(op_build_table_ref, r#"{"table": "t"}"#));
    assert!(fails(op_build_table_ref, r#"{"dataset": "d"}"#));
    assert!(fails(op_build_table_ref, r#"{"dataset": "a.b", "table": "t"}"#));
    assert!(fails(op_build_table_ref, r#"{"dataset": "d", "table": "t", "legacy": true}"#));
    assert!(fails(op_build_table_ref, "{}"));
}

#[test]
fn table_refs_are_refused_with_a_reason() {
    for (args, message) in [
        ("{}", "missing table_ref"),
        (r#"{"table_ref": "a:b:c.d"}"#, "invalid table ref `a:b:c.d` (more than one `:`)"),
        (
            r#"{"table_ref": "p:a.b.c"}"#,
            "invalid table ref `p:a.b.c` (want [project.|project:]dataset.table)",
        ),
        (r#"{"table_ref": ":d.t"}"#, "table ref `:d.t` has an empty segment"),
        (r#"{"table_ref": "d."}"#, "table ref `d.` has an empty segment"),
    ] {
        assert_eq!(refused(op_parse_table_ref, args), message);
    }
    for (args, message) in [
        (r#"{"dataset": ""}"#, "missing dataset"),
        (r#"{"dataset": "d", "table": 1}"#, "missing table"),
        (r#"{"dataset": "d", "table": "a:b"}"#, "table must not contain `.` or `:`: a:b"),
        (
            r#"{"dataset": "d", "table": "t", "project": "a.b"}"#,
            "project must not contain `.` or `:`: a.b",
        ),
        (r#"{"dataset": "d", "table": "t", "legacy": "TRUE"}"#, "legacy form requires a project"),
    ] {
        assert_eq!(refused(op_build_table_ref, args), message);
    }
}

#[test]
fn legacy_projects_with_dots_are_parsed_but_not_built() {
    let v = op_parse_table_ref(texts(&[("table_ref", "a.b:d.t")])).unwrap();
    assert_eq!(value_of(&v)["project"], "a.b");
    assert!(op_build_table_ref(v).is_err());
}

// Naming rules

#[test]
fn valid_bucket_name_enforces_gcs_rules() {
    assert_eq!(run(op_valid_bucket_name, r#"{"name": "my_data.bucket-1"}"#)["valid"], true);
    for (name, want) in [
        ("ab", "3-63"),
        ("UPPER", "lowercase"),
        ("-bad", "start and end"),
        ("10.0.0.1", "IP address"),
        ("goog-private", "goog"),
        ("my-google-data", "google"),
    ] {
        let v = run_with(op_valid_bucket_name, &[("name", name)]);
        assert_eq!(v["valid"], false, "{name} should be invalid");
        assert!(
            v["reason"].as_str().unwrap().contains(want),
            "{name}: reason `{}` should mention `{want}`",
            v["reason"]
        );
    }
}

#[test]
fn bucket_names_like_addresses_are_told_apart() {
    let valid = |name: &str| run_with(op_valid_bucket_name, &[("name", name)])["valid"].clone();
    assert_eq!(valid("255.255.255.255"), false);
    assert_eq!(valid("0.0.0.0"), false);
    assert_eq!(valid("256.0.0.1"), true);
    assert_eq!(valid("01.0.0.1"), true);
    assert_eq!(valid("1.2.3"), true);
    assert_eq!(valid("1.2.3.4.5"), true);
    assert_eq!(valid("1..3.4"), true);
    assert_eq!(valid(&"a".repeat(63)), true);
    assert_eq!(valid(&"a".repeat(64)), false);
}

#[test]
fn valid_project_id_enforces_gcp_rules() {
    let ok =
        |id: &str| run_with(op_valid_project_id, &[("id", id)])["valid"].as_bool().unwrap();
    assert!(ok("my-project-123"));
    assert!(ok("abcdef"), "exactly 6 chars");
    assert!(ok(&format!("a{}", "b".repeat(29))), "exactly 30 chars");
    for (id, want) in [
        ("short", "6-30"),
        ("1starts-with-digit", "lowercase letter"),
        ("Uppercase-id", "lowercase letter"),
        ("ends-with-dash-", "end with a hyphen"),
        ("has_underscore", "hyphens"),
    ] {
        let v = run_with(op_valid_project_id, &[("id", id)]);
        assert_eq!(v["valid"], false, "{id} should be invalid");
        assert!(
            v["reason"].as_str().unwrap().contains(want),
            "{id}: reason `{}` should mention `{want}`",
            v["reason"]
        );
    }
    assert!(!ok(&"a".repeat(31)), "31 chars exceeds the max");
    assert!(fails(op_valid_project_id, "{}"));
}

#[test]
fn valid_object_name_enforces_gcs_hard_rules() {
    let chk = |n: &str| run_with(op_valid_object_name, &[("name", n)]);
    for ok in [
        "a",
        "dir/sub/file.txt",
        "a.b.c",
        "naïve.txt",
        "with spaces.png",
        &"x".repeat(1024),
    ] {
        assert_eq!(chk(ok)["valid"], true, "`{ok}` should be valid");
    }
    assert_eq!(chk("")["valid"], false);
    assert_eq!(chk(&"x".repeat(1025))["valid"], false);
    assert_eq!(chk(&"é".repeat(513))["valid"], false);
    assert_eq!(chk("a\rb")["valid"], false);
    assert_eq!(chk("a\nb")["valid"], false);
    assert_eq!(chk(".")["valid"], false);
    assert_eq!(chk("..")["valid"], false);
    assert_eq!(chk("...")["valid"], true);
    assert_eq!(chk(".hidden")["valid"], true);
    assert_eq!(chk(".well-known/acme-challenge/token")["valid"], false);
    assert_eq!(chk(".well-known/other")["valid"], true);
    assert!(fails(op_valid_object_name, "{}"));
}

#[test]
fn region_for_zone_strips_the_zone_letter() {
    let v = run(op_region_for_zone, r#"{"zone": "us-central1-a"}"#);
    assert_eq!(v["region"], "us-central1");
    assert_eq!(v["zone_letter"], "a");
    assert_eq!(run(op_region_for_zone, r#"{"zone": "europe-west4-b"}"#)["region"], "europe-west4");
    assert_eq!(
        run(op_region_for_zone, r#"{"zone": "asia-northeast1-c"}"#)["region"],
        "asia-northeast1"
    );
    assert!(fails(op_region_for_zone, r#"{"zone": "uscentral1"}"#));
    assert!(fails(op_region_for_zone, r#"{"zone": "us-central1-ab"}"#));
    assert!(fails(op_region_for_zone, r#"{"zone": "us-central1-1"}"#));
    assert!(fails(op_region_for_zone, "{}"));
}

#[test]
fn region_for_zone_says_what_is_wrong() {
    for (zone, message) in [
        ("x", "not a GCP zone (want <region>-<letter>): x"),
        ("-a", "zone `-a` has an empty region part"),
        ("us-é", "zone `us-é` must end with a single-letter zone suffix"),
    ] {
        let err = op_region_for_zone(texts(&[("zone", zone)])).unwrap_err();
        assert_eq!(err.to_text(), message);
    }
}

#[test]
fn valid_label_enforces_resource_manager_rules() {
    let chk = |k: &str, v: &str| run_with(op_valid_label, &[("key", k), ("value", v)]);
    assert_eq!(chk("env", "prod")["valid"], true);
    assert_eq!(chk("cost-center_1", "team-a_2")["valid"], true);
    assert_eq!(chk("team", "")["valid"], true, "empty value is allowed");
    for (k, v, want) in [
        ("", "x", "key must not be empty"),
        ("1env", "x", "start with a lowercase letter"),
        ("Env", "x", "start with a lowercase letter"),
        ("env.x", "x", "key may contain"),
        ("env", "Prod", "value may contain"),
        ("env", "a b", "value may contain"),
    ] {
        let r = chk(k, v);
        assert_eq!(r["valid"], false, "`{k}`=`{v}` should be invalid");
        assert!(
            r["reason"].as_str().unwrap().contains(want),
            "`{k}`=`{v}`: reason `{}` should mention `{want}`",
            r["reason"]
        );
    }
    assert_eq!(chk(&format!("a{}", "b".repeat(62)), "x")["valid"], true);
    assert_eq!(chk(&format!("a{}", "b".repeat(63)), "x")["valid"], false);
    assert_eq!(run(op_valid_label, r#"{"key": "env"}"#)["valid"], true);
    assert!(fails(op_valid_label, "{}"));
}

#[test]
fn labels_may_begin_outside_ascii() {
    let chk = |k: &str, v: &str| run_with(op_valid_label, &[("key", k), ("value", v)]);
    assert_eq!(chk("état", "é")["valid"], true);
    assert_eq!(chk("k", &"é".repeat(64))["reason"], "value must be at most 63 characters");
}

#[test]
fn valid_pubsub_id_enforces_naming_guidelines() {
    let chk = |id: &str| run_with(op_valid_pubsub_id, &[("id", id)]);
    assert_eq!(chk("my-topic")["valid"], true);
    assert_eq!(chk("orders.v2_dead-letter~1+a%20")["valid"], true);
    assert_eq!(chk("abc")["valid"], true, "3 chars is the min");
    assert_eq!(chk("ab")["valid"], false);
    assert!(chk("ab")["reason"].as_str().unwrap().contains("3-255"));
    assert_eq!(chk(&"a".repeat(256))["valid"], false);
    assert_eq!(chk(&"a".repeat(255))["valid"], true);
    let dig = chk("1topic");
    assert_eq!(dig["valid"], false);
    assert!(dig["reason"].as_str().unwrap().contains("start with a letter"));
    let g = chk("googtopic");
    assert_eq!(g["valid"], false);
    assert!(g["reason"].as_str().unwrap().contains("goog"));
    assert_eq!(chk("Googtopic")["valid"], true);
    for bad in ["has space", "slash/no", "dollar$", "comma,no"] {
        assert_eq!(chk(bad)["valid"], false, "`{bad}` should be invalid");
    }
    assert_eq!(run(op_valid_pubsub_id, r#"{"name": "my-sub"}"#)["valid"], true);
    assert!(fails(op_valid_pubsub_id, "{}"));
}

#[test]
fn valid_service_account_id_enforces_iam_account_id_rules() {
    let chk = |id: &str| run_with(op_valid_service_account_id, &[("id", id)]);
    assert_eq!(chk("my-svc")["valid"], true, "6 chars is the min");
    assert_eq!(chk("deploy-bot-01")["valid"], true);
    assert_eq!(chk(&"a".repeat(30))["valid"], true, "30 chars is the max");
    assert_eq!(chk("svc")["valid"], false, "5 chars is too short");
    assert!(chk("abc")["reason"].as_str().unwrap().contains("6-30"));
    assert_eq!(chk(&"a".repeat(31))["valid"], false);
    let dig = chk("1service");
    assert_eq!(dig["valid"], false);
    assert!(dig["reason"].as_str().unwrap().contains("start with a lowercase letter"));
    assert_eq!(chk("-service")["valid"], false);
    let trail = chk("service-");
    assert_eq!(trail["valid"], false);
    assert!(trail["reason"].as_str().unwrap().contains("end with a hyphen"));
    for bad in ["MyService", "my_service", "my.service", "my svc"] {
        assert_eq!(chk(bad)["valid"], false, "`{bad}` should be invalid");
    }
    assert_eq!(
        run(op_valid_service_account_id, r#"{"account_id": "billing-export"}"#)["valid"],
        true
    );
    assert!(fails(op_valid_service_account_id, "{}"));
}

#[test]
fn project_ids_and_service_account_ids_are_the_same() {
    for id in ["my-project-1", "a-b-c-", "1abcdef", "abcdéf", "UPPERCASE", "abc", "abcdef"] {
        let project = run_with(op_valid_project_id, &[("id", id)])["valid"].clone();
        let account = run_with(op_valid_service_account_id, &[("id", id)])["valid"].clone();
        assert_eq!(project, account, "{id}");
    }
}

#[test]
fn valid_secret_id_enforces_secret_manager_rules() {
    let chk = |id: &str| run_with(op_valid_secret_id, &[("id", id)]);
    assert_eq!(chk("my-Secret_1")["valid"], true);
    assert_eq!(chk("-leading-ok")["valid"], true, "no leading-letter rule");
    assert_eq!(chk("trailing-")["valid"], true, "no trailing-hyphen rule");
    assert_eq!(chk("A")["valid"], true);
    assert_eq!(chk(&"a".repeat(255))["valid"], true, "255 is the max");
    assert_eq!(chk(&"a".repeat(256))["valid"], false);
    assert_eq!(chk("")["valid"], false);
    for bad in ["has space", "dot.id", "slash/id", "plus+id"] {
        assert_eq!(chk(bad)["valid"], false, "`{bad}` should be invalid");
    }
    assert!(chk("dot.id")["reason"].is_string());
    assert_eq!(run(op_valid_secret_id, r#"{"secret_id": "db-password"}"#)["valid"], true);
    assert!(fails(op_valid_secret_id, "{}"));
}

#[test]
fn valid_dataset_id_enforces_bigquery_naming() {
    let chk = |id: &str| run_with(op_valid_dataset_id, &[("id", id)]);
    assert_eq!(chk("my_dataset")["valid"], true);
    assert_eq!(chk("MyDataset2025")["valid"], true);
    assert_eq!(chk("_hidden")["valid"], true, "leading underscore is a hidden dataset");
    assert_eq!(chk("a")["valid"], true, "single char is fine");
    assert_eq!(chk(&"a".repeat(1024))["valid"], true);
    let long = chk(&"a".repeat(1025));
    assert_eq!(long["valid"], false);
    assert!(long["reason"].as_str().unwrap().contains("1024"));
    for bad in ["has space", "with-hyphen", "tbl.name", "amp&", "at@", "pct%"] {
        assert_eq!(chk(bad)["valid"], false, "`{bad}` should be invalid");
    }
    assert_eq!(chk("")["valid"], false);
    assert_eq!(run(op_valid_dataset_id, r#"{"name": "events_2025"}"#)["valid"], true);
    assert!(fails(op_valid_dataset_id, "{}"));
}

#[test]
fn valid_table_id_is_broader_than_dataset_id() {
    let chk = |id: &str| run_with(op_valid_table_id, &[("id", id)]);
    assert_eq!(chk("my-table 2025")["valid"], true);
    assert_eq!(chk("orders_v2")["valid"], true);
    let u = chk("café_table");
    assert_eq!(u["valid"], true);
    assert_eq!(u["bytes"], 11);
    assert_eq!(chk(&"a".repeat(1024))["valid"], true);
    let over = chk(&"a".repeat(1025));
    assert_eq!(over["valid"], false);
    assert!(over["reason"].as_str().unwrap().contains("1024 bytes"));
    for bad in ["tbl.name", "a:b", "a/b", "amp&", "pct%"] {
        assert_eq!(chk(bad)["valid"], false, "`{bad}` should be invalid");
    }
    assert_eq!(chk("")["valid"], false);
    assert_eq!(run(op_valid_table_id, r#"{"name": "events 2025"}"#)["valid"], true);
    assert!(fails(op_valid_table_id, "{}"));
}

#[test]
fn table_ids_take_letters_of_any_script_and_no_symbols() {
    let chk = |id: &str| run_with(op_valid_table_id, &[("id", id)])["valid"].clone();
    assert_eq!(chk("日本語"), true);
    assert_eq!(chk("٣"), true);
    assert_eq!(chk("€"), false);
    assert_eq!(chk("a…b"), false);
    for id in ["a", "_x9", "Z"] {
        assert_eq!(run_with(op_valid_dataset_id, &[("id", id)])["valid"], true);
        assert_eq!(chk(id), true);
    }
}
