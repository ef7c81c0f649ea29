use serde_json::Value;
use stryke_gcp::gcs::{buckets, dispatch, head, put, rm, GcsCmd, Listing, Step};
use stryke_gcp::json::{Json, Members, Number};
use stryke_gcp::options::Env;
use stryke_gcp::request::{Body, Method};

/// The library's form of a JSON value.
fn json_of(v: &Value) -> Json {
    match v {
        Value::Null => Json::Null,
        Value::Bool(b) => Json::Bool(*b),
        Value::Number(n) => Json::Number(if let Some(u) = n.as_u64() {
            Number::PosInt(u)
        } else if let Some(i) = n.as_i64() {
            Number::NegInt(i)
        } else {
            Number::Float(n.as_f64().unwrap().to_bits())
        }),
        Value::String(s) => Json::String(s.clone()),
        Value::Array(a) => Json::Array(a.iter().map(json_of).collect()),
        Value::Object(m) => {
            let mut members = Members::new();
            for (k, v) in m {
                members = members.with(k, json_of(v));
            }
            Json::Object(members)
        }
    }
}

/// The plain form of a value of the library.
fn value_of(j: &Json) -> Value {
    match j {
        Json::Null => Value::Null,
        Json::Bool(b) => Value::Bool(*b),
        Json::Number(Number::PosInt(u)) => Value::from(*u),
        Json::Number(Number::NegInt(i)) => Value::from(*i),
        Json::Number(Number::Float(bits)) => Value::from(f64::from_bits(*bits)),
        Json::String(s) => Value::String(s.clone()),
        Json::Array(a) => Value::Array(a.iter().map(value_of).collect()),
        Json::Object(m) => {
            let mut map = serde_json::Map::new();
            for (k, v) in &m.entries {
                map.insert(k.clone(), value_of(v));
            }
            Value::Object(map)
        }
    }
}

/// Parses a JSON text.
fn parsed(text: &str) -> Value {
    serde_json::from_str(text).unwrap()
}

/// Parses a JSON text to a value of the library.
fn json(text: &str) -> Json {
    json_of(&parsed(text))
}

/// An environment in which no variable is set.
fn nowhere() -> Env {
    Env {
        google_cloud_project: None,
        gcloud_project: None,
        gcp_project: None,
        application_credentials: None,
    }
}

/// What a command does first, in the project `p`.
fn first(cmd: GcsCmd) -> Step {
    dispatch(Some("p"), &nowhere(), cmd).unwrap()
}

/// The message with which a command is refused.
fn refused(cmd: GcsCmd) -> String {
    dispatch(None, &nowhere(), cmd).unwrap_err().to_text().to_string()
}

/// The keys of the lines that a listing writes of the pages.
fn keys(limit: Option<usize>, pages: &[&str]) -> Vec<String> {
    let mut listing = Listing::start("gs://b/p/", &None, 2, limit).unwrap();
    let mut out = Vec::new();
    for page in pages {
        let (next, lines, more) = listing.take(&json(page));
        listing = next;
        for line in &lines {
            out.push(value_of(line)["key"].as_str().unwrap().to_string());
        }
        if !more {
            break;
        }
    }
    out
}

const PAGES: [&str; 3] = [
    r#"{"prefixes": ["x/", 1, "y/"], "items": [{"name": "a"}], "nextPageToken": "n1"}"#,
    r#"{"nextPageToken": "n2"}"#,
    r#"{"items": [{"name": "b"}, {"name": "c"}]}"#,
];

#[test]
fn ls_writes_prefixes_and_objects_of_all_pages() {
    assert_eq!(keys(None, &PAGES), ["x/", "y/", "a", "b", "c"]);
}

#[test]
fn ls_stops_at_its_limit() {
    assert_eq!(keys(Some(1), &PAGES), ["x/"]);
    assert_eq!(keys(Some(3), &PAGES), ["x/", "y/", "a"]);
    assert_eq!(keys(Some(4), &PAGES), ["x/", "y/", "a", "b"]);
    assert_eq!(keys(Some(9), &PAGES), ["x/", "y/", "a", "b", "c"]);
}

#[test]
fn ls_with_a_limit_of_zero_writes_one_line() {
    assert_eq!(keys(Some(0), &PAGES), ["x/"]);
    assert_eq!(keys(Some(0), &["{}"]), Vec::<String>::new());
}

#[test]
fn ls_asks_for_the_page_that_comes_next() {
    let delimiter = Some("/".to_string());
    let listing = Listing::start("gs://my b/dir", &delimiter, 50, None).unwrap();
    let q = listing.request();
    assert_eq!(q.method, Method::Get);
    assert_eq!(q.url, "https://storage.googleapis.com/storage/v1/b/my%20b/o");
    let pair = |a: &str, b: &str| (a.to_string(), b.to_string());
    assert_eq!(
        q.query,
        vec![pair("maxResults", "50"), pair("prefix", "dir"), pair("delimiter", "/")]
    );
    let (next, _, more) = listing.take(&json(r#"{"nextPageToken": "tok"}"#));
    assert!(more);
    assert_eq!(next.request().query[3], pair("pageToken", "tok"));
    let bare = Listing::start("gs://b", &None, 1, None).unwrap();
    assert_eq!(bare.request().query, vec![pair("maxResults", "1")]);
}

#[test]
fn ls_lines_have_the_metadata() {
    let listing = Listing::start("gs://b", &None, 1, None).unwrap();
    let (_, lines, more) = listing.take(&json(
        r#"{"prefixes": ["d/"], "items": [{"name": "k", "size": "12", "etag": "e"}]}"#,
    ));
    assert!(!more);
    assert_eq!(value_of(&lines[0]), parsed(r#"{"type": "prefix", "key": "d/"}"#));
    assert_eq!(
        value_of(&lines[1]),
        parsed(
            r#"{"type": "object", "key": "k", "size": 12, "content_type": null, "md5": null,
                "etag": "e", "updated": null, "storage_class": null, "generation": null}"#
        )
    );
}

#[test]
fn objects_need_a_full_uri() {
    for (cmd, verb) in [
        (GcsCmd::Get { uri: "gs://b".into(), output: "-".into() }, "get"),
        (
            GcsCmd::Put {
                uri: "gs://b/".into(),
                input: "-".into(),
                content_type: "t".into(),
                cache_control: None,
            },
            "put",
        ),
        (GcsCmd::Head { uri: "gs://b".into() }, "head"),
        (GcsCmd::Rm { uri: "gs://b".into() }, "rm"),
    ] {
        assert_eq!(refused(cmd), format!("{verb} needs a full object URI (gs://bucket/key)"));
    }
    assert_eq!(
        refused(GcsCmd::Rm { uri: "b/k".into() }),
        "expected `gs://bucket/key…`, got `b/k`"
    );
    assert!(refused(GcsCmd::Buckets).contains("no GCP project specified"));
}

#[test]
fn objects_are_addressed_by_bucket_and_key() {
    match first(GcsCmd::Get { uri: "gs://b/k/é".into(), output: "file".into() }) {
        Step::Download { request, output } => {
            assert_eq!(
                request.url,
                "https://storage.googleapis.com/storage/v1/b/b/o/k%2F%C3%A9?alt=media"
            );
            assert_eq!(output, "file");
        }
        _ => panic!("another step"),
    }
    match first(GcsCmd::Head { uri: "gs://b/k".into() }) {
        Step::Show { request } => {
            assert_eq!(request.url, "https://storage.googleapis.com/storage/v1/b/b/o/k")
        }
        _ => panic!("another step"),
    }
    match first(GcsCmd::Rm { uri: "gs://b/k".into() }) {
        Step::Remove { request, bucket, key } => {
            assert_eq!(request.method, Method::Delete);
            assert_eq!(
                value_of(&rm(&bucket, &key)),
                parsed(r#"{"bucket": "b", "key": "k", "deleted": true}"#)
            );
        }
        _ => panic!("another step"),
    }
    match first(GcsCmd::Buckets) {
        Step::ListBuckets { request } => {
            assert_eq!(request.url, "https://storage.googleapis.com/storage/v1/b?project=p")
        }
        _ => panic!("another step"),
    }
    match first(GcsCmd::Ls { uri: "gs://b".into(), delimiter: None, page_size: 5, limit: None }) {
        Step::List(listing) => assert_eq!(listing.page_size, 5),
        _ => panic!("another step"),
    }
}

#[test]
fn uploads_carry_their_headers() {
    let step = first(GcsCmd::Put {
        uri: "gs://b/k".into(),
        input: "in".into(),
        content_type: "text/plain".into(),
        cache_control: Some("no-store".into()),
    });
    match step {
        Step::Upload { upload, input } => {
            assert_eq!(input, "in");
            let q = upload.request(vec![1, 2]);
            assert_eq!(
                q.url,
                "https://storage.googleapis.com/upload/storage/v1/b/b/o?uploadType=media&name=k"
            );
            assert_eq!(
                q.headers,
                vec![
                    ("Content-Type".to_string(), "text/plain".to_string()),
                    ("Cache-Control".to_string(), "no-store".to_string())
                ]
            );
            assert!(matches!(q.body, Body::Bytes(b) if b == [1, 2]));
        }
        _ => panic!("another step"),
    }
}

#[test]
fn metadata_is_shown() {
    let v = json(r#"{"bucket": "b", "name": "k", "size": "x", "md5Hash": "m"}"#);
    assert_eq!(
        value_of(&put(&v)),
        parsed(
            r#"{"bucket": "b", "key": "k", "size": null, "md5": "m", "etag": null,
                "generation": null}"#
        )
    );
    assert_eq!(value_of(&head(&v))["cache_control"], Value::Null);
    assert_eq!(value_of(&head(&v))["key"], "k");
    let lines = buckets(&json(r#"{"items": [{"name": "n", "timeCreated": "t"}]}"#));
    assert_eq!(
        value_of(&lines[0]),
        parsed(r#"{"name": "n", "location": null, "storage_class": null, "created": "t"}"#)
    );
}
