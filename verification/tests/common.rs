use serde_json::Value;
use stryke_gcp::common::{
    emit_ndjson_line, is_success, json_request, parse_gs_uri, resolve_project, url_encode,
};
use stryke_gcp::json::Json;
use stryke_gcp::options::Env;

/// An environment in which no variable is set.
fn nowhere() -> Env {
    Env {
        google_cloud_project: None,
        gcloud_project: None,
        gcp_project: None,
        application_credentials: None,
    }
}

/// The compact form of a JSON text.
fn serialised(text: &str) -> Vec<u8> {
    let v: Value = serde_json::from_str(text).unwrap();
    serde_json::to_vec(&v).unwrap()
}


// ─── parse_gs_uri ────────────────────────────────────────────────

#[test]
fn parse_gs_uri_bucket_and_key() {
    let (b, k) = parse_gs_uri("gs://my-bucket/path/to/file.json").unwrap();
    assert_eq!(b, "my-bucket");
    assert_eq!(k, "path/to/file.json");
}

#[test]
fn parse_gs_uri_bucket_only_returns_empty_key() {
    let (b, k) = parse_gs_uri("gs://bucket-only").unwrap();
    assert_eq!(b, "bucket-only");
    assert_eq!(k, "");
}

#[test]
fn parse_gs_uri_trailing_slash_empty_key() {
    let (b, k) = parse_gs_uri("gs://b/").unwrap();
    assert_eq!(b, "b");
    assert_eq!(k, "");
}

#[test]
fn parse_gs_uri_preserves_inner_slashes() {
    // split_once stops at FIRST '/', remainder is key verbatim.
    let (b, k) = parse_gs_uri("gs://b/a/b/c").unwrap();
    assert_eq!(b, "b");
    assert_eq!(k, "a/b/c");
}

#[test]
fn parse_gs_uri_missing_scheme_errors() {
    let err = parse_gs_uri("s3://bucket/key").unwrap_err();
    let msg = err.to_text();
    assert!(msg.contains("gs://"));
}

#[test]
fn parse_gs_uri_case_sensitive_scheme() {
    assert!(parse_gs_uri("GS://bucket").is_err());
    assert!(parse_gs_uri("").is_err());
}

// ─── url_encode ──────────────────────────────────────────────────

#[test]
fn url_encode_passes_through_safe_chars() {
    assert_eq!(url_encode("abcXYZ123"), "abcXYZ123");
}

#[test]
fn url_encode_percent_encodes_slash() {
    // The whole point of url_encode is to make path segments safe —
    // '/' MUST be percent-encoded so a nested key isn't treated as
    // additional path segments.
    assert_eq!(url_encode("a/b"), "a%2Fb");
}

#[test]
fn url_encode_percent_encodes_spaces_and_special() {
    let got = url_encode("hello world?&=");
    assert!(!got.contains(' '));
    assert!(got.contains("%20") || got.contains("+"));
    // Reserved chars must be encoded.
    assert!(got.contains("%3F") || got.contains("%3f"));
}

#[test]
fn url_encode_handles_unicode() {
    let got = url_encode("日本語");
    // UTF-8 encoded as % triplets — definitely no raw multi-byte chars.
    assert!(got.starts_with('%'));
}

// ─── resolve_project with an explicit project ──

#[test]
fn resolve_project_explicit_wins() {
    let p = resolve_project(Some("my-project"), &nowhere()).unwrap();
    assert_eq!(p, "my-project");
}

#[test]
fn resolve_project_explicit_preserved_even_if_unusual() {
    // Liberal — does not validate project ID shape.
    assert_eq!(resolve_project(Some("p1-p2"), &nowhere()).unwrap(), "p1-p2");
    assert_eq!(resolve_project(Some("123"), &nowhere()).unwrap(), "123");
}

// ─── emit_ndjson_line ────────────────────────────────────────────

#[test]
fn emit_ndjson_line_appends_newline() {
    let mut buf = Vec::new();
    emit_ndjson_line(&mut buf, &serialised(r#"{"k": 1}"#));
    assert_eq!(String::from_utf8(buf).unwrap(), "{\"k\":1}\n");
}

#[test]
fn emit_ndjson_line_multi_call() {
    let mut buf = Vec::new();
    for i in 0..4 {
        emit_ndjson_line(&mut buf, &serialised(&format!("{{\"i\": {i}}}")));
    }
    let s = String::from_utf8(buf).unwrap();
    assert_eq!(s.lines().count(), 4);
    assert!(s.ends_with('\n'));
}

#[test]
fn parse_gs_uri_bucket_with_hyphens() {
    let (b, k) = parse_gs_uri("gs://my-proj-bucket/logs/2024/01/app.log").unwrap();
    assert_eq!(b, "my-proj-bucket");
    assert_eq!(k, "logs/2024/01/app.log");
}

#[test]
fn url_encode_empty_string() {
    assert_eq!(url_encode(""), "");
}

#[test]
fn url_encode_plus_sign() {
    assert_eq!(url_encode("+"), "%2B");
}

#[test]
fn resolve_project_explicit_empty_string_allowed() {
    assert_eq!(resolve_project(Some(""), &nowhere()).unwrap(), "");
}

#[test]
fn parse_gs_uri_error_mentions_gs_scheme() {
    let err = parse_gs_uri("http://b/k").unwrap_err();
    assert!(err.to_text().contains("gs://"));
}

#[test]
fn url_encode_hash_fragment() {
    assert_eq!(url_encode("#frag"), "%23frag");
}

#[test]
fn url_encode_query_string_chars() {
    let got = url_encode("a=1&b=2");
    assert!(got.contains("%3D") || got.contains("="));
    assert!(got.contains("%26") || got.contains("&"));
}

#[test]
fn parse_gs_uri_numeric_bucket_name() {
    let (b, k) = parse_gs_uri("gs://12345/data").unwrap();
    assert_eq!(b, "12345");
    assert_eq!(k, "data");
}

#[test]
fn emit_ndjson_line_bool_true() {
    let mut buf = Vec::new();
    emit_ndjson_line(&mut buf, &serialised(r#"true"#));
    assert_eq!(String::from_utf8(buf).unwrap(), "true\n");
}

#[test]
fn resolve_project_explicit_with_dots() {
    assert_eq!(resolve_project(Some("my.project.id"), &nowhere()).unwrap(), "my.project.id");
}

#[test]
fn url_encode_space_only() {
    assert_eq!(url_encode(" "), "%20");
}

#[test]
fn parse_gs_uri_bucket_with_underscores() {
    let (b, k) = parse_gs_uri("gs://my_bucket/data.parquet").unwrap();
    assert_eq!(b, "my_bucket");
    assert_eq!(k, "data.parquet");
}

#[test]
fn emit_ndjson_line_false_bool() {
    let mut buf = Vec::new();
    emit_ndjson_line(&mut buf, &serialised(r#"false"#));
    assert_eq!(String::from_utf8(buf).unwrap(), "false\n");
}

#[test]
fn url_encode_preserves_alphanumeric() {
    assert_eq!(url_encode("abc123XYZ"), "abc123XYZ");
}

#[test]
fn parse_gs_uri_empty_key_after_slash() {
    let (b, k) = parse_gs_uri("gs://only-bucket/").unwrap();
    assert_eq!(b, "only-bucket");
    assert_eq!(k, "");
}

#[test]
fn parse_gs_uri_bucket_only() {
    let (b, k) = parse_gs_uri("gs://bucket").unwrap();
    assert_eq!(b, "bucket");
    assert_eq!(k, "");
}

#[test]
fn parse_gs_uri_rejects_s3_scheme() {
    assert!(parse_gs_uri("s3://b/k").is_err());
}

#[test]
fn url_encode_tilde_preserved() {
    assert_eq!(url_encode("~"), "~");
}

#[test]
fn resolve_project_none_errors_without_env() {
    // Without a variable that names a project, None is an error.
    assert!(resolve_project(None, &nowhere()).is_err());
}

#[test]
fn emit_ndjson_line_number_zero() {
    let mut buf = Vec::new();
    emit_ndjson_line(&mut buf, &serialised(r#"0"#));
    assert_eq!(String::from_utf8(buf).unwrap(), "0\n");
}

#[test]
fn parse_gs_uri_deep_prefix() {
    let (b, k) = parse_gs_uri("gs://data/a/b/c/file.parquet").unwrap();
    assert_eq!(b, "data");
    assert_eq!(k, "a/b/c/file.parquet");
}

#[test]
fn url_encode_percent_sign() {
    assert_eq!(url_encode("%"), "%25");
}

#[test]
fn parse_gs_uri_error_mentions_input() {
    let bad = "file:///tmp/x";
    let err = parse_gs_uri(bad).unwrap_err();
    assert!(err.to_text().contains(bad));
}

#[test]
fn parse_gs_uri_key_with_question_mark() {
    let (b, k) = parse_gs_uri("gs://b/obj?query=1").unwrap();
    assert_eq!(b, "b");
    assert_eq!(k, "obj?query=1");
}

#[test]
fn url_encode_slash_encodes() {
    assert_eq!(url_encode("/"), "%2F");
}

#[test]
fn parse_gs_uri_rejects_http() {
    assert!(parse_gs_uri("http://b/k").is_err());
}

#[test]
fn emit_ndjson_line_i64_zero() {
    let mut buf = Vec::new();
    emit_ndjson_line(&mut buf, &serialised(r#"0"#));
    assert_eq!(String::from_utf8(buf).unwrap(), "0\n");
}

#[test]
fn parse_gs_uri_unicode_bucket() {
    let (b, k) = parse_gs_uri("gs://バケット/キー").unwrap();
    assert_eq!(b, "バケット");
    assert_eq!(k, "キー");
}

#[test]
fn url_encode_newline() {
    assert_eq!(url_encode("\n"), "%0A");
}

#[test]
fn parse_gs_uri_single_segment_key() {
    let (b, k) = parse_gs_uri("gs://data/file.parquet").unwrap();
    assert_eq!(b, "data");
    assert_eq!(k, "file.parquet");
}

#[test]
fn emit_ndjson_line_empty_string() {
    let mut buf = Vec::new();
    emit_ndjson_line(&mut buf, &serialised(r#""""#));
    assert_eq!(String::from_utf8(buf).unwrap(), "\"\"\n");
}

#[test]
fn parse_gs_uri_key_with_ampersand() {
    let (b, k) = parse_gs_uri("gs://b/a&b").unwrap();
    assert_eq!(b, "b");
    assert_eq!(k, "a&b");
}

#[test]
fn url_encode_ampersand() {
    assert_eq!(url_encode("&"), "%26");
}

#[test]
fn parse_gs_uri_rejects_s3() {
    assert!(parse_gs_uri("s3://b/k").is_err());
}

#[test]
fn emit_ndjson_line_negative_i64() {
    let mut buf = Vec::new();
    emit_ndjson_line(&mut buf, &serialised(r#"-42"#));
    assert_eq!(String::from_utf8(buf).unwrap(), "-42\n");
}

#[test]
fn parse_gs_uri_bucket_with_dots() {
    let (b, _) = parse_gs_uri("gs://my.company.data/out").unwrap();
    assert_eq!(b, "my.company.data");
}

#[test]
fn url_encode_equals_sign() {
    assert_eq!(url_encode("="), "%3D");
}

#[test]
fn parse_gs_uri_empty_scheme_rejected() {
    assert!(parse_gs_uri("notgs://b/k").is_err());
}

#[test]
fn emit_ndjson_line_true_bool() {
    let mut buf = Vec::new();
    emit_ndjson_line(&mut buf, &serialised(r#"true"#));
    assert_eq!(String::from_utf8(buf).unwrap(), "true\n");
}

// ─── further cases ───────────────────────────────────────────────

#[test]
fn resolve_project_looks_at_the_variables_in_turn() {
    let mut env = nowhere();
    env.gcp_project = Some("third".to_string());
    assert_eq!(resolve_project(None, &env).unwrap(), "third");
    env.gcloud_project = Some("second".to_string());
    assert_eq!(resolve_project(None, &env).unwrap(), "second");
    env.google_cloud_project = Some("first".to_string());
    assert_eq!(resolve_project(None, &env).unwrap(), "first");
    assert_eq!(resolve_project(Some("named"), &env).unwrap(), "named");
}

#[test]
fn resolve_project_passes_over_empty_variables() {
    let mut env = nowhere();
    env.google_cloud_project = Some(String::new());
    env.gcloud_project = Some(String::new());
    env.gcp_project = Some("p".to_string());
    assert_eq!(resolve_project(None, &env).unwrap(), "p");
    env.gcp_project = Some(String::new());
    let err = resolve_project(None, &env).unwrap_err();
    assert_eq!(
        err.to_text(),
        "no GCP project specified — pass --project or set $GOOGLE_CLOUD_PROJECT"
    );
}

#[test]
fn parse_gs_uri_error_has_the_whole_message() {
    let err = parse_gs_uri("s3://b").unwrap_err();
    assert_eq!(err.to_text(), "expected `gs://bucket/key…`, got `s3://b`");
}

#[test]
fn url_encode_is_exact_on_bytes() {
    assert_eq!(url_encode("é"), "%C3%A9");
    assert_eq!(url_encode("a b/ü?"), "a%20b%2F%C3%BC%3F");
    assert_eq!(url_encode("-._~"), "-._~");
}

#[test]
fn url_encode_keeps_texts_apart() {
    let texts = ["a/b", "a%2Fb", "a b", "a+b", "a%20b", "A/B", ""];
    for (i, a) in texts.iter().enumerate() {
        for (k, b) in texts.iter().enumerate() {
            assert_eq!(url_encode(a) == url_encode(b), i == k, "{a} and {b}");
        }
    }
}

#[test]
fn json_request_reads_the_reply() {
    assert!(is_success(200) && is_success(299));
    assert!(!is_success(199) && !is_success(300) && !is_success(404));
    let failed = json_request(404, "404 Not Found", "gone", None).unwrap_err();
    assert_eq!(failed.to_text(), "HTTP 404 Not Found: gone");
    let empty = json_request(204, "204 No Content", "", None).unwrap();
    assert!(matches!(empty, Json::Null));
    let read = json_request(200, "200 OK", "true", Some(Json::Bool(true))).unwrap();
    assert!(matches!(read, Json::Bool(true)));
    let raw = json_request(200, "200 OK", "<html>", None).unwrap();
    assert_eq!(raw.as_str(), Some("<html>"));
    assert!(json_request(500, "500 Internal Server Error", "<html>", None).is_err());
}

#[test]
fn url_encode_goes_piece_by_piece() {
    for (a, b) in [("a/", "é"), ("", "x y"), ("%", "2F")] {
        assert_eq!(url_encode(&format!("{a}{b}")), url_encode(a) + &url_encode(b));
    }
}
