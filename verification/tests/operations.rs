use serde_json::Value;
use stryke_gcp::auth::{identity, op_identity};
use stryke_gcp::bridge::{
    answer, begin, complete, expects, on_status, op_pkg_version, Disposition, Expected, Op, Reply,
};
use stryke_gcp::json::{Json, Members, Number};
use stryke_gcp::ops::secrets::{payload_of_decoded, secret_accessed, version_body_json};
use stryke_gcp::ops::storage::base64_marked;
use stryke_gcp::ops::topics::{publish_body_json, pulled_message, text_of_decoded};
use stryke_gcp::options::{resolve_project, Env};
use stryke_gcp::request::{Body, Method, Request};

/// The library's form of a JSON value.
fn json_of(v: &Value) -> Json {
    match v {
        Value::Null => Json::Null,
        Value::Bool(b) => Json::Bool(*b),
        Value::Number(n) => Json::Number(if let Some(u) = n.as_u64() {
            Number::PosInt(u)
        } else if let Some(i) = n.as_i64() {
            Number::NegInt(i)
        } else {
            Number::Float(n.as_f64().unwrap().to_bits())
        }),
        Value::String(s) => Json::String(s.clone()),
        Value::Array(a) => Json::Array(a.iter().map(json_of).collect()),
        Value::Object(m) => {
            let mut members = Members::new();
            for (k, v) in m {
                members = members.with(k, json_of(v));
            }
            Json::Object(members)
        }
    }
}

/// The plain form of a value of the library.
fn value_of(j: &Json) -> Value {
    match j {
        Json::Null => Value::Null,
        Json::Bool(b) => Value::Bool(*b),
        Json::Number(Number::PosInt(u)) => Value::from(*u),
        Json::Number(Number::NegInt(i)) => Value::from(*i),
        Json::Number(Number::Float(bits)) => Value::from(f64::from_bits(*bits)),
        Json::String(s) => Value::String(s.clone()),
        Json::Array(a) => Value::Array(a.iter().map(value_of).collect()),
        Json::Object(m) => {
            let mut map = serde_json::Map::new();
            for (k, v) in &m.entries {
                map.insert(k.clone(), value_of(v));
            }
            Value::Object(map)
        }
    }
}

/// Parses a JSON text.
fn parsed(text: &str) -> Value {
    serde_json::from_str(text).unwrap()
}

/// Parses a JSON text to a value of the library.
fn json(text: &str) -> Json {
    json_of(&parsed(text))
}

/// An environment in which no variable is set.
fn nowhere() -> Env {
    Env {
        google_cloud_project: None,
        gcloud_project: None,
        gcp_project: None,
        application_credentials: None,
    }
}

/// An environment with a project.
fn somewhere() -> Env {
    let mut env = nowhere();
    env.google_cloud_project = Some("test-project".to_string());
    env
}

/// What is answered to an operation whose request cannot be made; null where it can.
fn refusal(op: Op, args: &str, env: &Env) -> Value {
    match begin(op, &json(args), env) {
        Err(e) => value_of(&answer(Err(e))),
        Ok(_) => Value::Null,
    }
}

/// The request of an operation in the environment with a project.
fn request(op: Op, args: &str) -> Request {
    begin(op, &json(args), &somewhere()).unwrap()
}

/// The body of a request.
fn body(q: &Request) -> Value {
    match &q.body {
        Body::Json(j) => value_of(j),
        _ => panic!("no JSON body"),
    }
}

/// The result of an operation, where the service answers a document.
fn result(op: Op, args: &str, reply: &str) -> Value {
    let r = complete(op, &json(args), &somewhere(), Reply::Document(json(reply)));
    value_of(&answer(r))
}

// The project

#[test]
fn resolve_project_opts_wins_over_env() {
    let mut env = nowhere();
    env.google_cloud_project = Some("from-env".to_string());
    let p = resolve_project(&json(r#"{"project": "from-opts"}"#), &env);
    assert_eq!(p.as_deref(), Some("from-opts"));
}

#[test]
fn resolve_project_falls_back_to_google_cloud_project() {
    let mut env = nowhere();
    env.google_cloud_project = Some("primary".to_string());
    assert_eq!(resolve_project(&json("{}"), &env).as_deref(), Some("primary"));
}

#[test]
fn resolve_project_falls_back_to_gcloud_project() {
    let mut env = nowhere();
    env.gcloud_project = Some("secondary".to_string());
    assert_eq!(resolve_project(&json("{}"), &env).as_deref(), Some("secondary"));
}

#[test]
fn resolve_project_prefers_google_cloud_project_over_gcloud_project() {
    let mut env = nowhere();
    env.google_cloud_project = Some("primary".to_string());
    env.gcloud_project = Some("secondary".to_string());
    assert_eq!(resolve_project(&json("{}"), &env).as_deref(), Some("primary"));
}

#[test]
fn resolve_project_none_when_unset() {
    assert_eq!(resolve_project(&json("{}"), &nowhere()), None);
}

#[test]
fn resolve_project_ignores_non_string_opts() {
    assert_eq!(resolve_project(&json(r#"{"project": 42}"#), &nowhere()), None);
}

#[test]
fn resolve_project_empty_string_in_opts_round_trips() {
    let p = resolve_project(&json(r#"{"project": ""}"#), &nowhere());
    assert_eq!(p.as_deref(), Some(""));
}

#[test]
fn resolve_project_opts_win_over_both_env_vars() {
    let mut env = nowhere();
    env.google_cloud_project = Some("from-google".to_string());
    env.gcloud_project = Some("from-gcloud".to_string());
    let p = resolve_project(&json(r#"{"project": "from-opts"}"#), &env);
    assert_eq!(p.as_deref(), Some("from-opts"));
}

#[test]
fn resolve_project_null_opt_falls_back_to_env_not_literal_null() {
    let mut env = nowhere();
    env.google_cloud_project = Some("from-env".to_string());
    let p = resolve_project(&json(r#"{"project": null}"#), &env);
    assert_eq!(p.as_deref(), Some("from-env"));
    assert_ne!(p.as_deref(), Some("null"));
}

#[test]
fn resolve_project_rejects_array_and_object_opts() {
    let mut env = nowhere();
    env.google_cloud_project = Some("real-project".to_string());
    let p_arr = resolve_project(&json(r#"{"project": []}"#), &env);
    assert_eq!(p_arr.as_deref(), Some("real-project"));
    assert_ne!(p_arr.as_deref(), Some("[]"));
    let p_obj = resolve_project(&json(r#"{"project": {}}"#), &env);
    assert_eq!(p_obj.as_deref(), Some("real-project"));
    assert_ne!(p_obj.as_deref(), Some("{}"));
}

// What is refused

#[test]
fn a_missing_bucket_is_answered_with_an_error_alone() {
    let v = refusal(Op::GcsListObjects, "null", &nowhere());
    assert_eq!(v["error"].as_str(), Some("missing bucket"));
    assert!(v.get("bucket").is_none());
    assert!(v.get("objects").is_none());
}

#[test]
fn pubsub_ack_filter_admits_empty_filtered_vec_past_parse() {
    let args = r#"{"subscription": "test-sub", "ack_ids": [42, null, true, {"foo": "bar"}]}"#;
    assert_eq!(refusal(Op::PubsubAck, args, &somewhere()), Value::Null);
    assert_eq!(body(&request(Op::PubsubAck, args)), parsed(r#"{"ackIds": []}"#));
    let r = complete(Op::PubsubAck, &json(args), &somewhere(), Reply::Nothing).unwrap();
    assert_eq!(value_of(&r)["acked"], 0);
}

#[test]
fn gcs_get_object_validates_bucket_before_key() {
    let both = refusal(Op::GcsGetObject, "null", &nowhere());
    assert_eq!(both["error"].as_str(), Some("missing bucket"));
    let key = refusal(Op::GcsGetObject, r#"{"bucket": "b"}"#, &nowhere());
    assert_eq!(key["error"].as_str(), Some("missing key"));
}

#[test]
fn pubsub_publish_resolves_project_before_topic() {
    let v = refusal(Op::PubsubPublish, r#"{"data": "x"}"#, &somewhere());
    assert_eq!(v["error"].as_str(), Some("missing topic"));
    let v2 = refusal(Op::PubsubPublish, r#"{"data": "x"}"#, &nowhere());
    assert_eq!(v2["error"].as_str(), Some("missing project"));
    assert_ne!(v2["error"].as_str(), Some("missing topic"));
}

#[test]
fn compute_ops_validate_project_then_zone_then_instance() {
    for op in [
        Op::ComputeListInstances,
        Op::ComputeGetInstance,
        Op::ComputeStartInstance,
        Op::ComputeStopInstance,
        Op::ComputeResetInstance,
    ] {
        let v = refusal(op, "{}", &somewhere());
        assert_eq!(v["error"].as_str(), Some("missing zone"));
    }
    for op in [
        Op::ComputeGetInstance,
        Op::ComputeStartInstance,
        Op::ComputeStopInstance,
        Op::ComputeResetInstance,
    ] {
        let v = refusal(op, r#"{"zone": "us-central1-a"}"#, &somewhere());
        assert_eq!(v["error"].as_str(), Some("missing instance"));
    }
    let v = refusal(Op::ComputeListInstances, r#"{"zone": "z"}"#, &nowhere());
    assert_eq!(v["error"].as_str(), Some("missing project"));
}

#[test]
fn logging_write_entry_requires_a_payload() {
    let v = refusal(Op::LoggingWriteEntry, r#"{"log": "app"}"#, &somewhere());
    assert_eq!(v["error"].as_str(), Some("missing text or json payload"));
    let v2 = refusal(
        Op::LoggingWriteEntry,
        r#"{"log": "app", "json": "not-an-object"}"#,
        &somewhere(),
    );
    assert_eq!(v2["error"].as_str(), Some("missing text or json payload"));
    let v3 = refusal(Op::LoggingWriteEntry, r#"{"text": "hi"}"#, &somewhere());
    assert_eq!(v3["error"].as_str(), Some("missing log"));
}

#[test]
fn iam_test_permissions_validates_url_then_permissions_array() {
    let v = refusal(Op::IamTestPermissions, "{}", &nowhere());
    assert_eq!(v["error"].as_str(), Some("missing url (full :testIamPermissions endpoint)"));
    let v2 = refusal(
        Op::IamTestPermissions,
        r#"{"url": "https://example.com/x:testIamPermissions"}"#,
        &nowhere(),
    );
    assert_eq!(v2["error"].as_str(), Some("missing permissions (array)"));
    let v3 = refusal(
        Op::IamTestPermissions,
        r#"{"url": "https://example.com/x:testIamPermissions", "permissions": "scalar"}"#,
        &nowhere(),
    );
    assert_eq!(v3["error"].as_str(), Some("missing permissions (array)"));
}

#[test]
fn gcs_set_iam_policy_requires_object_policy() {
    let v = refusal(Op::GcsSetIamPolicy, "{}", &nowhere());
    assert_eq!(v["error"].as_str(), Some("missing bucket"));
    let v2 = refusal(
        Op::GcsSetIamPolicy,
        r#"{"bucket": "b", "policy": "not-an-object"}"#,
        &nowhere(),
    );
    assert_eq!(v2["error"].as_str(), Some("missing policy (an object)"));
}

#[test]
fn compute_zone_list_ops_validate_project_then_zone() {
    for op in [Op::ComputeListMachineTypes, Op::ComputeListDisks] {
        let v = refusal(op, "{}", &somewhere());
        assert_eq!(v["error"].as_str(), Some("missing zone"));
    }
    for op in [Op::ComputeListMachineTypes, Op::ComputeListDisks, Op::ComputeListRegions] {
        let v = refusal(op, r#"{"zone": "us-central1-a"}"#, &nowhere());
        assert_eq!(v["error"].as_str(), Some("missing project"));
    }
}

#[test]
fn topic_and_secret_ops_validate_project_then_resource() {
    for op in [Op::PubsubGetTopic, Op::PubsubTopicSubscriptions] {
        let v = refusal(op, "{}", &somewhere());
        assert_eq!(v["error"].as_str(), Some("missing topic"));
    }
    for op in [Op::SecretListVersions, Op::SecretDelete] {
        let v = refusal(op, "{}", &somewhere());
        assert_eq!(v["error"].as_str(), Some("missing secret"));
    }
    let v = refusal(Op::PubsubGetTopic, r#"{"topic": "t"}"#, &nowhere());
    assert_eq!(v["error"].as_str(), Some("missing project"));
    let v2 = refusal(Op::SecretDelete, r#"{"secret": "s"}"#, &nowhere());
    assert_eq!(v2["error"].as_str(), Some("missing project"));
}

#[test]
fn bigquery_list_jobs_requires_project() {
    let v = refusal(Op::BigqueryListJobs, "{}", &nowhere());
    assert_eq!(v["error"].as_str(), Some("missing project"));
}

#[test]
fn every_missing_option_is_named() {
    for (op, args, message) in [
        (Op::GcsPutObject, r#"{"bucket": "b"}"#, "missing key"),
        (Op::GcsCopyObject, "{}", "missing src_bucket"),
        (Op::GcsCopyObject, r#"{"src_bucket": "b"}"#, "missing src_key"),
        (Op::GcsCopyObject, r#"{"src_bucket": "b", "src_key": "k"}"#, "missing dst_bucket"),
        (
            Op::GcsCopyObject,
            r#"{"src_bucket": "b", "src_key": "k", "dst_bucket": "c"}"#,
            "missing dst_key",
        ),
        (Op::GcsCompose, r#"{"bucket": "b"}"#, "missing destination"),
        (
            Op::GcsCompose,
            r#"{"bucket": "b", "destination": "d"}"#,
            "missing sources (array of object names)",
        ),
        (Op::PubsubPull, "{}", "missing subscription"),
        (Op::PubsubAck, r#"{"subscription": "s"}"#, "missing ack_ids (array)"),
        (
            Op::PubsubCreateSubscription,
            r#"{"subscription": "s"}"#,
            "missing topic (the topic to subscribe to)",
        ),
        (Op::SecretAddVersion, r#"{"secret": "s"}"#, "missing value"),
        (Op::BigqueryQuery, "{}", "missing query"),
        (Op::BigqueryInsert, r#"{"dataset": "d"}"#, "missing table"),
        (
            Op::BigqueryInsert,
            r#"{"dataset": "d", "table": "t"}"#,
            "missing rows (an array of objects)",
        ),
        (Op::FirestoreGet, r#"{"collection": "c"}"#, "missing document"),
        (
            Op::FirestoreSet,
            r#"{"collection": "c", "document": "d", "data": []}"#,
            "missing data (an object)",
        ),
        (Op::FirestoreCreate, r#"{"collection": "c"}"#, "missing data (an object)"),
        (Op::RunGetService, r#"{"region": "r"}"#, "missing service"),
        (Op::FunctionsDescribe, r#"{"region": "r"}"#, "missing function"),
        (
            Op::MonitoringListTimeSeries,
            r#"{"filter": "f"}"#,
            "missing start (RFC3339 interval start)",
        ),
        (
            Op::MonitoringListTimeSeries,
            r#"{"filter": "f", "start": "s"}"#,
            "missing end (RFC3339 interval end)",
        ),
        (Op::IamGetPolicy, "{}", "missing url (full :getIamPolicy endpoint)"),
        (Op::IamGetServiceAccount, "{}", "missing email"),
    ] {
        assert_eq!(refusal(op, args, &somewhere())["error"], message);
        let r = complete(op, &json(args), &somewhere(), Reply::Nothing);
        assert_eq!(r.unwrap_err().to_text(), message);
    }
    assert_eq!(
        refusal(Op::GcsListBuckets, "{}", &nowhere())["error"],
        "missing project (set GOOGLE_CLOUD_PROJECT or pass `project`)"
    );
}

// Identity and version

#[test]
fn identity_names_the_source_of_the_credentials() {
    let v = value_of(&op_identity(&json("{}"), &somewhere()));
    assert_eq!(
        v,
        parsed(
            r#"{"ok": true, "project": "test-project",
                "credentials_source": "Application Default Credentials chain",
                "credentials_path": null}"#
        )
    );
    let mut env = nowhere();
    env.application_credentials = Some("/key.json".to_string());
    let v = value_of(&op_identity(&json("{}"), &env));
    assert_eq!(v["project"], Value::Null);
    assert_eq!(v["credentials_source"], "GOOGLE_APPLICATION_CREDENTIALS file");
    assert_eq!(v["credentials_path"], "/key.json");
    env.gcp_project = Some("third".to_string());
    assert_eq!(value_of(&identity(None, &env))["project"], "third");
    assert_eq!(value_of(&identity(Some("named"), &env))["project"], "named");
}

#[test]
fn pkg_version_is_that_of_the_package() {
    assert_eq!(value_of(&op_pkg_version()), parsed(r#"{"version": "0.19.0"}"#));
}

// Replies

#[test]
fn statuses_of_errors_fail_except_for_an_absent_document() {
    assert_eq!(on_status(Op::FirestoreGet, 404), Disposition::Absent);
    assert_eq!(on_status(Op::FirestoreGet, 403), Disposition::Failed);
    assert_eq!(on_status(Op::FirestoreSet, 404), Disposition::Failed);
    assert_eq!(on_status(Op::GcsGetObject, 500), Disposition::Failed);
    assert_eq!(on_status(Op::GcsGetObject, 599), Disposition::Failed);
    assert_eq!(on_status(Op::GcsGetObject, 200), Disposition::Read);
    assert_eq!(on_status(Op::GcsGetObject, 304), Disposition::Read);
    assert_eq!(on_status(Op::GcsGetObject, 600), Disposition::Read);
}

#[test]
fn replies_are_read_as_the_operation_needs() {
    assert_eq!(expects(Op::GcsGetObject), Expected::Bytes);
    assert_eq!(expects(Op::GcsDeleteObject), Expected::Nothing);
    assert_eq!(expects(Op::PubsubAck), Expected::Nothing);
    assert_eq!(expects(Op::LoggingWriteEntry), Expected::Nothing);
    assert_eq!(expects(Op::FirestoreDelete), Expected::Nothing);
    assert_eq!(expects(Op::GcsPutObject), Expected::Document);
    assert_eq!(expects(Op::SecretAccess), Expected::Document);
}

#[test]
fn answers_have_an_error_exactly_on_failure() {
    for (op, args) in [
        (Op::GcsListObjects, r#"{"bucket": "b"}"#),
        (Op::BigqueryInsert, r#"{"dataset": "d", "table": "t", "rows": []}"#),
        (Op::IamGetServiceAccount, r#"{"email": "e"}"#),
        (Op::SecretAccess, r#"{"secret": "s"}"#),
    ] {
        let good = result(op, args, r#"{"error": "x"}"#);
        assert!(good.get("error").is_none());
        let bad = result(op, "{}", r#"{"error": "x"}"#);
        assert_eq!(bad.as_object().unwrap().len(), 1);
        assert!(bad["error"].is_string());
    }
}

// Storage

#[test]
fn buckets_are_listed_by_name() {
    let q = request(Op::GcsListBuckets, r#"{"project": "a/b"}"#);
    assert_eq!(q.method, Method::Get);
    assert_eq!(q.url, "https://storage.googleapis.com/storage/v1/b?project=a%2Fb");
    assert_eq!(
        result(Op::GcsListBuckets, "{}", r#"{"items": [{"name": "x"}, {"id": 1}, {"name": "y"}]}"#),
        parsed(r#"{"project": "test-project", "buckets": ["x", "y"]}"#)
    );
    assert_eq!(
        result(Op::GcsListBuckets, "{}", "[]"),
        parsed(r#"{"project": "test-project", "buckets": []}"#)
    );
}

#[test]
fn objects_are_listed_with_defaults() {
    let q = request(Op::GcsListObjects, r#"{"bucket": "b", "prefix": "a b/"}"#);
    assert_eq!(q.url, "https://storage.googleapis.com/storage/v1/b/b/o?prefix=a%20b%2F");
    assert_eq!(
        result(
            Op::GcsListObjects,
            r#"{"bucket": "b"}"#,
            r#"{"items": [{"name": "k", "size": "3", "contentType": "t"}, {}]}"#
        ),
        parsed(
            r#"{"bucket": "b", "objects": [
                {"name": "k", "size": "3", "content_type": "t"},
                {"name": "", "size": "0", "content_type": ""}]}"#
        )
    );
}

#[test]
fn objects_are_read_as_text_or_base64() {
    let args = r#"{"bucket": "b", "key": "k/é"}"#;
    let q = request(Op::GcsGetObject, args);
    assert_eq!(q.url, "https://storage.googleapis.com/storage/v1/b/b/o/k%2F%C3%A9?alt=media");
    let read = |bytes: &[u8]| {
        let r = complete(Op::GcsGetObject, &json(args), &nowhere(), Reply::Bytes(bytes.to_vec()));
        value_of(&r.unwrap())["body"].as_str().unwrap().to_string()
    };
    assert_eq!(read("grüße".as_bytes()), "grüße");
    assert_eq!(read(b""), "");
    assert_eq!(read(&[0xff, 0xfe, 0x00]), "base64://4A");
}

#[test]
fn written_objects_are_read_back() {
    let put = request(Op::GcsPutObject, r#"{"bucket": "b", "key": "k", "body": "naïve ☃"}"#);
    assert_eq!(put.method, Method::Post);
    assert_eq!(
        put.url,
        "https://storage.googleapis.com/upload/storage/v1/b/b/o?uploadType=media&name=k"
    );
    assert_eq!(
        put.headers,
        vec![("Content-Type".to_string(), "application/octet-stream".to_string())]
    );
    let sent = match put.body {
        Body::Bytes(bytes) => bytes,
        _ => panic!("no bytes"),
    };
    let r = complete(
        Op::GcsGetObject,
        &json(r#"{"bucket": "b", "key": "k"}"#),
        &nowhere(),
        Reply::Bytes(sent),
    );
    assert_eq!(value_of(&r.unwrap())["body"], "naïve ☃");
    assert_eq!(
        result(
            Op::GcsPutObject,
            r#"{"bucket": "b", "key": "k"}"#,
            r#"{"generation": "7", "etag": "e"}"#
        ),
        parsed(r#"{"bucket": "b", "key": "k", "generation": "7", "etag": "e"}"#)
    );
}

#[test]
fn objects_are_copied_composed_and_deleted() {
    let q = request(
        Op::GcsCopyObject,
        r#"{"src_bucket": "a", "src_key": "b/c", "dst_bucket": "d", "dst_key": "e"}"#,
    );
    assert_eq!(
        q.url,
        "https://storage.googleapis.com/storage/v1/b/a/o/b%2Fc/copyTo/b/d/o/e"
    );
    assert_eq!(q.headers, vec![("Content-Length".to_string(), "0".to_string())]);
    assert_eq!(
        result(
            Op::GcsCopyObject,
            r#"{"src_bucket": "a", "src_key": "b", "dst_bucket": "d", "dst_key": "e"}"#,
            r#"{"resource": {"generation": "9"}}"#
        ),
        parsed(r#"{"dst_bucket": "d", "dst_key": "e", "generation": "9"}"#)
    );
    let args = r#"{"bucket": "b", "destination": "d", "sources": ["x", 1, "y"]}"#;
    assert_eq!(
        body(&request(Op::GcsCompose, args)),
        parsed(r#"{"sourceObjects": [{"name": "x"}, {"name": "y"}]}"#)
    );
    assert_eq!(
        result(Op::GcsCompose, args, r#"{"size": "5"}"#),
        parsed(r#"{"bucket": "b", "object": "d", "size": "5"}"#)
    );
    let gone = r#"{"bucket": "b", "key": "k"}"#;
    assert_eq!(request(Op::GcsDeleteObject, gone).method, Method::Delete);
    assert_eq!(
        result(Op::GcsDeleteObject, gone, "null"),
        parsed(r#"{"bucket": "b", "key": "k", "deleted": true}"#)
    );
}

#[test]
fn policies_pass_through() {
    let args = r#"{"bucket": "b", "policy": {"bindings": []}}"#;
    let q = request(Op::GcsSetIamPolicy, args);
    assert_eq!(q.method, Method::Put);
    assert_eq!(q.url, "https://storage.googleapis.com/storage/v1/b/b/iam");
    assert_eq!(body(&q), parsed(r#"{"bindings": []}"#));
    assert_eq!(
        result(Op::GcsSetIamPolicy, args, r#"{"etag": "x"}"#),
        parsed(r#"{"bucket": "b", "policy": {"etag": "x"}}"#)
    );
    assert_eq!(
        result(Op::IamGetPolicy, r#"{"url": "u"}"#, "[1]"),
        parsed(r#"{"policy": [1]}"#)
    );
}

// Pub/Sub

#[test]
fn published_text_is_pulled_again() {
    let args = r#"{"topic": "t", "data": "hallo ☃", "attributes": {"k": "v"}}"#;
    let q = request(Op::PubsubPublish, args);
    assert_eq!(
        q.url,
        "https://pubsub.googleapis.com/v1/projects/test-project/topics/t:publish"
    );
    let sent = body(&q)["messages"][0].clone();
    assert_eq!(sent["data"], "aGFsbG8g4piD");
    assert_eq!(sent["attributes"], parsed(r#"{"k": "v"}"#));
    let reply = format!(
        r#"{{"receivedMessages": [{{"ackId": "a", "message":
            {{"messageId": "m", "data": {}, "attributes": {{"k": "v"}}}}}}]}}"#,
        sent["data"]
    );
    assert_eq!(
        result(Op::PubsubPull, r#"{"subscription": "s"}"#, &reply),
        parsed(
            r#"{"subscription": "s", "messages": [{"ack_id": "a", "message_id": "m",
                "data": "hallo ☃", "attributes": {"k": "v"}}]}"#
        )
    );
    assert_eq!(
        result(Op::PubsubPublish, args, r#"{"messageIds": ["1", 2, "3"]}"#),
        parsed(r#"{"topic": "t", "message_ids": ["1", "3"]}"#)
    );
}

#[test]
fn messages_that_hold_no_text_are_empty() {
    for data in ["!!", "/w==", "YQ"] {
        let reply = format!(r#"{{"receivedMessages": [{{"message": {{"data": "{data}"}}}}]}}"#);
        let v = result(Op::PubsubPull, r#"{"subscription": "s"}"#, &reply);
        assert_eq!(v["messages"][0]["data"], "", "{data}");
        assert_eq!(v["messages"][0]["attributes"], Value::Null);
    }
}

#[test]
fn pulls_ask_for_one_message_by_default() {
    assert_eq!(
        body(&request(Op::PubsubPull, r#"{"subscription": "s"}"#)),
        parsed(r#"{"maxMessages": 1, "returnImmediately": false}"#)
    );
    assert_eq!(
        body(&request(Op::PubsubPull, r#"{"subscription": "s", "max": -3}"#))["maxMessages"],
        -3
    );
}

#[test]
fn acknowledged_messages_are_counted_without_what_is_no_text() {
    let args = r#"{"subscription": "s", "ack_ids": ["good", 42, null, "also-good"]}"#;
    assert_eq!(
        body(&request(Op::PubsubAck, args)),
        parsed(r#"{"ackIds": ["good", "also-good"]}"#)
    );
    let r = complete(Op::PubsubAck, &json(args), &somewhere(), Reply::Nothing).unwrap();
    assert_eq!(value_of(&r), parsed(r#"{"subscription": "s", "acked": 2}"#));
}

#[test]
fn topics_and_subscriptions_are_listed_by_leaf() {
    assert_eq!(
        result(Op::PubsubListTopics, "{}", r#"{"topics": [{"name": "projects/p/topics/t"}, {}]}"#),
        parsed(r#"{"project": "test-project", "topics": ["t"]}"#)
    );
    assert_eq!(
        result(
            Op::PubsubListSubscriptions,
            "{}",
            r#"{"subscriptions": [{"name": "projects/p/subscriptions/s", "topic": "a/t"}, {}]}"#
        ),
        parsed(
            r#"{"project": "test-project", "subscriptions": [{"name": "s", "topic": "t"},
                {"name": "", "topic": ""}]}"#
        )
    );
    assert_eq!(
        result(
            Op::PubsubTopicSubscriptions,
            r#"{"topic": "t"}"#,
            r#"{"subscriptions": ["projects/p/subscriptions/s", 4]}"#
        ),
        parsed(r#"{"topic": "t", "subscriptions": ["s"]}"#)
    );
}

#[test]
fn subscriptions_are_created_to_a_topic() {
    let args = r#"{"subscription": "s", "topic": "t"}"#;
    let q = request(Op::PubsubCreateSubscription, args);
    assert_eq!(q.method, Method::Put);
    assert_eq!(
        body(&q),
        parsed(r#"{"topic": "projects/test-project/topics/t", "ackDeadlineSeconds": 10}"#)
    );
    assert_eq!(
        result(Op::PubsubCreateSubscription, args, "{}"),
        parsed(r#"{"subscription": "s", "created": true}"#)
    );
    assert_eq!(body(&request(Op::PubsubCreateTopic, r#"{"topic": "t"}"#)), parsed("{}"));
    assert_eq!(
        result(Op::PubsubCreateTopic, r#"{"topic": "t"}"#, r#"{"name": "projects/p/topics/u"}"#),
        parsed(r#"{"topic": "u", "created": true}"#)
    );
}

#[test]
fn decoded_data_becomes_the_text_of_a_message() {
    let o = json(r#"{"ackId": "a", "message": {"messageId": "m", "data": "ignored"}}"#);
    let row = |decoded| value_of(&pulled_message(&o, decoded))["data"].clone();
    assert_eq!(row(Ok("é".as_bytes().to_vec())), "é");
    assert_eq!(row(Ok(vec![0xff])), "");
    assert_eq!(row(Err("bad".to_string())), "");
    assert_eq!(text_of_decoded(Ok(b"x".to_vec())), "x");
    let body = publish_body_json(&json(r#"{"attributes": 4}"#), "c2VhbGVk");
    assert_eq!(
        value_of(&body),
        parsed(r#"{"messages": [{"data": "c2VhbGVk", "attributes": {}}]}"#)
    );
}

// Secrets

#[test]
fn decoded_data_becomes_the_value_of_a_secret() {
    let opts = json(r#"{"secret": "s", "version": "4"}"#);
    let value = |decoded| secret_accessed(&opts, &somewhere(), decoded);
    assert_eq!(
        value_of(&value(Ok(b"v".to_vec())).unwrap()),
        parsed(r#"{"secret": "s", "version": "4", "value": "v"}"#)
    );
    assert_eq!(
        value(Err("Invalid padding".to_string())).unwrap_err().to_text(),
        "decoding secret payload: Invalid padding"
    );
    assert_eq!(payload_of_decoded(Ok(vec![0xff, 0xfe, 0x00])).unwrap(), "base64://4A");
    assert_eq!(base64_marked("AAAA"), "base64:AAAA");
    assert_eq!(value_of(&version_body_json("eA==")), parsed(r#"{"payload": {"data": "eA=="}}"#));
}

#[test]
fn added_values_are_accessed_again() {
    let q = request(Op::SecretAddVersion, r#"{"secret": "s", "value": "geheim ☃"}"#);
    assert_eq!(
        q.url,
        "https://secretmanager.googleapis.com/v1/projects/test-project/secrets/s:addVersion"
    );
    let data = body(&q)["payload"]["data"].clone();
    assert_eq!(data, "Z2VoZWltIOKYgw==");
    let reply = format!(r#"{{"payload": {{"data": {data}}}}}"#);
    assert_eq!(
        result(Op::SecretAccess, r#"{"secret": "s"}"#, &reply),
        parsed(r#"{"secret": "s", "version": "latest", "value": "geheim ☃"}"#)
    );
}

#[test]
fn payloads_that_are_no_text_stay_encoded() {
    assert_eq!(
        result(
            Op::SecretAccess,
            r#"{"secret": "s", "version": "2"}"#,
            r#"{"payload": {"data": "//4A"}}"#
        )["value"],
        "base64://4A"
    );
}

#[test]
fn payloads_that_are_no_base64_are_refused() {
    let v = result(Op::SecretAccess, r#"{"secret": "s"}"#, r#"{"payload": {"data": "!!"}}"#);
    assert_eq!(v["error"], "decoding secret payload: Invalid symbol 33, offset 0.");
}

#[test]
fn secrets_are_created_and_listed() {
    let q = request(Op::SecretCreate, r#"{"secret": "a/b"}"#);
    assert_eq!(
        q.url,
        "https://secretmanager.googleapis.com/v1/projects/test-project/secrets?secretId=a%2Fb"
    );
    assert_eq!(body(&q), parsed(r#"{"replication": {"automatic": {}}}"#));
    assert_eq!(
        result(
            Op::SecretListVersions,
            r#"{"secret": "s"}"#,
            r#"{"versions": [{"name": "a/b/3", "state": "ENABLED", "createTime": "t"}]}"#
        ),
        parsed(
            r#"{"secret": "s",
                "versions": [{"name": "3", "state": "ENABLED", "create_time": "t"}]}"#
        )
    );
    assert_eq!(
        result(Op::SecretList, "{}", r#"{"secrets": [{"name": "projects/p/secrets/s"}]}"#),
        parsed(r#"{"project": "test-project", "secrets": ["s"]}"#)
    );
}

// BigQuery

#[test]
fn query_rows_have_the_columns() {
    let args = r#"{"query": "select 1", "max_results": 5, "timeout_ms": -1}"#;
    assert_eq!(
        body(&request(Op::BigqueryQuery, args)),
        parsed(r#"{"query": "select 1", "useLegacySql": false, "maxResults": 5}"#)
    );
    let reply = r#"{
        "schema": {"fields": [{"name": "a"}, {"name": "b"}, {"name": "a"}]},
        "rows": [{"f": [{"v": "1"}, {"v": null}, {"v": "3"}]}, {"f": [{"v": "4"}]}, {}],
        "totalRows": "3"
    }"#;
    assert_eq!(
        result(Op::BigqueryQuery, args, reply),
        parsed(
            r#"{"columns": ["a", "b", "a"],
                "rows": [{"a": "3", "b": null}, {"a": null, "b": null}, {"a": null, "b": null}],
                "total_rows": "3", "complete": true}"#
        )
    );
    let v = result(Op::BigqueryQuery, args, r#"{"jobComplete": false}"#);
    assert_eq!(v["complete"], false);
    assert_eq!(v["rows"], parsed("[]"));
}

#[test]
fn inserted_rows_are_wrapped_and_counted() {
    let args = r#"{"dataset": "d", "table": "t", "rows": [{"a": 1}, {"a": 2}]}"#;
    assert_eq!(
        body(&request(Op::BigqueryInsert, args)),
        parsed(r#"{"rows": [{"json": {"a": 1}}, {"json": {"a": 2}}]}"#)
    );
    assert_eq!(
        result(Op::BigqueryInsert, args, r#"{"insertErrors": [1]}"#),
        parsed(r#"{"inserted": 2, "errors": [1]}"#)
    );
}

#[test]
fn jobs_are_listed_with_flags_in_the_url() {
    assert_eq!(
        request(Op::BigqueryListJobs, "{}").url,
        "https://bigquery.googleapis.com/bigquery/v2/projects/test-project/jobs?allUsers=false&maxResults=50"
    );
    assert_eq!(
        request(
            Op::BigqueryListJobs,
            r#"{"all_users": 1, "max_results": 200, "state_filter": "a&b"}"#
        )
        .url,
        "https://bigquery.googleapis.com/bigquery/v2/projects/test-project/jobs?allUsers=true&maxResults=200&stateFilter=a%26b"
    );
    assert_eq!(
        result(
            Op::BigqueryListJobs,
            "{}",
            r#"{"jobs": [
                {"jobReference": {"jobId": "j"}, "status": {"state": "DONE"},
                 "statistics": {"query": {}}, "user_email": "u"},
                {"configuration": {"jobType": "LOAD"}, "statistics": {"query": 1}}]}"#
        ),
        parsed(
            r#"{"project": "test-project", "jobs": [
                {"id": "j", "state": "DONE", "job_type": "query", "user_email": "u"},
                {"id": "", "state": "", "job_type": "LOAD", "user_email": ""}]}"#
        )
    );
}

#[test]
fn datasets_and_tables_are_listed_by_id() {
    assert_eq!(
        result(
            Op::BigqueryListDatasets,
            "{}",
            r#"{"datasets": [{"datasetReference": {"datasetId": "d"}}, {}]}"#
        ),
        parsed(r#"{"project": "test-project", "datasets": ["d"]}"#)
    );
    assert_eq!(
        result(
            Op::BigqueryListTables,
            r#"{"dataset": "d"}"#,
            r#"{"tables": [{"tableReference": {"tableId": "t"}}]}"#
        ),
        parsed(r#"{"dataset": "d", "tables": ["t"]}"#)
    );
    assert_eq!(
        result(Op::BigqueryGetTable, r#"{"dataset": "d", "table": "t"}"#, r#"{"id": 1}"#),
        parsed(r#"{"dataset": "d", "table": "t", "resource": {"id": 1}}"#)
    );
}

// Firestore

#[test]
fn document_data_is_read_back() {
    let set = r#"{"collection": "c", "document": "d/e", "data": {"n": 7, "t": ["x", null]}}"#;
    let q = request(Op::FirestoreSet, set);
    assert_eq!(q.method, Method::Patch);
    assert_eq!(
        q.url,
        "https://firestore.googleapis.com/v1/projects/test-project/databases/(default)/documents/c/d%2Fe"
    );
    let reply = body(&q).to_string();
    let get = r#"{"collection": "c", "document": "d/e"}"#;
    assert_eq!(
        result(Op::FirestoreGet, get, &reply),
        parsed(
            r#"{"collection": "c", "document": "d/e", "data": {"n": 7, "t": ["x", null]},
                "update_time": null}"#
        )
    );
    let absent = complete(Op::FirestoreGet, &json(get), &somewhere(), Reply::Absent).unwrap();
    assert_eq!(
        value_of(&absent),
        parsed(r#"{"collection": "c", "document": "d/e", "data": null}"#)
    );
}

#[test]
fn documents_are_listed_queried_and_created() {
    assert_eq!(
        request(Op::FirestoreList, r#"{"collection": "c", "page_size": 12}"#).url,
        "https://firestore.googleapis.com/v1/projects/test-project/databases/(default)/documents/c?pageSize=12"
    );
    let document = r#"{"name": "a/b/id1", "fields": {"x": {"integerValue": "5"}}}"#;
    let listed = parsed(r#"{"collection": "c", "documents": [{"id": "id1", "data": {"x": 5}}]}"#);
    assert_eq!(
        result(
            Op::FirestoreList,
            r#"{"collection": "c"}"#,
            &format!(r#"{{"documents": [{document}]}}"#)
        ),
        listed
    );
    let query = r#"{"collection": "c", "field": "f", "op": ">=", "value": 3, "limit": 2}"#;
    let q = request(Op::FirestoreQuery, query);
    assert_eq!(
        q.url,
        "https://firestore.googleapis.com/v1/projects/test-project/databases/(default)/documents:runQuery"
    );
    assert_eq!(
        body(&q),
        parsed(
            r#"{"structuredQuery": {
                "from": [{"collectionId": "c"}],
                "where": {"fieldFilter": {
                    "field": {"fieldPath": "f"},
                    "op": "GREATER_THAN_OR_EQUAL",
                    "value": {"integerValue": "3"}}},
                "limit": 2}}"#
        )
    );
    assert_eq!(
        body(&request(Op::FirestoreQuery, r#"{"collection": "c"}"#)),
        parsed(r#"{"structuredQuery": {"from": [{"collectionId": "c"}]}}"#)
    );
    assert_eq!(
        result(
            Op::FirestoreQuery,
            query,
            &format!(r#"[{{"readTime": "t"}}, {{"document": {document}}}]"#)
        ),
        listed
    );
    assert_eq!(
        request(Op::FirestoreCreate, r#"{"collection": "c", "data": {}, "document": "i d"}"#).url,
        "https://firestore.googleapis.com/v1/projects/test-project/databases/(default)/documents/c?documentId=i%20d"
    );
    assert_eq!(
        result(
            Op::FirestoreCreate,
            r#"{"collection": "c", "data": {}}"#,
            r#"{"name": "x/y/new"}"#
        ),
        parsed(r#"{"collection": "c", "id": "new"}"#)
    );
}

// Compute, Run and Functions

#[test]
fn instances_are_listed_and_acted_on() {
    assert_eq!(
        result(
            Op::ComputeListInstances,
            r#"{"zone": "z"}"#,
            r#"{"items": [{"name": "n", "status": "RUNNING", "machineType": "a/b/e2", "zone": "q/z"}]}"#
        ),
        parsed(
            r#"{"zone": "z", "instances": [{"name": "n", "status": "RUNNING",
                "machine_type": "e2", "zone": "z"}]}"#
        )
    );
    let args = r#"{"zone": "z", "instance": "i"}"#;
    for (op, action) in [
        (Op::ComputeStartInstance, "start"),
        (Op::ComputeStopInstance, "stop"),
        (Op::ComputeResetInstance, "reset"),
    ] {
        let q = request(op, args);
        assert_eq!(
            q.url,
            format!(
                "https://compute.googleapis.com/compute/v1/projects/test-project/zones/z/instances/i/{action}"
            )
        );
        assert_eq!(q.headers, vec![("Content-Length".to_string(), "0".to_string())]);
        let v = result(op, args, r#"{"name": "op-1", "status": "PENDING"}"#);
        assert_eq!(v["action"], action);
        assert_eq!(v["operation"], "op-1");
    }
    assert_eq!(
        result(
            Op::ComputeListDisks,
            r#"{"zone": "z"}"#,
            r#"{"items": [{"name": "d", "type": "t/pd-ssd"}]}"#
        )["disks"][0],
        parsed(r#"{"name": "d", "size_gb": "0", "type": "pd-ssd", "status": "", "zone": ""}"#)
    );
}

#[test]
fn functions_are_listed_in_all_regions_by_default() {
    assert_eq!(
        request(Op::FunctionsList, "{}").url,
        "https://cloudfunctions.googleapis.com/v2/projects/test-project/locations/-/functions"
    );
    assert_eq!(
        result(
            Op::FunctionsList,
            r#"{"region": "r"}"#,
            r#"{"functions": [{"name": "a/f", "state": "ACTIVE", "serviceConfig": {"uri": "u"}}]}"#
        ),
        parsed(r#"{"region": "r", "functions": [{"name": "f", "state": "ACTIVE", "url": "u"}]}"#)
    );
    assert_eq!(
        result(
            Op::RunListServices,
            r#"{"region": "r"}"#,
            r#"{"services": [{"name": "a/s", "uri": "u", "latestReadyRevision": "b/s-1"}]}"#
        ),
        parsed(
            r#"{"region": "r", "services": [{"name": "s", "uri": "u", "latest_revision": "s-1"}]}"#
        )
    );
}

// Logging, Monitoring and IAM

#[test]
fn log_entries_are_listed_newest_first() {
    let q = request(Op::LoggingListEntries, r#"{"filter": "severity>=ERROR"}"#);
    assert_eq!(q.url, "https://logging.googleapis.com/v2/entries:list");
    assert_eq!(
        body(&q),
        parsed(
            r#"{"resourceNames": ["projects/test-project"], "pageSize": 50,
                "orderBy": "timestamp desc", "filter": "severity>=ERROR"}"#
        )
    );
    assert_eq!(
        body(&request(Op::LoggingListEntries, r#"{"order": "asc", "page_size": 3}"#)),
        parsed(
            r#"{"resourceNames": ["projects/test-project"], "pageSize": 3,
                "orderBy": "timestamp asc"}"#
        )
    );
    assert_eq!(
        result(
            Op::LoggingListEntries,
            "{}",
            r#"{"entries": [{"logName": "projects/p/logs/app", "textPayload": "hi"}]}"#
        ),
        parsed(
            r#"{"project": "test-project", "entries": [{"timestamp": null, "severity": null,
                "log_name": "app", "text_payload": "hi", "json_payload": null}]}"#
        )
    );
}

#[test]
fn log_entries_are_written_with_one_payload() {
    let q = request(Op::LoggingWriteEntry, r#"{"log": "a/b", "text": "t", "json": {"k": 1}}"#);
    assert_eq!(
        body(&q),
        parsed(
            r#"{"entries": [{"logName": "projects/test-project/logs/a%2Fb",
                "resource": {"type": "global"}, "severity": "DEFAULT", "jsonPayload": {"k": 1}}]}"#
        )
    );
    let text = request(Op::LoggingWriteEntry, r#"{"log": "l", "text": "t", "severity": "INFO"}"#);
    assert_eq!(body(&text)["entries"][0]["textPayload"], "t");
    assert_eq!(body(&text)["entries"][0]["severity"], "INFO");
    let r = complete(
        Op::LoggingWriteEntry,
        &json(r#"{"log": "l", "text": "t"}"#),
        &somewhere(),
        Reply::Nothing,
    );
    assert_eq!(value_of(&r.unwrap()), parsed(r#"{"log": "l", "written": true}"#));
}

#[test]
fn time_series_and_descriptors_are_asked_for() {
    assert_eq!(
        request(Op::MonitoringListTimeSeries, r#"{"filter": "a=b", "start": "s", "end": "e:1"}"#)
            .url,
        "https://monitoring.googleapis.com/v3/projects/test-project/timeSeries?filter=a%3Db&interval.startTime=s&interval.endTime=e%3A1"
    );
    assert_eq!(
        result(
            Op::MonitoringListTimeSeries,
            r#"{"filter": "f", "start": "s", "end": "e"}"#,
            r#"{"timeSeries": [1, {}]}"#
        ),
        parsed(r#"{"project": "test-project", "time_series": [1, {}]}"#)
    );
    assert_eq!(
        request(Op::MonitoringListMetricDescriptors, r#"{"filter": "x y"}"#).url,
        "https://monitoring.googleapis.com/v3/projects/test-project/metricDescriptors?filter=x%20y"
    );
}

#[test]
fn permissions_are_tested_as_given() {
    let args = r#"{"url": "https://e.com/x:testIamPermissions", "permissions": ["a", 1]}"#;
    let q = request(Op::IamTestPermissions, args);
    assert_eq!(q.url, "https://e.com/x:testIamPermissions");
    assert_eq!(body(&q), parsed(r#"{"permissions": ["a", 1]}"#));
    assert_eq!(
        result(Op::IamTestPermissions, args, r#"{"permissions": ["a"]}"#),
        parsed(r#"{"permissions": ["a"]}"#)
    );
    assert_eq!(result(Op::IamTestPermissions, args, "{}"), parsed(r#"{"permissions": []}"#));
}
