use serde_json::Value;
use stryke_gcp::json::{Json, Members, Number};
use stryke_gcp::options::Env;
use stryke_gcp::pubsub::{
    ack, dispatch, full_name, parse_attrs, publish, pull, pulled_line, sealed_request, subs, topics,
    PubSubCmd, Step,
};
use stryke_gcp::request::{Body, Method, Request};

/// The library's form of a JSON value.
fn json_of(v: &Value) -> Json {
    match v {
        Value::Null => Json::Null,
        Value::Bool(b) => Json::Bool(*b),
        Value::Number(n) => Json::Number(if let Some(u) = n.as_u64() {
            Number::PosInt(u)
        } else if let Some(i) = n.as_i64() {
            Number::NegInt(i)
        } else {
            Number::Float(n.as_f64().unwrap().to_bits())
        }),
        Value::String(s) => Json::String(s.clone()),
        Value::Array(a) => Json::Array(a.iter().map(json_of).collect()),
        Value::Object(m) => {
            let mut members = Members::new();
            for (k, v) in m {
                members = members.with(k, json_of(v));
            }
            Json::Object(members)
        }
    }
}

/// The plain form of a value of the library.
fn value_of(j: &Json) -> Value {
    match j {
        Json::Null => Value::Null,
        Json::Bool(b) => Value::Bool(*b),
        Json::Number(Number::PosInt(u)) => Value::from(*u),
        Json::Number(Number::NegInt(i)) => Value::from(*i),
        Json::Number(Number::Float(bits)) => Value::from(f64::from_bits(*bits)),
        Json::String(s) => Value::String(s.clone()),
        Json::Array(a) => Value::Array(a.iter().map(value_of).collect()),
        Json::Object(m) => {
            let mut map = serde_json::Map::new();
            for (k, v) in &m.entries {
                map.insert(k.clone(), value_of(v));
            }
            Value::Object(map)
        }
    }
}

/// Parses a JSON text.
fn parsed(text: &str) -> Value {
    serde_json::from_str(text).unwrap()
}

/// Parses a JSON text to a value of the library.
fn json(text: &str) -> Json {
    json_of(&parsed(text))
}

/// An environment in which no variable is set.
fn nowhere() -> Env {
    Env {
        google_cloud_project: None,
        gcloud_project: None,
        gcp_project: None,
        application_credentials: None,
    }
}

/// The body of a request.
fn body(q: &Request) -> Value {
    match &q.body {
        Body::Json(j) => value_of(j),
        _ => panic!("no JSON body"),
    }
}

/// What a command does first, in the project `p`.
fn first(cmd: PubSubCmd) -> Step {
    dispatch(Some("p"), &nowhere(), cmd).unwrap()
}


// ─── full_name ───────────────────────────────────────────────────

#[test]
fn full_name_passes_through_fully_qualified() {
    // Already-fully-qualified names go through unchanged regardless
    // of `project` and `kind`.
    let n = full_name(None, &nowhere(), "topics", "projects/p/topics/t").unwrap();
    assert_eq!(n, "projects/p/topics/t");
    let n = full_name(Some("ignored"), &nowhere(), "subscriptions", "projects/X/subscriptions/Y").unwrap();
    assert_eq!(n, "projects/X/subscriptions/Y");
}

#[test]
fn full_name_short_form_combined_with_explicit_project() {
    let n = full_name(Some("my-project"), &nowhere(), "topics", "events").unwrap();
    assert_eq!(n, "projects/my-project/topics/events");
}

#[test]
fn full_name_subscriptions_kind() {
    let n = full_name(Some("p"), &nowhere(), "subscriptions", "sub-1").unwrap();
    assert_eq!(n, "projects/p/subscriptions/sub-1");
}

// ─── parse_attrs ─────────────────────────────────────────────────

#[test]
fn parse_attrs_empty() {
    let m = parse_attrs(&[]);
    assert!(m.is_empty());
}

#[test]
fn parse_attrs_basic_pairs() {
    let m = parse_attrs(&["a=1".into(), "b=two".into()]);
    assert_eq!(m.get("a").map(String::as_str), Some("1"));
    assert_eq!(m.get("b").map(String::as_str), Some("two"));
}

#[test]
fn parse_attrs_value_with_equals_preserved() {
    // split_once('=') splits on FIRST '=' — value can contain '='.
    let m = parse_attrs(&["jwt=a.b=c.d".into()]);
    assert_eq!(m.get("jwt").map(String::as_str), Some("a.b=c.d"));
}

#[test]
fn parse_attrs_drops_malformed_silently() {
    // No '=' → silently dropped (there is no error).
    let m = parse_attrs(&["a=1".into(), "no-equals".into(), "b=2".into()]);
    assert_eq!(m.len(), 2);
    assert!(!m.contains_key("no-equals"));
}

#[test]
fn parse_attrs_last_wins_on_duplicate_key() {
    let m = parse_attrs(&["k=first".into(), "k=second".into()]);
    assert_eq!(m.get("k").map(String::as_str), Some("second"));
}

#[test]
fn parse_attrs_empty_value() {
    let m = parse_attrs(&["k=".into()]);
    assert_eq!(m.get("k").map(String::as_str), Some(""));
}

#[test]
fn full_name_arbitrary_kind_segment_passthrough() {
    // kind is not validated — any segment is accepted in the path.
    let n = full_name(Some("p"), &nowhere(), "queues", "x").unwrap();
    assert_eq!(n, "projects/p/queues/x");
}

#[test]
fn full_name_short_without_project_errors() {
    let err = full_name(None, &nowhere(), "topics", "events").unwrap_err();
    assert!(err.to_text().contains("project"));
}

#[test]
fn parse_attrs_unicode_keys() {
    let m = parse_attrs(&["種類=ログ".into()]);
    assert_eq!(m.get("種類").map(String::as_str), Some("ログ"));
}

#[test]
fn parse_attrs_only_equals() {
    let m = parse_attrs(&["=".into()]);
    assert_eq!(m.get("").map(String::as_str), Some(""));
}

#[test]
fn full_name_topic_id_with_slashes_in_short_form() {
    let n = full_name(Some("p"), &nowhere(), "topics", "a/b/c").unwrap();
    assert_eq!(n, "projects/p/topics/a/b/c");
}

#[test]
fn full_name_fully_qualified_ignores_kind_parameter() {
    let n = full_name(Some("ignored"), &nowhere(), "topics", "projects/real/topics/t1").unwrap();
    assert_eq!(n, "projects/real/topics/t1");
}

#[test]
fn parse_attrs_multiple_equals_in_value() {
    let m = parse_attrs(&["cfg=a=b=c".into()]);
    assert_eq!(m.get("cfg").map(String::as_str), Some("a=b=c"));
}

#[test]
fn parse_attrs_only_key_no_value() {
    let m = parse_attrs(&["flag".into()]);
    assert!(!m.contains_key("flag"));
}

#[test]
fn full_name_subscription_with_hyphens() {
    let n = full_name(Some("p"), &nowhere(), "subscriptions", "my-sub").unwrap();
    assert_eq!(n, "projects/p/subscriptions/my-sub");
}

#[test]
fn parse_attrs_preserves_order_last_wins_on_dup() {
    let m = parse_attrs(&["x=1".into(), "x=2".into(), "y=3".into()]);
    assert_eq!(m.get("x").map(String::as_str), Some("2"));
    assert_eq!(m.get("y").map(String::as_str), Some("3"));
}

#[test]
fn parse_attrs_whitespace_trim_not_applied() {
    let m = parse_attrs(&[" key = value ".into()]);
    assert_eq!(m.get(" key ").map(String::as_str), Some(" value "));
}

#[test]
fn full_name_topic_numeric_id() {
    let n = full_name(Some("p"), &nowhere(), "topics", "12345").unwrap();
    assert_eq!(n, "projects/p/topics/12345");
}

#[test]
fn parse_attrs_single_char_key_value() {
    let m = parse_attrs(&["a=b".into()]);
    assert_eq!(m.get("a").map(String::as_str), Some("b"));
}

#[test]
fn full_name_projects_prefix_case_sensitive() {
    assert!(full_name(None, &nowhere(), "topics", "Projects/x/topics/t").is_err());
}

#[test]
fn parse_attrs_many_pairs() {
    let specs: Vec<String> = (0..8).map(|i| format!("k{i}={i}")).collect();
    assert_eq!(parse_attrs(&specs).len(), 8);
}

#[test]
fn parse_attrs_empty_vec() {
    assert!(parse_attrs(&[]).is_empty());
}

#[test]
fn parse_attrs_value_with_colon() {
    let m = parse_attrs(&["k=v:w".into()]);
    assert_eq!(m.get("k").map(String::as_str), Some("v:w"));
}

#[test]
fn full_name_subscription_short_form() {
    let n = full_name(Some("proj"), &nowhere(), "subscriptions", "sub1").unwrap();
    assert_eq!(n, "projects/proj/subscriptions/sub1");
}

#[test]
fn full_name_fully_qualified_subscription() {
    let n = full_name(Some("ignored"), &nowhere(), "subscriptions", "projects/p/subscriptions/s").unwrap();
    assert_eq!(n, "projects/p/subscriptions/s");
}

#[test]
fn parse_attrs_duplicate_key_last_wins() {
    let m = parse_attrs(&["a=1".into(), "a=2".into()]);
    assert_eq!(m.get("a").map(String::as_str), Some("2"));
}

#[test]
fn full_name_topic_with_dots_in_id() {
    let n = full_name(Some("p"), &nowhere(), "topics", "events.v2").unwrap();
    assert_eq!(n, "projects/p/topics/events.v2");
}

#[test]
fn full_name_short_without_project_still_errors() {
    assert!(full_name(None, &nowhere(), "topics", "my-topic").is_err());
}

#[test]
fn parse_attrs_colon_only_pair_dropped() {
    assert!(parse_attrs(&["k:v:w".into()]).is_empty());
}

#[test]
fn full_name_subscription_fully_qualified() {
    let n = full_name(None, &nowhere(), "subscriptions", "projects/p/subscriptions/s").unwrap();
    assert_eq!(n, "projects/p/subscriptions/s");
}

#[test]
fn parse_attrs_key_with_dash() {
    let m = parse_attrs(&["x-request-id=req".into()]);
    assert_eq!(m.get("x-request-id").map(String::as_str), Some("req"));
}

#[test]
fn full_name_topic_short_with_project() {
    let n = full_name(Some("prod"), &nowhere(), "topics", "events").unwrap();
    assert_eq!(n, "projects/prod/topics/events");
}

#[test]
fn full_name_wrong_prefix_errors() {
    assert!(full_name(None, &nowhere(), "topics", "project/p/topics/t").is_err());
}

#[test]
fn parse_attrs_unicode_value() {
    let m = parse_attrs(&["msg=日本語".into()]);
    assert_eq!(m.get("msg").map(String::as_str), Some("日本語"));
}

#[test]
fn full_name_kind_segment_in_short_form() {
    let n = full_name(Some("p"), &nowhere(), "topics", "my-topic").unwrap();
    assert!(n.contains("/topics/"));
}

#[test]
fn parse_attrs_numeric_value() {
    let m = parse_attrs(&["code=404".into()]);
    assert_eq!(m.get("code").map(String::as_str), Some("404"));
}

#[test]
fn full_name_topic_with_underscore() {
    let n = full_name(Some("p"), &nowhere(), "topics", "events_raw").unwrap();
    assert_eq!(n, "projects/p/topics/events_raw");
}

#[test]
fn parse_attrs_three_pairs() {
    let m = parse_attrs(&["a=1".into(), "b=2".into(), "c=3".into()]);
    assert_eq!(m.len(), 3);
}

#[test]
fn full_name_subscription_short_hyphenated() {
    let n = full_name(Some("prod"), &nowhere(), "subscriptions", "worker-sub").unwrap();
    assert_eq!(n, "projects/prod/subscriptions/worker-sub");
}

#[test]
fn parse_attrs_key_with_dot() {
    let m = parse_attrs(&["app.version=1".into()]);
    assert_eq!(m.get("app.version").map(String::as_str), Some("1"));
}

#[test]
fn full_name_projects_lowercase_required() {
    assert!(full_name(None, &nowhere(), "topics", "Projects/p/topics/t").is_err());
}

#[test]
fn parse_attrs_pipe_in_value() {
    let m = parse_attrs(&["roles=read|write".into()]);
    assert_eq!(m.get("roles").map(String::as_str), Some("read|write"));
}

#[test]
fn full_name_topic_fq_with_project_ignored() {
    let n = full_name(Some("x"), &nowhere(), "topics", "projects/real/topics/t").unwrap();
    assert_eq!(n, "projects/real/topics/t");
}

#[test]
fn parse_attrs_backslash_in_value() {
    let m = parse_attrs(&["path=a\\b".into()]);
    assert_eq!(m.get("path").map(String::as_str), Some("a\\b"));
}

#[test]
fn full_name_topic_short_numeric_project() {
    let n = full_name(Some("123"), &nowhere(), "topics", "t").unwrap();
    assert_eq!(n, "projects/123/topics/t");
}

#[test]
fn parse_attrs_value_starts_with_equals() {
    let m = parse_attrs(&["k==v".into()]);
    assert_eq!(m.get("k").map(String::as_str), Some("=v"));
}

#[test]
fn full_name_subscription_with_dots() {
    let n = full_name(Some("p"), &nowhere(), "subscriptions", "sub.v2").unwrap();
    assert_eq!(n, "projects/p/subscriptions/sub.v2");
}

#[test]
fn parse_attrs_two_malformed_one_valid() {
    let m = parse_attrs(&["bad".into(), "k=v".into(), "also".into()]);
    assert_eq!(m.len(), 1);
}

#[test]
fn full_name_topic_kind_literal_in_path() {
    let n = full_name(Some("p"), &nowhere(), "topics", "my-topic").unwrap();
    assert!(n.ends_with("/topics/my-topic"));
}

#[test]
fn parse_attrs_semicolon_in_value() {
    let m = parse_attrs(&["hdr=a;b".into()]);
    assert_eq!(m.get("hdr").map(String::as_str), Some("a;b"));
}

#[test]
fn full_name_projects_prefix_exact() {
    let n = full_name(None, &nowhere(), "topics", "projects/p/topics/events").unwrap();
    assert_eq!(n, "projects/p/topics/events");
}

// ─── commands ────────────────────────────────────────────────────

#[test]
fn full_names_are_their_own_full_names() {
    for raw in ["events", "projects/x/topics/y", "a/b"] {
        let once = full_name(Some("p"), &nowhere(), "topics", raw).unwrap();
        let twice = full_name(Some("q"), &nowhere(), "subscriptions", &once).unwrap();
        assert_eq!(once, twice);
    }
}

#[test]
fn full_name_looks_at_the_environment() {
    let mut env = nowhere();
    env.gcp_project = Some("third".to_string());
    assert_eq!(full_name(None, &env, "topics", "t").unwrap(), "projects/third/topics/t");
}

#[test]
fn attrs_become_an_object() {
    let m = parse_attrs(&["a=1".into(), "b=2".into(), "a=3".into()]);
    assert_eq!(value_of(&m.to_json()), parsed(r#"{"a": "3", "b": "2"}"#));
    assert_eq!(m.len(), 2);
}

#[test]
fn publish_sends_the_message() {
    let step = first(PubSubCmd::Publish {
        topic: "t".into(),
        data: "hallo ☃".into(),
        attrs: vec!["k=v".into(), "dropped".into()],
        ordering_key: Some("o".into()),
    });
    match step {
        Step::Publish { request, topic } => {
            assert_eq!(topic, "projects/p/topics/t");
            assert_eq!(request.method, Method::Post);
            assert_eq!(
                request.url,
                "https://pubsub.googleapis.com/v1/projects/p/topics/t:publish"
            );
            assert_eq!(
                body(&request),
                parsed(
                    r#"{"messages": [{"data": "aGFsbG8g4piD", "attributes": {"k": "v"},
                        "orderingKey": "o"}]}"#
                )
            );
        }
        _ => panic!("another step"),
    }
    assert_eq!(
        value_of(&publish("projects/p/topics/t", &json(r#"{"messageIds": [1, "a", "b"]}"#))),
        parsed(r#"{"topic": "projects/p/topics/t", "message_id": "a"}"#)
    );
    assert_eq!(value_of(&publish("t", &json("{}")))["message_id"], Value::Null);
}

#[test]
fn pull_shows_and_acknowledges_messages() {
    let step = first(PubSubCmd::Pull {
        subscription: "projects/x/subscriptions/s".into(),
        max: 4,
        ack: true,
        deadline: 30,
    });
    match step {
        Step::Pull { request, subscription, ack } => {
            assert_eq!(subscription, "projects/x/subscriptions/s");
            assert!(ack);
            assert_eq!(
                body(&request),
                parsed(r#"{"maxMessages": 4, "returnImmediately": false}"#)
            );
        }
        _ => panic!("another step"),
    }
    let reply = json(
        r#"{"receivedMessages": [
            {"ackId": "1", "message": {"messageId": "m", "data": "aGFsbG8g4piD"}},
            {"message": {"data": "!!"}}]}"#,
    );
    let (lines, again) = pull("f", true, &reply);
    assert_eq!(lines.len(), 2);
    assert_eq!(
        value_of(&lines[0]),
        parsed(
            r#"{"ack_id": "1", "message_id": "m", "data": "hallo ☃", "attributes": null,
                "publish_time": null, "ordering_key": null}"#
        )
    );
    assert_eq!(value_of(&lines[1])["data"], "!!");
    let q = again.unwrap();
    assert_eq!(q.url, "https://pubsub.googleapis.com/v1/f:acknowledge");
    assert_eq!(body(&q), parsed(r#"{"ackIds": ["1"]}"#));
    assert!(pull("f", false, &reply).1.is_none());
    assert!(pull("f", true, &json(r#"{"receivedMessages": [{}]}"#)).1.is_none());
}

#[test]
fn decoded_data_is_shown() {
    let o = json(r#"{"message": {"data": "raw", "orderingKey": "k"}}"#);
    let line = |decoded| value_of(&pulled_line(&o, decoded));
    assert_eq!(line(Ok("é".as_bytes().to_vec()))["data"], "é");
    assert_eq!(line(Ok(vec![0xff]))["data"], "raw");
    assert_eq!(line(Err("bad".to_string()))["data"], "raw");
    assert_eq!(line(Ok(Vec::new()))["ordering_key"], "k");
    let q = sealed_request("f", "c2VhbGVk", &parse_attrs(&["a=b".into()]), &None);
    assert_eq!(
        body(&q),
        parsed(r#"{"messages": [{"data": "c2VhbGVk", "attributes": {"a": "b"}}]}"#)
    );
}

#[test]
fn ack_drops_empty_ids() {
    let step = first(PubSubCmd::Ack { subscription: "s".into(), ids: ",a,,b,".into() });
    match step {
        Step::Ack { request, subscription, acked } => {
            assert_eq!(body(&request), parsed(r#"{"ackIds": ["a", "b"]}"#));
            assert_eq!(
                value_of(&ack(&subscription, acked)),
                parsed(r#"{"subscription": "projects/p/subscriptions/s", "acked": 2}"#)
            );
        }
        _ => panic!("another step"),
    }
}

#[test]
fn topics_and_subs_are_listed() {
    match first(PubSubCmd::Topics) {
        Step::Topics { request } => {
            assert_eq!(request.url, "https://pubsub.googleapis.com/v1/projects/p/topics")
        }
        _ => panic!("another step"),
    }
    match first(PubSubCmd::Subs) {
        Step::Subs { request } => {
            assert_eq!(request.url, "https://pubsub.googleapis.com/v1/projects/p/subscriptions")
        }
        _ => panic!("another step"),
    }
    let lines = topics(&json(r#"{"topics": [{"name": "a"}, {}]}"#));
    assert_eq!(value_of(&lines[0]), parsed(r#"{"name": "a"}"#));
    assert_eq!(value_of(&lines[1]), parsed(r#"{"name": null}"#));
    let lines = subs(&json(r#"{"subscriptions": [{"name": "s", "topic": "t"}]}"#));
    assert_eq!(
        value_of(&lines[0]),
        parsed(r#"{"name": "s", "topic": "t", "ack_deadline_seconds": null}"#)
    );
    let err = dispatch(None, &nowhere(), PubSubCmd::Topics).unwrap_err();
    assert!(err.to_text().contains("project"));
}

#[test]
fn further_attrs_replace_earlier_ones() {
    let both = parse_attrs(&["a=1".into(), "b=2".into(), "b=3".into(), "c=4".into()]);
    let first = parse_attrs(&["a=1".into(), "b=2".into()]);
    let further = parse_attrs(&["b=3".into(), "c=4".into()]);
    for name in ["a", "b", "c", "d"] {
        assert_eq!(both.get(name), further.get(name).or(first.get(name)), "{name}");
    }
}
