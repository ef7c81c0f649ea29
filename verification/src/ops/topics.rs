//! Pub/Sub.

use vstd::prelude::*;
use vstd::string::*;
use vstd::utf8::{encode_utf8, encode_utf8_decode_utf8, encode_utf8_valid_utf8};

use crate::codec::{
    base64_decode, base64_decoding, base64_encode, base64_encoding, decoded_view, text_from_utf8,
    url_encoded, utf8_text,
};
use crate::json::{items_view, keep, kept, picks, rows, Json, JsonView, Members};
use crate::options::{
    need, need_array, need_project, require, require_array, require_project, Env, EnvView,
};
use crate::request::{bare, outcome, prepared, BodyView, Draft, Error, Method, Request, RequestView};
use crate::resource_name::{leaf, leaf_name};
use super::{
    leaf_item, leaf_item_json, named_leaf, named_leaf_json, single, text_item,
    text_item_json,
};

verus! {

/// The attributes of a message: the option `attributes` where it is an object, none where it is
/// not.
pub open spec fn attributes(opts: JsonView) -> JsonView {
    if opts.at("attributes"@) is Obj {
        opts.at("attributes"@)
    } else {
        JsonView::Obj(Map::empty())
    }
}

fn attributes_json(opts: &Json) -> (r: Json)
    ensures
        r@ == attributes(opts@),
{
    let given: Json = opts.at("attributes");
    if given.is_object() {
        given
    } else {
        Json::Object(Members::new())
    }
}

/// The text that decoded data holds; empty where it could not be decoded or is no text.
pub open spec fn decoded_text(decoded: Result<Seq<u8>, Seq<char>>) -> Seq<char> {
    match decoded {
        Ok(bytes) => match utf8_text(bytes) {
            Some(s) => s,
            None => Seq::empty(),
        },
        Err(_) => Seq::empty(),
    }
}

/// The text that the data of a message holds; empty where it is no text in base64.
pub open spec fn message_text(data: Seq<char>) -> Seq<char> {
    decoded_text(base64_decoding(data))
}

/// The text that decoded data holds.
pub fn text_of_decoded(decoded: Result<Vec<u8>, String>) -> (r: String)
    ensures
        r@ == decoded_text(decoded_view(decoded)),
{
    match decoded {
        Ok(bytes) => match text_from_utf8(bytes.as_slice()) {
            Some(s) => s,
            None => String::new(),
        },
        Err(_) => String::new(),
    }
}

/// The body of a request that publishes one message with that data.
pub open spec fn publish_body(opts: JsonView, sealed: Seq<char>) -> JsonView {
    JsonView::Obj(
        map![
            "messages"@ => JsonView::Arr(
                seq![
                    JsonView::Obj(
                        map![
                            "data"@ => JsonView::Str(sealed),
                            "attributes"@ => attributes(opts),
                        ],
                    ),
                ],
            ),
        ],
    )
}

/// The body of a request that publishes one message, whose data is the text `sealed`.
pub fn publish_body_json(opts: &Json, sealed: &str) -> (r: Json)
    ensures
        r@ == publish_body(opts@, sealed@),
{
    let message: Json = Json::Object(
        Members::new()
            .with("data", Json::text(sealed))
            .with("attributes", attributes_json(opts)),
    );
    Json::Object(Members::new().with("messages", single(message)))
}

/// The request of `pubsub_publish`, or what is answered where it cannot be made.
pub open spec fn pubsub_publish_call(opts: JsonView, env: EnvView) -> Result<
    RequestView,
    Seq<char>,
> {
    match need_project(opts, env) {
        Err(e) => Err(e),
        Ok(project) => match need(opts, "topic"@, "missing topic"@) {
            Err(e) => Err(e),
            Ok(topic) => {
                let data = opts.str_or("data"@, ""@);
                Ok(
                    bare(
                        Method::Post,
                        "https://pubsub.googleapis.com/v1/projects/"@ + url_encoded(project)
                            + "/topics/"@ + url_encoded(topic) + ":publish"@,
                    ).json(publish_body(opts, base64_encoding(encode_utf8(data)))),
                )
            },
        },
    }
}

/// Publishes the text `data` with `attributes` to `topic`. The text is what pulling the message
/// gives back.
pub fn pubsub_publish_request(opts: &Json, env: &Env) -> (r: Result<Request, Error>)
    ensures
        prepared(r) == pubsub_publish_call(opts@, env@),
        r is Ok ==> message_text(base64_encoding(encode_utf8(opts@.str_or("data"@, ""@))))
            == opts@.str_or("data"@, ""@),
{
    let project: String = require_project(opts, env)?;
    let topic: &str = require(opts, "topic", "missing topic")?;
    let data: &str = opts.str_or("data", "");
    let sealed: String = base64_encode(data.as_bytes());
    proof {
        encode_utf8_valid_utf8(data@);
        encode_utf8_decode_utf8(data@);
    }
    Ok(
        Request::new(
            Method::Post,
            Draft::new("https://pubsub.googleapis.com/v1/projects/")
                .enc(project.as_str()).lit("/topics/").enc(topic).lit(":publish"),
        ).json(publish_body_json(opts, sealed.as_str())),
    )
}

/// The result of `pubsub_publish`, where the service answers `body`.
pub open spec fn pubsub_publish_result(opts: JsonView, env: EnvView, body: JsonView) -> Result<
    JsonView,
    Seq<char>,
> {
    match need_project(opts, env) {
        Err(e) => Err(e),
        Ok(project) => match need(opts, "topic"@, "missing topic"@) {
            Err(e) => Err(e),
            Ok(topic) => Ok(
                JsonView::Obj(
                    map![
                        "topic"@ => JsonView::Str(topic),
                        "message_ids"@ => JsonView::Arr(kept(body.list("messageIds"@), |o: JsonView| text_item(o))),
                    ],
                ),
            ),
        },
    }
}

/// The result of the operation, where the service answers `body`.
pub fn op_pubsub_publish(opts: &Json, env: &Env, body: &Json) -> (r: Result<Json, Error>)
    ensures
        outcome(r) == pubsub_publish_result(opts@, env@, body@),
{
    require_project(opts, env)?;
    let topic: &str = require(opts, "topic", "missing topic")?;
    Ok(
        Json::Object(
            Members::new()
                .with("topic", Json::text(topic))
                .with("message_ids", picks(body, "messageIds", text_item_json, Ghost(|o: JsonView| text_item(o)))),
        ),
    )
}

/// A pulled message whose data is decoded to that.
pub open spec fn message_row_of(o: JsonView, decoded: Result<Seq<u8>, Seq<char>>) -> JsonView {
    JsonView::Obj(
        map![
            "ack_id"@ => JsonView::Str(o.str_or("ackId"@, ""@)),
            "message_id"@ => JsonView::Str(o.at("message"@).str_or("messageId"@, ""@)),
            "data"@ => JsonView::Str(decoded_text(decoded)),
            "attributes"@ => o.at("message"@).at("attributes"@),
        ],
    )
}

/// A pulled message.
pub open spec fn message_row(o: JsonView) -> JsonView {
    message_row_of(o, base64_decoding(o.at("message"@).str_or("data"@, ""@)))
}

/// A pulled message, where its data is decoded to that.
pub fn pulled_message(o: &Json, decoded: Result<Vec<u8>, String>) -> (r: Json)
    ensures
        r@ == message_row_of(o@, decoded_view(decoded)),
{
    let message: Json = o.at("message");
    Json::Object(
        Members::new()
            .with("ack_id", Json::text(o.str_or("ackId", "")))
            .with("message_id", Json::text(message.str_or("messageId", "")))
            .with("data", Json::String(text_of_decoded(decoded)))
            .with("attributes", message.at("attributes")),
    )
}

fn message_row_json(o: &Json) -> (r: Json)
    ensures
        r@ == message_row(o@),
{
    let decoded: Result<Vec<u8>, String> = base64_decode(o.at("message").str_or("data", ""));
    pulled_message(o, decoded)
}

/// The most messages that a pull asks for: the option `max`, one where it is no integer.
pub open spec fn pull_limit(opts: JsonView) -> int {
    match opts.at("max"@).as_i64() {
        Some(i) => i,
        None => 1,
    }
}

fn pull_limit_i64(opts: &Json) -> (r: i64)
    ensures
        r == pull_limit(opts@),
{
    match opts.i64_at("max") {
        Some(i) => i,
        None => 1,
    }
}

/// The request of `pubsub_pull`, or what is answered where it cannot be made.
pub open spec fn pubsub_pull_call(opts: JsonView, env: EnvView) -> Result<RequestView, Seq<char>> {
    match need_project(opts, env) {
        Err(e) => Err(e),
        Ok(project) => match need(opts, "subscription"@, "missing subscription"@) {
            Err(e) => Err(e),
            Ok(subscription) => Ok(
                bare(
                    Method::Post,
                    "https://pubsub.googleapis.com/v1/projects/"@ + url_encoded(project)
                        + "/subscriptions/"@ + url_encoded(subscription) + ":pull"@,
                ).json(
                    JsonView::Obj(
                        map![
                            "maxMessages"@ => JsonView::Int(pull_limit(opts)),
                            "returnImmediately"@ => JsonView::Bool(false),
                        ],
                    ),
                ),
            ),
        },
    }
}

/// Pulls at most `max` messages of `subscription`.
pub fn pubsub_pull_request(opts: &Json, env: &Env) -> (r: Result<Request, Error>)
    ensures
        prepared(r) == pubsub_pull_call(opts@, env@),
{
    let project: String = require_project(opts, env)?;
    let subscription: &str = require(opts, "subscription", "missing subscription")?;
    Ok(
        Request::new(
            Method::Post,
            Draft::new("https://pubsub.googleapis.com/v1/projects/")
                .enc(project.as_str()).lit("/subscriptions/").enc(subscription)
                .lit(":pull"),
        ).json(
            Json::Object(
                Members::new()
                    .with("maxMessages", Json::integer(pull_limit_i64(opts)))
                    .with("returnImmediately", Json::Bool(false)),
            ),
        ),
    )
}

/// The result of `pubsub_pull`, where the service answers `body`.
pub open spec fn pubsub_pull_result(opts: JsonView, env: EnvView, body: JsonView) -> Result<
    JsonView,
    Seq<char>,
> {
    match need_project(opts, env) {
        Err(e) => Err(e),
        Ok(project) => match need(opts, "subscription"@, "missing subscription"@) {
            Err(e) => Err(e),
            Ok(subscription) => Ok(
                JsonView::Obj(
                    map![
                        "subscription"@ => JsonView::Str(subscription),
                        "messages"@ => JsonView::Arr(body.list("receivedMessages"@).map_values(|o: JsonView| message_row(o))),
                    ],
                ),
            ),
        },
    }
}

/// The result of the operation, where the service answers `body`.
pub fn op_pubsub_pull(opts: &Json, env: &Env, body: &Json) -> (r: Result<Json, Error>)
    ensures
        outcome(r) == pubsub_pull_result(opts@, env@, body@),
{
    require_project(opts, env)?;
    let subscription: &str = require(opts, "subscription", "missing subscription")?;
    Ok(
        Json::Object(
            Members::new()
                .with("subscription", Json::text(subscription))
                .with("messages", rows(body, "receivedMessages", message_row_json, Ghost(|o: JsonView| message_row(o)))),
        ),
    )
}

/// The request of `pubsub_ack`, or what is answered where it cannot be made.
pub open spec fn pubsub_ack_call(opts: JsonView, env: EnvView) -> Result<RequestView, Seq<char>> {
    match need_project(opts, env) {
        Err(e) => Err(e),
        Ok(project) => match need(opts, "subscription"@, "missing subscription"@) {
            Err(e) => Err(e),
            Ok(subscription) => match need_array(opts, "ack_ids"@, "missing ack_ids (array)"@) {
                Err(e) => Err(e),
                Ok(ack_ids) => Ok(
                    bare(
                        Method::Post,
                        "https://pubsub.googleapis.com/v1/projects/"@ + url_encoded(project)
                            + "/subscriptions/"@ + url_encoded(subscription) + ":acknowledge"@,
                    ).json(
                        JsonView::Obj(
                            map![
                                "ackIds"@ => JsonView::Arr(kept(ack_ids, |o: JsonView| text_item(o))),
                            ],
                        ),
                    ),
                ),
            },
        },
    }
}

/// Acknowledges the messages `ack_ids` of `subscription`.
pub fn pubsub_ack_request(opts: &Json, env: &Env) -> (r: Result<Request, Error>)
    ensures
        prepared(r) == pubsub_ack_call(opts@, env@),
{
    let project: String = require_project(opts, env)?;
    let subscription: &str = require(opts, "subscription", "missing subscription")?;
    let ack_ids: &Vec<Json> = require_array(opts, "ack_ids", "missing ack_ids (array)")?;
    Ok(
        Request::new(
            Method::Post,
            Draft::new("https://pubsub.googleapis.com/v1/projects/")
                .enc(project.as_str()).lit("/subscriptions/").enc(subscription)
                .lit(":acknowledge"),
        ).json(
            Json::Object(
                Members::new()
                    .with("ackIds", Json::array(keep(ack_ids, text_item_json, Ghost(|o: JsonView| text_item(o))))),
            ),
        ),
    )
}

/// The result of `pubsub_ack`, where the service agrees.
pub open spec fn pubsub_ack_result(opts: JsonView, env: EnvView) -> Result<JsonView, Seq<char>> {
    match need_project(opts, env) {
        Err(e) => Err(e),
        Ok(project) => match need(opts, "subscription"@, "missing subscription"@) {
            Err(e) => Err(e),
            Ok(subscription) => match need_array(opts, "ack_ids"@, "missing ack_ids (array)"@) {
                Err(e) => Err(e),
                Ok(ack_ids) => Ok(
                    JsonView::Obj(
                        map![
                            "subscription"@ => JsonView::Str(subscription),
                            "acked"@ => JsonView::Int(kept(ack_ids, |o: JsonView| text_item(o)).len() as int),
                        ],
                    ),
                ),
            },
        },
    }
}

/// The result of the operation, where the service agrees.
pub fn op_pubsub_ack(opts: &Json, env: &Env) -> (r: Result<Json, Error>)
    ensures
        outcome(r) == pubsub_ack_result(opts@, env@),
{
    require_project(opts, env)?;
    let subscription: &str = require(opts, "subscription", "missing subscription")?;
    let ack_ids: &Vec<Json> = require_array(opts, "ack_ids", "missing ack_ids (array)")?;
    let acked: Vec<Json> = keep(ack_ids, text_item_json, Ghost(|o: JsonView| text_item(o)));
    let count: u64 = acked.len() as u64;
    assert(items_view(acked@).len() == acked@.len());
    Ok(
        Json::Object(
            Members::new()
                .with("subscription", Json::text(subscription))
                .with("acked", Json::natural(count)),
        ),
    )
}

/// The request of `pubsub_list_topics`, or what is answered where it cannot be made.
pub open spec fn pubsub_list_topics_call(opts: JsonView, env: EnvView) -> Result<
    RequestView,
    Seq<char>,
> {
    match need_project(opts, env) {
        Err(e) => Err(e),
        Ok(project) => Ok(
            bare(
                Method::Get,
                "https://pubsub.googleapis.com/v1/projects/"@ + url_encoded(project)
                    + "/topics"@,
            ),
        ),
    }
}

/// Lists the topics of the project.
pub fn pubsub_list_topics_request(opts: &Json, env: &Env) -> (r: Result<Request, Error>)
    ensures
        prepared(r) == pubsub_list_topics_call(opts@, env@),
{
    let project: String = require_project(opts, env)?;
    Ok(
        Request::new(
            Method::Get,
            Draft::new("https://pubsub.googleapis.com/v1/projects/")
                .enc(project.as_str()).lit("/topics"),
        ),
    )
}

/// The result of `pubsub_list_topics`, where the service answers `body`.
pub open spec fn pubsub_list_topics_result(opts: JsonView, env: EnvView, body: JsonView) -> Result<
    JsonView,
    Seq<char>,
> {
    match need_project(opts, env) {
        Err(e) => Err(e),
        Ok(project) => Ok(
            JsonView::Obj(
                map![
                    "project"@ => JsonView::Str(project),
                    "topics"@ => JsonView::Arr(kept(body.list("topics"@), |o: JsonView| named_leaf(o))),
                ],
            ),
        ),
    }
}

/// The result of the operation, where the service answers `body`.
pub fn op_pubsub_list_topics(opts: &Json, env: &Env, body: &Json) -> (r: Result<Json, Error>)
    ensures
        outcome(r) == pubsub_list_topics_result(opts@, env@, body@),
{
    let project: String = require_project(opts, env)?;
    Ok(
        Json::Object(
            Members::new()
                .with("project", Json::text(project.as_str()))
                .with("topics", picks(body, "topics", named_leaf_json, Ghost(|o: JsonView| named_leaf(o)))),
        ),
    )
}

/// A subscription in a listing.
pub open spec fn subscription_row(o: JsonView) -> JsonView {
    JsonView::Obj(
        map![
            "name"@ => JsonView::Str(leaf(o.str_or("name"@, ""@))),
            "topic"@ => JsonView::Str(leaf(o.str_or("topic"@, ""@))),
        ],
    )
}

fn subscription_row_json(o: &Json) -> (r: Json)
    ensures
        r@ == subscription_row(o@),
{
    Json::Object(
        Members::new()
            .with("name", Json::text(leaf_name(o.str_or("name", ""))))
            .with("topic", Json::text(leaf_name(o.str_or("topic", "")))),
    )
}

/// The request of `pubsub_list_subscriptions`, or what is answered where it cannot be made.
pub open spec fn pubsub_list_subscriptions_call(opts: JsonView, env: EnvView) -> Result<
    RequestView,
    Seq<char>,
> {
    match need_project(opts, env) {
        Err(e) => Err(e),
        Ok(project) => Ok(
            bare(
                Method::Get,
                "https://pubsub.googleapis.com/v1/projects/"@ + url_encoded(project)
                    + "/subscriptions"@,
            ),
        ),
    }
}

/// Lists the subscriptions of the project.
pub fn pubsub_list_subscriptions_request(opts: &Json, env: &Env) -> (r: Result<Request, Error>)
    ensures
        prepared(r) == pubsub_list_subscriptions_call(opts@, env@),
{
    let project: String = require_project(opts, env)?;
    Ok(
        Request::new(
            Method::Get,
            Draft::new("https://pubsub.googleapis.com/v1/projects/")
                .enc(project.as_str()).lit("/subscriptions"),
        ),
    )
}

/// The result of `pubsub_list_subscriptions`, where the service answers `body`.
pub open spec fn pubsub_list_subscriptions_result(
    opts: JsonView,
    env: EnvView,
    body: JsonView,
) -> Result<
    JsonView,
    Seq<char>,
> {
    match need_project(opts, env) {
        Err(e) => Err(e),
        Ok(project) => Ok(
            JsonView::Obj(
                map![
                    "project"@ => JsonView::Str(project),
                    "subscriptions"@ => JsonView::Arr(body.list("subscriptions"@).map_values(|o: JsonView| subscription_row(o))),
                ],
            ),
        ),
    }
}

/// The result of the operation, where the service answers `body`.
pub fn op_pubsub_list_subscriptions(opts: &Json, env: &Env, body: &Json) -> (r: Result<Json, Error>)
    ensures
        outcome(r) == pubsub_list_subscriptions_result(opts@, env@, body@),
{
    let project: String = require_project(opts, env)?;
    Ok(
        Json::Object(
            Members::new()
                .with("project", Json::text(project.as_str()))
                .with("subscriptions", rows(body, "subscriptions", subscription_row_json, Ghost(|o: JsonView| subscription_row(o)))),
        ),
    )
}

/// The request of `pubsub_create_topic`, or what is answered where it cannot be made.
pub open spec fn pubsub_create_topic_call(opts: JsonView, env: EnvView) -> Result<
    RequestView,
    Seq<char>,
> {
    match need_project(opts, env) {
        Err(e) => Err(e),
        Ok(project) => match need(opts, "topic"@, "missing topic"@) {
            Err(e) => Err(e),
            Ok(topic) => Ok(
                bare(
                    Method::Put,
                    "https://pubsub.googleapis.com/v1/projects/"@ + url_encoded(project)
                        + "/topics/"@ + url_encoded(topic),
                ).json(
                    JsonView::Obj(Map::empty()),
                ),
            ),
        },
    }
}

/// Creates `topic`.
pub fn pubsub_create_topic_request(opts: &Json, env: &Env) -> (r: Result<Request, Error>)
    ensures
        prepared(r) == pubsub_create_topic_call(opts@, env@),
{
    let project: String = require_project(opts, env)?;
    let topic: &str = require(opts, "topic", "missing topic")?;
    Ok(
        Request::new(
            Method::Put,
            Draft::new("https://pubsub.googleapis.com/v1/projects/")
                .enc(project.as_str()).lit("/topics/").enc(topic),
        ).json(
            Json::Object(Members::new()),
        ),
    )
}

/// The result of `pubsub_create_topic`, where the service answers `body`.
pub open spec fn pubsub_create_topic_result(opts: JsonView, env: EnvView, body: JsonView) -> Result<
    JsonView,
    Seq<char>,
> {
    match need_project(opts, env) {
        Err(e) => Err(e),
        Ok(project) => match need(opts, "topic"@, "missing topic"@) {
            Err(e) => Err(e),
            Ok(topic) => Ok(
                JsonView::Obj(
                    map![
                        "topic"@ => JsonView::Str(leaf(body.str_or("name"@, topic))),
                        "created"@ => JsonView::Bool(true),
                    ],
                ),
            ),
        },
    }
}

/// The result of the operation, where the service answers `body`.
pub fn op_pubsub_create_topic(opts: &Json, env: &Env, body: &Json) -> (r: Result<Json, Error>)
    ensures
        outcome(r) == pubsub_create_topic_result(opts@, env@, body@),
{
    require_project(opts, env)?;
    let topic: &str = require(opts, "topic", "missing topic")?;
    Ok(
        Json::Object(
            Members::new()
                .with("topic", Json::text(leaf_name(body.str_or("name", topic))))
                .with("created", Json::Bool(true)),
        ),
    )
}

/// The time to acknowledge a message in seconds: the option `ack_deadline`, ten where it is no
/// natural number.
pub open spec fn ack_deadline(opts: JsonView) -> int {
    match opts.at("ack_deadline"@).as_u64() {
        Some(n) => n,
        None => 10,
    }
}

fn ack_deadline_u64(opts: &Json) -> (r: u64)
    ensures
        r == ack_deadline(opts@),
{
    match opts.u64_at("ack_deadline") {
        Some(n) => n,
        None => 10,
    }
}

/// The request of `pubsub_create_subscription`, or what is answered where it cannot be made.
pub open spec fn pubsub_create_subscription_call(opts: JsonView, env: EnvView) -> Result<
    RequestView,
    Seq<char>,
> {
    match need_project(opts, env) {
        Err(e) => Err(e),
        Ok(project) => match need(opts, "subscription"@, "missing subscription"@) {
            Err(e) => Err(e),
            Ok(subscription) => match need(opts, "topic"@, "missing topic (the topic to subscribe to)"@) {
                Err(e) => Err(e),
                Ok(topic) => Ok(
                    bare(
                        Method::Put,
                        "https://pubsub.googleapis.com/v1/projects/"@ + url_encoded(project)
                            + "/subscriptions/"@ + url_encoded(subscription),
                    ).json(
                        JsonView::Obj(
                            map![
                                "topic"@ => JsonView::Str("projects/"@ + project + "/topics/"@ + topic),
                                "ackDeadlineSeconds"@ => JsonView::Int(ack_deadline(opts)),
                            ],
                        ),
                    ),
                ),
            },
        },
    }
}

/// Creates `subscription` to `topic`.
pub fn pubsub_create_subscription_request(opts: &Json, env: &Env) -> (r: Result<Request, Error>)
    ensures
        prepared(r) == pubsub_create_subscription_call(opts@, env@),
{
    let project: String = require_project(opts, env)?;
    let subscription: &str = require(opts, "subscription", "missing subscription")?;
    let topic: &str = require(opts, "topic", "missing topic (the topic to subscribe to)")?;
    Ok(
        Request::new(
            Method::Put,
            Draft::new("https://pubsub.googleapis.com/v1/projects/")
                .enc(project.as_str()).lit("/subscriptions/").enc(subscription),
        ).json(
            Json::Object(
                Members::new()
                    .with("topic", Json::String(Draft::new("projects/").lit(project.as_str()).lit("/topics/").lit(topic).text))
                    .with("ackDeadlineSeconds", Json::natural(ack_deadline_u64(opts))),
            ),
        ),
    )
}

/// The result of `pubsub_create_subscription`, where the service answers `body`.
pub open spec fn pubsub_create_subscription_result(
    opts: JsonView,
    env: EnvView,
    body: JsonView,
) -> Result<
    JsonView,
    Seq<char>,
> {
    match need_project(opts, env) {
        Err(e) => Err(e),
        Ok(project) => match need(opts, "subscription"@, "missing subscription"@) {
            Err(e) => Err(e),
            Ok(subscription) => match need(opts, "topic"@, "missing topic (the topic to subscribe to)"@) {
                Err(e) => Err(e),
                Ok(topic) => Ok(
                    JsonView::Obj(
                        map![
                            "subscription"@ => JsonView::Str(leaf(body.str_or("name"@, subscription))),
                            "created"@ => JsonView::Bool(true),
                        ],
                    ),
                ),
            },
        },
    }
}

/// The result of the operation, where the service answers `body`.
pub fn op_pubsub_create_subscription(
    opts: &Json,
    env: &Env,
    body: &Json,
) -> (r: Result<Json, Error>)
    ensures
        outcome(r) == pubsub_create_subscription_result(opts@, env@, body@),
{
    require_project(opts, env)?;
    let subscription: &str = require(opts, "subscription", "missing subscription")?;
    require(opts, "topic", "missing topic (the topic to subscribe to)")?;
    Ok(
        Json::Object(
            Members::new()
                .with("subscription", Json::text(leaf_name(body.str_or("name", subscription))))
                .with("created", Json::Bool(true)),
        ),
    )
}

/// The request of `pubsub_get_topic`, or what is answered where it cannot be made.
pub open spec fn pubsub_get_topic_call(opts: JsonView, env: EnvView) -> Result<
    RequestView,
    Seq<char>,
> {
    match need_project(opts, env) {
        Err(e) => Err(e),
        Ok(project) => match need(opts, "topic"@, "missing topic"@) {
            Err(e) => Err(e),
            Ok(topic) => Ok(
                bare(
                    Method::Get,
                    "https://pubsub.googleapis.com/v1/projects/"@ + url_encoded(project)
                        + "/topics/"@ + url_encoded(topic),
                ),
            ),
        },
    }
}

/// Asks for `topic`.
pub fn pubsub_get_topic_request(opts: &Json, env: &Env) -> (r: Result<Request, Error>)
    ensures
        prepared(r) == pubsub_get_topic_call(opts@, env@),
{
    let project: String = require_project(opts, env)?;
    let topic: &str = require(opts, "topic", "missing topic")?;
    Ok(
        Request::new(
            Method::Get,
            Draft::new("https://pubsub.googleapis.com/v1/projects/")
                .enc(project.as_str()).lit("/topics/").enc(topic),
        ),
    )
}

/// The result of `pubsub_get_topic`, where the service answers `body`.
pub open spec fn pubsub_get_topic_result(opts: JsonView, env: EnvView, body: JsonView) -> Result<
    JsonView,
    Seq<char>,
> {
    match need_project(opts, env) {
        Err(e) => Err(e),
        Ok(project) => match need(opts, "topic"@, "missing topic"@) {
            Err(e) => Err(e),
            Ok(topic) => Ok(
                JsonView::Obj(
                    map![
                        "topic"@ => JsonView::Str(topic),
                        "resource"@ => body,
                    ],
                ),
            ),
        },
    }
}

/// The result of the operation, where the service answers `body`.
pub fn op_pubsub_get_topic(opts: &Json, env: &Env, body: &Json) -> (r: Result<Json, Error>)
    ensures
        outcome(r) == pubsub_get_topic_result(opts@, env@, body@),
{
    require_project(opts, env)?;
    let topic: &str = require(opts, "topic", "missing topic")?;
    Ok(
        Json::Object(
            Members::new()
                .with("topic", Json::text(topic))
                .with("resource", body.copy()),
        ),
    )
}

/// The request of `pubsub_topic_subscriptions`, or what is answered where it cannot be made.
pub open spec fn pubsub_topic_subscriptions_call(opts: JsonView, env: EnvView) -> Result<
    RequestView,
    Seq<char>,
> {
    match need_project(opts, env) {
        Err(e) => Err(e),
        Ok(project) => match need(opts, "topic"@, "missing topic"@) {
            Err(e) => Err(e),
            Ok(topic) => Ok(
                bare(
                    Method::Get,
                    "https://pubsub.googleapis.com/v1/projects/"@ + url_encoded(project)
                        + "/topics/"@ + url_encoded(topic) + "/subscriptions"@,
                ),
            ),
        },
    }
}

/// Lists the subscriptions to `topic`.
pub fn pubsub_topic_subscriptions_request(opts: &Json, env: &Env) -> (r: Result<Request, Error>)
    ensures
        prepared(r) == pubsub_topic_subscriptions_call(opts@, env@),
{
    let project: String = require_project(opts, env)?;
    let topic: &str = require(opts, "topic", "missing topic")?;
    Ok(
        Request::new(
            Method::Get,
            Draft::new("https://pubsub.googleapis.com/v1/projects/")
                .enc(project.as_str()).lit("/topics/").enc(topic)
                .lit("/subscriptions"),
        ),
    )
}

/// The result of `pubsub_topic_subscriptions`, where the service answers `body`.
pub open spec fn pubsub_topic_subscriptions_result(
    opts: JsonView,
    env: EnvView,
    body: JsonView,
) -> Result<
    JsonView,
    Seq<char>,
> {
    match need_project(opts, env) {
        Err(e) => Err(e),
        Ok(project) => match need(opts, "topic"@, "missing topic"@) {
            Err(e) => Err(e),
            Ok(topic) => Ok(
                JsonView::Obj(
                    map![
                        "topic"@ => JsonView::Str(topic),
                        "subscriptions"@ => JsonView::Arr(kept(body.list("subscriptions"@), |o: JsonView| leaf_item(o))),
                    ],
                ),
            ),
        },
    }
}

/// The result of the operation, where the service answers `body`.
pub fn op_pubsub_topic_subscriptions(
    opts: &Json,
    env: &Env,
    body: &Json,
) -> (r: Result<Json, Error>)
    ensures
        outcome(r) == pubsub_topic_subscriptions_result(opts@, env@, body@),
{
    require_project(opts, env)?;
    let topic: &str = require(opts, "topic", "missing topic")?;
    Ok(
        Json::Object(
            Members::new()
                .with("topic", Json::text(topic))
                .with("subscriptions", picks(body, "subscriptions", leaf_item_json, Ghost(|o: JsonView| leaf_item(o)))),
        ),
    )
}

/// The request of `pubsub_delete_topic`, or what is answered where it cannot be made.
pub open spec fn pubsub_delete_topic_call(opts: JsonView, env: EnvView) -> Result<
    RequestView,
    Seq<char>,
> {
    match need_project(opts, env) {
        Err(e) => Err(e),
        Ok(project) => match need(opts, "topic"@, "missing topic"@) {
            Err(e) => Err(e),
            Ok(topic) => Ok(
                bare(
                    Method::Delete,
                    "https://pubsub.googleapis.com/v1/projects/"@ + url_encoded(project)
                        + "/topics/"@ + url_encoded(topic),
                ),
            ),
        },
    }
}

/// Deletes `topic`.
pub fn pubsub_delete_topic_request(opts: &Json, env: &Env) -> (r: Result<Request, Error>)
    ensures
        prepared(r) == pubsub_delete_topic_call(opts@, env@),
{
    let project: String = require_project(opts, env)?;
    let topic: &str = require(opts, "topic", "missing topic")?;
    Ok(
        Request::new(
            Method::Delete,
            Draft::new("https://pubsub.googleapis.com/v1/projects/")
                .enc(project.as_str()).lit("/topics/").enc(topic),
        ),
    )
}

/// The result of `pubsub_delete_topic`, where the service agrees.
pub open spec fn pubsub_delete_topic_result(opts: JsonView, env: EnvView) -> Result<
    JsonView,
    Seq<char>,
> {
    match need_project(opts, env) {
        Err(e) => Err(e),
        Ok(project) => match need(opts, "topic"@, "missing topic"@) {
            Err(e) => Err(e),
            Ok(topic) => Ok(
                JsonView::Obj(
                    map![
                        "topic"@ => JsonView::Str(topic),
                        "deleted"@ => JsonView::Bool(true),
                    ],
                ),
            ),
        },
    }
}

/// The result of the operation, where the service agrees.
pub fn op_pubsub_delete_topic(opts: &Json, env: &Env) -> (r: Result<Json, Error>)
    ensures
        outcome(r) == pubsub_delete_topic_result(opts@, env@),
{
    require_project(opts, env)?;
    let topic: &str = require(opts, "topic", "missing topic")?;
    Ok(
        Json::Object(
            Members::new()
                .with("topic", Json::text(topic))
                .with("deleted", Json::Bool(true)),
        ),
    )
}

/// The request of `pubsub_delete_subscription`, or what is answered where it cannot be made.
pub open spec fn pubsub_delete_subscription_call(opts: JsonView, env: EnvView) -> Result<
    RequestView,
    Seq<char>,
> {
    match need_project(opts, env) {
        Err(e) => Err(e),
        Ok(project) => match need(opts, "subscription"@, "missing subscription"@) {
            Err(e) => Err(e),
            Ok(subscription) => Ok(
                bare(
                    Method::Delete,
                    "https://pubsub.googleapis.com/v1/projects/"@ + url_encoded(project)
                        + "/subscriptions/"@ + url_encoded(subscription),
                ),
            ),
        },
    }
}

/// Deletes `subscription`.
pub fn pubsub_delete_subscription_request(opts: &Json, env: &Env) -> (r: Result<Request, Error>)
    ensures
        prepared(r) == pubsub_delete_subscription_call(opts@, env@),
{
    let project: String = require_project(opts, env)?;
    let subscription: &str = require(opts, "subscription", "missing subscription")?;
    Ok(
        Request::new(
            Method::Delete,
            Draft::new("https://pubsub.googleapis.com/v1/projects/")
                .enc(project.as_str()).lit("/subscriptions/").enc(subscription),
        ),
    )
}

/// The result of `pubsub_delete_subscription`, where the service agrees.
pub open spec fn pubsub_delete_subscription_result(opts: JsonView, env: EnvView) -> Result<
    JsonView,
    Seq<char>,
> {
    match need_project(opts, env) {
        Err(e) => Err(e),
        Ok(project) => match need(opts, "subscription"@, "missing subscription"@) {
            Err(e) => Err(e),
            Ok(subscription) => Ok(
                JsonView::Obj(
                    map![
                        "subscription"@ => JsonView::Str(subscription),
                        "deleted"@ => JsonView::Bool(true),
                    ],
                ),
            ),
        },
    }
}

/// The result of the operation, where the service agrees.
pub fn op_pubsub_delete_subscription(opts: &Json, env: &Env) -> (r: Result<Json, Error>)
    ensures
        outcome(r) == pubsub_delete_subscription_result(opts@, env@),
{
    require_project(opts, env)?;
    let subscription: &str = require(opts, "subscription", "missing subscription")?;
    Ok(
        Json::Object(
            Members::new()
                .with("subscription", Json::text(subscription))
                .with("deleted", Json::Bool(true)),
        ),
    )
}

/// The messages that are said to be acknowledged are those that the request names, whatever else
/// the option held.
pub proof fn acknowledged_messages_are_those_sent(opts: JsonView, env: EnvView)
    requires
        pubsub_ack_call(opts, env) is Ok,
    ensures
        pubsub_ack_call(opts, env)->Ok_0.body matches BodyView::Json(sent)
            && pubsub_ack_result(opts, env)->Ok_0.at("acked"@) == JsonView::Int(
            sent.list("ackIds"@).len() as int,
        ),
{
    reveal_strlit("subscription");
    reveal_strlit("acked");
    assert("subscription"@.len() == 12 && "acked"@.len() == 5);
}

} // verus!
