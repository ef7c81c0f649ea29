//! Pub/Sub: how the requests are read, and what the results hold.

use vstd::prelude::*;
use vstd::string::*;
use vstd::utf8::{decode_utf8, encode_utf8, valid_utf8};

use crate::bridge::{call_of, result_of, Op, ReplyView};
use crate::codec::{base64_decoding, base64_encoding};
use crate::json::JsonView;
use crate::ops::{leaf_item, named_leaf, text_item};
use crate::options::{project_of, EnvView};
use crate::request::{BodyView, Method};
use crate::resource_name::leaf;
use crate::url::asks_for;
use super::{has_members, lemma_kept, refuses};
use super::urls::{
    lemma_pubsub_subscriptions, lemma_pubsub_subscriptions_subscription,
    lemma_pubsub_subscriptions_subscription_acknowledge,
    lemma_pubsub_subscriptions_subscription_pull, lemma_pubsub_topics,
    lemma_pubsub_topics_subscriptions, lemma_pubsub_topics_topic,
    lemma_pubsub_topics_topic_publish,
};

verus! {

/// The names of members differ.
proof fn lemma_names()
    ensures
        "ackDeadlineSeconds"@.len() == 18,
        "ackIds"@.len() == 6,
        "ack_id"@.len() == 6,
        "acked"@.len() == 5,
        "attributes"@.len() == 10,
        "created"@.len() == 7,
        "data"@.len() == 4,
        "deleted"@.len() == 7,
        "maxMessages"@.len() == 11,
        "message_id"@.len() == 10,
        "message_ids"@.len() == 11,
        "messages"@.len() == 8,
        "name"@.len() == 4,
        "project"@.len() == 7,
        "resource"@.len() == 8,
        "returnImmediately"@.len() == 17,
        "subscription"@.len() == 12,
        "subscriptions"@.len() == 13,
        "topic"@.len() == 5,
        "topics"@.len() == 6,
        "message_id"@ != "attributes"@,
{
    reveal_strlit("ackDeadlineSeconds");
    reveal_strlit("ackIds");
    reveal_strlit("ack_id");
    reveal_strlit("acked");
    reveal_strlit("attributes");
    reveal_strlit("created");
    reveal_strlit("data");
    reveal_strlit("deleted");
    reveal_strlit("maxMessages");
    reveal_strlit("message_id");
    reveal_strlit("message_ids");
    reveal_strlit("messages");
    reveal_strlit("name");
    reveal_strlit("project");
    reveal_strlit("resource");
    reveal_strlit("returnImmediately");
    reveal_strlit("subscription");
    reveal_strlit("subscriptions");
    reveal_strlit("topic");
    reveal_strlit("topics");
    assert("message_id"@[0] != "attributes"@[0]);
}

/// Publishing sends one message to the topic, with the option `data` in base64 and the attributes.
pub proof fn pubsub_publish_asks(opts: JsonView, env: EnvView)
    ensures
        project_of(opts, env) is None ==> refuses(Op::PubsubPublish, opts, env, "missing project"@),
        project_of(opts, env) is Some && opts.str_at("topic"@) is None
            ==> refuses(Op::PubsubPublish, opts, env, "missing topic"@),
        project_of(opts, env) is Some && opts.str_at("topic"@) is Some ==> ({
            let project = project_of(opts, env)->0;
            let topic = opts.str_at("topic"@)->0;
            &&& call_of(Op::PubsubPublish, opts, env) is Ok
            &&& ({
                let sent = call_of(Op::PubsubPublish, opts, env)->Ok_0;
                let content = sent.body->Json_0;
                let only = content.at("messages"@).as_array()->0[0];
                &&& sent.method == Method::Post
                &&& asks_for(
                        sent.url,
                        "https://pubsub.googleapis.com/v1/"@,
                        seq!["projects"@, project, "topics"@, topic],
                        Some("publish"@),
                        Seq::empty(),
                    )
                &&& sent.query == Seq::<(Seq<char>, Seq<char>)>::empty()
                &&& sent.headers == Seq::<(Seq<char>, Seq<char>)>::empty()
                &&& sent.body is Json
                &&& has_members(content, set!["messages"@])
                &&& content.at("messages"@).as_array() is Some
                &&& content.at("messages"@).as_array()->0.len() == 1
                &&& has_members(only, set!["data"@, "attributes"@])
                &&& only.at("data"@)
                    == JsonView::Str(base64_encoding(encode_utf8(opts.str_or("data"@, ""@))))
                &&& opts.at("attributes"@) is Obj
                    ==> only.at("attributes"@) == opts.at("attributes"@)
                &&& !(opts.at("attributes"@) is Obj)
                    ==> only.at("attributes"@) == JsonView::Obj(Map::empty())
            })
        }),
{
    lemma_names();
    if project_of(opts, env) is Some && opts.str_at("topic"@) is Some {
        let project = project_of(opts, env)->0;
        let topic = opts.str_at("topic"@)->0;
        lemma_pubsub_topics_topic_publish(project, topic);
    }
}

/// The message ids are those of the answer that are texts, in their order.
pub proof fn pubsub_publish_gives(opts: JsonView, env: EnvView, body: JsonView)
    requires
        call_of(Op::PubsubPublish, opts, env) is Ok,
    ensures
        result_of(Op::PubsubPublish, opts, env, ReplyView::Document(body)) is Ok,
        ({
            let topic = opts.str_at("topic"@)->0;
            let given = result_of(Op::PubsubPublish, opts, env, ReplyView::Document(body))->Ok_0;
            &&& has_members(given, set!["topic"@, "message_ids"@])
            &&& given.at("topic"@) == JsonView::Str(topic)
            &&& given.at("message_ids"@) == JsonView::Arr(
                    body.list("messageIds"@).filter(|o: JsonView| o is Str).map_values(
                        |o: JsonView| o,
                    ),
                )
        }),
{
    lemma_names();
    lemma_kept(
        body.list("messageIds"@),
        |o: JsonView| text_item(o),
        |o: JsonView| o is Str,
        |o: JsonView| o,
    );
}

/// Pulling asks the subscription for at most `max` messages, for one where none is given.
pub proof fn pubsub_pull_asks(opts: JsonView, env: EnvView)
    ensures
        project_of(opts, env) is None ==> refuses(Op::PubsubPull, opts, env, "missing project"@),
        project_of(opts, env) is Some && opts.str_at("subscription"@) is None
            ==> refuses(Op::PubsubPull, opts, env, "missing subscription"@),
        project_of(opts, env) is Some && opts.str_at("subscription"@) is Some ==> ({
            let project = project_of(opts, env)->0;
            let subscription = opts.str_at("subscription"@)->0;
            &&& call_of(Op::PubsubPull, opts, env) is Ok
            &&& ({
                let sent = call_of(Op::PubsubPull, opts, env)->Ok_0;
                let content = sent.body->Json_0;
                &&& sent.method == Method::Post
                &&& asks_for(
                        sent.url,
                        "https://pubsub.googleapis.com/v1/"@,
                        seq!["projects"@, project, "subscriptions"@, subscription],
                        Some("pull"@),
                        Seq::empty(),
                    )
                &&& sent.query == Seq::<(Seq<char>, Seq<char>)>::empty()
                &&& sent.headers == Seq::<(Seq<char>, Seq<char>)>::empty()
                &&& sent.body is Json
                &&& has_members(content, set!["maxMessages"@, "returnImmediately"@])
                &&& opts.at("max"@).as_i64() is Some
                    ==> content.at("maxMessages"@) == JsonView::Int(opts.at("max"@).as_i64()->0)
                &&& opts.at("max"@).as_i64() is None
                    ==> content.at("maxMessages"@) == JsonView::Int(1)
                &&& content.at("returnImmediately"@) == JsonView::Bool(false)
            })
        }),
{
    lemma_names();
    if project_of(opts, env) is Some && opts.str_at("subscription"@) is Some {
        let project = project_of(opts, env)->0;
        let subscription = opts.str_at("subscription"@)->0;
        lemma_pubsub_subscriptions_subscription_pull(project, subscription);
    }
}

/// Each received message stands in its place, with its ids, its attributes and its decoded data.
pub proof fn pubsub_pull_gives(opts: JsonView, env: EnvView, body: JsonView)
    requires
        call_of(Op::PubsubPull, opts, env) is Ok,
    ensures
        result_of(Op::PubsubPull, opts, env, ReplyView::Document(body)) is Ok,
        ({
            let subscription = opts.str_at("subscription"@)->0;
            let given = result_of(Op::PubsubPull, opts, env, ReplyView::Document(body))->Ok_0;
            &&& has_members(given, set!["subscription"@, "messages"@])
            &&& given.at("subscription"@) == JsonView::Str(subscription)
            &&& given.at("messages"@) is Arr
            &&& given.at("messages"@)->Arr_0.len() == body.list("receivedMessages"@).len()
            &&& forall|i: int| 0 <= i < body.list("receivedMessages"@).len() ==> {
                    let row = #[trigger] given.at("messages"@)->Arr_0[i];
                    let o = body.list("receivedMessages"@)[i];
                    &&& has_members(row, set!["ack_id"@, "message_id"@, "data"@, "attributes"@])
                    &&& row.at("ack_id"@) == JsonView::Str(o.str_or("ackId"@, ""@))
                    &&& row.at("message_id"@)
                        == JsonView::Str(o.at("message"@).str_or("messageId"@, ""@))
                    &&& base64_decoding(o.at("message"@).str_or("data"@, ""@)) is Err
                        ==> row.at("data"@) == JsonView::Str(Seq::empty())
                    &&& base64_decoding(o.at("message"@).str_or("data"@,
                        ""@)) matches Ok(b) ==> row.at("data"@) == JsonView::Str(
                        if valid_utf8(b) {
                            decode_utf8(b)
                        } else {
                            Seq::empty()
                        },
                    )
                    &&& row.at("attributes"@) == o.at("message"@).at("attributes"@)
                }
        }),
{
    lemma_names();
}

/// Acknowledging sends the ids that are texts to the subscription, in their order.
pub proof fn pubsub_ack_asks(opts: JsonView, env: EnvView)
    ensures
        project_of(opts, env) is None ==> refuses(Op::PubsubAck, opts, env, "missing project"@),
        project_of(opts, env) is Some && opts.str_at("subscription"@) is None
            ==> refuses(Op::PubsubAck, opts, env, "missing subscription"@),
        project_of(opts, env) is Some && opts.str_at("subscription"@) is Some
            && !(opts.at("ack_ids"@) is Arr)
            ==> refuses(Op::PubsubAck, opts, env, "missing ack_ids (array)"@),
        project_of(opts, env) is Some && opts.str_at("subscription"@) is Some
            && opts.at("ack_ids"@) is Arr ==> ({
            let project = project_of(opts, env)->0;
            let subscription = opts.str_at("subscription"@)->0;
            let ack_ids = opts.at("ack_ids"@)->Arr_0;
            &&& call_of(Op::PubsubAck, opts, env) is Ok
            &&& ({
                let sent = call_of(Op::PubsubAck, opts, env)->Ok_0;
                let content = sent.body->Json_0;
                &&& sent.method == Method::Post
                &&& asks_for(
                        sent.url,
                        "https://pubsub.googleapis.com/v1/"@,
                        seq!["projects"@, project, "subscriptions"@, subscription],
                        Some("acknowledge"@),
                        Seq::empty(),
                    )
                &&& sent.query == Seq::<(Seq<char>, Seq<char>)>::empty()
                &&& sent.headers == Seq::<(Seq<char>, Seq<char>)>::empty()
                &&& sent.body is Json
                &&& has_members(content, set!["ackIds"@])
                &&& content.at("ackIds"@) == JsonView::Arr(
                        ack_ids.filter(|o: JsonView| o is Str).map_values(
                            |o: JsonView| o,
                        ),
                    )
            })
        }),
{
    lemma_names();
    if project_of(opts, env) is Some && opts.str_at("subscription"@) is Some
        && opts.at("ack_ids"@) is Arr {
        let project = project_of(opts, env)->0;
        let subscription = opts.str_at("subscription"@)->0;
        let ack_ids = opts.at("ack_ids"@)->Arr_0;
        lemma_pubsub_subscriptions_subscription_acknowledge(project, subscription);
        lemma_kept(
            ack_ids,
            |o: JsonView| text_item(o),
            |o: JsonView| o is Str,
            |o: JsonView| o,
        );
    }
}

/// The number of acknowledged messages is that of the ids that are texts.
pub proof fn pubsub_ack_gives(opts: JsonView, env: EnvView, reply: ReplyView)
    requires
        call_of(Op::PubsubAck, opts, env) is Ok,
    ensures
        result_of(Op::PubsubAck, opts, env, reply) is Ok,
        ({
            let subscription = opts.str_at("subscription"@)->0;
            let ack_ids = opts.at("ack_ids"@)->Arr_0;
            let given = result_of(Op::PubsubAck, opts, env, reply)->Ok_0;
            &&& has_members(given, set!["subscription"@, "acked"@])
            &&& given.at("subscription"@) == JsonView::Str(subscription)
            &&& given.at("acked"@)
                == JsonView::Int(ack_ids.filter(|o: JsonView| o is Str).len() as int)
        }),
{
    lemma_names();
    let given = result_of(Op::PubsubAck, opts, env, reply)->Ok_0;
    let ack_ids = opts.at("ack_ids"@)->Arr_0;
    lemma_kept(
        ack_ids,
        |o: JsonView| text_item(o),
        |o: JsonView| o is Str,
        |o: JsonView| o,
    );
}

/// Listing topics asks for those of the project.
pub proof fn pubsub_list_topics_asks(opts: JsonView, env: EnvView)
    ensures
        project_of(opts, env) is None
            ==> refuses(Op::PubsubListTopics, opts, env, "missing project"@),
        project_of(opts, env) is Some ==> ({
            let project = project_of(opts, env)->0;
            &&& call_of(Op::PubsubListTopics, opts, env) is Ok
            &&& ({
                let sent = call_of(Op::PubsubListTopics, opts, env)->Ok_0;
                &&& sent.method == Method::Get
                &&& asks_for(
                        sent.url,
                        "https://pubsub.googleapis.com/v1/"@,
                        seq!["projects"@, project, "topics"@],
                        None,
                        Seq::empty(),
                    )
                &&& sent.query == Seq::<(Seq<char>, Seq<char>)>::empty()
                &&& sent.headers == Seq::<(Seq<char>, Seq<char>)>::empty()
                &&& sent.body == BodyView::Empty
            })
        }),
{
    lemma_names();
    if project_of(opts, env) is Some {
        let project = project_of(opts, env)->0;
        lemma_pubsub_topics(project);
    }
}

/// The topics are the last parts of the names in the answer, in their order.
pub proof fn pubsub_list_topics_gives(opts: JsonView, env: EnvView, body: JsonView)
    requires
        call_of(Op::PubsubListTopics, opts, env) is Ok,
    ensures
        result_of(Op::PubsubListTopics, opts, env, ReplyView::Document(body)) is Ok,
        ({
            let project = project_of(opts, env)->0;
            let given = result_of(Op::PubsubListTopics, opts, env, ReplyView::Document(body))->Ok_0;
            &&& has_members(given, set!["project"@, "topics"@])
            &&& given.at("project"@) == JsonView::Str(project)
            &&& given.at("topics"@) == JsonView::Arr(
                    body.list("topics"@).filter(|o: JsonView| o.at("name"@) is Str).map_values(
                        |o: JsonView| JsonView::Str(leaf(o.at("name"@)->Str_0)),
                    ),
                )
        }),
{
    lemma_names();
    lemma_kept(
        body.list("topics"@),
        |o: JsonView| named_leaf(o),
        |o: JsonView| o.at("name"@) is Str,
        |o: JsonView| JsonView::Str(leaf(o.at("name"@)->Str_0)),
    );
}

/// Listing subscriptions asks for those of the project.
pub proof fn pubsub_list_subscriptions_asks(opts: JsonView, env: EnvView)
    ensures
        project_of(opts, env) is None
            ==> refuses(Op::PubsubListSubscriptions, opts, env, "missing project"@),
        project_of(opts, env) is Some ==> ({
            let project = project_of(opts, env)->0;
            &&& call_of(Op::PubsubListSubscriptions, opts, env) is Ok
            &&& ({
                let sent = call_of(Op::PubsubListSubscriptions, opts, env)->Ok_0;
                &&& sent.method == Method::Get
                &&& asks_for(
                        sent.url,
                        "https://pubsub.googleapis.com/v1/"@,
                        seq!["projects"@, project, "subscriptions"@],
                        None,
                        Seq::empty(),
                    )
                &&& sent.query == Seq::<(Seq<char>, Seq<char>)>::empty()
                &&& sent.headers == Seq::<(Seq<char>, Seq<char>)>::empty()
                &&& sent.body == BodyView::Empty
            })
        }),
{
    lemma_names();
    if project_of(opts, env) is Some {
        let project = project_of(opts, env)->0;
        lemma_pubsub_subscriptions(project);
    }
}

/// Each subscription of the answer stands in its place, with its topic.
pub proof fn pubsub_list_subscriptions_gives(opts: JsonView, env: EnvView, body: JsonView)
    requires
        call_of(Op::PubsubListSubscriptions, opts, env) is Ok,
    ensures
        result_of(Op::PubsubListSubscriptions, opts, env, ReplyView::Document(body)) is Ok,
        ({
            let project = project_of(opts, env)->0;
            let given = result_of(Op::PubsubListSubscriptions, opts, env,
                ReplyView::Document(body))->Ok_0;
            &&& has_members(given, set!["project"@, "subscriptions"@])
            &&& given.at("project"@) == JsonView::Str(project)
            &&& given.at("subscriptions"@) is Arr
            &&& given.at("subscriptions"@)->Arr_0.len() == body.list("subscriptions"@).len()
            &&& forall|i: int| 0 <= i < body.list("subscriptions"@).len() ==> {
                    let row = #[trigger] given.at("subscriptions"@)->Arr_0[i];
                    let o = body.list("subscriptions"@)[i];
                    &&& has_members(row, set!["name"@, "topic"@])
                    &&& row.at("name"@) == JsonView::Str(leaf(o.str_or("name"@, ""@)))
                    &&& row.at("topic"@) == JsonView::Str(leaf(o.str_or("topic"@, ""@)))
                }
        }),
{
    lemma_names();
}

/// Creating a topic puts it under the project.
pub proof fn pubsub_create_topic_asks(opts: JsonView, env: EnvView)
    ensures
        project_of(opts, env) is None
            ==> refuses(Op::PubsubCreateTopic, opts, env, "missing project"@),
        project_of(opts, env) is Some && opts.str_at("topic"@) is None
            ==> refuses(Op::PubsubCreateTopic, opts, env, "missing topic"@),
        project_of(opts, env) is Some && opts.str_at("topic"@) is Some ==> ({
            let project = project_of(opts, env)->0;
            let topic = opts.str_at("topic"@)->0;
            &&& call_of(Op::PubsubCreateTopic, opts, env) is Ok
            &&& ({
                let sent = call_of(Op::PubsubCreateTopic, opts, env)->Ok_0;
                let content = sent.body->Json_0;
                &&& sent.method == Method::Put
                &&& asks_for(
                        sent.url,
                        "https://pubsub.googleapis.com/v1/"@,
                        seq!["projects"@, project, "topics"@, topic],
                        None,
                        Seq::empty(),
                    )
                &&& sent.query == Seq::<(Seq<char>, Seq<char>)>::empty()
                &&& sent.headers == Seq::<(Seq<char>, Seq<char>)>::empty()
                &&& sent.body is Json
                &&& content == JsonView::Obj(Map::empty())
            })
        }),
{
    lemma_names();
    if project_of(opts, env) is Some && opts.str_at("topic"@) is Some {
        let project = project_of(opts, env)->0;
        let topic = opts.str_at("topic"@)->0;
        lemma_pubsub_topics_topic(project, topic);
    }
}

/// The result names the topic that was created.
pub proof fn pubsub_create_topic_gives(opts: JsonView, env: EnvView, body: JsonView)
    requires
        call_of(Op::PubsubCreateTopic, opts, env) is Ok,
    ensures
        result_of(Op::PubsubCreateTopic, opts, env, ReplyView::Document(body)) is Ok,
        ({
            let topic = opts.str_at("topic"@)->0;
            let given = result_of(Op::PubsubCreateTopic, opts, env,
                ReplyView::Document(body))->Ok_0;
            &&& has_members(given, set!["topic"@, "created"@])
            &&& given.at("topic"@) == JsonView::Str(leaf(body.str_or("name"@, topic)))
            &&& given.at("created"@) == JsonView::Bool(true)
        }),
{
    lemma_names();
}

/// Creating a subscription puts it under the project, and names its topic and its deadline.
pub proof fn pubsub_create_subscription_asks(opts: JsonView, env: EnvView)
    ensures
        project_of(opts, env) is None
            ==> refuses(Op::PubsubCreateSubscription, opts, env, "missing project"@),
        project_of(opts, env) is Some && opts.str_at("subscription"@) is None
            ==> refuses(Op::PubsubCreateSubscription, opts, env, "missing subscription"@),
        project_of(opts, env) is Some && opts.str_at("subscription"@) is Some
            && opts.str_at("topic"@) is None
            ==> refuses(Op::PubsubCreateSubscription, opts, env,
            "missing topic (the topic to subscribe to)"@),
        project_of(opts, env) is Some && opts.str_at("subscription"@) is Some
            && opts.str_at("topic"@) is Some ==> ({
            let project = project_of(opts, env)->0;
            let subscription = opts.str_at("subscription"@)->0;
            let topic = opts.str_at("topic"@)->0;
            &&& call_of(Op::PubsubCreateSubscription, opts, env) is Ok
            &&& ({
                let sent = call_of(Op::PubsubCreateSubscription, opts, env)->Ok_0;
                let content = sent.body->Json_0;
                &&& sent.method == Method::Put
                &&& asks_for(
                        sent.url,
                        "https://pubsub.googleapis.com/v1/"@,
                        seq!["projects"@, project, "subscriptions"@, subscription],
                        None,
                        Seq::empty(),
                    )
                &&& sent.query == Seq::<(Seq<char>, Seq<char>)>::empty()
                &&& sent.headers == Seq::<(Seq<char>, Seq<char>)>::empty()
                &&& sent.body is Json
                &&& has_members(content, set!["topic"@, "ackDeadlineSeconds"@])
                &&& content.at("topic"@)
                    == JsonView::Str("projects/"@ + project + "/topics/"@ + topic)
                &&& opts.at("ack_deadline"@).as_u64() is Some
                    ==> content.at("ackDeadlineSeconds"@)
                    == JsonView::Int(opts.at("ack_deadline"@).as_u64()->0)
                &&& opts.at("ack_deadline"@).as_u64() is None
                    ==> content.at("ackDeadlineSeconds"@) == JsonView::Int(10)
            })
        }),
{
    lemma_names();
    if project_of(opts, env) is Some && opts.str_at("subscription"@) is Some
        && opts.str_at("topic"@) is Some {
        let project = project_of(opts, env)->0;
        let subscription = opts.str_at("subscription"@)->0;
        lemma_pubsub_subscriptions_subscription(project, subscription);
    }
}

/// The result names the subscription that was created.
pub proof fn pubsub_create_subscription_gives(opts: JsonView, env: EnvView, body: JsonView)
    requires
        call_of(Op::PubsubCreateSubscription, opts, env) is Ok,
    ensures
        result_of(Op::PubsubCreateSubscription, opts, env, ReplyView::Document(body)) is Ok,
        ({
            let subscription = opts.str_at("subscription"@)->0;
            let given = result_of(Op::PubsubCreateSubscription, opts, env,
                ReplyView::Document(body))->Ok_0;
            &&& has_members(given, set!["subscription"@, "created"@])
            &&& given.at("subscription"@) == JsonView::Str(leaf(body.str_or("name"@, subscription)))
            &&& given.at("created"@) == JsonView::Bool(true)
        }),
{
    lemma_names();
}

/// Asking for a topic asks for it under the project.
pub proof fn pubsub_get_topic_asks(opts: JsonView, env: EnvView)
    ensures
        project_of(opts, env) is None
            ==> refuses(Op::PubsubGetTopic, opts, env, "missing project"@),
        project_of(opts, env) is Some && opts.str_at("topic"@) is None
            ==> refuses(Op::PubsubGetTopic, opts, env, "missing topic"@),
        project_of(opts, env) is Some && opts.str_at("topic"@) is Some ==> ({
            let project = project_of(opts, env)->0;
            let topic = opts.str_at("topic"@)->0;
            &&& call_of(Op::PubsubGetTopic, opts, env) is Ok
            &&& ({
                let sent = call_of(Op::PubsubGetTopic, opts, env)->Ok_0;
                &&& sent.method == Method::Get
                &&& asks_for(
                        sent.url,
                        "https://pubsub.googleapis.com/v1/"@,
                        seq!["projects"@, project, "topics"@, topic],
                        None,
                        Seq::empty(),
                    )
                &&& sent.query == Seq::<(Seq<char>, Seq<char>)>::empty()
                &&& sent.headers == Seq::<(Seq<char>, Seq<char>)>::empty()
                &&& sent.body == BodyView::Empty
            })
        }),
{
    lemma_names();
    if project_of(opts, env) is Some && opts.str_at("topic"@) is Some {
        let project = project_of(opts, env)->0;
        let topic = opts.str_at("topic"@)->0;
        lemma_pubsub_topics_topic(project, topic);
    }
}

/// The resource is the answer.
pub proof fn pubsub_get_topic_gives(opts: JsonView, env: EnvView, body: JsonView)
    requires
        call_of(Op::PubsubGetTopic, opts, env) is Ok,
    ensures
        result_of(Op::PubsubGetTopic, opts, env, ReplyView::Document(body)) is Ok,
        ({
            let topic = opts.str_at("topic"@)->0;
            let given = result_of(Op::PubsubGetTopic, opts, env, ReplyView::Document(body))->Ok_0;
            &&& has_members(given, set!["topic"@, "resource"@])
            &&& given.at("topic"@) == JsonView::Str(topic)
            &&& given.at("resource"@) == body
        }),
{
    lemma_names();
}

/// Listing the subscriptions to a topic asks for those under the topic.
pub proof fn pubsub_topic_subscriptions_asks(opts: JsonView, env: EnvView)
    ensures
        project_of(opts, env) is None
            ==> refuses(Op::PubsubTopicSubscriptions, opts, env, "missing project"@),
        project_of(opts, env) is Some && opts.str_at("topic"@) is None
            ==> refuses(Op::PubsubTopicSubscriptions, opts, env, "missing topic"@),
        project_of(opts, env) is Some && opts.str_at("topic"@) is Some ==> ({
            let project = project_of(opts, env)->0;
            let topic = opts.str_at("topic"@)->0;
            &&& call_of(Op::PubsubTopicSubscriptions, opts, env) is Ok
            &&& ({
                let sent = call_of(Op::PubsubTopicSubscriptions, opts, env)->Ok_0;
                &&& sent.method == Method::Get
                &&& asks_for(
                        sent.url,
                        "https://pubsub.googleapis.com/v1/"@,
                        seq!["projects"@, project, "topics"@, topic, "subscriptions"@],
                        None,
                        Seq::empty(),
                    )
                &&& sent.query == Seq::<(Seq<char>, Seq<char>)>::empty()
                &&& sent.headers == Seq::<(Seq<char>, Seq<char>)>::empty()
                &&& sent.body == BodyView::Empty
            })
        }),
{
    lemma_names();
    if project_of(opts, env) is Some && opts.str_at("topic"@) is Some {
        let project = project_of(opts, env)->0;
        let topic = opts.str_at("topic"@)->0;
        lemma_pubsub_topics_subscriptions(project, topic);
    }
}

/// The subscriptions are the last parts of the names in the answer, in their order.
pub proof fn pubsub_topic_subscriptions_gives(opts: JsonView, env: EnvView, body: JsonView)
    requires
        call_of(Op::PubsubTopicSubscriptions, opts, env) is Ok,
    ensures
        result_of(Op::PubsubTopicSubscriptions, opts, env, ReplyView::Document(body)) is Ok,
        ({
            let topic = opts.str_at("topic"@)->0;
            let given = result_of(Op::PubsubTopicSubscriptions, opts, env,
                ReplyView::Document(body))->Ok_0;
            &&& has_members(given, set!["topic"@, "subscriptions"@])
            &&& given.at("topic"@) == JsonView::Str(topic)
            &&& given.at("subscriptions"@) == JsonView::Arr(
                    body.list("subscriptions"@).filter(|o: JsonView| o is Str).map_values(
                        |o: JsonView| JsonView::Str(leaf(o->Str_0)),
                    ),
                )
        }),
{
    lemma_names();
    lemma_kept(
        body.list("subscriptions"@),
        |o: JsonView| leaf_item(o),
        |o: JsonView| o is Str,
        |o: JsonView| JsonView::Str(leaf(o->Str_0)),
    );
}

/// Deleting a topic asks for it under the project.
pub proof fn pubsub_delete_topic_asks(opts: JsonView, env: EnvView)
    ensures
        project_of(opts, env) is None
            ==> refuses(Op::PubsubDeleteTopic, opts, env, "missing project"@),
        project_of(opts, env) is Some && opts.str_at("topic"@) is None
            ==> refuses(Op::PubsubDeleteTopic, opts, env, "missing topic"@),
        project_of(opts, env) is Some && opts.str_at("topic"@) is Some ==> ({
            let project = project_of(opts, env)->0;
            let topic = opts.str_at("topic"@)->0;
            &&& call_of(Op::PubsubDeleteTopic, opts, env) is Ok
            &&& ({
                let sent = call_of(Op::PubsubDeleteTopic, opts, env)->Ok_0;
                &&& sent.method == Method::Delete
                &&& asks_for(
                        sent.url,
                        "https://pubsub.googleapis.com/v1/"@,
                        seq!["projects"@, project, "topics"@, topic],
                        None,
                        Seq::empty(),
                    )
                &&& sent.query == Seq::<(Seq<char>, Seq<char>)>::empty()
                &&& sent.headers == Seq::<(Seq<char>, Seq<char>)>::empty()
                &&& sent.body == BodyView::Empty
            })
        }),
{
    lemma_names();
    if project_of(opts, env) is Some && opts.str_at("topic"@) is Some {
        let project = project_of(opts, env)->0;
        let topic = opts.str_at("topic"@)->0;
        lemma_pubsub_topics_topic(project, topic);
    }
}

/// The result names the topic that was deleted.
pub proof fn pubsub_delete_topic_gives(opts: JsonView, env: EnvView, reply: ReplyView)
    requires
        call_of(Op::PubsubDeleteTopic, opts, env) is Ok,
    ensures
        result_of(Op::PubsubDeleteTopic, opts, env, reply) is Ok,
        ({
            let topic = opts.str_at("topic"@)->0;
            let given = result_of(Op::PubsubDeleteTopic, opts, env, reply)->Ok_0;
            &&& has_members(given, set!["topic"@, "deleted"@])
            &&& given.at("topic"@) == JsonView::Str(topic)
            &&& given.at("deleted"@) == JsonView::Bool(true)
        }),
{
    lemma_names();
}

/// Deleting a subscription asks for it under the project.
pub proof fn pubsub_delete_subscription_asks(opts: JsonView, env: EnvView)
    ensures
        project_of(opts, env) is None
            ==> refuses(Op::PubsubDeleteSubscription, opts, env, "missing project"@),
        project_of(opts, env) is Some && opts.str_at("subscription"@) is None
            ==> refuses(Op::PubsubDeleteSubscription, opts, env, "missing subscription"@),
        project_of(opts, env) is Some && opts.str_at("subscription"@) is Some ==> ({
            let project = project_of(opts, env)->0;
            let subscription = opts.str_at("subscription"@)->0;
            &&& call_of(Op::PubsubDeleteSubscription, opts, env) is Ok
            &&& ({
                let sent = call_of(Op::PubsubDeleteSubscription, opts, env)->Ok_0;
                &&& sent.method == Method::Delete
                &&& asks_for(
                        sent.url,
                        "https://pubsub.googleapis.com/v1/"@,
                        seq!["projects"@, project, "subscriptions"@, subscription],
                        None,
                        Seq::empty(),
                    )
                &&& sent.query == Seq::<(Seq<char>, Seq<char>)>::empty()
                &&& sent.headers == Seq::<(Seq<char>, Seq<char>)>::empty()
                &&& sent.body == BodyView::Empty
            })
        }),
{
    lemma_names();
    if project_of(opts, env) is Some && opts.str_at("subscription"@) is Some {
        let project = project_of(opts, env)->0;
        let subscription = opts.str_at("subscription"@)->0;
        lemma_pubsub_subscriptions_subscription(project, subscription);
    }
}

/// The result names the subscription that was deleted.
pub proof fn pubsub_delete_subscription_gives(opts: JsonView, env: EnvView, reply: ReplyView)
    requires
        call_of(Op::PubsubDeleteSubscription, opts, env) is Ok,
    ensures
        result_of(Op::PubsubDeleteSubscription, opts, env, reply) is Ok,
        ({
            let subscription = opts.str_at("subscription"@)->0;
            let given = result_of(Op::PubsubDeleteSubscription, opts, env, reply)->Ok_0;
            &&& has_members(given, set!["subscription"@, "deleted"@])
            &&& given.at("subscription"@) == JsonView::Str(subscription)
            &&& given.at("deleted"@) == JsonView::Bool(true)
        }),
{
    lemma_names();
}

} // verus!
