//! The commands on Pub/Sub: what their requests ask for, and what their lines hold.

use vstd::prelude::*;
use vstd::string::*;
use vstd::utf8::{decode_utf8, encode_utf8, valid_utf8};

use crate::codec::{base64_decoding, base64_encoding};
use crate::common::chosen_project;
use crate::json::JsonView;
use crate::ops::text_item;
use crate::options::{opt_text, EnvView};
use crate::pubsub::{
    ack_call, ack_id, ack_ids, decoded_data, fits, given_attrs, listed_ids, message_line,
    message_line_of, publish_call, published, pull_call, qualified, sealed_call, sub_line,
    topic_line, PubSubCmd, Step,
};
use crate::request::{BodyView, Error, Method};
use crate::text::{
    cut_first, join, lemma_cut_first_found, lemma_cut_first_parts, lemma_nonempty_all,
    lemma_nonempty_members, lemma_split_join, lemma_without_prefix, split, without_prefix,
};
use super::{has_members, lemma_kept};

verus! {

/// The names of members differ.
proof fn lemma_names()
    ensures
        "ackIds"@.len() == 6,
        "ack_deadline_seconds"@.len() == 20,
        "ack_id"@.len() == 6,
        "attributes"@.len() == 10,
        "data"@.len() == 4,
        "maxMessages"@.len() == 11,
        "message_id"@.len() == 10,
        "messages"@.len() == 8,
        "name"@.len() == 4,
        "orderingKey"@.len() == 11,
        "ordering_key"@.len() == 12,
        "publish_time"@.len() == 12,
        "returnImmediately"@.len() == 17,
        "topic"@.len() == 5,
        "message_id"@ != "attributes"@,
        "publish_time"@ != "ordering_key"@,
{
    reveal_strlit("ackIds");
    reveal_strlit("ack_deadline_seconds");
    reveal_strlit("ack_id");
    reveal_strlit("attributes");
    reveal_strlit("data");
    reveal_strlit("maxMessages");
    reveal_strlit("message_id");
    reveal_strlit("messages");
    reveal_strlit("name");
    reveal_strlit("orderingKey");
    reveal_strlit("ordering_key");
    reveal_strlit("publish_time");
    reveal_strlit("returnImmediately");
    reveal_strlit("topic");
    assert("message_id"@[0] != "attributes"@[0]);
    assert("publish_time"@[0] != "ordering_key"@[0]);
}

/// A name in full is left as it is, and any other stands below the project and the kind.
pub proof fn names_are_qualified(
    project: Option<Seq<char>>,
    env: EnvView,
    kind: Seq<char>,
    raw: Seq<char>,
)
    ensures
        "projects/"@.is_prefix_of(raw) ==> qualified(project, env, kind, raw) == Ok::<
            Seq<char>,
            Seq<char>,
        >(raw),
        !"projects/"@.is_prefix_of(raw) && chosen_project(project, env) is Ok ==> qualified(
            project,
            env,
            kind,
            raw,
        ) == Ok::<Seq<char>, Seq<char>>(
            "projects/"@ + chosen_project(project, env)->Ok_0 + "/"@ + kind + "/"@ + raw,
        ),
        !"projects/"@.is_prefix_of(raw) && chosen_project(project, env) is Err ==> qualified(
            project,
            env,
            kind,
            raw,
        ) == chosen_project(project, env),
{
    if "projects/"@.is_prefix_of(raw) {
        let rest = raw.skip("projects/"@.len() as int);
        assert(raw =~= "projects/"@ + rest);
        lemma_without_prefix("projects/"@, rest);
    }
    if let Some(rest) = without_prefix(raw, "projects/"@) {
        assert("projects/"@.is_prefix_of("projects/"@ + rest));
    }
}

/// An attribute is a name and a value with `=` between them: the name is what stands before the
/// first. What has none is passed over.
pub proof fn attributes_are_names_and_values(kvs: Seq<String>, kv: String)
    ensures
        !kv@.contains('=') ==> given_attrs(kvs.push(kv)) == given_attrs(kvs),
        forall|name: Seq<char>, value: Seq<char>|
            !name.contains('=') && kv@ == #[trigger] (name + seq!['='] + value) ==> given_attrs(
                kvs.push(kv),
            ) == given_attrs(kvs).insert(name, value),
{
    assert(kvs.push(kv).drop_last() =~= kvs);
    lemma_cut_first_parts(kv@, '=');
    if let Some((a, b)) = cut_first(kv@, '=') {
        assert((a + seq!['='] + b)[a.len() as int] == '=');
    }
    assert forall|name: Seq<char>, value: Seq<char>|
        !name.contains('=') && kv@ == #[trigger] (name + seq!['='] + value) implies given_attrs(
        kvs.push(kv),
    ) == given_attrs(kvs).insert(name, value) by {
        lemma_cut_first_found(name, '=', value);
    }
}

/// The ids between commas are read back, without the empty ones.
pub proof fn ids_are_read_back(ids: Seq<Seq<char>>)
    requires
        ids.len() > 0,
        forall|i: int|
            0 <= i < ids.len() ==> (#[trigger] ids[i]).len() > 0 && !ids[i].contains(','),
    ensures
        listed_ids(join(ids, seq![','])) == ids,
{
    assert forall|i: int| 0 <= i < ids.len() implies !(#[trigger] ids[i]).contains(',') by {
        assert(ids[i].len() > 0);
    }
    lemma_split_join(ids, ',');
    lemma_nonempty_all(ids);
}

/// None of the ids that are read is empty, and each stands between commas.
pub proof fn read_ids_are_not_empty(ids: Seq<char>, i: int)
    requires
        0 <= i < listed_ids(ids).len(),
    ensures
        listed_ids(ids)[i].len() > 0,
        split(ids, ',').contains(listed_ids(ids)[i]),
{
    lemma_nonempty_members(split(ids, ','));
}

/// The data of a message are the text that they encode in base64, and the data themselves where
/// they encode none.
pub proof fn data_are_decoded(data: Seq<char>, decoded: Result<Seq<u8>, Seq<char>>)
    ensures
        decoded matches Ok(b) ==> valid_utf8(b) ==> decoded_data(data, decoded) == decode_utf8(b),
        decoded matches Ok(b) ==> !valid_utf8(b) ==> decoded_data(data, decoded) == data,
        decoded is Err ==> decoded_data(data, decoded) == data,
{
}

/// Publishing sends one message to the topic, with its data, its attributes and, where it is given,
/// its ordering key.
pub proof fn publishing_sends_one_message(full: Seq<char>, sealed: Seq<char>,
    attrs: Map<Seq<char>, Seq<char>>, ordering_key: Option<Seq<char>>)
    ensures
        ({
            let sent = sealed_call(full, sealed, attrs, ordering_key);
            let content = sent.body->Json_0;
            let only = content.at("messages"@).as_array()->0[0];
            &&& sent.method == Method::Post
            &&& sent.url == "https://pubsub.googleapis.com/v1/"@ + full + ":publish"@
            &&& sent.query == Seq::<(Seq<char>, Seq<char>)>::empty()
            &&& sent.headers == Seq::<(Seq<char>, Seq<char>)>::empty()
            &&& sent.body is Json
            &&& has_members(content, set!["messages"@])
            &&& content.at("messages"@).as_array() is Some
            &&& content.at("messages"@).as_array()->0.len() == 1
            &&& only is Obj
            &&& only->Obj_0.dom().subset_of(set!["data"@, "attributes"@, "orderingKey"@])
            &&& only.at("data"@) == JsonView::Str(sealed)
            &&& has_members(only.at("attributes"@), attrs.dom())
            &&& forall|k: Seq<char>| attrs.dom().contains(k)
                ==> #[trigger] only.at("attributes"@)->Obj_0[k] == JsonView::Str(attrs[k])
            &&& ordering_key is Some ==> only.at("orderingKey"@) == JsonView::Str(ordering_key->0)
            &&& !(ordering_key is Some) ==> !only->Obj_0.dom().contains("orderingKey"@)
        }),
{
    lemma_names();
}

/// The data of a published message are the text in base64.
pub proof fn published_data_are_base64(full: Seq<char>, data: Seq<char>, attrs: Map<Seq<char>,
    Seq<char>>, ordering_key: Option<Seq<char>>)
    ensures
        publish_call(full, data, attrs, ordering_key)
            == sealed_call(full, base64_encoding(encode_utf8(data)), attrs, ordering_key),
{
}

/// Pulling asks the subscription for at most so many messages, and waits for them.
pub proof fn pulling_asks_for_messages(full: Seq<char>, max: i32)
    ensures
        ({
            let sent = pull_call(full, max);
            let content = sent.body->Json_0;
            &&& sent.method == Method::Post
            &&& sent.url == "https://pubsub.googleapis.com/v1/"@ + full + ":pull"@
            &&& sent.query == Seq::<(Seq<char>, Seq<char>)>::empty()
            &&& sent.headers == Seq::<(Seq<char>, Seq<char>)>::empty()
            &&& sent.body is Json
            &&& has_members(content, set!["maxMessages"@, "returnImmediately"@])
            &&& content.at("maxMessages"@) == JsonView::Int(max as int)
            &&& content.at("returnImmediately"@) == JsonView::Bool(false)
        }),
{
    lemma_names();
}

/// Acknowledging sends the ids to the subscription.
pub proof fn acknowledging_sends_the_ids(full: Seq<char>, ids: JsonView)
    ensures
        ({
            let sent = ack_call(full, ids);
            let content = sent.body->Json_0;
            &&& sent.method == Method::Post
            &&& sent.url == "https://pubsub.googleapis.com/v1/"@ + full + ":acknowledge"@
            &&& sent.query == Seq::<(Seq<char>, Seq<char>)>::empty()
            &&& sent.headers == Seq::<(Seq<char>, Seq<char>)>::empty()
            &&& sent.body is Json
            &&& has_members(content, set!["ackIds"@])
            &&& content.at("ackIds"@) == ids
        }),
{
    lemma_names();
}

/// What is said of a published message is its topic and the first id in the answer that is a text,
/// null where there is none.
pub proof fn published_messages_are_named(full: Seq<char>, v: JsonView)
    ensures
        ({
            let line = published(full, v);
            let ids = v.list("messageIds"@).filter(|o: JsonView| o is Str);
            &&& has_members(line, set!["topic"@, "message_id"@])
            &&& line.at("topic"@) == JsonView::Str(full)
            &&& ids.len() > 0 ==> line.at("message_id"@) == ids[0]
            &&& ids.len() == 0 ==> line.at("message_id"@) == JsonView::Null
        }),
{
    lemma_names();
    lemma_kept(
        v.list("messageIds"@),
        |o: JsonView| text_item(o),
        |o: JsonView| o is Str,
        |o: JsonView| o,
    );
}

/// What is said of a pulled message is what the answer says of it, with its data decoded.
pub proof fn pulled_messages_are_described(o: JsonView, decoded: Result<Seq<u8>, Seq<char>>)
    ensures
        ({
            let line = message_line_of(o, decoded);
            &&& has_members(line, set!["ack_id"@, "message_id"@, "data"@, "attributes"@,
                "publish_time"@, "ordering_key"@])
            &&& o.at("ackId"@) is Str ==> line.at("ack_id"@) == o.at("ackId"@)
            &&& !(o.at("ackId"@) is Str) ==> line.at("ack_id"@) == JsonView::Null
            &&& line.at("message_id"@) == o.at("message"@).at("messageId"@)
            &&& line.at("data"@)
                == JsonView::Str(decoded_data(o.at("message"@).str_or("data"@, ""@), decoded))
            &&& line.at("attributes"@) == o.at("message"@).at("attributes"@)
            &&& line.at("publish_time"@) == o.at("message"@).at("publishTime"@)
            &&& line.at("ordering_key"@) == o.at("message"@).at("orderingKey"@)
        }),
{
    lemma_names();
}

/// The line of a pulled message decodes the data of that message.
pub proof fn a_line_is_of_its_own_data(o: JsonView)
    ensures
        message_line(o)
            == message_line_of(o, base64_decoding(o.at("message"@).str_or("data"@, ""@))),
{
}

/// The ids to acknowledge are those of the received messages that have one, in their order.
pub proof fn acknowledged_ids_are_those_pulled(v: JsonView)
    ensures
        ack_ids(v)
            == v.list("receivedMessages"@).filter(|o: JsonView| o.at(
            "ackId"@) is Str).map_values(|o: JsonView| o.at("ackId"@)),
{
    lemma_kept(
        v.list("receivedMessages"@),
        |o: JsonView| ack_id(o),
        |o: JsonView| o.at("ackId"@) is Str,
        |o: JsonView| o.at("ackId"@),
    );
}

/// What is said of a topic is its name.
pub proof fn topics_are_described(o: JsonView)
    ensures
        ({
            let line = topic_line(o);
            &&& has_members(line, set!["name"@])
            &&& line.at("name"@) == o.at("name"@)
        }),
{
    lemma_names();
}

/// What is said of a subscription is its name, its topic and its deadline.
pub proof fn subscriptions_are_described(o: JsonView)
    ensures
        ({
            let line = sub_line(o);
            &&& has_members(line, set!["name"@, "topic"@, "ack_deadline_seconds"@])
            &&& line.at("name"@) == o.at("name"@)
            &&& line.at("topic"@) == o.at("topic"@)
            &&& line.at("ack_deadline_seconds"@) == o.at("ackDeadlineSeconds"@)
        }),
{
    lemma_names();
}

/// The command `publish` sends its data with its attributes and its ordering key to its topic, and
/// says so of it.
pub proof fn publish_names_its_topic(
    project: Option<Seq<char>>,
    env: EnvView,
    cmd: PubSubCmd,
    r: Result<Step, Error>,
)
    requires
        fits(project, env, cmd, r),
        cmd is Publish,
    ensures
        qualified(project, env, "topics"@, cmd->topic@) is Err
            ==> r is Err && r->Err_0@ == qualified(project, env, "topics"@, cmd->topic@)->Err_0,
        qualified(project, env, "topics"@, cmd->topic@) matches Ok(full)
            ==> r is Ok && r->Ok_0 is Publish && r->Ok_0->topic@ == full
            && r->Ok_0->Publish_request@ == sealed_call(
            full,
            base64_encoding(encode_utf8(cmd->data@)),
            given_attrs(cmd->attrs@),
            opt_text(cmd->ordering_key),
        ),
{
}

/// The command `pull` asks its subscription for at most so many messages, and acknowledges them
/// where it is told to.
pub proof fn pull_names_its_subscription(
    project: Option<Seq<char>>,
    env: EnvView,
    cmd: PubSubCmd,
    r: Result<Step, Error>,
)
    requires
        fits(project, env, cmd, r),
        cmd is Pull,
    ensures
        qualified(project, env, "subscriptions"@, cmd->Pull_subscription@) is Err
            ==> r is Err
            && r->Err_0@
            == qualified(project, env, "subscriptions"@, cmd->Pull_subscription@)->Err_0,
        qualified(project, env, "subscriptions"@, cmd->Pull_subscription@) matches Ok(full)
            ==> r is Ok && r->Ok_0 is Pull && r->Ok_0->Pull_subscription@ == full
            && r->Ok_0->ack == cmd->ack && r->Ok_0->Pull_request@ == pull_call(full, cmd->max),
{
}

/// The command `ack` sends the ids between its commas to its subscription, and says how many.
pub proof fn ack_names_its_subscription(
    project: Option<Seq<char>>,
    env: EnvView,
    cmd: PubSubCmd,
    r: Result<Step, Error>,
)
    requires
        fits(project, env, cmd, r),
        cmd is Ack,
    ensures
        qualified(project, env, "subscriptions"@, cmd->Ack_subscription@) is Err
            ==> r is Err
            && r->Err_0@
            == qualified(project, env, "subscriptions"@, cmd->Ack_subscription@)->Err_0,
        qualified(project, env, "subscriptions"@, cmd->Ack_subscription@) matches Ok(full)
            ==> r is Ok && r->Ok_0 is Ack && r->Ok_0->Ack_subscription@ == full
            && r->Ok_0->acked == listed_ids(cmd->ids@).len() && r->Ok_0->Ack_request@ == ack_call(
            full,
            JsonView::Arr(listed_ids(cmd->ids@).map_values(|t: Seq<char>| JsonView::Str(t))),
        ),
{
}

/// The command `topics` asks for the topics of the project that is chosen.
pub proof fn topics_are_those_of_the_project(
    project: Option<Seq<char>>,
    env: EnvView,
    cmd: PubSubCmd,
    r: Result<Step, Error>,
)
    requires
        fits(project, env, cmd, r),
        cmd is Topics,
    ensures
        chosen_project(project, env) is Err ==> r is Err && r->Err_0@ == chosen_project(
            project,
            env,
        )->Err_0,
        chosen_project(project, env) matches Ok(p) ==> r is Ok && r->Ok_0 is Topics && ({
            let sent = r->Ok_0->Topics_request@;
            &&& sent.method == Method::Get
            &&& sent.url == "https://pubsub.googleapis.com/v1/projects/"@ + p + "/"@ + "topics"@
            &&& sent.query == Seq::<(Seq<char>, Seq<char>)>::empty()
            &&& sent.headers == Seq::<(Seq<char>, Seq<char>)>::empty()
            &&& sent.body == BodyView::Empty
        }),
{
}

/// The command `subs` asks for the subscriptions of the project that is chosen.
pub proof fn subs_are_those_of_the_project(
    project: Option<Seq<char>>,
    env: EnvView,
    cmd: PubSubCmd,
    r: Result<Step, Error>,
)
    requires
        fits(project, env, cmd, r),
        cmd is Subs,
    ensures
        chosen_project(project, env) is Err ==> r is Err && r->Err_0@ == chosen_project(
            project,
            env,
        )->Err_0,
        chosen_project(project, env) matches Ok(p) ==> r is Ok && r->Ok_0 is Subs && ({
            let sent = r->Ok_0->Subs_request@;
            &&& sent.method == Method::Get
            &&& sent.url
                == "https://pubsub.googleapis.com/v1/projects/"@ + p + "/"@ + "subscriptions"@
            &&& sent.query == Seq::<(Seq<char>, Seq<char>)>::empty()
            &&& sent.headers == Seq::<(Seq<char>, Seq<char>)>::empty()
            &&& sent.body == BodyView::Empty
        }),
{
}

} // verus!
