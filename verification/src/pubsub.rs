//! The helper's commands on Pub/Sub.

use vstd::prelude::*;
use vstd::string::*;
use vstd::utf8::{encode_utf8, encode_utf8_decode_utf8, encode_utf8_valid_utf8};

use crate::codec::{
    base64_decode, base64_decoding, base64_encode, base64_encoding, decoded_view, text_from_utf8,
    utf8_text,
};
use crate::common::{chosen_project, resolve_project, string_view};
use crate::json::{
    each, items_view, kept, picks, str_array, str_or_null, str_value, with_some, Json, JsonView,
    Members,
};
use crate::ops::{single, text_item, text_item_json};
use crate::options::{opt_str, opt_text, Env, EnvView};
use crate::request::{bare, Draft, Error, Method, Request, RequestView};
use crate::text::{
    cut_first, nonempty, same, split, split_nonempty, split_once, starts_with, texts,
    without_prefix,
};

verus! {

/// A command.
#[derive(Debug)]
pub enum PubSubCmd {
    /// Publishes a message to a topic.
    Publish { topic: String, data: String, attrs: Vec<String>, ordering_key: Option<String> },
    /// Pulls messages of a subscription, and acknowledges each where `ack` is set.
    Pull { subscription: String, max: i32, ack: bool, deadline: i32 },
    /// Acknowledges messages of a subscription; `ids` has commas between them.
    Ack { subscription: String, ids: String },
    /// Lists the topics of the project.
    Topics,
    /// Lists the subscriptions of the project.
    Subs,
}

/// What a command does first.
#[derive(Debug)]
pub enum Step {
    /// Sends the request and says what came of the message.
    Publish { request: Request, topic: String },
    /// Sends the request and writes a line for each message in the reply.
    Pull { request: Request, subscription: String, ack: bool },
    /// Sends the request and says how many messages were acknowledged.
    Ack { request: Request, subscription: String, acked: usize },
    /// Sends the request and writes a line for each topic in the reply.
    Topics { request: Request },
    /// Sends the request and writes a line for each subscription in the reply.
    Subs { request: Request },
}

/// The full name of a topic or subscription: a name that begins with `projects/` as it is, any
/// other below the project and the kind.
pub open spec fn qualified(
    project: Option<Seq<char>>,
    env: EnvView,
    kind: Seq<char>,
    raw: Seq<char>,
) -> Result<Seq<char>, Seq<char>> {
    if without_prefix(raw, "projects/"@) is Some {
        Ok(raw)
    } else {
        match chosen_project(project, env) {
            Err(e) => Err(e),
            Ok(p) => Ok("projects/"@ + p + "/"@ + kind + "/"@ + raw),
        }
    }
}

/// The full name of a topic or subscription, given in short or in full.
pub fn full_name(project: Option<&str>, env: &Env, kind: &str, raw: &str) -> (r: Result<
    String,
    Error,
>)
    ensures
        string_view(r) == qualified(opt_str(project), env@, kind@, raw@),
{
    if starts_with(raw, "projects/") {
        return Ok(raw.to_owned());
    }
    let p: String = resolve_project(project, env)?;
    Ok(Draft::new("projects/").lit(p.as_str()).lit("/").lit(kind).lit("/").lit(raw).text)
}

/// A full name is the full name of itself, whatever the project and the kind are.
pub proof fn full_names_stay(
    project: Option<Seq<char>>,
    other: Option<Seq<char>>,
    env: EnvView,
    kind: Seq<char>,
    other_kind: Seq<char>,
    raw: Seq<char>,
)
    requires
        qualified(project, env, kind, raw) is Ok,
    ensures
        qualified(other, env, other_kind, qualified(project, env, kind, raw)->Ok_0) == qualified(
            project,
            env,
            kind,
            raw,
        ),
{
    let full = qualified(project, env, kind, raw)->Ok_0;
    if without_prefix(raw, "projects/"@) is None {
        assert("projects/"@.is_prefix_of(full));
    }
}

// Attributes

/// The attributes of a message: values under different names.
#[derive(Debug)]
pub struct Attrs {
    entries: Vec<(String, String)>,
}

/// The values under their names.
pub open spec fn named_values(entries: Seq<(String, String)>) -> Map<Seq<char>, Seq<char>>
    decreases entries.len(),
{
    if entries.len() == 0 {
        Map::empty()
    } else {
        named_values(entries.drop_last()).insert(entries.last().0@, entries.last().1@)
    }
}

/// No two entries have one name.
pub open spec fn distinct(entries: Seq<(String, String)>) -> bool {
    forall|i: int, j: int|
        0 <= i < j < entries.len() ==> (#[trigger] entries[i]).0@ != (#[trigger] entries[j]).0@
}

impl View for Attrs {
    type V = Map<Seq<char>, Seq<char>>;

    closed spec fn view(&self) -> Map<Seq<char>, Seq<char>> {
        named_values(self.entries@)
    }
}

/// Which names there are, how many, and what stands under each.
proof fn lemma_named_values(entries: Seq<(String, String)>)
    requires
        distinct(entries),
    ensures
        forall|k: Seq<char>|
            named_values(entries).contains_key(k) <==> exists|i: int|
                0 <= i < entries.len() && (#[trigger] entries[i]).0@ == k,
        forall|i: int|
            0 <= i < entries.len() ==> named_values(entries)[(#[trigger] entries[i]).0@]
                == entries[i].1@,
        named_values(entries).dom().finite(),
        named_values(entries).len() == entries.len(),
    decreases entries.len(),
{
    let m = named_values(entries);
    if entries.len() > 0 {
        let init = entries.drop_last();
        let last = entries.last();
        assert(distinct(init)) by {
            assert forall|i: int, j: int| 0 <= i < j < init.len() implies (#[trigger] init[i]).0@ != (
            #[trigger] init[j]).0@ by {
                assert(entries[i].0@ != entries[j].0@);
            }
        }
        lemma_named_values(init);
        assert(!named_values(init).contains_key(last.0@)) by {
            if named_values(init).contains_key(last.0@) {
                let i = choose|i: int| 0 <= i < init.len() && (#[trigger] init[i]).0@ == last.0@;
                assert(entries[i].0@ != entries[entries.len() - 1].0@);
            }
        }
        assert forall|k: Seq<char>| m.contains_key(k) <==> exists|i: int|
            0 <= i < entries.len() && (#[trigger] entries[i]).0@ == k by {
            if m.contains_key(k) {
                if k == last.0@ {
                    assert(entries[entries.len() - 1].0@ == k);
                } else {
                    let i = choose|i: int| 0 <= i < init.len() && (#[trigger] init[i]).0@ == k;
                    assert(entries[i].0@ == k);
                }
            }
            if exists|i: int| 0 <= i < entries.len() && (#[trigger] entries[i]).0@ == k {
                let i = choose|i: int| 0 <= i < entries.len() && (#[trigger] entries[i]).0@ == k;
                if i < init.len() {
                    assert(init[i].0@ == k);
                }
            }
        }
        assert forall|i: int| 0 <= i < entries.len() implies m[(#[trigger] entries[i]).0@]
            == entries[i].1@ by {
            if i < init.len() {
                assert(init[i] == entries[i]);
                assert(entries[i].0@ != entries[entries.len() - 1].0@);
            }
        }
    }
}

impl Attrs {
    #[verifier::type_invariant]
    spec fn inv(self) -> bool {
        distinct(self.entries@)
    }

    /// No attributes.
    pub fn new() -> (r: Attrs)
        ensures
            r@ == Map::<Seq<char>, Seq<char>>::empty(),
    {
        Attrs { entries: Vec::new() }
    }

    fn position(&self, key: &str) -> (r: Option<usize>)
        ensures
            match r {
                Some(i) => i < self.entries@.len() && self.entries@[i as int].0@ == key@,
                None => forall|i: int|
                    0 <= i < self.entries@.len() ==> (#[trigger] self.entries@[i]).0@ != key@,
            },
    {
        let mut i: usize = 0;
        while i < self.entries.len()
            invariant
                i <= self.entries.len(),
                forall|k: int| 0 <= k < i ==> (#[trigger] self.entries@[k]).0@ != key@,
            decreases self.entries.len() - i,
        {
            if same(self.entries[i].0.as_str(), key) {
                return Some(i);
            }
            i += 1;
        }
        None
    }

    /// The attributes with that value under that name, in place of an earlier one.
    pub fn with(self, key: &str, value: &str) -> (r: Attrs)
        ensures
            r@ == self@.insert(key@, value@),
    {
        proof {
            use_type_invariant(&self);
            lemma_named_values(self.entries@);
        }
        let found: Option<usize> = self.position(key);
        let ghost before = self.entries@;
        let mut entries: Vec<(String, String)> = self.entries;
        match found {
            Some(i) => {
                entries.set(i, (key.to_owned(), value.to_owned()));
            },
            None => {
                entries.push((key.to_owned(), value.to_owned()));
            },
        }
        proof {
            let after = entries@;
            let m = named_values(before).insert(key@, value@);
            assert forall|i: int, j: int| 0 <= i < j < after.len() implies (#[trigger] after[i]).0@
                != (#[trigger] after[j]).0@ by {
                if j < before.len() {
                    assert(before[i].0@ != before[j].0@);
                }
            }
            lemma_named_values(after);
            assert forall|k: Seq<char>| m.contains_key(k) <==> #[trigger] named_values(
                after,
            ).contains_key(k) by {
                if named_values(before).contains_key(k) {
                    let i = choose|i: int|
                        0 <= i < before.len() && (#[trigger] before[i]).0@ == k;
                    assert(after[i].0@ == k);
                }
                if k == key@ {
                    match found {
                        Some(i) => {
                            assert(after[i as int].0@ == k);
                        },
                        None => {
                            assert(after[after.len() - 1].0@ == k);
                        },
                    }
                }
                if named_values(after).contains_key(k) && k != key@ {
                    let i = choose|i: int| 0 <= i < after.len() && (#[trigger] after[i]).0@ == k;
                    assert(before[i].0@ == k);
                }
            }
            assert forall|k: Seq<char>| m.contains_key(k) implies m[k] == #[trigger] named_values(
                after,
            )[k] by {
                assert(named_values(after).contains_key(k));
                let i = choose|i: int| 0 <= i < after.len() && (#[trigger] after[i]).0@ == k;
                if k == key@ {
                    match found {
                        Some(n) => {
                            assert(after[n as int].0@ == k);
                            assert(after[n as int].1@ == value@);
                        },
                        None => {
                            assert(after[after.len() - 1].1@ == value@);
                        },
                    }
                } else {
                    assert(before[i].0@ == k);
                    assert(before[i].1@ == after[i].1@);
                }
            }
            assert(named_values(after) =~= m);
        }
        Attrs { entries }
    }

    /// The value under that name.
    pub fn get(&self, key: &str) -> (r: Option<&String>)
        ensures
            match r {
                Some(v) => self@.contains_key(key@) && self@[key@] == v@,
                None => !self@.contains_key(key@),
            },
    {
        proof {
            use_type_invariant(self);
            lemma_named_values(self.entries@);
        }
        match self.position(key) {
            Some(i) => Some(&self.entries[i].1),
            None => None,
        }
    }

    pub fn contains_key(&self, key: &str) -> (r: bool)
        ensures
            r == self@.contains_key(key@),
    {
        self.get(key).is_some()
    }

    /// The number of names.
    pub fn len(&self) -> (r: usize)
        ensures
            r == self@.len(),
    {
        proof {
            use_type_invariant(self);
            lemma_named_values(self.entries@);
        }
        self.entries.len()
    }

    pub fn is_empty(&self) -> (r: bool)
        ensures
            r == (self@ == Map::<Seq<char>, Seq<char>>::empty()),
    {
        proof {
            use_type_invariant(self);
            lemma_named_values(self.entries@);
            if self.entries@.len() > 0 {
                assert(self@.contains_key(self.entries@[0].0@));
            }
        }
        self.entries.len() == 0
    }

    /// The attributes as an object.
    pub fn to_json(&self) -> (r: Json)
        ensures
            r@ == attrs_object(self@),
    {
        let mut out: Members = Members::new();
        let mut i: usize = 0;
        assert(out@ =~= texts_object(named_values(self.entries@.take(0))));
        while i < self.entries.len()
            invariant
                i <= self.entries.len(),
                out@ == texts_object(named_values(self.entries@.take(i as int))),
            decreases self.entries.len() - i,
        {
            out = out.with(
                self.entries[i].0.as_str(),
                Json::text(self.entries[i].1.as_str()),
            );
            proof {
                let next = self.entries@.take(i + 1);
                assert(next.drop_last() =~= self.entries@.take(i as int));
                assert(next.last() == self.entries@[i as int]);
                assert(out@ =~= texts_object(named_values(next)));
            }
            i += 1;
        }
        assert(self.entries@.take(i as int) =~= self.entries@);
        Json::Object(out)
    }
}

/// Texts as the members of an object.
pub open spec fn texts_object(m: Map<Seq<char>, Seq<char>>) -> Map<Seq<char>, JsonView> {
    Map::new(|k: Seq<char>| m.contains_key(k), |k: Seq<char>| JsonView::Str(m[k]))
}

/// Attributes as an object.
pub open spec fn attrs_object(m: Map<Seq<char>, Seq<char>>) -> JsonView {
    JsonView::Obj(texts_object(m))
}

/// The attributes that `key=value` texts give: what stands before the first `=` names what stands
/// behind it, a text without one gives nothing, and of two with one name the later holds.
pub open spec fn given_attrs(kvs: Seq<String>) -> Map<Seq<char>, Seq<char>>
    decreases kvs.len(),
{
    if kvs.len() == 0 {
        Map::empty()
    } else {
        let before = given_attrs(kvs.drop_last());
        match cut_first(kvs.last()@, '=') {
            Some((k, v)) => before.insert(k, v),
            None => before,
        }
    }
}

/// Parses `key=value` texts.
pub fn parse_attrs(kvs: &[String]) -> (r: Attrs)
    ensures
        r@ == given_attrs(kvs@),
{
    let mut out: Attrs = Attrs::new();
    let mut i: usize = 0;
    while i < kvs.len()
        invariant
            i <= kvs.len(),
            out@ == given_attrs(kvs@.take(i as int)),
        decreases kvs.len() - i,
    {
        proof {
            let next = kvs@.take(i + 1);
            assert(next.drop_last() =~= kvs@.take(i as int));
            assert(next.last() == kvs@[i as int]);
        }
        if let Some((k, v)) = split_once(kvs[i].as_str(), '=') {
            out = out.with(k, v);
        }
        i += 1;
    }
    assert(kvs@.take(i as int) =~= kvs@);
    out
}

/// Under the name of an attribute stands the value that was given last.
pub proof fn later_attributes_hold(kvs: Seq<String>, i: int)
    requires
        0 <= i < kvs.len(),
        cut_first(kvs[i]@, '=') is Some,
        forall|j: int|
            i < j < kvs.len() ==> attr_name(#[trigger] kvs[j]@) != attr_name(kvs[i]@),
    ensures
        given_attrs(kvs).contains_key(attr_name(kvs[i]@)->0),
        Some((attr_name(kvs[i]@)->0, given_attrs(kvs)[attr_name(kvs[i]@)->0])) == cut_first(
            kvs[i]@,
            '=',
        ),
    decreases kvs.len(),
{
    if i < kvs.len() - 1 {
        let init = kvs.drop_last();
        assert forall|j: int| i < j < init.len() implies attr_name(#[trigger] init[j]@)
            != attr_name(init[i]@) by {
            assert(init[j] == kvs[j]);
        }
        later_attributes_hold(init, i);
        assert(attr_name(kvs[kvs.len() - 1]@) != attr_name(kvs[i]@));
    }
}

/// The attributes that texts and further texts give are those of the first, with those of the
/// second in place of any under the same name.
pub proof fn further_attributes_replace(kvs: Seq<String>, further: Seq<String>)
    ensures
        given_attrs(kvs + further) == given_attrs(kvs).union_prefer_right(given_attrs(further)),
    decreases further.len(),
{
    if further.len() == 0 {
        assert(kvs + further =~= kvs);
    } else {
        let init = further.drop_last();
        further_attributes_replace(kvs, init);
        assert((kvs + further).drop_last() =~= kvs + init);
    }
    assert(given_attrs(kvs + further) =~= given_attrs(kvs).union_prefer_right(
        given_attrs(further),
    ));
}

/// The name that a `key=value` text gives to its value, where it gives one.
pub open spec fn attr_name(kv: Seq<char>) -> Option<Seq<char>> {
    match cut_first(kv, '=') {
        Some((k, _)) => Some(k),
        None => None,
    }
}

// Messages

/// Where a topic or subscription is acted on.
pub open spec fn action_url(full: Seq<char>, action: Seq<char>) -> Seq<char> {
    "https://pubsub.googleapis.com/v1/"@ + full + action
}

fn action_draft(full: &str, action: &str) -> (r: Draft)
    ensures
        r@ == action_url(full@, action@),
{
    Draft::new("https://pubsub.googleapis.com/v1/").lit(full).lit(action)
}

/// A message that is published, with that data.
pub open spec fn message(
    sealed: Seq<char>,
    attrs: Map<Seq<char>, Seq<char>>,
    ordering_key: Option<Seq<char>>,
) -> JsonView {
    JsonView::Obj(
        with_some(
            map!["data"@ => JsonView::Str(sealed), "attributes"@ => attrs_object(attrs)],
            "orderingKey"@,
            str_value(ordering_key),
        ),
    )
}

/// The request that publishes a message with that data.
pub open spec fn sealed_call(
    full: Seq<char>,
    sealed: Seq<char>,
    attrs: Map<Seq<char>, Seq<char>>,
    ordering_key: Option<Seq<char>>,
) -> RequestView {
    bare(Method::Post, action_url(full, ":publish"@)).json(
        JsonView::Obj(
            map!["messages"@ => JsonView::Arr(seq![message(sealed, attrs, ordering_key)])],
        ),
    )
}

/// The request that publishes a text.
pub open spec fn publish_call(
    full: Seq<char>,
    data: Seq<char>,
    attrs: Map<Seq<char>, Seq<char>>,
    ordering_key: Option<Seq<char>>,
) -> RequestView {
    sealed_call(full, base64_encoding(encode_utf8(data)), attrs, ordering_key)
}

/// The text that decoded data holds; the data itself where it could not be decoded or is no text.
pub open spec fn decoded_data(data: Seq<char>, decoded: Result<Seq<u8>, Seq<char>>) -> Seq<char> {
    match decoded {
        Ok(bytes) => match utf8_text(bytes) {
            Some(s) => s,
            None => data,
        },
        Err(_) => data,
    }
}

/// The text that the data of a message holds; the data itself where it is no text in base64.
pub open spec fn message_data(data: Seq<char>) -> Seq<char> {
    decoded_data(data, base64_decoding(data))
}

fn decoded_data_string(data: &str, decoded: Result<Vec<u8>, String>) -> (r: String)
    ensures
        r@ == decoded_data(data@, decoded_view(decoded)),
{
    match decoded {
        Ok(bytes) => match text_from_utf8(bytes.as_slice()) {
            Some(s) => s,
            None => data.to_owned(),
        },
        Err(_) => data.to_owned(),
    }
}

/// The request that publishes a message, whose data is the text `sealed`.
pub fn sealed_request(
    full: &str,
    sealed: &str,
    attrs: &Attrs,
    ordering_key: &Option<String>,
) -> (r: Request)
    ensures
        r@ == sealed_call(full@, sealed@, attrs@, opt_text(*ordering_key)),
{
    let order: Option<Json> = match ordering_key {
        Some(k) => Some(Json::text(k.as_str())),
        None => None,
    };
    let message: Json = Json::Object(
        Members::new()
            .with("data", Json::text(sealed))
            .with("attributes", attrs.to_json())
            .with_some("orderingKey", order),
    );
    Request::new(Method::Post, action_draft(full, ":publish")).json(
        Json::Object(Members::new().with("messages", single(message))),
    )
}

/// The request that publishes a text. The text is what pulling the message shows.
pub fn publish_request(
    full: &str,
    data: &str,
    attrs: &Attrs,
    ordering_key: &Option<String>,
) -> (r: Request)
    ensures
        r@ == publish_call(full@, data@, attrs@, opt_text(*ordering_key)),
        message_data(base64_encoding(encode_utf8(data@))) == data@,
{
    let sealed: String = base64_encode(data.as_bytes());
    proof {
        encode_utf8_valid_utf8(data@);
        encode_utf8_decode_utf8(data@);
    }
    sealed_request(full, sealed.as_str(), attrs, ordering_key)
}

/// The first of the ids of published messages, null where there is none.
pub open spec fn first_id(v: JsonView) -> JsonView {
    let ids = kept(v.list("messageIds"@), |o: JsonView| text_item(o));
    if ids.len() > 0 {
        ids[0]
    } else {
        JsonView::Null
    }
}

/// What is said of a published message.
pub open spec fn published(full: Seq<char>, v: JsonView) -> JsonView {
    JsonView::Obj(map!["topic"@ => JsonView::Str(full), "message_id"@ => first_id(v)])
}

/// What is said of a published message, where the service answers `v`.
pub fn publish(full: &str, v: &Json) -> (r: Json)
    ensures
        r@ == published(full@, v@),
{
    let ids: Json = picks(v, "messageIds", text_item_json, Ghost(|o: JsonView| text_item(o)));
    let first: Json = match ids.as_array() {
        Some(a) => if a.len() > 0 {
            a[0].copy()
        } else {
            Json::Null
        },
        None => Json::Null,
    };
    Json::Object(Members::new().with("topic", Json::text(full)).with("message_id", first))
}

/// The request that pulls messages.
pub open spec fn pull_call(full: Seq<char>, max: i32) -> RequestView {
    bare(Method::Post, action_url(full, ":pull"@)).json(
        JsonView::Obj(
            map![
                "maxMessages"@ => JsonView::Int(max as int),
                "returnImmediately"@ => JsonView::Bool(false),
            ],
        ),
    )
}

/// The data of a pulled message.
pub open spec fn pulled_data(o: JsonView) -> Seq<char> {
    o.at("message"@).str_or("data"@, ""@)
}

/// A pulled message whose data is decoded to that.
pub open spec fn message_line_of(o: JsonView, decoded: Result<Seq<u8>, Seq<char>>) -> JsonView {
    JsonView::Obj(
        map![
            "ack_id"@ => str_or_null(o.str_at("ackId"@)),
            "message_id"@ => o.at("message"@).at("messageId"@),
            "data"@ => JsonView::Str(decoded_data(pulled_data(o), decoded)),
            "attributes"@ => o.at("message"@).at("attributes"@),
            "publish_time"@ => o.at("message"@).at("publishTime"@),
            "ordering_key"@ => o.at("message"@).at("orderingKey"@),
        ],
    )
}

/// A pulled message.
pub open spec fn message_line(o: JsonView) -> JsonView {
    message_line_of(o, base64_decoding(pulled_data(o)))
}

/// The line of a pulled message, where its data is decoded to that.
pub fn pulled_line(o: &Json, decoded: Result<Vec<u8>, String>) -> (r: Json)
    ensures
        r@ == message_line_of(o@, decoded_view(decoded)),
{
    let message: Json = o.at("message");
    let data: String = decoded_data_string(message.str_or("data", ""), decoded);
    Json::Object(
        Members::new()
            .with("ack_id", Json::text_or_null(o.str_at("ackId")))
            .with("message_id", message.at("messageId"))
            .with("data", Json::String(data))
            .with("attributes", message.at("attributes"))
            .with("publish_time", message.at("publishTime"))
            .with("ordering_key", message.at("orderingKey")),
    )
}

fn message_line_json(o: &Json) -> (r: Json)
    ensures
        r@ == message_line(o@),
{
    let decoded: Result<Vec<u8>, String> = base64_decode(o.at("message").str_or("data", ""));
    pulled_line(o, decoded)
}

/// The id by which a message is acknowledged, where it has one.
pub open spec fn ack_id(o: JsonView) -> Option<JsonView> {
    text_item(o.at("ackId"@))
}

fn ack_id_json(o: &Json) -> (r: Option<Json>)
    ensures
        match r {
            Some(j) => ack_id(o@) == Some(j@),
            None => ack_id(o@) is None,
        },
{
    text_item_json(&o.at("ackId"))
}

/// The ids by which pulled messages are acknowledged.
pub open spec fn ack_ids(v: JsonView) -> Seq<JsonView> {
    kept(v.list("receivedMessages"@), |o: JsonView| ack_id(o))
}

/// The request that acknowledges messages.
pub open spec fn ack_call(full: Seq<char>, ids: JsonView) -> RequestView {
    bare(Method::Post, action_url(full, ":acknowledge"@)).json(
        JsonView::Obj(map!["ackIds"@ => ids]),
    )
}

fn ack_request(full: &str, ids: Json) -> (r: Request)
    ensures
        r@ == ack_call(full@, ids@),
{
    Request::new(Method::Post, action_draft(full, ":acknowledge")).json(
        Json::Object(Members::new().with("ackIds", ids)),
    )
}

/// What pulled messages come to, where the service answers `v`: a line for each, and the request
/// that acknowledges them, where they are to be acknowledged and there is anything to.
pub fn pull(full: &str, ack: bool, v: &Json) -> (r: (Vec<Json>, Option<Request>))
    ensures
        items_view(r.0@) == v@.list("receivedMessages"@).map_values(
            |o: JsonView| message_line(o),
        ),
        match r.1 {
            Some(q) => ack && ack_ids(v@).len() > 0 && q@ == ack_call(
                full@,
                JsonView::Arr(ack_ids(v@)),
            ),
            None => !ack || ack_ids(v@).len() == 0,
        },
{
    let lines: Vec<Json> = each(
        v,
        "receivedMessages",
        message_line_json,
        Ghost(|o: JsonView| message_line(o)),
    );
    if !ack {
        return (lines, None);
    }
    let ids: Json = picks(v, "receivedMessages", ack_id_json, Ghost(|o: JsonView| ack_id(o)));
    let any: bool = match ids.as_array() {
        Some(a) => a.len() > 0,
        None => false,
    };
    if any {
        (lines, Some(ack_request(full, ids)))
    } else {
        (lines, None)
    }
}

/// The ids in a text with commas between them, without empty ones.
pub open spec fn listed_ids(ids: Seq<char>) -> Seq<Seq<char>> {
    nonempty(split(ids, ','))
}

/// What is said of acknowledged messages.
pub fn ack(full: &str, acked: usize) -> (r: Json)
    ensures
        r@ == JsonView::Obj(
            map![
                "subscription"@ => JsonView::Str(full@),
                "acked"@ => JsonView::Int(acked as int),
            ],
        ),
{
    Json::Object(
        Members::new()
            .with("subscription", Json::text(full))
            .with("acked", Json::natural(acked as u64)),
    )
}

// Listings

/// A topic in a listing.
pub open spec fn topic_line(o: JsonView) -> JsonView {
    JsonView::Obj(map!["name"@ => o.at("name"@)])
}

fn topic_line_json(o: &Json) -> (r: Json)
    ensures
        r@ == topic_line(o@),
{
    Json::Object(Members::new().with("name", o.at("name")))
}

/// The lines of a listing of topics, where the service answers `v`.
pub fn topics(v: &Json) -> (r: Vec<Json>)
    ensures
        items_view(r@) == v@.list("topics"@).map_values(|o: JsonView| topic_line(o)),
{
    each(v, "topics", topic_line_json, Ghost(|o: JsonView| topic_line(o)))
}

/// A subscription in a listing.
pub open spec fn sub_line(o: JsonView) -> JsonView {
    JsonView::Obj(
        map![
            "name"@ => o.at("name"@),
            "topic"@ => o.at("topic"@),
            "ack_deadline_seconds"@ => o.at("ackDeadlineSeconds"@),
        ],
    )
}

fn sub_line_json(o: &Json) -> (r: Json)
    ensures
        r@ == sub_line(o@),
{
    Json::Object(
        Members::new()
            .with("name", o.at("name"))
            .with("topic", o.at("topic"))
            .with("ack_deadline_seconds", o.at("ackDeadlineSeconds")),
    )
}

/// The lines of a listing of subscriptions, where the service answers `v`.
pub fn subs(v: &Json) -> (r: Vec<Json>)
    ensures
        items_view(r@) == v@.list("subscriptions"@).map_values(|o: JsonView| sub_line(o)),
{
    each(v, "subscriptions", sub_line_json, Ghost(|o: JsonView| sub_line(o)))
}

// Commands

/// Where the resources of a kind are listed.
pub open spec fn listing_call(project: Seq<char>, kind: Seq<char>) -> RequestView {
    bare(Method::Get, "https://pubsub.googleapis.com/v1/projects/"@ + project + "/"@ + kind)
}

fn listing_request(project: &str, kind: &str) -> (r: Request)
    ensures
        r@ == listing_call(project@, kind@),
{
    Request::new(
        Method::Get,
        Draft::new("https://pubsub.googleapis.com/v1/projects/").lit(project).lit("/").lit(kind),
    )
}

/// Whether a command does this first.
pub open spec fn fits(
    project: Option<Seq<char>>,
    env: EnvView,
    cmd: PubSubCmd,
    r: Result<Step, Error>,
) -> bool {
    match cmd {
        PubSubCmd::Publish { topic, data, attrs, ordering_key } => match qualified(
            project,
            env,
            "topics"@,
            topic@,
        ) {
            Err(e) => r matches Err(x) && x@ == e,
            Ok(full) => r matches Ok(Step::Publish { request, topic: t }) && t@ == full && request@
                == publish_call(full, data@, given_attrs(attrs@), opt_text(ordering_key)),
        },
        PubSubCmd::Pull { subscription, max, ack, deadline } => match qualified(
            project,
            env,
            "subscriptions"@,
            subscription@,
        ) {
            Err(e) => r matches Err(x) && x@ == e,
            Ok(full) => r matches Ok(Step::Pull { request, subscription: s, ack: a }) && s@ == full
                && a == ack && request@ == pull_call(full, max),
        },
        PubSubCmd::Ack { subscription, ids } => match qualified(
            project,
            env,
            "subscriptions"@,
            subscription@,
        ) {
            Err(e) => r matches Err(x) && x@ == e,
            Ok(full) => r matches Ok(Step::Ack { request, subscription: s, acked }) && s@ == full
                && acked == listed_ids(ids@).len() && request@ == ack_call(
                full,
                str_array(listed_ids(ids@)),
            ),
        },
        PubSubCmd::Topics => match chosen_project(project, env) {
            Err(e) => r matches Err(x) && x@ == e,
            Ok(p) => r matches Ok(Step::Topics { request }) && request@ == listing_call(
                p,
                "topics"@,
            ),
        },
        PubSubCmd::Subs => match chosen_project(project, env) {
            Err(e) => r matches Err(x) && x@ == e,
            Ok(p) => r matches Ok(Step::Subs { request }) && request@ == listing_call(
                p,
                "subscriptions"@,
            ),
        },
    }
}

/// What a command does first. The deadline of a pull is accepted and not sent.
pub fn dispatch(project: Option<&str>, env: &Env, cmd: PubSubCmd) -> (r: Result<Step, Error>)
    ensures
        fits(opt_str(project), env@, cmd, r),
{
    match cmd {
        PubSubCmd::Publish { topic, data, attrs, ordering_key } => {
            let full: String = full_name(project, env, "topics", topic.as_str())?;
            let parsed: Attrs = parse_attrs(attrs.as_slice());
            let request: Request = publish_request(
                full.as_str(),
                data.as_str(),
                &parsed,
                &ordering_key,
            );
            Ok(Step::Publish { request, topic: full })
        },
        PubSubCmd::Pull { subscription, max, ack, deadline: _ } => {
            let full: String = full_name(project, env, "subscriptions", subscription.as_str())?;
            let request: Request = Request::new(
                Method::Post,
                action_draft(full.as_str(), ":pull"),
            ).json(
                Json::Object(
                    Members::new()
                        .with("maxMessages", Json::integer(max as i64))
                        .with("returnImmediately", Json::Bool(false)),
                ),
            );
            Ok(Step::Pull { request, subscription: full, ack })
        },
        PubSubCmd::Ack { subscription, ids } => {
            let full: String = full_name(project, env, "subscriptions", subscription.as_str())?;
            let listed: Vec<&str> = split_nonempty(ids.as_str(), ',');
            assert(texts(listed@).len() == listed@.len());
            let acked: usize = listed.len();
            let request: Request = ack_request(full.as_str(), Json::text_array(&listed));
            Ok(Step::Ack { request, subscription: full, acked })
        },
        PubSubCmd::Topics => {
            let p: String = resolve_project(project, env)?;
            Ok(Step::Topics { request: listing_request(p.as_str(), "topics") })
        },
        PubSubCmd::Subs => {
            let p: String = resolve_project(project, env)?;
            Ok(Step::Subs { request: listing_request(p.as_str(), "subscriptions") })
        },
    }
}

} // verus!
