//! What the commands write: what their functions hand out holds of each element of a reply.

use vstd::prelude::*;
use vstd::string::*;

use crate::auth;
use crate::bridge;
use crate::bridge::{call_of, result_of, Op, Reply};
use crate::decimal::decimal;
use crate::gcs;
use crate::gcs::{Listing, Upload};
use crate::gs_uri;
use crate::json::{items_view, Json, JsonView};
use crate::naming;
use crate::options::{opt_text, Env};
use crate::pubsub;
use crate::request::{outcome, BodyView, Error, Method, Request, RequestView};
use crate::resource_name;
use crate::table_ref;
use super::has_members;

verus! {

proof fn lemma_names()
    ensures
        "name"@.len() == 4,
        "location"@.len() == 8,
        "storage_class"@.len() == 13,
        "created"@.len() == 7,
        "topic"@.len() == 5,
        "ack_deadline_seconds"@.len() == 20,
        "ack_id"@.len() == 6,
        "message_id"@.len() == 10,
        "data"@.len() == 4,
        "attributes"@.len() == 10,
        "publish_time"@.len() == 12,
        "ordering_key"@.len() == 12,
        "bucket"@.len() == 6,
        "key"@.len() == 3,
        "deleted"@.len() == 7,
        "subscription"@.len() == 12,
        "acked"@.len() == 5,
        "message_id"@ != "attributes"@,
        "publish_time"@ != "ordering_key"@,
{
    reveal_strlit("name");
    reveal_strlit("location");
    reveal_strlit("storage_class");
    reveal_strlit("created");
    reveal_strlit("topic");
    reveal_strlit("ack_deadline_seconds");
    reveal_strlit("ack_id");
    reveal_strlit("message_id");
    reveal_strlit("data");
    reveal_strlit("attributes");
    reveal_strlit("publish_time");
    reveal_strlit("ordering_key");
    reveal_strlit("bucket");
    reveal_strlit("key");
    reveal_strlit("deleted");
    reveal_strlit("subscription");
    reveal_strlit("acked");
    assert("message_id"@[0] != "attributes"@[0]);
    assert("publish_time"@[0] != "ordering_key"@[0]);
}

/// There is a line for each bucket of the reply, in its place.
pub proof fn each_bucket_has_a_line(v: &Json, lines: Vec<Json>, i: int)
    requires
        call_ensures(gcs::buckets, (v,), lines),
    ensures
        lines@.len() == v@.list("items"@).len(),
        0 <= i < lines@.len() ==> ({
            let b = v@.list("items"@)[i];
            &&& lines@[i]@.at("name"@) == b.at("name"@)
            &&& lines@[i]@.at("location"@) == b.at("location"@)
            &&& lines@[i]@.at("storage_class"@) == b.at("storageClass"@)
            &&& lines@[i]@.at("created"@) == b.at("timeCreated"@)
        }),
{
    lemma_names();
    assert(items_view(lines@).len() == lines@.len());
    if 0 <= i < lines@.len() {
        assert(items_view(lines@)[i] == lines@[i]@);
    }
}

/// There is a line for each topic of the reply, in its place.
pub proof fn each_topic_has_a_line(v: &Json, lines: Vec<Json>, i: int)
    requires
        call_ensures(pubsub::topics, (v,), lines),
    ensures
        lines@.len() == v@.list("topics"@).len(),
        0 <= i < lines@.len() ==> has_members(lines@[i]@, set!["name"@]) && lines@[i]@.at("name"@)
            == v@.list("topics"@)[i].at("name"@),
{
    assert(items_view(lines@).len() == lines@.len());
    if 0 <= i < lines@.len() {
        assert(items_view(lines@)[i] == lines@[i]@);
    }
}

/// There is a line for each subscription of the reply, in its place.
pub proof fn each_subscription_has_a_line(v: &Json, lines: Vec<Json>, i: int)
    requires
        call_ensures(pubsub::subs, (v,), lines),
    ensures
        lines@.len() == v@.list("subscriptions"@).len(),
        0 <= i < lines@.len() ==> ({
            let s = v@.list("subscriptions"@)[i];
            &&& lines@[i]@.at("name"@) == s.at("name"@)
            &&& lines@[i]@.at("topic"@) == s.at("topic"@)
            &&& lines@[i]@.at("ack_deadline_seconds"@) == s.at("ackDeadlineSeconds"@)
        }),
{
    lemma_names();
    assert(items_view(lines@).len() == lines@.len());
    if 0 <= i < lines@.len() {
        assert(items_view(lines@)[i] == lines@[i]@);
    }
}

/// There is a line for each message that was pulled, in its place.
pub proof fn each_message_has_a_line(
    full: &str,
    ack: bool,
    v: &Json,
    r: (Vec<Json>, Option<Request>),
    i: int,
)
    requires
        call_ensures(pubsub::pull, (full, ack, v), r),
    ensures
        r.0@.len() == v@.list("receivedMessages"@).len(),
        0 <= i < r.0@.len() ==> ({
            let line = r.0@[i]@;
            let message = v@.list("receivedMessages"@)[i].at("message"@);
            &&& line.at("message_id"@) == message.at("messageId"@)
            &&& line.at("attributes"@) == message.at("attributes"@)
            &&& line.at("publish_time"@) == message.at("publishTime"@)
            &&& line.at("ordering_key"@) == message.at("orderingKey"@)
            &&& v@.list("receivedMessages"@)[i].at("ackId"@) is Str ==> line.at("ack_id"@)
                == v@.list("receivedMessages"@)[i].at("ackId"@)
        }),
{
    lemma_names();
    assert(items_view(r.0@).len() == r.0@.len());
    if 0 <= i < r.0@.len() {
        assert(items_view(r.0@)[i] == r.0@[i]@);
    }
}

/// What is pulled is acknowledged where that is asked for and there is anything to acknowledge.
pub proof fn pulled_messages_are_acknowledged(
    full: &str,
    ack: bool,
    v: &Json,
    r: (Vec<Json>, Option<Request>),
)
    requires
        call_ensures(pubsub::pull, (full, ack, v), r),
    ensures
        r.1 is Some <==> ack && pubsub::ack_ids(v@).len() > 0,
        r.1 is Some ==> ({
            let sent = r.1->0@;
            &&& sent.method == Method::Post
            &&& sent.url == "https://pubsub.googleapis.com/v1/"@ + full@ + ":acknowledge"@
            &&& sent.body is Json
            &&& sent.body->Json_0.at("ackIds"@) == JsonView::Arr(pubsub::ack_ids(v@))
        }),
{
}

/// What is said of acknowledged messages is their subscription and their number.
pub proof fn acknowledged_messages_are_counted(full: &str, acked: usize, line: Json)
    requires
        call_ensures(pubsub::ack, (full, acked), line),
    ensures
        has_members(line@, set!["subscription"@, "acked"@]),
        line@.at("subscription"@) == JsonView::Str(full@),
        line@.at("acked"@) == JsonView::Int(acked as int),
{
    lemma_names();
}

/// What is said of a deleted object is its bucket and its key.
pub proof fn deleted_objects_are_named(bucket: &str, key: &str, line: Json)
    requires
        call_ensures(gcs::rm, (bucket, key), line),
    ensures
        has_members(line@, set!["bucket"@, "key"@, "deleted"@]),
        line@.at("bucket"@) == JsonView::Str(bucket@),
        line@.at("key"@) == JsonView::Str(key@),
        line@.at("deleted"@) == JsonView::Bool(true),
{
    lemma_names();
}

/// A page of a listing writes its first lines, as many as the limit allows, and the listing goes on
/// where the page names another and the limit allows more.
pub proof fn pages_write_their_first_lines(
    listing: Listing,
    page: &Json,
    r: (Listing, Vec<Json>, bool),
)
    requires
        call_ensures(Listing::take, (listing, page), r),
    ensures
        items_view(r.1@).is_prefix_of(gcs::page_lines(page@)),
        r.1@.len() == gcs::page_lines(page@).len() || (listing@.left is Some && r.1@.len()
            == listing@.left->0),
        listing@.left is Some ==> r.1@.len() <= listing@.left->0,
        r.2 <==> page@.at("nextPageToken"@) is Str && (listing@.left is Some ==> r.1@.len()
            < listing@.left->0),
        r.2 ==> r.0@.token == page@.str_at("nextPageToken"@),
        r.0@.bucket == listing@.bucket && r.0@.prefix == listing@.prefix && r.0@.delimiter
            == listing@.delimiter && r.0@.page_size == listing@.page_size,
{
    assert(items_view(r.1@).len() == r.1@.len());
}

/// A page of a listing is asked of its bucket, with the token that the page before named.
pub proof fn pages_are_asked_for(listing: &Listing, sent: Request)
    requires
        call_ensures(Listing::request, (listing,), sent),
    ensures
        sent@.method == Method::Get,
        sent@.query[0] == ("maxResults"@, decimal(listing@.page_size as nat)),
        listing@.token is Some ==> sent@.query.last() == ("pageToken"@, listing@.token->0),
        listing@.delimiter is Some ==> sent@.query.contains(
            ("delimiter"@, listing@.delimiter->0),
        ),
        listing@.prefix.len() > 0 ==> sent@.query[1] == ("prefix"@, listing@.prefix),
{
    let query = sent@.query;
    if listing@.delimiter is Some {
        let k: int = if listing@.prefix.len() > 0 {
            2
        } else {
            1
        };
        assert(query[k] == ("delimiter"@, listing@.delimiter->0));
    }
}

/// An upload sends the bytes that it is handed, of the type that it names.
pub proof fn uploads_send_their_bytes(upload: &Upload, bytes: Vec<u8>, sent: Request)
    requires
        call_ensures(Upload::request, (upload, bytes), sent),
    ensures
        sent@.body == BodyView::Bytes(bytes@),
        sent@.headers[0] == ("Content-Type"@, upload.content_type@),
        upload.cache_control is Some ==> sent@.headers[1] == (
            "Cache-Control"@,
            opt_text(upload.cache_control)->0,
        ),
{
}

/// The version that is told is that of the library.
pub proof fn the_version_is_that_of_the_crate(r: Json)
    requires
        call_ensures(bridge::op_pkg_version, (), r),
    ensures
        has_members(r@, set!["version"@]),
        r@.at("version"@) == JsonView::Str(bridge::VERSION@),
{
}

/// Who is acting is told by the options and the environment alike.
pub proof fn identities_are_told(opts: &Json, env: &Env, r: Json)
    requires
        call_ensures(auth::op_identity, (opts, env), r),
    ensures
        r@.at("ok"@) == JsonView::Bool(true),
        opts@.at("project"@) is Str ==> r@.at("project"@) == opts@.at("project"@),
{
    reveal_strlit("ok");
    reveal_strlit("project");
    reveal_strlit("credentials_source");
    reveal_strlit("credentials_path");
    assert("ok"@.len() == 2 && "project"@.len() == 7);
    assert("credentials_source"@.len() == 18 && "credentials_path"@.len() == 16);
}

/// The operations that need no service answer the results that the laws on them speak of.
pub proof fn answers_without_a_service_are_the_results(opts: Json, r: Result<Json, Error>)
    ensures
        call_ensures(gs_uri::op_parse_gs_uri, (opts,), r) ==> outcome(r)
            == gs_uri::parse_gs_uri_result(opts@),
        call_ensures(gs_uri::op_build_gs_uri, (opts,), r) ==> outcome(r)
            == gs_uri::build_gs_uri_result(opts@),
        call_ensures(gs_uri::op_gs_uri_to_url, (opts,), r) ==> outcome(r)
            == gs_uri::gs_uri_to_url_result(opts@),
        call_ensures(gs_uri::op_url_to_gs_uri, (opts,), r) ==> outcome(r)
            == gs_uri::url_to_gs_uri_result(opts@),
        call_ensures(table_ref::op_parse_table_ref, (opts,), r) ==> outcome(r)
            == table_ref::parse_table_ref_result(opts@),
        call_ensures(table_ref::op_build_table_ref, (opts,), r) ==> outcome(r)
            == table_ref::build_table_ref_result(opts@),
        call_ensures(resource_name::op_parse_resource_name, (opts,), r) ==> outcome(r)
            == resource_name::parse_resource_name_result(opts@),
        call_ensures(resource_name::op_resource_name_parent, (opts,), r) ==> outcome(r)
            == resource_name::resource_name_parent_result(opts@),
        call_ensures(resource_name::op_build_resource_name, (opts,), r) ==> outcome(r)
            == resource_name::build_resource_name_result(opts@),
        call_ensures(naming::op_valid_bucket_name, (opts,), r) ==> outcome(r)
            == naming::valid_bucket_name_result(opts@),
        call_ensures(naming::op_valid_project_id, (opts,), r) ==> outcome(r)
            == naming::valid_project_id_result(opts@),
        call_ensures(naming::op_valid_service_account_id, (opts,), r) ==> outcome(r)
            == naming::valid_service_account_id_result(opts@),
        call_ensures(naming::op_valid_secret_id, (opts,), r) ==> outcome(r)
            == naming::valid_secret_id_result(opts@),
        call_ensures(naming::op_valid_object_name, (opts,), r) ==> outcome(r)
            == naming::valid_object_name_result(opts@),
        call_ensures(naming::op_valid_label, (opts,), r) ==> outcome(r)
            == naming::valid_label_result(opts@),
        call_ensures(naming::op_valid_pubsub_id, (opts,), r) ==> outcome(r)
            == naming::valid_pubsub_id_result(opts@),
        call_ensures(naming::op_valid_dataset_id, (opts,), r) ==> outcome(r)
            == naming::valid_dataset_id_result(opts@),
        call_ensures(naming::op_valid_table_id, (opts,), r) ==> outcome(r)
            == naming::valid_table_id_result(opts@),
        call_ensures(naming::op_region_for_zone, (opts,), r) ==> outcome(r)
            == naming::region_for_zone_result(opts@),
{
}

/// An operation begins with the request that the laws on it speak of.
pub proof fn operations_begin_with_their_requests(
    op: Op,
    opts: &Json,
    env: &Env,
    r: Result<Request, Error>,
)
    requires
        call_ensures(bridge::begin, (op, opts, env), r),
    ensures
        r is Ok ==> call_of(op, opts@, env@) == Ok::<RequestView, Seq<char>>(r->Ok_0@),
        r is Err ==> call_of(op, opts@, env@) == Err::<RequestView, Seq<char>>(r->Err_0@),
{
}

/// An operation ends with the result that the laws on it speak of.
pub proof fn operations_end_with_their_results(
    op: Op,
    opts: &Json,
    env: &Env,
    reply: Reply,
    r: Result<Json, Error>,
)
    requires
        call_ensures(bridge::complete, (op, opts, env, reply), r),
    ensures
        r is Ok ==> result_of(op, opts@, env@, reply@) == Ok::<JsonView, Seq<char>>(r->Ok_0@),
        r is Err ==> result_of(op, opts@, env@, reply@) == Err::<JsonView, Seq<char>>(r->Err_0@),
{
}

/// An answer carries the result or the message, whichever there is.
pub proof fn answers_carry_what_there_is(r: Result<Json, Error>, a: Json)
    requires
        call_ensures(bridge::answer, (r,), a),
    ensures
        r is Ok ==> a@ == r->Ok_0@,
        r is Err ==> has_members(a@, set!["error"@]) && a@.at("error"@) == JsonView::Str(
            r->Err_0@,
        ),
{
}

} // verus!
