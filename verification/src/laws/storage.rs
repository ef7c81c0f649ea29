//! Cloud Storage: how the requests are read, and what the results hold.

use vstd::prelude::*;
use vstd::string::*;
use vstd::utf8::{decode_utf8, encode_utf8, valid_utf8};

use crate::bridge::{call_of, result_of, Op, ReplyView};
use crate::codec::base64_encoding;
use crate::json::JsonView;
use crate::ops::named;
use crate::ops::storage::source;
use crate::options::{project_of, EnvView};
use crate::request::{BodyView, Method};
use crate::url::{asks_for, lemma_same_target, target};
use super::{has_members, lemma_kept, refuses};
use super::urls::{
    lemma_storage_b_iam, lemma_storage_b_o_compose, lemma_storage_b_o_copy_to_b_o_dst_key,
    lemma_storage_b_o_key, lemma_storage_b_o_key_alt_media, lemma_storage_b_o_prefix,
    lemma_storage_b_project, lemma_storage_upload_b_o_upload_type_media_name,
};

verus! {

/// The names of members differ.
proof fn lemma_names()
    ensures
        "body"@.len() == 4,
        "bucket"@.len() == 6,
        "buckets"@.len() == 7,
        "content_type"@.len() == 12,
        "deleted"@.len() == 7,
        "dst_bucket"@.len() == 10,
        "dst_key"@.len() == 7,
        "etag"@.len() == 4,
        "generation"@.len() == 10,
        "key"@.len() == 3,
        "md5_hash"@.len() == 8,
        "name"@.len() == 4,
        "object"@.len() == 6,
        "objects"@.len() == 7,
        "policy"@.len() == 6,
        "project"@.len() == 7,
        "size"@.len() == 4,
        "sourceObjects"@.len() == 13,
        "updated"@.len() == 7,
        "bucket"@ != "object"@,
        "bucket"@ != "policy"@,
        "dst_bucket"@ != "generation"@,
        "name"@ != "size"@,
        "project"@ != "buckets"@,
        "size"@ != "etag"@,
{
    reveal_strlit("body");
    reveal_strlit("bucket");
    reveal_strlit("buckets");
    reveal_strlit("content_type");
    reveal_strlit("deleted");
    reveal_strlit("dst_bucket");
    reveal_strlit("dst_key");
    reveal_strlit("etag");
    reveal_strlit("generation");
    reveal_strlit("key");
    reveal_strlit("md5_hash");
    reveal_strlit("name");
    reveal_strlit("object");
    reveal_strlit("objects");
    reveal_strlit("policy");
    reveal_strlit("project");
    reveal_strlit("size");
    reveal_strlit("sourceObjects");
    reveal_strlit("updated");
    assert("bucket"@[0] != "object"@[0]);
    assert("bucket"@[0] != "policy"@[0]);
    assert("dst_bucket"@[0] != "generation"@[0]);
    assert("name"@[0] != "size"@[0]);
    assert("project"@[0] != "buckets"@[0]);
    assert("size"@[0] != "etag"@[0]);
}

/// Listing buckets asks for the collection of buckets, with the project as a parameter.
pub proof fn gcs_list_buckets_asks(opts: JsonView, env: EnvView)
    ensures
        project_of(opts, env) is None
            ==> refuses(Op::GcsListBuckets, opts, env,
            "missing project (set GOOGLE_CLOUD_PROJECT or pass `project`)"@),
        project_of(opts, env) is Some ==> ({
            let project = project_of(opts, env)->0;
            &&& call_of(Op::GcsListBuckets, opts, env) is Ok
            &&& ({
                let sent = call_of(Op::GcsListBuckets, opts, env)->Ok_0;
                &&& sent.method == Method::Get
                &&& asks_for(
                        sent.url,
                        "https://storage.googleapis.com/storage/v1/"@,
                        seq!["b"@],
                        None,
                        seq![("project"@, project)],
                    )
                &&& sent.query == Seq::<(Seq<char>, Seq<char>)>::empty()
                &&& sent.headers == Seq::<(Seq<char>, Seq<char>)>::empty()
                &&& sent.body == BodyView::Empty
            })
        }),
{
    lemma_names();
    if project_of(opts, env) is Some {
        let project = project_of(opts, env)->0;
        lemma_storage_b_project(project);
    }
}

/// The buckets are the names of the items that have one, in their order.
pub proof fn gcs_list_buckets_gives(opts: JsonView, env: EnvView, body: JsonView)
    requires
        call_of(Op::GcsListBuckets, opts, env) is Ok,
    ensures
        result_of(Op::GcsListBuckets, opts, env, ReplyView::Document(body)) is Ok,
        ({
            let project = project_of(opts, env)->0;
            let given = result_of(Op::GcsListBuckets, opts, env, ReplyView::Document(body))->Ok_0;
            &&& has_members(given, set!["project"@, "buckets"@])
            &&& given.at("project"@) == JsonView::Str(project)
            &&& given.at("buckets"@) == JsonView::Arr(
                    body.list("items"@).filter(|o: JsonView| o.at("name"@) is Str).map_values(
                        |o: JsonView| o.at("name"@),
                    ),
                )
        }),
{
    lemma_names();
    lemma_kept(
        body.list("items"@),
        |o: JsonView| named(o),
        |o: JsonView| o.at("name"@) is Str,
        |o: JsonView| o.at("name"@),
    );
}

/// Listing objects asks for the collection of objects of the bucket, with the prefix as a
/// parameter.
pub proof fn gcs_list_objects_asks(opts: JsonView, env: EnvView)
    ensures
        opts.str_at("bucket"@) is None
            ==> refuses(Op::GcsListObjects, opts, env, "missing bucket"@),
        opts.str_at("bucket"@) is Some ==> ({
            let bucket = opts.str_at("bucket"@)->0;
            let prefix = opts.str_or("prefix"@, ""@);
            &&& call_of(Op::GcsListObjects, opts, env) is Ok
            &&& ({
                let sent = call_of(Op::GcsListObjects, opts, env)->Ok_0;
                &&& sent.method == Method::Get
                &&& asks_for(
                        sent.url,
                        "https://storage.googleapis.com/storage/v1/"@,
                        seq!["b"@, bucket, "o"@],
                        None,
                        seq![("prefix"@, prefix)],
                    )
                &&& sent.query == Seq::<(Seq<char>, Seq<char>)>::empty()
                &&& sent.headers == Seq::<(Seq<char>, Seq<char>)>::empty()
                &&& sent.body == BodyView::Empty
            })
        }),
{
    lemma_names();
    if opts.str_at("bucket"@) is Some {
        let bucket = opts.str_at("bucket"@)->0;
        let prefix = opts.str_or("prefix"@, ""@);
        lemma_storage_b_o_prefix(bucket, prefix);
    }
}

/// Each item of the answer is an object of the listing, in its place.
pub proof fn gcs_list_objects_gives(opts: JsonView, env: EnvView, body: JsonView)
    requires
        call_of(Op::GcsListObjects, opts, env) is Ok,
    ensures
        result_of(Op::GcsListObjects, opts, env, ReplyView::Document(body)) is Ok,
        ({
            let bucket = opts.str_at("bucket"@)->0;
            let given = result_of(Op::GcsListObjects, opts, env, ReplyView::Document(body))->Ok_0;
            &&& has_members(given, set!["bucket"@, "objects"@])
            &&& given.at("bucket"@) == JsonView::Str(bucket)
            &&& given.at("objects"@) is Arr
            &&& given.at("objects"@)->Arr_0.len() == body.list("items"@).len()
            &&& forall|i: int| 0 <= i < body.list("items"@).len() ==> {
                    let row = #[trigger] given.at("objects"@)->Arr_0[i];
                    let o = body.list("items"@)[i];
                    &&& has_members(row, set!["name"@, "size"@, "content_type"@])
                    &&& row.at("name"@) == JsonView::Str(o.str_or("name"@, ""@))
                    &&& row.at("size"@) == JsonView::Str(o.str_or("size"@, "0"@))
                    &&& row.at("content_type"@) == JsonView::Str(o.str_or("contentType"@, ""@))
                }
        }),
{
    lemma_names();
}

/// Reading an object asks for the media of the key in the bucket.
pub proof fn gcs_get_object_asks(opts: JsonView, env: EnvView)
    ensures
        opts.str_at("bucket"@) is None ==> refuses(Op::GcsGetObject, opts, env, "missing bucket"@),
        opts.str_at("bucket"@) is Some && opts.str_at("key"@) is None
            ==> refuses(Op::GcsGetObject, opts, env, "missing key"@),
        opts.str_at("bucket"@) is Some && opts.str_at("key"@) is Some ==> ({
            let bucket = opts.str_at("bucket"@)->0;
            let key = opts.str_at("key"@)->0;
            &&& call_of(Op::GcsGetObject, opts, env) is Ok
            &&& ({
                let sent = call_of(Op::GcsGetObject, opts, env)->Ok_0;
                &&& sent.method == Method::Get
                &&& asks_for(
                        sent.url,
                        "https://storage.googleapis.com/storage/v1/"@,
                        seq!["b"@, bucket, "o"@, key],
                        None,
                        seq![("alt"@, "media"@)],
                    )
                &&& sent.query == Seq::<(Seq<char>, Seq<char>)>::empty()
                &&& sent.headers == Seq::<(Seq<char>, Seq<char>)>::empty()
                &&& sent.body == BodyView::Empty
            })
        }),
{
    lemma_names();
    if opts.str_at("bucket"@) is Some && opts.str_at("key"@) is Some {
        let bucket = opts.str_at("bucket"@)->0;
        let key = opts.str_at("key"@)->0;
        lemma_storage_b_o_key_alt_media(bucket, key);
    }
}

/// The body is the text that the bytes encode, and marked base64 where they encode none.
pub proof fn gcs_get_object_gives(opts: JsonView, env: EnvView, body: Seq<u8>)
    requires
        call_of(Op::GcsGetObject, opts, env) is Ok,
    ensures
        result_of(Op::GcsGetObject, opts, env, ReplyView::Bytes(body)) is Ok,
        ({
            let bucket = opts.str_at("bucket"@)->0;
            let key = opts.str_at("key"@)->0;
            let given = result_of(Op::GcsGetObject, opts, env, ReplyView::Bytes(body))->Ok_0;
            &&& has_members(given, set!["bucket"@, "key"@, "body"@])
            &&& given.at("bucket"@) == JsonView::Str(bucket)
            &&& given.at("key"@) == JsonView::Str(key)
            &&& valid_utf8(body) ==> given.at("body"@) == JsonView::Str(decode_utf8(body))
            &&& !valid_utf8(body)
                ==> given.at("body"@) == JsonView::Str("base64:"@ + base64_encoding(body))
        }),
{
    lemma_names();
}

/// Writing an object uploads the option `body` under the name of the key to the bucket.
pub proof fn gcs_put_object_asks(opts: JsonView, env: EnvView)
    ensures
        opts.str_at("bucket"@) is None ==> refuses(Op::GcsPutObject, opts, env, "missing bucket"@),
        opts.str_at("bucket"@) is Some && opts.str_at("key"@) is None
            ==> refuses(Op::GcsPutObject, opts, env, "missing key"@),
        opts.str_at("bucket"@) is Some && opts.str_at("key"@) is Some ==> ({
            let bucket = opts.str_at("bucket"@)->0;
            let key = opts.str_at("key"@)->0;
            &&& call_of(Op::GcsPutObject, opts, env) is Ok
            &&& ({
                let sent = call_of(Op::GcsPutObject, opts, env)->Ok_0;
                &&& sent.method == Method::Post
                &&& asks_for(
                        sent.url,
                        "https://storage.googleapis.com/upload/storage/v1/"@,
                        seq!["b"@, bucket, "o"@],
                        None,
                        seq![("uploadType"@, "media"@), ("name"@, key)],
                    )
                &&& sent.query == Seq::<(Seq<char>, Seq<char>)>::empty()
                &&& sent.headers
                    == seq![("Content-Type"@, opts.str_or("content_type"@,
                    "application/octet-stream"@))]
                &&& sent.body == BodyView::Bytes(encode_utf8(opts.str_or("body"@, ""@)))
            })
        }),
{
    lemma_names();
    if opts.str_at("bucket"@) is Some && opts.str_at("key"@) is Some {
        let bucket = opts.str_at("bucket"@)->0;
        let key = opts.str_at("key"@)->0;
        lemma_storage_upload_b_o_upload_type_media_name(bucket, key);
    }
}

/// The result names what was written, and its generation and tag.
pub proof fn gcs_put_object_gives(opts: JsonView, env: EnvView, body: JsonView)
    requires
        call_of(Op::GcsPutObject, opts, env) is Ok,
    ensures
        result_of(Op::GcsPutObject, opts, env, ReplyView::Document(body)) is Ok,
        ({
            let bucket = opts.str_at("bucket"@)->0;
            let key = opts.str_at("key"@)->0;
            let given = result_of(Op::GcsPutObject, opts, env, ReplyView::Document(body))->Ok_0;
            &&& has_members(given, set!["bucket"@, "key"@, "generation"@, "etag"@])
            &&& given.at("bucket"@) == JsonView::Str(bucket)
            &&& given.at("key"@) == JsonView::Str(key)
            &&& given.at("generation"@) == body.at("generation"@)
            &&& given.at("etag"@) == body.at("etag"@)
        }),
{
    lemma_names();
}

/// Deleting an object asks for the key in the bucket.
pub proof fn gcs_delete_object_asks(opts: JsonView, env: EnvView)
    ensures
        opts.str_at("bucket"@) is None
            ==> refuses(Op::GcsDeleteObject, opts, env, "missing bucket"@),
        opts.str_at("bucket"@) is Some && opts.str_at("key"@) is None
            ==> refuses(Op::GcsDeleteObject, opts, env, "missing key"@),
        opts.str_at("bucket"@) is Some && opts.str_at("key"@) is Some ==> ({
            let bucket = opts.str_at("bucket"@)->0;
            let key = opts.str_at("key"@)->0;
            &&& call_of(Op::GcsDeleteObject, opts, env) is Ok
            &&& ({
                let sent = call_of(Op::GcsDeleteObject, opts, env)->Ok_0;
                &&& sent.method == Method::Delete
                &&& asks_for(
                        sent.url,
                        "https://storage.googleapis.com/storage/v1/"@,
                        seq!["b"@, bucket, "o"@, key],
                        None,
                        Seq::empty(),
                    )
                &&& sent.query == Seq::<(Seq<char>, Seq<char>)>::empty()
                &&& sent.headers == Seq::<(Seq<char>, Seq<char>)>::empty()
                &&& sent.body == BodyView::Empty
            })
        }),
{
    lemma_names();
    if opts.str_at("bucket"@) is Some && opts.str_at("key"@) is Some {
        let bucket = opts.str_at("bucket"@)->0;
        let key = opts.str_at("key"@)->0;
        lemma_storage_b_o_key(bucket, key);
    }
}

/// The result names what was deleted.
pub proof fn gcs_delete_object_gives(opts: JsonView, env: EnvView, reply: ReplyView)
    requires
        call_of(Op::GcsDeleteObject, opts, env) is Ok,
    ensures
        result_of(Op::GcsDeleteObject, opts, env, reply) is Ok,
        ({
            let bucket = opts.str_at("bucket"@)->0;
            let key = opts.str_at("key"@)->0;
            let given = result_of(Op::GcsDeleteObject, opts, env, reply)->Ok_0;
            &&& has_members(given, set!["bucket"@, "key"@, "deleted"@])
            &&& given.at("bucket"@) == JsonView::Str(bucket)
            &&& given.at("key"@) == JsonView::Str(key)
            &&& given.at("deleted"@) == JsonView::Bool(true)
        }),
{
    lemma_names();
}

/// Asking for the metadata of an object asks for the key in the bucket.
pub proof fn gcs_head_object_asks(opts: JsonView, env: EnvView)
    ensures
        opts.str_at("bucket"@) is None ==> refuses(Op::GcsHeadObject, opts, env, "missing bucket"@),
        opts.str_at("bucket"@) is Some && opts.str_at("key"@) is None
            ==> refuses(Op::GcsHeadObject, opts, env, "missing key"@),
        opts.str_at("bucket"@) is Some && opts.str_at("key"@) is Some ==> ({
            let bucket = opts.str_at("bucket"@)->0;
            let key = opts.str_at("key"@)->0;
            &&& call_of(Op::GcsHeadObject, opts, env) is Ok
            &&& ({
                let sent = call_of(Op::GcsHeadObject, opts, env)->Ok_0;
                &&& sent.method == Method::Get
                &&& asks_for(
                        sent.url,
                        "https://storage.googleapis.com/storage/v1/"@,
                        seq!["b"@, bucket, "o"@, key],
                        None,
                        Seq::empty(),
                    )
                &&& sent.query == Seq::<(Seq<char>, Seq<char>)>::empty()
                &&& sent.headers == Seq::<(Seq<char>, Seq<char>)>::empty()
                &&& sent.body == BodyView::Empty
            })
        }),
{
    lemma_names();
    if opts.str_at("bucket"@) is Some && opts.str_at("key"@) is Some {
        let bucket = opts.str_at("bucket"@)->0;
        let key = opts.str_at("key"@)->0;
        lemma_storage_b_o_key(bucket, key);
    }
}

/// The metadata are those of the answer.
pub proof fn gcs_head_object_gives(opts: JsonView, env: EnvView, body: JsonView)
    requires
        call_of(Op::GcsHeadObject, opts, env) is Ok,
    ensures
        result_of(Op::GcsHeadObject, opts, env, ReplyView::Document(body)) is Ok,
        ({
            let bucket = opts.str_at("bucket"@)->0;
            let key = opts.str_at("key"@)->0;
            let given = result_of(Op::GcsHeadObject, opts, env, ReplyView::Document(body))->Ok_0;
            &&& has_members(given, set!["bucket"@, "key"@, "size"@, "content_type"@,
                "updated"@, "generation"@, "md5_hash"@, "etag"@])
            &&& given.at("bucket"@) == JsonView::Str(bucket)
            &&& given.at("key"@) == JsonView::Str(key)
            &&& given.at("size"@) == JsonView::Str(body.str_or("size"@, "0"@))
            &&& given.at("content_type"@) == JsonView::Str(body.str_or("contentType"@, ""@))
            &&& given.at("updated"@) == body.at("updated"@)
            &&& given.at("generation"@) == body.at("generation"@)
            &&& given.at("md5_hash"@) == body.at("md5Hash"@)
            &&& given.at("etag"@) == body.at("etag"@)
        }),
{
    lemma_names();
}

/// Copying an object asks for the source first and the destination behind it.
pub proof fn gcs_copy_object_asks(opts: JsonView, env: EnvView)
    ensures
        opts.str_at("src_bucket"@) is None
            ==> refuses(Op::GcsCopyObject, opts, env, "missing src_bucket"@),
        opts.str_at("src_bucket"@) is Some && opts.str_at("src_key"@) is None
            ==> refuses(Op::GcsCopyObject, opts, env, "missing src_key"@),
        opts.str_at("src_bucket"@) is Some && opts.str_at("src_key"@) is Some
            && opts.str_at("dst_bucket"@) is None
            ==> refuses(Op::GcsCopyObject, opts, env, "missing dst_bucket"@),
        opts.str_at("src_bucket"@) is Some && opts.str_at("src_key"@) is Some
            && opts.str_at("dst_bucket"@) is Some && opts.str_at("dst_key"@) is None
            ==> refuses(Op::GcsCopyObject, opts, env, "missing dst_key"@),
        opts.str_at("src_bucket"@) is Some && opts.str_at("src_key"@) is Some
            && opts.str_at("dst_bucket"@) is Some && opts.str_at("dst_key"@) is Some ==> ({
            let src_bucket = opts.str_at("src_bucket"@)->0;
            let src_key = opts.str_at("src_key"@)->0;
            let dst_bucket = opts.str_at("dst_bucket"@)->0;
            let dst_key = opts.str_at("dst_key"@)->0;
            &&& call_of(Op::GcsCopyObject, opts, env) is Ok
            &&& ({
                let sent = call_of(Op::GcsCopyObject, opts, env)->Ok_0;
                &&& sent.method == Method::Post
                &&& asks_for(
                        sent.url,
                        "https://storage.googleapis.com/storage/v1/"@,
                        seq!["b"@, src_bucket, "o"@, src_key, "copyTo"@, "b"@, dst_bucket,
                            "o"@, dst_key],
                        None,
                        Seq::empty(),
                    )
                &&& sent.query == Seq::<(Seq<char>, Seq<char>)>::empty()
                &&& sent.headers == seq![("Content-Length"@, "0"@)]
                &&& sent.body == BodyView::Empty
            })
        }),
{
    lemma_names();
    if opts.str_at("src_bucket"@) is Some && opts.str_at("src_key"@) is Some
        && opts.str_at("dst_bucket"@) is Some && opts.str_at("dst_key"@) is Some {
        let src_bucket = opts.str_at("src_bucket"@)->0;
        let src_key = opts.str_at("src_key"@)->0;
        let dst_bucket = opts.str_at("dst_bucket"@)->0;
        let dst_key = opts.str_at("dst_key"@)->0;
        lemma_storage_b_o_copy_to_b_o_dst_key(src_bucket, src_key, dst_bucket, dst_key);
    }
}

/// The result names the destination, and its generation.
pub proof fn gcs_copy_object_gives(opts: JsonView, env: EnvView, body: JsonView)
    requires
        call_of(Op::GcsCopyObject, opts, env) is Ok,
    ensures
        result_of(Op::GcsCopyObject, opts, env, ReplyView::Document(body)) is Ok,
        ({
            let dst_bucket = opts.str_at("dst_bucket"@)->0;
            let dst_key = opts.str_at("dst_key"@)->0;
            let given = result_of(Op::GcsCopyObject, opts, env, ReplyView::Document(body))->Ok_0;
            &&& has_members(given, set!["dst_bucket"@, "dst_key"@, "generation"@])
            &&& given.at("dst_bucket"@) == JsonView::Str(dst_bucket)
            &&& given.at("dst_key"@) == JsonView::Str(dst_key)
            &&& given.at("generation"@) == body.at("resource"@).at("generation"@)
        }),
{
    lemma_names();
}

/// Composing asks for the destination, and sends the names of the sources in their order.
pub proof fn gcs_compose_asks(opts: JsonView, env: EnvView)
    ensures
        opts.str_at("bucket"@) is None ==> refuses(Op::GcsCompose, opts, env, "missing bucket"@),
        opts.str_at("bucket"@) is Some && opts.str_at("destination"@) is None
            ==> refuses(Op::GcsCompose, opts, env, "missing destination"@),
        opts.str_at("bucket"@) is Some && opts.str_at("destination"@) is Some
            && !(opts.at("sources"@) is Arr)
            ==> refuses(Op::GcsCompose, opts, env, "missing sources (array of object names)"@),
        opts.str_at("bucket"@) is Some && opts.str_at("destination"@) is Some
            && opts.at("sources"@) is Arr ==> ({
            let bucket = opts.str_at("bucket"@)->0;
            let destination = opts.str_at("destination"@)->0;
            let sources = opts.at("sources"@)->Arr_0;
            &&& call_of(Op::GcsCompose, opts, env) is Ok
            &&& ({
                let sent = call_of(Op::GcsCompose, opts, env)->Ok_0;
                let content = sent.body->Json_0;
                &&& sent.method == Method::Post
                &&& asks_for(
                        sent.url,
                        "https://storage.googleapis.com/storage/v1/"@,
                        seq!["b"@, bucket, "o"@, destination, "compose"@],
                        None,
                        Seq::empty(),
                    )
                &&& sent.query == Seq::<(Seq<char>, Seq<char>)>::empty()
                &&& sent.headers == Seq::<(Seq<char>, Seq<char>)>::empty()
                &&& sent.body is Json
                &&& has_members(content, set!["sourceObjects"@])
                &&& content.at("sourceObjects"@) == JsonView::Arr(
                        sources.filter(|o: JsonView| o is Str).map_values(
                            |o: JsonView| JsonView::Obj(map!["name"@ => o]),
                        ),
                    )
            })
        }),
{
    lemma_names();
    if opts.str_at("bucket"@) is Some && opts.str_at("destination"@) is Some
        && opts.at("sources"@) is Arr {
        let bucket = opts.str_at("bucket"@)->0;
        let destination = opts.str_at("destination"@)->0;
        let sources = opts.at("sources"@)->Arr_0;
        lemma_storage_b_o_compose(bucket, destination);
        lemma_kept(
            sources,
            |o: JsonView| source(o),
            |o: JsonView| o is Str,
            |o: JsonView| JsonView::Obj(map!["name"@ => o]),
        );
    }
}

/// The result names the object that was composed.
pub proof fn gcs_compose_gives(opts: JsonView, env: EnvView, body: JsonView)
    requires
        call_of(Op::GcsCompose, opts, env) is Ok,
    ensures
        result_of(Op::GcsCompose, opts, env, ReplyView::Document(body)) is Ok,
        ({
            let bucket = opts.str_at("bucket"@)->0;
            let given = result_of(Op::GcsCompose, opts, env, ReplyView::Document(body))->Ok_0;
            &&& has_members(given, set!["bucket"@, "object"@, "size"@])
            &&& given.at("bucket"@) == JsonView::Str(bucket)
            &&& given.at("object"@)
                == JsonView::Str(body.str_or("name"@, opts.str_at("destination"@)->0))
            &&& given.at("size"@) == body.at("size"@)
        }),
{
    lemma_names();
}

/// Reading a policy asks for that of the bucket.
pub proof fn gcs_get_iam_policy_asks(opts: JsonView, env: EnvView)
    ensures
        opts.str_at("bucket"@) is None
            ==> refuses(Op::GcsGetIamPolicy, opts, env, "missing bucket"@),
        opts.str_at("bucket"@) is Some ==> ({
            let bucket = opts.str_at("bucket"@)->0;
            &&& call_of(Op::GcsGetIamPolicy, opts, env) is Ok
            &&& ({
                let sent = call_of(Op::GcsGetIamPolicy, opts, env)->Ok_0;
                &&& sent.method == Method::Get
                &&& asks_for(
                        sent.url,
                        "https://storage.googleapis.com/storage/v1/"@,
                        seq!["b"@, bucket, "iam"@],
                        None,
                        Seq::empty(),
                    )
                &&& sent.query == Seq::<(Seq<char>, Seq<char>)>::empty()
                &&& sent.headers == Seq::<(Seq<char>, Seq<char>)>::empty()
                &&& sent.body == BodyView::Empty
            })
        }),
{
    lemma_names();
    if opts.str_at("bucket"@) is Some {
        let bucket = opts.str_at("bucket"@)->0;
        lemma_storage_b_iam(bucket);
    }
}

/// The policy is the answer.
pub proof fn gcs_get_iam_policy_gives(opts: JsonView, env: EnvView, body: JsonView)
    requires
        call_of(Op::GcsGetIamPolicy, opts, env) is Ok,
    ensures
        result_of(Op::GcsGetIamPolicy, opts, env, ReplyView::Document(body)) is Ok,
        ({
            let bucket = opts.str_at("bucket"@)->0;
            let given = result_of(Op::GcsGetIamPolicy, opts, env, ReplyView::Document(body))->Ok_0;
            &&& has_members(given, set!["bucket"@, "policy"@])
            &&& given.at("bucket"@) == JsonView::Str(bucket)
            &&& given.at("policy"@) == body
        }),
{
    lemma_names();
}

/// Setting a policy sends it to that of the bucket.
pub proof fn gcs_set_iam_policy_asks(opts: JsonView, env: EnvView)
    ensures
        opts.str_at("bucket"@) is None
            ==> refuses(Op::GcsSetIamPolicy, opts, env, "missing bucket"@),
        opts.str_at("bucket"@) is Some && !(opts.at("policy"@) is Obj)
            ==> refuses(Op::GcsSetIamPolicy, opts, env, "missing policy (an object)"@),
        opts.str_at("bucket"@) is Some && opts.at("policy"@) is Obj ==> ({
            let bucket = opts.str_at("bucket"@)->0;
            let policy = opts.at("policy"@);
            &&& call_of(Op::GcsSetIamPolicy, opts, env) is Ok
            &&& ({
                let sent = call_of(Op::GcsSetIamPolicy, opts, env)->Ok_0;
                let content = sent.body->Json_0;
                &&& sent.method == Method::Put
                &&& asks_for(
                        sent.url,
                        "https://storage.googleapis.com/storage/v1/"@,
                        seq!["b"@, bucket, "iam"@],
                        None,
                        Seq::empty(),
                    )
                &&& sent.query == Seq::<(Seq<char>, Seq<char>)>::empty()
                &&& sent.headers == Seq::<(Seq<char>, Seq<char>)>::empty()
                &&& sent.body is Json
                &&& content == policy
            })
        }),
{
    lemma_names();
    if opts.str_at("bucket"@) is Some && opts.at("policy"@) is Obj {
        let bucket = opts.str_at("bucket"@)->0;
        lemma_storage_b_iam(bucket);
    }
}

/// The policy is the answer.
pub proof fn gcs_set_iam_policy_gives(opts: JsonView, env: EnvView, body: JsonView)
    requires
        call_of(Op::GcsSetIamPolicy, opts, env) is Ok,
    ensures
        result_of(Op::GcsSetIamPolicy, opts, env, ReplyView::Document(body)) is Ok,
        ({
            let bucket = opts.str_at("bucket"@)->0;
            let given = result_of(Op::GcsSetIamPolicy, opts, env, ReplyView::Document(body))->Ok_0;
            &&& has_members(given, set!["bucket"@, "policy"@])
            &&& given.at("bucket"@) == JsonView::Str(bucket)
            &&& given.at("policy"@) == body
        }),
{
    lemma_names();
}

/// An object has one place: it is deleted and described where it is read, but for the parameter
/// that
/// asks for its media.
pub proof fn an_object_has_one_place(opts: JsonView, env: EnvView)
    requires
        call_of(Op::GcsGetObject, opts, env) is Ok,
    ensures
        call_of(Op::GcsDeleteObject, opts, env) is Ok,
        call_of(Op::GcsHeadObject, opts, env) is Ok,
        call_of(Op::GcsGetObject, opts, env)->Ok_0.url == call_of(
            Op::GcsDeleteObject,
            opts,
            env,
        )->Ok_0.url + "?alt=media"@,
        call_of(Op::GcsHeadObject, opts, env)->Ok_0.url == call_of(
            Op::GcsDeleteObject,
            opts,
            env,
        )->Ok_0.url,
{
}

/// Different objects have different places: where two requests to delete an object go to one URL,
/// they name one bucket and one key.
pub proof fn different_objects_have_different_places(one: JsonView, other: JsonView, env: EnvView)
    requires
        call_of(Op::GcsDeleteObject, one, env) is Ok,
        call_of(Op::GcsDeleteObject, other, env) is Ok,
        call_of(Op::GcsDeleteObject, one, env)->Ok_0.url == call_of(
            Op::GcsDeleteObject,
            other,
            env,
        )->Ok_0.url,
    ensures
        one.str_at("bucket"@) == other.str_at("bucket"@),
        one.str_at("key"@) == other.str_at("key"@),
{
    gcs_delete_object_asks(one, env);
    gcs_delete_object_asks(other, env);
    let url = call_of(Op::GcsDeleteObject, one, env)->Ok_0.url;
    let root = "https://storage.googleapis.com/storage/v1/"@;
    lemma_same_target(url, url, root);
    let steps = target(url, root)->0.steps;
    assert(steps[1] == one.str_at("bucket"@)->0 && steps[1] == other.str_at("bucket"@)->0);
    assert(steps[3] == one.str_at("key"@)->0 && steps[3] == other.str_at("key"@)->0);
}

} // verus!
