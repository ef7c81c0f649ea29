//! Cloud Storage.

use vstd::prelude::*;
use vstd::string::*;
use vstd::slice::slice_to_vec;
use vstd::utf8::{encode_utf8, encode_utf8_decode_utf8, encode_utf8_valid_utf8};

use crate::codec::{base64_encode, base64_encoding, text_from_utf8, url_encoded, utf8_text};
use crate::json::{keep, kept, picks, rows, Json, JsonView, Members};
use crate::options::{
    need, need_array, need_object, project_of, require, require_array, require_object,
    resolve_project, Env, EnvView,
};
use crate::request::{
    bare, outcome, prepared, BodyView, Draft, Error, Method, Request, RequestView,
};
use super::{named, named_json};

verus! {

/// The request of `gcs_list_buckets`, or what is answered where it cannot be made.
pub open spec fn gcs_list_buckets_call(opts: JsonView, env: EnvView) -> Result<
    RequestView,
    Seq<char>,
> {
    match project_of(opts, env) {
        None => Err("missing project (set GOOGLE_CLOUD_PROJECT or pass `project`)"@),
        Some(project) => Ok(
            bare(
                Method::Get,
                "https://storage.googleapis.com/storage/v1/b?project="@
                    + url_encoded(project),
            ),
        ),
    }
}

/// Lists the buckets of the project.
pub fn gcs_list_buckets_request(opts: &Json, env: &Env) -> (r: Result<Request, Error>)
    ensures
        prepared(r) == gcs_list_buckets_call(opts@, env@),
{
    let project: String = match resolve_project(opts, env) {
        Some(p) => p,
        None => {
            return Err(Error::new("missing project (set GOOGLE_CLOUD_PROJECT or pass `project`)"));
        },
    };
    Ok(
        Request::new(
            Method::Get,
            Draft::new("https://storage.googleapis.com/storage/v1/b?project=")
                .enc(project.as_str()),
        ),
    )
}

/// The result of `gcs_list_buckets`, where the service answers `body`.
pub open spec fn gcs_list_buckets_result(opts: JsonView, env: EnvView, body: JsonView) -> Result<
    JsonView,
    Seq<char>,
> {
    match project_of(opts, env) {
        None => Err("missing project (set GOOGLE_CLOUD_PROJECT or pass `project`)"@),
        Some(project) => Ok(
            JsonView::Obj(
                map![
                    "project"@ => JsonView::Str(project),
                    "buckets"@ => JsonView::Arr(kept(body.list("items"@), |o: JsonView| named(o))),
                ],
            ),
        ),
    }
}

/// The result of the operation, where the service answers `body`.
pub fn op_gcs_list_buckets(opts: &Json, env: &Env, body: &Json) -> (r: Result<Json, Error>)
    ensures
        outcome(r) == gcs_list_buckets_result(opts@, env@, body@),
{
    let project: String = match resolve_project(opts, env) {
        Some(p) => p,
        None => {
            return Err(Error::new("missing project (set GOOGLE_CLOUD_PROJECT or pass `project`)"));
        },
    };
    Ok(
        Json::Object(
            Members::new()
                .with("project", Json::text(project.as_str()))
                .with("buckets", picks(body, "items", named_json, Ghost(|o: JsonView| named(o)))),
        ),
    )
}

/// An object in a listing.
pub open spec fn object_row(o: JsonView) -> JsonView {
    JsonView::Obj(
        map![
            "name"@ => JsonView::Str(o.str_or("name"@, ""@)),
            "size"@ => JsonView::Str(o.str_or("size"@, "0"@)),
            "content_type"@ => JsonView::Str(o.str_or("contentType"@, ""@)),
        ],
    )
}

fn object_row_json(o: &Json) -> (r: Json)
    ensures
        r@ == object_row(o@),
{
    Json::Object(
        Members::new()
            .with("name", Json::text(o.str_or("name", "")))
            .with("size", Json::text(o.str_or("size", "0")))
            .with("content_type", Json::text(o.str_or("contentType", ""))),
    )
}

/// The request of `gcs_list_objects`, or what is answered where it cannot be made.
pub open spec fn gcs_list_objects_call(opts: JsonView, env: EnvView) -> Result<
    RequestView,
    Seq<char>,
> {
    match need(opts, "bucket"@, "missing bucket"@) {
        Err(e) => Err(e),
        Ok(bucket) => {
            let prefix = opts.str_or("prefix"@, ""@);
            Ok(
                bare(
                    Method::Get,
                    "https://storage.googleapis.com/storage/v1/b/"@ + url_encoded(bucket)
                        + "/o?prefix="@ + url_encoded(prefix),
                ),
            )
        },
    }
}

/// Lists the objects of `bucket` whose names begin with `prefix`.
pub fn gcs_list_objects_request(opts: &Json, env: &Env) -> (r: Result<Request, Error>)
    ensures
        prepared(r) == gcs_list_objects_call(opts@, env@),
{
    let bucket: &str = require(opts, "bucket", "missing bucket")?;
    let prefix: &str = opts.str_or("prefix", "");
    Ok(
        Request::new(
            Method::Get,
            Draft::new("https://storage.googleapis.com/storage/v1/b/").enc(bucket)
                .lit("/o?prefix=").enc(prefix),
        ),
    )
}

/// The result of `gcs_list_objects`, where the service answers `body`.
pub open spec fn gcs_list_objects_result(opts: JsonView, env: EnvView, body: JsonView) -> Result<
    JsonView,
    Seq<char>,
> {
    match need(opts, "bucket"@, "missing bucket"@) {
        Err(e) => Err(e),
        Ok(bucket) => Ok(
            JsonView::Obj(
                map![
                    "bucket"@ => JsonView::Str(bucket),
                    "objects"@ => JsonView::Arr(body.list("items"@).map_values(|o: JsonView| object_row(o))),
                ],
            ),
        ),
    }
}

/// The result of the operation, where the service answers `body`.
pub fn op_gcs_list_objects(opts: &Json, env: &Env, body: &Json) -> (r: Result<Json, Error>)
    ensures
        outcome(r) == gcs_list_objects_result(opts@, env@, body@),
{
    let bucket: &str = require(opts, "bucket", "missing bucket")?;
    Ok(
        Json::Object(
            Members::new()
                .with("bucket", Json::text(bucket))
                .with("objects", rows(body, "items", object_row_json, Ghost(|o: JsonView| object_row(o)))),
        ),
    )
}

/// What is handed out of an object's bytes: the text that they encode, or `base64:` and their
/// encoding where they are no text.
pub open spec fn readable(bytes: Seq<u8>) -> Seq<char> {
    match utf8_text(bytes) {
        Some(s) => s,
        None => "base64:"@ + base64_encoding(bytes),
    }
}

/// The text that stands for bytes that are no text, from their encoding.
pub fn base64_marked(encoding: &str) -> (r: String)
    ensures
        r@ == "base64:"@ + encoding@,
{
    Draft::new("base64:").lit(encoding).text
}

/// The bytes as a text that can be handed out.
pub(crate) fn readable_text(bytes: &Vec<u8>) -> (r: String)
    ensures
        r@ == readable(bytes@),
{
    match text_from_utf8(bytes.as_slice()) {
        Some(s) => s,
        None => base64_marked(base64_encode(bytes.as_slice()).as_str()),
    }
}

/// The request of `gcs_get_object`, or what is answered where it cannot be made.
pub open spec fn gcs_get_object_call(opts: JsonView, env: EnvView) -> Result<
    RequestView,
    Seq<char>,
> {
    match need(opts, "bucket"@, "missing bucket"@) {
        Err(e) => Err(e),
        Ok(bucket) => match need(opts, "key"@, "missing key"@) {
            Err(e) => Err(e),
            Ok(key) => Ok(
                bare(
                    Method::Get,
                    "https://storage.googleapis.com/storage/v1/b/"@ + url_encoded(bucket)
                        + "/o/"@ + url_encoded(key) + "?alt=media"@,
                ),
            ),
        },
    }
}

/// Reads the object `key` of `bucket`.
pub fn gcs_get_object_request(opts: &Json, env: &Env) -> (r: Result<Request, Error>)
    ensures
        prepared(r) == gcs_get_object_call(opts@, env@),
{
    let bucket: &str = require(opts, "bucket", "missing bucket")?;
    let key: &str = require(opts, "key", "missing key")?;
    Ok(
        Request::new(
            Method::Get,
            Draft::new("https://storage.googleapis.com/storage/v1/b/").enc(bucket)
                .lit("/o/").enc(key).lit("?alt=media"),
        ),
    )
}

/// The result of `gcs_get_object`, where the service answers those bytes.
pub open spec fn gcs_get_object_result(opts: JsonView, env: EnvView, body: Seq<u8>) -> Result<
    JsonView,
    Seq<char>,
> {
    match need(opts, "bucket"@, "missing bucket"@) {
        Err(e) => Err(e),
        Ok(bucket) => match need(opts, "key"@, "missing key"@) {
            Err(e) => Err(e),
            Ok(key) => Ok(
                JsonView::Obj(
                    map![
                        "bucket"@ => JsonView::Str(bucket),
                        "key"@ => JsonView::Str(key),
                        "body"@ => JsonView::Str(readable(body)),
                    ],
                ),
            ),
        },
    }
}

/// The result of the operation, where the service answers those bytes.
pub fn op_gcs_get_object(opts: &Json, env: &Env, body: &Vec<u8>) -> (r: Result<Json, Error>)
    ensures
        outcome(r) == gcs_get_object_result(opts@, env@, body@),
{
    let bucket: &str = require(opts, "bucket", "missing bucket")?;
    let key: &str = require(opts, "key", "missing key")?;
    Ok(
        Json::Object(
            Members::new()
                .with("bucket", Json::text(bucket))
                .with("key", Json::text(key))
                .with("body", Json::String(readable_text(body))),
        ),
    )
}

/// The request of `gcs_put_object`, or what is answered where it cannot be made.
pub open spec fn gcs_put_object_call(opts: JsonView, env: EnvView) -> Result<
    RequestView,
    Seq<char>,
> {
    match need(opts, "bucket"@, "missing bucket"@) {
        Err(e) => Err(e),
        Ok(bucket) => match need(opts, "key"@, "missing key"@) {
            Err(e) => Err(e),
            Ok(key) => {
                let data = opts.str_or("body"@, ""@);
                {
                    let content_type = opts.str_or("content_type"@, "application/octet-stream"@);
                    Ok(
                        bare(
                            Method::Post,
                            "https://storage.googleapis.com/upload/storage/v1/b/"@
                                + url_encoded(bucket) + "/o?uploadType=media&name="@
                                + url_encoded(key),
                        ).header("Content-Type"@, content_type).bytes(encode_utf8(data)),
                    )
                }
            },
        },
    }
}

/// Writes the text `body` to the object `key` of `bucket`.
pub fn gcs_put_object_request(opts: &Json, env: &Env) -> (r: Result<Request, Error>)
    ensures
        prepared(r) == gcs_put_object_call(opts@, env@),
{
    let bucket: &str = require(opts, "bucket", "missing bucket")?;
    let key: &str = require(opts, "key", "missing key")?;
    let data: &str = opts.str_or("body", "");
    let content_type: &str = opts.str_or("content_type", "application/octet-stream");
    Ok(
        Request::new(
            Method::Post,
            Draft::new("https://storage.googleapis.com/upload/storage/v1/b/")
                .enc(bucket).lit("/o?uploadType=media&name=").enc(key),
        ).header("Content-Type", content_type).bytes(slice_to_vec(data.as_bytes())),
    )
}

/// The result of `gcs_put_object`, where the service answers `body`.
pub open spec fn gcs_put_object_result(opts: JsonView, env: EnvView, body: JsonView) -> Result<
    JsonView,
    Seq<char>,
> {
    match need(opts, "bucket"@, "missing bucket"@) {
        Err(e) => Err(e),
        Ok(bucket) => match need(opts, "key"@, "missing key"@) {
            Err(e) => Err(e),
            Ok(key) => Ok(
                JsonView::Obj(
                    map![
                        "bucket"@ => JsonView::Str(bucket),
                        "key"@ => JsonView::Str(key),
                        "generation"@ => body.at("generation"@),
                        "etag"@ => body.at("etag"@),
                    ],
                ),
            ),
        },
    }
}

/// The result of the operation, where the service answers `body`.
pub fn op_gcs_put_object(opts: &Json, env: &Env, body: &Json) -> (r: Result<Json, Error>)
    ensures
        outcome(r) == gcs_put_object_result(opts@, env@, body@),
{
    let bucket: &str = require(opts, "bucket", "missing bucket")?;
    let key: &str = require(opts, "key", "missing key")?;
    Ok(
        Json::Object(
            Members::new()
                .with("bucket", Json::text(bucket))
                .with("key", Json::text(key))
                .with("generation", body.at("generation"))
                .with("etag", body.at("etag")),
        ),
    )
}

/// The request of `gcs_delete_object`, or what is answered where it cannot be made.
pub open spec fn gcs_delete_object_call(opts: JsonView, env: EnvView) -> Result<
    RequestView,
    Seq<char>,
> {
    match need(opts, "bucket"@, "missing bucket"@) {
        Err(e) => Err(e),
        Ok(bucket) => match need(opts, "key"@, "missing key"@) {
            Err(e) => Err(e),
            Ok(key) => Ok(
                bare(
                    Method::Delete,
                    "https://storage.googleapis.com/storage/v1/b/"@ + url_encoded(bucket)
                        + "/o/"@ + url_encoded(key),
                ),
            ),
        },
    }
}

/// Deletes the object `key` of `bucket`.
pub fn gcs_delete_object_request(opts: &Json, env: &Env) -> (r: Result<Request, Error>)
    ensures
        prepared(r) == gcs_delete_object_call(opts@, env@),
{
    let bucket: &str = require(opts, "bucket", "missing bucket")?;
    let key: &str = require(opts, "key", "missing key")?;
    Ok(
        Request::new(
            Method::Delete,
            Draft::new("https://storage.googleapis.com/storage/v1/b/").enc(bucket)
                .lit("/o/").enc(key),
        ),
    )
}

/// The result of `gcs_delete_object`, where the service agrees.
pub open spec fn gcs_delete_object_result(opts: JsonView, env: EnvView) -> Result<
    JsonView,
    Seq<char>,
> {
    match need(opts, "bucket"@, "missing bucket"@) {
        Err(e) => Err(e),
        Ok(bucket) => match need(opts, "key"@, "missing key"@) {
            Err(e) => Err(e),
            Ok(key) => Ok(
                JsonView::Obj(
                    map![
                        "bucket"@ => JsonView::Str(bucket),
                        "key"@ => JsonView::Str(key),
                        "deleted"@ => JsonView::Bool(true),
                    ],
                ),
            ),
        },
    }
}

/// The result of the operation, where the service agrees.
pub fn op_gcs_delete_object(opts: &Json, env: &Env) -> (r: Result<Json, Error>)
    ensures
        outcome(r) == gcs_delete_object_result(opts@, env@),
{
    let bucket: &str = require(opts, "bucket", "missing bucket")?;
    let key: &str = require(opts, "key", "missing key")?;
    Ok(
        Json::Object(
            Members::new()
                .with("bucket", Json::text(bucket))
                .with("key", Json::text(key))
                .with("deleted", Json::Bool(true)),
        ),
    )
}

/// The request of `gcs_head_object`, or what is answered where it cannot be made.
pub open spec fn gcs_head_object_call(opts: JsonView, env: EnvView) -> Result<
    RequestView,
    Seq<char>,
> {
    match need(opts, "bucket"@, "missing bucket"@) {
        Err(e) => Err(e),
        Ok(bucket) => match need(opts, "key"@, "missing key"@) {
            Err(e) => Err(e),
            Ok(key) => Ok(
                bare(
                    Method::Get,
                    "https://storage.googleapis.com/storage/v1/b/"@ + url_encoded(bucket)
                        + "/o/"@ + url_encoded(key),
                ),
            ),
        },
    }
}

/// Asks for the metadata of the object `key` of `bucket`.
pub fn gcs_head_object_request(opts: &Json, env: &Env) -> (r: Result<Request, Error>)
    ensures
        prepared(r) == gcs_head_object_call(opts@, env@),
{
    let bucket: &str = require(opts, "bucket", "missing bucket")?;
    let key: &str = require(opts, "key", "missing key")?;
    Ok(
        Request::new(
            Method::Get,
            Draft::new("https://storage.googleapis.com/storage/v1/b/").enc(bucket)
                .lit("/o/").enc(key),
        ),
    )
}

/// The result of `gcs_head_object`, where the service answers `body`.
pub open spec fn gcs_head_object_result(opts: JsonView, env: EnvView, body: JsonView) -> Result<
    JsonView,
    Seq<char>,
> {
    match need(opts, "bucket"@, "missing bucket"@) {
        Err(e) => Err(e),
        Ok(bucket) => match need(opts, "key"@, "missing key"@) {
            Err(e) => Err(e),
            Ok(key) => Ok(
                JsonView::Obj(
                    map![
                        "bucket"@ => JsonView::Str(bucket),
                        "key"@ => JsonView::Str(key),
                        "size"@ => JsonView::Str(body.str_or("size"@, "0"@)),
                        "content_type"@ => JsonView::Str(body.str_or("contentType"@, ""@)),
                        "updated"@ => body.at("updated"@),
                        "generation"@ => body.at("generation"@),
                        "md5_hash"@ => body.at("md5Hash"@),
                        "etag"@ => body.at("etag"@),
                    ],
                ),
            ),
        },
    }
}

/// The result of the operation, where the service answers `body`.
pub fn op_gcs_head_object(opts: &Json, env: &Env, body: &Json) -> (r: Result<Json, Error>)
    ensures
        outcome(r) == gcs_head_object_result(opts@, env@, body@),
{
    let bucket: &str = require(opts, "bucket", "missing bucket")?;
    let key: &str = require(opts, "key", "missing key")?;
    Ok(
        Json::Object(
            Members::new()
                .with("bucket", Json::text(bucket))
                .with("key", Json::text(key))
                .with("size", Json::text(body.str_or("size", "0")))
                .with("content_type", Json::text(body.str_or("contentType", "")))
                .with("updated", body.at("updated"))
                .with("generation", body.at("generation"))
                .with("md5_hash", body.at("md5Hash"))
                .with("etag", body.at("etag")),
        ),
    )
}

/// The request of `gcs_copy_object`, or what is answered where it cannot be made.
pub open spec fn gcs_copy_object_call(opts: JsonView, env: EnvView) -> Result<
    RequestView,
    Seq<char>,
> {
    match need(opts, "src_bucket"@, "missing src_bucket"@) {
        Err(e) => Err(e),
        Ok(src_bucket) => match need(opts, "src_key"@, "missing src_key"@) {
            Err(e) => Err(e),
            Ok(src_key) => match need(opts, "dst_bucket"@, "missing dst_bucket"@) {
                Err(e) => Err(e),
                Ok(dst_bucket) => match need(opts, "dst_key"@, "missing dst_key"@) {
                    Err(e) => Err(e),
                    Ok(dst_key) => Ok(
                        bare(
                            Method::Post,
                            "https://storage.googleapis.com/storage/v1/b/"@
                                + url_encoded(src_bucket) + "/o/"@ + url_encoded(src_key)
                                + "/copyTo/b/"@ + url_encoded(dst_bucket) + "/o/"@
                                + url_encoded(dst_key),
                        ).header("Content-Length"@, "0"@),
                    ),
                },
            },
        },
    }
}

/// Copies the object `src_key` of `src_bucket` to `dst_key` of `dst_bucket`.
pub fn gcs_copy_object_request(opts: &Json, env: &Env) -> (r: Result<Request, Error>)
    ensures
        prepared(r) == gcs_copy_object_call(opts@, env@),
{
    let src_bucket: &str = require(opts, "src_bucket", "missing src_bucket")?;
    let src_key: &str = require(opts, "src_key", "missing src_key")?;
    let dst_bucket: &str = require(opts, "dst_bucket", "missing dst_bucket")?;
    let dst_key: &str = require(opts, "dst_key", "missing dst_key")?;
    Ok(
        Request::new(
            Method::Post,
            Draft::new("https://storage.googleapis.com/storage/v1/b/")
                .enc(src_bucket).lit("/o/").enc(src_key).lit("/copyTo/b/")
                .enc(dst_bucket).lit("/o/").enc(dst_key),
        ).header("Content-Length", "0"),
    )
}

/// The result of `gcs_copy_object`, where the service answers `body`.
pub open spec fn gcs_copy_object_result(opts: JsonView, env: EnvView, body: JsonView) -> Result<
    JsonView,
    Seq<char>,
> {
    match need(opts, "src_bucket"@, "missing src_bucket"@) {
        Err(e) => Err(e),
        Ok(src_bucket) => match need(opts, "src_key"@, "missing src_key"@) {
            Err(e) => Err(e),
            Ok(src_key) => match need(opts, "dst_bucket"@, "missing dst_bucket"@) {
                Err(e) => Err(e),
                Ok(dst_bucket) => match need(opts, "dst_key"@, "missing dst_key"@) {
                    Err(e) => Err(e),
                    Ok(dst_key) => Ok(
                        JsonView::Obj(
                            map![
                                "dst_bucket"@ => JsonView::Str(dst_bucket),
                                "dst_key"@ => JsonView::Str(dst_key),
                                "generation"@ => body.at("resource"@).at("generation"@),
                            ],
                        ),
                    ),
                },
            },
        },
    }
}

/// The result of the operation, where the service answers `body`.
pub fn op_gcs_copy_object(opts: &Json, env: &Env, body: &Json) -> (r: Result<Json, Error>)
    ensures
        outcome(r) == gcs_copy_object_result(opts@, env@, body@),
{
    require(opts, "src_bucket", "missing src_bucket")?;
    require(opts, "src_key", "missing src_key")?;
    let dst_bucket: &str = require(opts, "dst_bucket", "missing dst_bucket")?;
    let dst_key: &str = require(opts, "dst_key", "missing dst_key")?;
    Ok(
        Json::Object(
            Members::new()
                .with("dst_bucket", Json::text(dst_bucket))
                .with("dst_key", Json::text(dst_key))
                .with("generation", body.at("resource").at("generation")),
        ),
    )
}

/// A source of a composition, where it is named.
pub open spec fn source(o: JsonView) -> Option<JsonView> {
    match o.as_str() {
        Some(n) => Some(JsonView::Obj(map!["name"@ => JsonView::Str(n)])),
        None => None,
    }
}

fn source_json(o: &Json) -> (r: Option<Json>)
    ensures
        match r {
            Some(j) => source(o@) == Some(j@),
            None => source(o@) is None,
        },
{
    match o.as_str() {
        Some(n) => Some(Json::Object(Members::new().with("name", Json::text(n)))),
        None => None,
    }
}

/// The request of `gcs_compose`, or what is answered where it cannot be made.
pub open spec fn gcs_compose_call(opts: JsonView, env: EnvView) -> Result<RequestView, Seq<char>> {
    match need(opts, "bucket"@, "missing bucket"@) {
        Err(e) => Err(e),
        Ok(bucket) => match need(opts, "destination"@, "missing destination"@) {
            Err(e) => Err(e),
            Ok(destination) => match need_array(opts, "sources"@, "missing sources (array of object names)"@) {
                Err(e) => Err(e),
                Ok(sources) => Ok(
                    bare(
                        Method::Post,
                        "https://storage.googleapis.com/storage/v1/b/"@ + url_encoded(bucket)
                            + "/o/"@ + url_encoded(destination) + "/compose"@,
                    ).json(
                        JsonView::Obj(
                            map![
                                "sourceObjects"@ => JsonView::Arr(kept(sources, |o: JsonView| source(o))),
                            ],
                        ),
                    ),
                ),
            },
        },
    }
}

/// Concatenates the objects `sources` of `bucket` to the object `destination`.
pub fn gcs_compose_request(opts: &Json, env: &Env) -> (r: Result<Request, Error>)
    ensures
        prepared(r) == gcs_compose_call(opts@, env@),
{
    let bucket: &str = require(opts, "bucket", "missing bucket")?;
    let destination: &str = require(opts, "destination", "missing destination")?;
    let sources: &Vec<Json> = require_array(opts, "sources", "missing sources (array of object names)")?;
    Ok(
        Request::new(
            Method::Post,
            Draft::new("https://storage.googleapis.com/storage/v1/b/").enc(bucket)
                .lit("/o/").enc(destination).lit("/compose"),
        ).json(
            Json::Object(
                Members::new()
                    .with("sourceObjects", Json::array(keep(sources, source_json, Ghost(|o: JsonView| source(o))))),
            ),
        ),
    )
}

/// The result of `gcs_compose`, where the service answers `body`.
pub open spec fn gcs_compose_result(opts: JsonView, env: EnvView, body: JsonView) -> Result<
    JsonView,
    Seq<char>,
> {
    match need(opts, "bucket"@, "missing bucket"@) {
        Err(e) => Err(e),
        Ok(bucket) => match need(opts, "destination"@, "missing destination"@) {
            Err(e) => Err(e),
            Ok(destination) => match need_array(opts, "sources"@, "missing sources (array of object names)"@) {
                Err(e) => Err(e),
                Ok(sources) => Ok(
                    JsonView::Obj(
                        map![
                            "bucket"@ => JsonView::Str(bucket),
                            "object"@ => JsonView::Str(body.str_or("name"@, destination)),
                            "size"@ => body.at("size"@),
                        ],
                    ),
                ),
            },
        },
    }
}

/// The result of the operation, where the service answers `body`.
pub fn op_gcs_compose(opts: &Json, env: &Env, body: &Json) -> (r: Result<Json, Error>)
    ensures
        outcome(r) == gcs_compose_result(opts@, env@, body@),
{
    let bucket: &str = require(opts, "bucket", "missing bucket")?;
    let destination: &str = require(opts, "destination", "missing destination")?;
    require_array(opts, "sources", "missing sources (array of object names)")?;
    Ok(
        Json::Object(
            Members::new()
                .with("bucket", Json::text(bucket))
                .with("object", Json::text(body.str_or("name", destination)))
                .with("size", body.at("size")),
        ),
    )
}

/// The request of `gcs_get_iam_policy`, or what is answered where it cannot be made.
pub open spec fn gcs_get_iam_policy_call(opts: JsonView, env: EnvView) -> Result<
    RequestView,
    Seq<char>,
> {
    match need(opts, "bucket"@, "missing bucket"@) {
        Err(e) => Err(e),
        Ok(bucket) => Ok(
            bare(
                Method::Get,
                "https://storage.googleapis.com/storage/v1/b/"@ + url_encoded(bucket)
                    + "/iam"@,
            ),
        ),
    }
}

/// Asks for the IAM policy of `bucket`.
pub fn gcs_get_iam_policy_request(opts: &Json, env: &Env) -> (r: Result<Request, Error>)
    ensures
        prepared(r) == gcs_get_iam_policy_call(opts@, env@),
{
    let bucket: &str = require(opts, "bucket", "missing bucket")?;
    Ok(
        Request::new(
            Method::Get,
            Draft::new("https://storage.googleapis.com/storage/v1/b/").enc(bucket)
                .lit("/iam"),
        ),
    )
}

/// The result of `gcs_get_iam_policy`, where the service answers `body`.
pub open spec fn gcs_get_iam_policy_result(opts: JsonView, env: EnvView, body: JsonView) -> Result<
    JsonView,
    Seq<char>,
> {
    match need(opts, "bucket"@, "missing bucket"@) {
        Err(e) => Err(e),
        Ok(bucket) => Ok(
            JsonView::Obj(
                map![
                    "bucket"@ => JsonView::Str(bucket),
                    "policy"@ => body,
                ],
            ),
        ),
    }
}

/// The result of the operation, where the service answers `body`.
pub fn op_gcs_get_iam_policy(opts: &Json, env: &Env, body: &Json) -> (r: Result<Json, Error>)
    ensures
        outcome(r) == gcs_get_iam_policy_result(opts@, env@, body@),
{
    let bucket: &str = require(opts, "bucket", "missing bucket")?;
    Ok(
        Json::Object(
            Members::new()
                .with("bucket", Json::text(bucket))
                .with("policy", body.copy()),
        ),
    )
}

/// The request of `gcs_set_iam_policy`, or what is answered where it cannot be made.
pub open spec fn gcs_set_iam_policy_call(opts: JsonView, env: EnvView) -> Result<
    RequestView,
    Seq<char>,
> {
    match need(opts, "bucket"@, "missing bucket"@) {
        Err(e) => Err(e),
        Ok(bucket) => match need_object(opts, "policy"@, "missing policy (an object)"@) {
            Err(e) => Err(e),
            Ok(policy) => Ok(
                bare(
                    Method::Put,
                    "https://storage.googleapis.com/storage/v1/b/"@ + url_encoded(bucket)
                        + "/iam"@,
                ).json(
                    policy,
                ),
            ),
        },
    }
}

/// Sets the IAM policy of `bucket` to `policy`.
pub fn gcs_set_iam_policy_request(opts: &Json, env: &Env) -> (r: Result<Request, Error>)
    ensures
        prepared(r) == gcs_set_iam_policy_call(opts@, env@),
{
    let bucket: &str = require(opts, "bucket", "missing bucket")?;
    let policy: &Json = require_object(opts, "policy", "missing policy (an object)")?;
    Ok(
        Request::new(
            Method::Put,
            Draft::new("https://storage.googleapis.com/storage/v1/b/").enc(bucket)
                .lit("/iam"),
        ).json(
            policy.copy(),
        ),
    )
}

/// The result of `gcs_set_iam_policy`, where the service answers `body`.
pub open spec fn gcs_set_iam_policy_result(opts: JsonView, env: EnvView, body: JsonView) -> Result<
    JsonView,
    Seq<char>,
> {
    match need(opts, "bucket"@, "missing bucket"@) {
        Err(e) => Err(e),
        Ok(bucket) => match need_object(opts, "policy"@, "missing policy (an object)"@) {
            Err(e) => Err(e),
            Ok(policy) => Ok(
                JsonView::Obj(
                    map![
                        "bucket"@ => JsonView::Str(bucket),
                        "policy"@ => body,
                    ],
                ),
            ),
        },
    }
}

/// The result of the operation, where the service answers `body`.
pub fn op_gcs_set_iam_policy(opts: &Json, env: &Env, body: &Json) -> (r: Result<Json, Error>)
    ensures
        outcome(r) == gcs_set_iam_policy_result(opts@, env@, body@),
{
    let bucket: &str = require(opts, "bucket", "missing bucket")?;
    let policy: &Json = require_object(opts, "policy", "missing policy (an object)")?;
    Ok(
        Json::Object(
            Members::new()
                .with("bucket", Json::text(bucket))
                .with("policy", body.copy()),
        ),
    )
}

/// A text that was written to an object is read back as it was: the bytes that are sent for it are
/// handed out as the same text.
pub proof fn object_text_reads_back(opts: JsonView, env: EnvView, put: JsonView)
    requires
        gcs_put_object_call(put, env) is Ok,
        gcs_get_object_call(opts, env) is Ok,
    ensures
        gcs_put_object_call(put, env)->Ok_0.body matches BodyView::Bytes(sent)
            && gcs_get_object_result(opts, env, sent)->Ok_0.str_at("body"@) == Some(
            put.str_or("body"@, ""@),
        ),
{
    let text = put.str_or("body"@, ""@);
    encode_utf8_valid_utf8(text);
    encode_utf8_decode_utf8(text);
}

} // verus!
