//! Firestore.

use vstd::prelude::*;
use vstd::string::*;

use crate::codec::url_encoded;
use crate::decimal::{decimal, decimal_text};
use crate::firestore::{
    base_url, decoding_fields_undoes_encoding, encoded, fields_decoded, fields_encoded,
    fs_base, fs_encode, fs_fields_decode, fs_fields_encode, fs_op, integers_fit, operator,
};
use crate::json::{
    int_value, items_view, keep, kept, opt_json, rows, with_some, Json, JsonView, Members,
};
use crate::options::{
    need, need_object, need_project, require, require_object, require_project, Env, EnvView,
};
use crate::request::{
    bare, outcome, prepared, BodyView, Draft, Error, Method, Request, RequestView,
};
use crate::resource_name::{leaf, leaf_name};
use super::single;

verus! {

/// The document id at the end of a document's name; empty where it has none.
pub open spec fn document_id(d: JsonView) -> Seq<char> {
    leaf(d.str_or("name"@, ""@))
}

/// A document in a listing.
pub open spec fn document_row(d: JsonView) -> JsonView {
    JsonView::Obj(
        map![
            "id"@ => JsonView::Str(document_id(d)),
            "data"@ => fields_decoded(d.at("fields"@)),
        ],
    )
}

fn document_row_json(d: &Json) -> (r: Json)
    ensures
        r@ == document_row(d@),
{
    Json::Object(
        Members::new()
            .with("id", Json::text(leaf_name(d.str_or("name", ""))))
            .with("data", fs_fields_decode(&d.at("fields"))),
    )
}

/// The request of `firestore_get`, or what is answered where it cannot be made.
pub open spec fn firestore_get_call(opts: JsonView, env: EnvView) -> Result<
    RequestView,
    Seq<char>,
> {
    match need_project(opts, env) {
        Err(e) => Err(e),
        Ok(project) => match need(opts, "collection"@, "missing collection"@) {
            Err(e) => Err(e),
            Ok(collection) => match need(opts, "document"@, "missing document"@) {
                Err(e) => Err(e),
                Ok(document) => Ok(
                    bare(
                        Method::Get,
                        base_url(project) + "/"@ + url_encoded(collection) + "/"@
                            + url_encoded(document),
                    ),
                ),
            },
        },
    }
}

/// Asks for `document` of `collection`.
pub fn firestore_get_request(opts: &Json, env: &Env) -> (r: Result<Request, Error>)
    ensures
        prepared(r) == firestore_get_call(opts@, env@),
{
    let project: String = require_project(opts, env)?;
    let collection: &str = require(opts, "collection", "missing collection")?;
    let document: &str = require(opts, "document", "missing document")?;
    Ok(
        Request::new(
            Method::Get,
            Draft::new(fs_base(project.as_str()).as_str()).lit("/").enc(collection)
                .lit("/").enc(document),
        ),
    )
}

/// The result of `firestore_get`, where the service answers `body`.
pub open spec fn firestore_get_result(opts: JsonView, env: EnvView, body: JsonView) -> Result<
    JsonView,
    Seq<char>,
> {
    match need_project(opts, env) {
        Err(e) => Err(e),
        Ok(project) => match need(opts, "collection"@, "missing collection"@) {
            Err(e) => Err(e),
            Ok(collection) => match need(opts, "document"@, "missing document"@) {
                Err(e) => Err(e),
                Ok(document) => Ok(
                    JsonView::Obj(
                        map![
                            "collection"@ => JsonView::Str(collection),
                            "document"@ => JsonView::Str(document),
                            "data"@ => fields_decoded(body.at("fields"@)),
                            "update_time"@ => body.at("updateTime"@),
                        ],
                    ),
                ),
            },
        },
    }
}

/// The result of the operation, where the service answers `body`.
pub fn op_firestore_get(opts: &Json, env: &Env, body: &Json) -> (r: Result<Json, Error>)
    ensures
        outcome(r) == firestore_get_result(opts@, env@, body@),
{
    require_project(opts, env)?;
    let collection: &str = require(opts, "collection", "missing collection")?;
    let document: &str = require(opts, "document", "missing document")?;
    Ok(
        Json::Object(
            Members::new()
                .with("collection", Json::text(collection))
                .with("document", Json::text(document))
                .with("data", fs_fields_decode(&body.at("fields")))
                .with("update_time", body.at("updateTime")),
        ),
    )
}

/// The result of `firestore_get`, where the service knows no such document.
pub open spec fn firestore_get_absent_result(opts: JsonView, env: EnvView) -> Result<
    JsonView,
    Seq<char>,
> {
    match need_project(opts, env) {
        Err(e) => Err(e),
        Ok(project) => match need(opts, "collection"@, "missing collection"@) {
            Err(e) => Err(e),
            Ok(collection) => match need(opts, "document"@, "missing document"@) {
                Err(e) => Err(e),
                Ok(document) => Ok(
                    JsonView::Obj(
                        map![
                            "collection"@ => JsonView::Str(collection),
                            "document"@ => JsonView::Str(document),
                            "data"@ => JsonView::Null,
                        ],
                    ),
                ),
            },
        },
    }
}

/// The result of `firestore_get`, where the service knows no such document.
pub fn op_firestore_get_absent(opts: &Json, env: &Env) -> (r: Result<Json, Error>)
    ensures
        outcome(r) == firestore_get_absent_result(opts@, env@),
{
    require_project(opts, env)?;
    let collection: &str = require(opts, "collection", "missing collection")?;
    let document: &str = require(opts, "document", "missing document")?;
    Ok(
        Json::Object(
            Members::new()
                .with("collection", Json::text(collection))
                .with("document", Json::text(document))
                .with("data", Json::Null),
        ),
    )
}

/// The request of `firestore_set`, or what is answered where it cannot be made.
pub open spec fn firestore_set_call(opts: JsonView, env: EnvView) -> Result<
    RequestView,
    Seq<char>,
> {
    match need_project(opts, env) {
        Err(e) => Err(e),
        Ok(project) => match need(opts, "collection"@, "missing collection"@) {
            Err(e) => Err(e),
            Ok(collection) => match need(opts, "document"@, "missing document"@) {
                Err(e) => Err(e),
                Ok(document) => match need_object(opts, "data"@, "missing data (an object)"@) {
                    Err(e) => Err(e),
                    Ok(data) => Ok(
                        bare(
                            Method::Patch,
                            base_url(project) + "/"@ + url_encoded(collection) + "/"@
                                + url_encoded(document),
                        ).json(
                            JsonView::Obj(
                                map![
                                    "fields"@ => fields_encoded(data),
                                ],
                            ),
                        ),
                    ),
                },
            },
        },
    }
}

/// Writes `data` to `document` of `collection`, in place of what it holds.
pub fn firestore_set_request(opts: &Json, env: &Env) -> (r: Result<Request, Error>)
    ensures
        prepared(r) == firestore_set_call(opts@, env@),
{
    let project: String = require_project(opts, env)?;
    let collection: &str = require(opts, "collection", "missing collection")?;
    let document: &str = require(opts, "document", "missing document")?;
    let data: &Json = require_object(opts, "data", "missing data (an object)")?;
    Ok(
        Request::new(
            Method::Patch,
            Draft::new(fs_base(project.as_str()).as_str()).lit("/").enc(collection)
                .lit("/").enc(document),
        ).json(
            Json::Object(
                Members::new()
                    .with("fields", fs_fields_encode(data)),
            ),
        ),
    )
}

/// The result of `firestore_set`, where the service answers `body`.
pub open spec fn firestore_set_result(opts: JsonView, env: EnvView, body: JsonView) -> Result<
    JsonView,
    Seq<char>,
> {
    match need_project(opts, env) {
        Err(e) => Err(e),
        Ok(project) => match need(opts, "collection"@, "missing collection"@) {
            Err(e) => Err(e),
            Ok(collection) => match need(opts, "document"@, "missing document"@) {
                Err(e) => Err(e),
                Ok(document) => match need_object(opts, "data"@, "missing data (an object)"@) {
                    Err(e) => Err(e),
                    Ok(data) => Ok(
                        JsonView::Obj(
                            map![
                                "collection"@ => JsonView::Str(collection),
                                "document"@ => JsonView::Str(document),
                                "update_time"@ => body.at("updateTime"@),
                            ],
                        ),
                    ),
                },
            },
        },
    }
}

/// The result of the operation, where the service answers `body`.
pub fn op_firestore_set(opts: &Json, env: &Env, body: &Json) -> (r: Result<Json, Error>)
    ensures
        outcome(r) == firestore_set_result(opts@, env@, body@),
{
    require_project(opts, env)?;
    let collection: &str = require(opts, "collection", "missing collection")?;
    let document: &str = require(opts, "document", "missing document")?;
    require_object(opts, "data", "missing data (an object)")?;
    Ok(
        Json::Object(
            Members::new()
                .with("collection", Json::text(collection))
                .with("document", Json::text(document))
                .with("update_time", body.at("updateTime")),
        ),
    )
}

/// The request of `firestore_delete`, or what is answered where it cannot be made.
pub open spec fn firestore_delete_call(opts: JsonView, env: EnvView) -> Result<
    RequestView,
    Seq<char>,
> {
    match need_project(opts, env) {
        Err(e) => Err(e),
        Ok(project) => match need(opts, "collection"@, "missing collection"@) {
            Err(e) => Err(e),
            Ok(collection) => match need(opts, "document"@, "missing document"@) {
                Err(e) => Err(e),
                Ok(document) => Ok(
                    bare(
                        Method::Delete,
                        base_url(project) + "/"@ + url_encoded(collection) + "/"@
                            + url_encoded(document),
                    ),
                ),
            },
        },
    }
}

/// Deletes `document` of `collection`.
pub fn firestore_delete_request(opts: &Json, env: &Env) -> (r: Result<Request, Error>)
    ensures
        prepared(r) == firestore_delete_call(opts@, env@),
{
    let project: String = require_project(opts, env)?;
    let collection: &str = require(opts, "collection", "missing collection")?;
    let document: &str = require(opts, "document", "missing document")?;
    Ok(
        Request::new(
            Method::Delete,
            Draft::new(fs_base(project.as_str()).as_str()).lit("/").enc(collection)
                .lit("/").enc(document),
        ),
    )
}

/// The result of `firestore_delete`, where the service agrees.
pub open spec fn firestore_delete_result(opts: JsonView, env: EnvView) -> Result<
    JsonView,
    Seq<char>,
> {
    match need_project(opts, env) {
        Err(e) => Err(e),
        Ok(project) => match need(opts, "collection"@, "missing collection"@) {
            Err(e) => Err(e),
            Ok(collection) => match need(opts, "document"@, "missing document"@) {
                Err(e) => Err(e),
                Ok(document) => Ok(
                    JsonView::Obj(
                        map![
                            "collection"@ => JsonView::Str(collection),
                            "document"@ => JsonView::Str(document),
                            "deleted"@ => JsonView::Bool(true),
                        ],
                    ),
                ),
            },
        },
    }
}

/// The result of the operation, where the service agrees.
pub fn op_firestore_delete(opts: &Json, env: &Env) -> (r: Result<Json, Error>)
    ensures
        outcome(r) == firestore_delete_result(opts@, env@),
{
    require_project(opts, env)?;
    let collection: &str = require(opts, "collection", "missing collection")?;
    let document: &str = require(opts, "document", "missing document")?;
    Ok(
        Json::Object(
            Members::new()
                .with("collection", Json::text(collection))
                .with("document", Json::text(document))
                .with("deleted", Json::Bool(true)),
        ),
    )
}

/// The number of documents that a listing asks for: the option `page_size`, a hundred where it is
/// no natural number.
pub open spec fn page_size(opts: JsonView) -> nat {
    match opts.at("page_size"@).as_u64() {
        Some(n) => n as nat,
        None => 100,
    }
}

fn page_size_u64(opts: &Json) -> (r: u64)
    ensures
        r == page_size(opts@),
{
    match opts.u64_at("page_size") {
        Some(n) => n,
        None => 100,
    }
}

/// The request of `firestore_list`, or what is answered where it cannot be made.
pub open spec fn firestore_list_call(opts: JsonView, env: EnvView) -> Result<
    RequestView,
    Seq<char>,
> {
    match need_project(opts, env) {
        Err(e) => Err(e),
        Ok(project) => match need(opts, "collection"@, "missing collection"@) {
            Err(e) => Err(e),
            Ok(collection) => Ok(
                bare(
                    Method::Get,
                    base_url(project) + "/"@ + url_encoded(collection) + "?pageSize="@
                        + decimal(page_size(opts)),
                ),
            ),
        },
    }
}

/// Lists documents of `collection`.
pub fn firestore_list_request(opts: &Json, env: &Env) -> (r: Result<Request, Error>)
    ensures
        prepared(r) == firestore_list_call(opts@, env@),
{
    let project: String = require_project(opts, env)?;
    let collection: &str = require(opts, "collection", "missing collection")?;
    Ok(
        Request::new(
            Method::Get,
            Draft::new(fs_base(project.as_str()).as_str()).lit("/").enc(collection)
                .lit("?pageSize=").lit(decimal_text(page_size_u64(opts)).as_str()),
        ),
    )
}

/// The result of `firestore_list`, where the service answers `body`.
pub open spec fn firestore_list_result(opts: JsonView, env: EnvView, body: JsonView) -> Result<
    JsonView,
    Seq<char>,
> {
    match need_project(opts, env) {
        Err(e) => Err(e),
        Ok(project) => match need(opts, "collection"@, "missing collection"@) {
            Err(e) => Err(e),
            Ok(collection) => Ok(
                JsonView::Obj(
                    map![
                        "collection"@ => JsonView::Str(collection),
                        "documents"@ => JsonView::Arr(body.list("documents"@).map_values(|o: JsonView| document_row(o))),
                    ],
                ),
            ),
        },
    }
}

/// The result of the operation, where the service answers `body`.
pub fn op_firestore_list(opts: &Json, env: &Env, body: &Json) -> (r: Result<Json, Error>)
    ensures
        outcome(r) == firestore_list_result(opts@, env@, body@),
{
    require_project(opts, env)?;
    let collection: &str = require(opts, "collection", "missing collection")?;
    Ok(
        Json::Object(
            Members::new()
                .with("collection", Json::text(collection))
                .with("documents", rows(body, "documents", document_row_json, Ghost(|o: JsonView| document_row(o)))),
        ),
    )
}

/// The filter of a query, where the option `field` names a field: its value is compared to the
/// option `value` by the operator `op`, equality where none is given.
pub open spec fn filter(opts: JsonView) -> Option<JsonView> {
    match opts.str_at("field"@) {
        None => None,
        Some(field) => Some(
            JsonView::Obj(
                map![
                    "fieldFilter"@ => JsonView::Obj(
                        map![
                            "field"@ => JsonView::Obj(map!["fieldPath"@ => JsonView::Str(field)]),
                            "op"@ => JsonView::Str(operator(opts.str_or("op"@, "EQUAL"@))),
                            "value"@ => encoded(opts.at("value"@)),
                        ],
                    ),
                ],
            ),
        ),
    }
}

fn filter_json(opts: &Json) -> (r: Option<Json>)
    ensures
        opt_json(r) == filter(opts@),
{
    match opts.str_at("field") {
        None => None,
        Some(field) => {
            let compared: Json = Json::Object(
                Members::new()
                    .with(
                        "field",
                        Json::Object(Members::new().with("fieldPath", Json::text(field))),
                    )
                    .with("op", Json::text(fs_op(opts.str_or("op", "EQUAL"))))
                    .with("value", fs_encode(&opts.at("value"))),
            );
            Some(Json::Object(Members::new().with("fieldFilter", compared)))
        },
    }
}

/// The query on a collection.
pub open spec fn structured_query(opts: JsonView, collection: Seq<char>) -> JsonView {
    let from = map![
        "from"@ => JsonView::Arr(
            seq![JsonView::Obj(map!["collectionId"@ => JsonView::Str(collection)])],
        ),
    ];
    JsonView::Obj(
        with_some(
            with_some(from, "where"@, filter(opts)),
            "limit"@,
            int_value(opts.at("limit"@).as_i64()),
        ),
    )
}

fn structured_query_json(opts: &Json, collection: &str) -> (r: Json)
    ensures
        r@ == structured_query(opts@, collection@),
{
    let limit: Option<Json> = match opts.i64_at("limit") {
        Some(n) => Some(Json::integer(n)),
        None => None,
    };
    Json::Object(
        Members::new()
            .with(
                "from",
                single(
                    Json::Object(Members::new().with("collectionId", Json::text(collection))),
                ),
            )
            .with_some("where", filter_json(opts))
            .with_some("limit", limit),
    )
}

/// The document that an entry of the answer to a query carries, where it carries one.
pub open spec fn found_document(e: JsonView) -> Option<JsonView> {
    match e.get("document"@) {
        Some(d) => Some(document_row(d)),
        None => None,
    }
}

fn found_document_json(e: &Json) -> (r: Option<Json>)
    ensures
        match r {
            Some(j) => found_document(e@) == Some(j@),
            None => found_document(e@) is None,
        },
{
    match e.get("document") {
        Some(d) => Some(document_row_json(d)),
        None => None,
    }
}

/// The documents in the answer to a query; none where it is no array.
pub open spec fn found_documents(body: JsonView) -> Seq<JsonView> {
    match body.as_array() {
        Some(a) => kept(a, |e: JsonView| found_document(e)),
        None => Seq::empty(),
    }
}

fn found_documents_json(body: &Json) -> (r: Json)
    ensures
        r@ == JsonView::Arr(found_documents(body@)),
{
    match body.as_array() {
        Some(a) => Json::array(
            keep(a, found_document_json, Ghost(|e: JsonView| found_document(e))),
        ),
        None => {
            let none: Vec<Json> = Vec::new();
            assert(items_view(none@) =~= Seq::empty());
            Json::array(none)
        },
    }
}

/// The request of `firestore_query`, or what is answered where it cannot be made.
pub open spec fn firestore_query_call(opts: JsonView, env: EnvView) -> Result<
    RequestView,
    Seq<char>,
> {
    match need_project(opts, env) {
        Err(e) => Err(e),
        Ok(project) => match need(opts, "collection"@, "missing collection"@) {
            Err(e) => Err(e),
            Ok(collection) => Ok(
                bare(
                    Method::Post,
                    base_url(project) + ":runQuery"@,
                ).json(
                    JsonView::Obj(
                        map![
                            "structuredQuery"@ => structured_query(opts, collection),
                        ],
                    ),
                ),
            ),
        },
    }
}

/// Asks for the documents of `collection` that match the filter, at most `limit` of them.
pub fn firestore_query_request(opts: &Json, env: &Env) -> (r: Result<Request, Error>)
    ensures
        prepared(r) == firestore_query_call(opts@, env@),
{
    let project: String = require_project(opts, env)?;
    let collection: &str = require(opts, "collection", "missing collection")?;
    Ok(
        Request::new(
            Method::Post,
            Draft::new(fs_base(project.as_str()).as_str()).lit(":runQuery"),
        ).json(
            Json::Object(
                Members::new()
                    .with("structuredQuery", structured_query_json(opts, collection)),
            ),
        ),
    )
}

/// The result of `firestore_query`, where the service answers `body`.
pub open spec fn firestore_query_result(opts: JsonView, env: EnvView, body: JsonView) -> Result<
    JsonView,
    Seq<char>,
> {
    match need_project(opts, env) {
        Err(e) => Err(e),
        Ok(project) => match need(opts, "collection"@, "missing collection"@) {
            Err(e) => Err(e),
            Ok(collection) => Ok(
                JsonView::Obj(
                    map![
                        "collection"@ => JsonView::Str(collection),
                        "documents"@ => JsonView::Arr(found_documents(body)),
                    ],
                ),
            ),
        },
    }
}

/// The result of the operation, where the service answers `body`.
pub fn op_firestore_query(opts: &Json, env: &Env, body: &Json) -> (r: Result<Json, Error>)
    ensures
        outcome(r) == firestore_query_result(opts@, env@, body@),
{
    require_project(opts, env)?;
    let collection: &str = require(opts, "collection", "missing collection")?;
    Ok(
        Json::Object(
            Members::new()
                .with("collection", Json::text(collection))
                .with("documents", found_documents_json(body)),
        ),
    )
}

/// Where a new document is sent: the collection, with the document's id where one is given.
pub open spec fn create_url(project: Seq<char>, collection: Seq<char>, id: Option<Seq<char>>) -> Seq<
    char,
> {
    let place = base_url(project) + "/"@ + url_encoded(collection);
    match id {
        Some(d) => place + "?documentId="@ + url_encoded(d),
        None => place,
    }
}

/// The request of `firestore_create`, or what is answered where it cannot be made.
pub open spec fn firestore_create_call(opts: JsonView, env: EnvView) -> Result<
    RequestView,
    Seq<char>,
> {
    match need_project(opts, env) {
        Err(e) => Err(e),
        Ok(project) => match need(opts, "collection"@, "missing collection"@) {
            Err(e) => Err(e),
            Ok(collection) => match need_object(opts, "data"@, "missing data (an object)"@) {
                Err(e) => Err(e),
                Ok(data) => Ok(
                    bare(
                        Method::Post,
                        create_url(project, collection, opts.str_at("document"@)),
                    ).json(
                        JsonView::Obj(
                            map![
                                "fields"@ => fields_encoded(data),
                            ],
                        ),
                    ),
                ),
            },
        },
    }
}

/// Creates a document with `data` in `collection`, under the id `document` where it is given.
pub fn firestore_create_request(opts: &Json, env: &Env) -> (r: Result<Request, Error>)
    ensures
        prepared(r) == firestore_create_call(opts@, env@),
{
    let project: String = require_project(opts, env)?;
    let collection: &str = require(opts, "collection", "missing collection")?;
    let data: &Json = require_object(opts, "data", "missing data (an object)")?;
    let place: Draft = Draft::new(fs_base(project.as_str()).as_str()).lit("/").enc(collection);
    let url: Draft = match opts.str_at("document") {
        Some(id) => place.lit("?documentId=").enc(id),
        None => place,
    };
    Ok(
        Request::new(
            Method::Post,
            url,
        ).json(
            Json::Object(
                Members::new()
                    .with("fields", fs_fields_encode(data)),
            ),
        ),
    )
}

/// The result of `firestore_create`, where the service answers `body`.
pub open spec fn firestore_create_result(opts: JsonView, env: EnvView, body: JsonView) -> Result<
    JsonView,
    Seq<char>,
> {
    match need_project(opts, env) {
        Err(e) => Err(e),
        Ok(project) => match need(opts, "collection"@, "missing collection"@) {
            Err(e) => Err(e),
            Ok(collection) => match need_object(opts, "data"@, "missing data (an object)"@) {
                Err(e) => Err(e),
                Ok(data) => Ok(
                    JsonView::Obj(
                        map![
                            "collection"@ => JsonView::Str(collection),
                            "id"@ => JsonView::Str(document_id(body)),
                        ],
                    ),
                ),
            },
        },
    }
}

/// The result of the operation, where the service answers `body`.
pub fn op_firestore_create(opts: &Json, env: &Env, body: &Json) -> (r: Result<Json, Error>)
    ensures
        outcome(r) == firestore_create_result(opts@, env@, body@),
{
    require_project(opts, env)?;
    let collection: &str = require(opts, "collection", "missing collection")?;
    require_object(opts, "data", "missing data (an object)")?;
    Ok(
        Json::Object(
            Members::new()
                .with("collection", Json::text(collection))
                .with("id", Json::text(leaf_name(body.str_or("name", "")))),
        ),
    )
}

/// Data that was written to a document is read back as it was, where its integers fit `i64`: the
/// fields that are sent for it decode to it.
pub proof fn document_data_reads_back(set: JsonView, get: JsonView, env: EnvView, body: JsonView)
    requires
        firestore_set_call(set, env) is Ok,
        firestore_get_call(get, env) is Ok,
        integers_fit(set.at("data"@)),
        firestore_set_call(set, env)->Ok_0.body matches BodyView::Json(sent)
            && body.at("fields"@) == sent.at("fields"@),
    ensures
        firestore_get_result(get, env, body)->Ok_0.at("data"@) == set.at("data"@),
{
    let m = set.at("data"@)->Obj_0;
    assert(JsonView::Obj(m) == set.at("data"@));
    decoding_fields_undoes_encoding(m);
    reveal_strlit("data");
    reveal_strlit("update_time");
    assert("data"@.len() == 4 && "update_time"@.len() == 11);
}

} // verus!
