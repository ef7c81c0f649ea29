//! Firestore: how the requests are read, and what the results hold.

use vstd::prelude::*;
use vstd::string::*;

use crate::bridge::{call_of, result_of, Op, ReplyView};
use crate::decimal::decimal;
use crate::firestore::{encoded, fields_decoded, fields_encoded, operator};
use crate::json::JsonView;
use crate::ops::documents::found_document;
use crate::options::{project_of, EnvView};
use crate::request::{BodyView, Method};
use crate::resource_name::leaf;
use crate::url::{asks_for, lemma_decimal_piece};
use super::{has_members, lemma_kept, refuses};
use super::urls::{
    lemma_firestore_collection, lemma_firestore_collection_document_id,
    lemma_firestore_collection_page_size, lemma_firestore_document, lemma_firestore_run_query,
};
use super::values::operators_are_named;

verus! {

/// The names of members differ.
proof fn lemma_names()
    ensures
        "collection"@.len() == 10,
        "collectionId"@.len() == 12,
        "data"@.len() == 4,
        "deleted"@.len() == 7,
        "document"@.len() == 8,
        "documents"@.len() == 9,
        "field"@.len() == 5,
        "fieldFilter"@.len() == 11,
        "fieldPath"@.len() == 9,
        "fields"@.len() == 6,
        "from"@.len() == 4,
        "id"@.len() == 2,
        "limit"@.len() == 5,
        "op"@.len() == 2,
        "project"@.len() == 7,
        "structuredQuery"@.len() == 15,
        "update_time"@.len() == 11,
        "value"@.len() == 5,
        "where"@.len() == 5,
        "field"@ != "limit"@,
        "field"@ != "value"@,
        "value"@ != "limit"@,
        "where"@ != "limit"@,
{
    reveal_strlit("collection");
    reveal_strlit("collectionId");
    reveal_strlit("data");
    reveal_strlit("deleted");
    reveal_strlit("document");
    reveal_strlit("documents");
    reveal_strlit("field");
    reveal_strlit("fieldFilter");
    reveal_strlit("fieldPath");
    reveal_strlit("fields");
    reveal_strlit("from");
    reveal_strlit("id");
    reveal_strlit("limit");
    reveal_strlit("op");
    reveal_strlit("project");
    reveal_strlit("structuredQuery");
    reveal_strlit("update_time");
    reveal_strlit("value");
    reveal_strlit("where");
    assert("field"@[0] != "limit"@[0]);
    assert("field"@[0] != "value"@[0]);
    assert("value"@[0] != "limit"@[0]);
    assert("where"@[0] != "limit"@[0]);
}

/// Reading a document asks for it in the collection.
pub proof fn firestore_get_asks(opts: JsonView, env: EnvView)
    ensures
        project_of(opts, env) is None ==> refuses(Op::FirestoreGet, opts, env, "missing project"@),
        project_of(opts, env) is Some && opts.str_at("collection"@) is None
            ==> refuses(Op::FirestoreGet, opts, env, "missing collection"@),
        project_of(opts, env) is Some && opts.str_at("collection"@) is Some
            && opts.str_at("document"@) is None
            ==> refuses(Op::FirestoreGet, opts, env, "missing document"@),
        project_of(opts, env) is Some && opts.str_at("collection"@) is Some
            && opts.str_at("document"@) is Some ==> ({
            let project = project_of(opts, env)->0;
            let collection = opts.str_at("collection"@)->0;
            let document = opts.str_at("document"@)->0;
            &&& call_of(Op::FirestoreGet, opts, env) is Ok
            &&& ({
                let sent = call_of(Op::FirestoreGet, opts, env)->Ok_0;
                &&& sent.method == Method::Get
                &&& asks_for(
                        sent.url,
                        "https://firestore.googleapis.com/v1/"@,
                        seq!["projects"@, project, "databases"@, "(default)"@, "documents"@,
                            collection, document],
                        None,
                        Seq::empty(),
                    )
                &&& sent.query == Seq::<(Seq<char>, Seq<char>)>::empty()
                &&& sent.headers == Seq::<(Seq<char>, Seq<char>)>::empty()
                &&& sent.body == BodyView::Empty
            })
        }),
{
    lemma_names();
    if project_of(opts, env) is Some && opts.str_at("collection"@) is Some
        && opts.str_at("document"@) is Some {
        let project = project_of(opts, env)->0;
        let collection = opts.str_at("collection"@)->0;
        let document = opts.str_at("document"@)->0;
        lemma_firestore_document(project, collection, document);
    }
}

/// The data are the decoded fields of the answer.
pub proof fn firestore_get_gives(opts: JsonView, env: EnvView, body: JsonView)
    requires
        call_of(Op::FirestoreGet, opts, env) is Ok,
    ensures
        result_of(Op::FirestoreGet, opts, env, ReplyView::Document(body)) is Ok,
        ({
            let collection = opts.str_at("collection"@)->0;
            let document = opts.str_at("document"@)->0;
            let given = result_of(Op::FirestoreGet, opts, env, ReplyView::Document(body))->Ok_0;
            &&& has_members(given, set!["collection"@, "document"@, "data"@, "update_time"@])
            &&& given.at("collection"@) == JsonView::Str(collection)
            &&& given.at("document"@) == JsonView::Str(document)
            &&& given.at("data"@) == fields_decoded(body.at("fields"@))
            &&& given.at("update_time"@) == body.at("updateTime"@)
        }),
{
    lemma_names();
}

/// Writing a document sends the encoded data to where it is read.
pub proof fn firestore_set_asks(opts: JsonView, env: EnvView)
    ensures
        project_of(opts, env) is None ==> refuses(Op::FirestoreSet, opts, env, "missing project"@),
        project_of(opts, env) is Some && opts.str_at("collection"@) is None
            ==> refuses(Op::FirestoreSet, opts, env, "missing collection"@),
        project_of(opts, env) is Some && opts.str_at("collection"@) is Some
            && opts.str_at("document"@) is None
            ==> refuses(Op::FirestoreSet, opts, env, "missing document"@),
        project_of(opts, env) is Some && opts.str_at("collection"@) is Some
            && opts.str_at("document"@) is Some && !(opts.at("data"@) is Obj)
            ==> refuses(Op::FirestoreSet, opts, env, "missing data (an object)"@),
        project_of(opts, env) is Some && opts.str_at("collection"@) is Some
            && opts.str_at("document"@) is Some && opts.at("data"@) is Obj ==> ({
            let project = project_of(opts, env)->0;
            let collection = opts.str_at("collection"@)->0;
            let document = opts.str_at("document"@)->0;
            let data = opts.at("data"@);
            &&& call_of(Op::FirestoreSet, opts, env) is Ok
            &&& ({
                let sent = call_of(Op::FirestoreSet, opts, env)->Ok_0;
                let content = sent.body->Json_0;
                &&& sent.method == Method::Patch
                &&& asks_for(
                        sent.url,
                        "https://firestore.googleapis.com/v1/"@,
                        seq!["projects"@, project, "databases"@, "(default)"@, "documents"@,
                            collection, document],
                        None,
                        Seq::empty(),
                    )
                &&& sent.query == Seq::<(Seq<char>, Seq<char>)>::empty()
                &&& sent.headers == Seq::<(Seq<char>, Seq<char>)>::empty()
                &&& sent.body is Json
                &&& has_members(content, set!["fields"@])
                &&& content.at("fields"@) == fields_encoded(data)
            })
        }),
{
    lemma_names();
    if project_of(opts, env) is Some && opts.str_at("collection"@) is Some
        && opts.str_at("document"@) is Some && opts.at("data"@) is Obj {
        let project = project_of(opts, env)->0;
        let collection = opts.str_at("collection"@)->0;
        let document = opts.str_at("document"@)->0;
        lemma_firestore_document(project, collection, document);
    }
}

/// The result names the document that was written.
pub proof fn firestore_set_gives(opts: JsonView, env: EnvView, body: JsonView)
    requires
        call_of(Op::FirestoreSet, opts, env) is Ok,
    ensures
        result_of(Op::FirestoreSet, opts, env, ReplyView::Document(body)) is Ok,
        ({
            let collection = opts.str_at("collection"@)->0;
            let document = opts.str_at("document"@)->0;
            let given = result_of(Op::FirestoreSet, opts, env, ReplyView::Document(body))->Ok_0;
            &&& has_members(given, set!["collection"@, "document"@, "update_time"@])
            &&& given.at("collection"@) == JsonView::Str(collection)
            &&& given.at("document"@) == JsonView::Str(document)
            &&& given.at("update_time"@) == body.at("updateTime"@)
        }),
{
    lemma_names();
}

/// Deleting a document asks for it where it is read.
pub proof fn firestore_delete_asks(opts: JsonView, env: EnvView)
    ensures
        project_of(opts, env) is None
            ==> refuses(Op::FirestoreDelete, opts, env, "missing project"@),
        project_of(opts, env) is Some && opts.str_at("collection"@) is None
            ==> refuses(Op::FirestoreDelete, opts, env, "missing collection"@),
        project_of(opts, env) is Some && opts.str_at("collection"@) is Some
            && opts.str_at("document"@) is None
            ==> refuses(Op::FirestoreDelete, opts, env, "missing document"@),
        project_of(opts, env) is Some && opts.str_at("collection"@) is Some
            && opts.str_at("document"@) is Some ==> ({
            let project = project_of(opts, env)->0;
            let collection = opts.str_at("collection"@)->0;
            let document = opts.str_at("document"@)->0;
            &&& call_of(Op::FirestoreDelete, opts, env) is Ok
            &&& ({
                let sent = call_of(Op::FirestoreDelete, opts, env)->Ok_0;
                &&& sent.method == Method::Delete
                &&& asks_for(
                        sent.url,
                        "https://firestore.googleapis.com/v1/"@,
                        seq!["projects"@, project, "databases"@, "(default)"@, "documents"@,
                            collection, document],
                        None,
                        Seq::empty(),
                    )
                &&& sent.query == Seq::<(Seq<char>, Seq<char>)>::empty()
                &&& sent.headers == Seq::<(Seq<char>, Seq<char>)>::empty()
                &&& sent.body == BodyView::Empty
            })
        }),
{
    lemma_names();
    if project_of(opts, env) is Some && opts.str_at("collection"@) is Some
        && opts.str_at("document"@) is Some {
        let project = project_of(opts, env)->0;
        let collection = opts.str_at("collection"@)->0;
        let document = opts.str_at("document"@)->0;
        lemma_firestore_document(project, collection, document);
    }
}

/// The result names the document that was deleted.
pub proof fn firestore_delete_gives(opts: JsonView, env: EnvView, reply: ReplyView)
    requires
        call_of(Op::FirestoreDelete, opts, env) is Ok,
    ensures
        result_of(Op::FirestoreDelete, opts, env, reply) is Ok,
        ({
            let collection = opts.str_at("collection"@)->0;
            let document = opts.str_at("document"@)->0;
            let given = result_of(Op::FirestoreDelete, opts, env, reply)->Ok_0;
            &&& has_members(given, set!["collection"@, "document"@, "deleted"@])
            &&& given.at("collection"@) == JsonView::Str(collection)
            &&& given.at("document"@) == JsonView::Str(document)
            &&& given.at("deleted"@) == JsonView::Bool(true)
        }),
{
    lemma_names();
}

/// Listing documents asks for those of the collection, for a hundred where no number is given.
pub proof fn firestore_list_asks(opts: JsonView, env: EnvView)
    ensures
        project_of(opts, env) is None ==> refuses(Op::FirestoreList, opts, env, "missing project"@),
        project_of(opts, env) is Some && opts.str_at("collection"@) is None
            ==> refuses(Op::FirestoreList, opts, env, "missing collection"@),
        project_of(opts, env) is Some && opts.str_at("collection"@) is Some ==> ({
            let project = project_of(opts, env)->0;
            let collection = opts.str_at("collection"@)->0;
            let size = match opts.at("page_size"@).as_u64() {
                Some(n) => decimal(n as nat),
                None => decimal(100),
            };
            &&& call_of(Op::FirestoreList, opts, env) is Ok
            &&& ({
                let sent = call_of(Op::FirestoreList, opts, env)->Ok_0;
                &&& sent.method == Method::Get
                &&& asks_for(
                        sent.url,
                        "https://firestore.googleapis.com/v1/"@,
                        seq!["projects"@, project, "databases"@, "(default)"@, "documents"@,
                            collection],
                        None,
                        seq![("pageSize"@, size)],
                    )
                &&& sent.query == Seq::<(Seq<char>, Seq<char>)>::empty()
                &&& sent.headers == Seq::<(Seq<char>, Seq<char>)>::empty()
                &&& sent.body == BodyView::Empty
            })
        }),
{
    lemma_names();
    if project_of(opts, env) is Some && opts.str_at("collection"@) is Some {
        let project = project_of(opts, env)->0;
        let collection = opts.str_at("collection"@)->0;
        let size = match opts.at("page_size"@).as_u64() {
                Some(n) => decimal(n as nat),
                None => decimal(100),
            };
        lemma_decimal_piece(100);
        if let Some(n) = opts.at("page_size"@).as_u64() {
            lemma_decimal_piece(n as nat);
        }
        lemma_firestore_collection_page_size(project, collection, size);
    }
}

/// Each document of the answer stands in its place.
pub proof fn firestore_list_gives(opts: JsonView, env: EnvView, body: JsonView)
    requires
        call_of(Op::FirestoreList, opts, env) is Ok,
    ensures
        result_of(Op::FirestoreList, opts, env, ReplyView::Document(body)) is Ok,
        ({
            let collection = opts.str_at("collection"@)->0;
            let given = result_of(Op::FirestoreList, opts, env, ReplyView::Document(body))->Ok_0;
            &&& has_members(given, set!["collection"@, "documents"@])
            &&& given.at("collection"@) == JsonView::Str(collection)
            &&& given.at("documents"@) is Arr
            &&& given.at("documents"@)->Arr_0.len() == body.list("documents"@).len()
            &&& forall|i: int| 0 <= i < body.list("documents"@).len() ==> {
                    let row = #[trigger] given.at("documents"@)->Arr_0[i];
                    let o = body.list("documents"@)[i];
                    &&& has_members(row, set!["id"@, "data"@])
                    &&& row.at("id"@) == JsonView::Str(leaf(o.str_or("name"@, ""@)))
                    &&& row.at("data"@) == fields_decoded(o.at("fields"@))
                }
        }),
{
    lemma_names();
}

/// A query asks for the documents of the collection, for those whose field compares to the value
/// where a field is named, and for as many as are given. Without an operator the comparison is
/// equality.
pub proof fn firestore_query_asks(opts: JsonView, env: EnvView)
    ensures
        project_of(opts, env) is None
            ==> refuses(Op::FirestoreQuery, opts, env, "missing project"@),
        project_of(opts, env) is Some && opts.str_at("collection"@) is None
            ==> refuses(Op::FirestoreQuery, opts, env, "missing collection"@),
        project_of(opts, env) is Some && opts.str_at("collection"@) is Some ==> ({
            let project = project_of(opts, env)->0;
            let collection = opts.str_at("collection"@)->0;
            &&& call_of(Op::FirestoreQuery, opts, env) is Ok
            &&& ({
                let sent = call_of(Op::FirestoreQuery, opts, env)->Ok_0;
                let content = sent.body->Json_0;
                let only = content.at("structuredQuery"@).at("from"@).as_array()->0[0];
                &&& sent.method == Method::Post
                &&& asks_for(
                        sent.url,
                        "https://firestore.googleapis.com/v1/"@,
                        seq!["projects"@, project, "databases"@, "(default)"@, "documents"@],
                        Some("runQuery"@),
                        Seq::empty(),
                    )
                &&& sent.query == Seq::<(Seq<char>, Seq<char>)>::empty()
                &&& sent.headers == Seq::<(Seq<char>, Seq<char>)>::empty()
                &&& sent.body is Json
                &&& has_members(content, set!["structuredQuery"@])
                &&& content.at("structuredQuery"@) is Obj
                &&& content.at("structuredQuery"@)->Obj_0.dom().subset_of(set!["from"@,
                    "where"@, "limit"@])
                &&& content.at("structuredQuery"@).at("from"@).as_array() is Some
                &&& content.at("structuredQuery"@).at("from"@).as_array()->0.len() == 1
                &&& has_members(only, set!["collectionId"@])
                &&& only.at("collectionId"@) == JsonView::Str(collection)
                &&& opts.at("field"@) is Str
                    ==> has_members(content.at("structuredQuery"@).at("where"@),
                    set!["fieldFilter"@])
                &&& opts.at("field"@) is Str
                    ==> has_members(content.at("structuredQuery"@).at("where"@).at(
                    "fieldFilter"@), set!["field"@, "op"@, "value"@])
                &&& opts.at("field"@) is Str
                    ==> has_members(content.at("structuredQuery"@).at("where"@).at(
                    "fieldFilter"@).at("field"@), set!["fieldPath"@])
                &&& opts.at("field"@) is Str
                    ==> content.at("structuredQuery"@).at("where"@).at("fieldFilter"@).at(
                    "field"@).at("fieldPath"@) == opts.at("field"@)
                &&& opts.at("field"@) is Str ==> (!(opts.at("op"@) is Str)
                    ==> content.at("structuredQuery"@).at("where"@).at("fieldFilter"@).at(
                    "op"@) == JsonView::Str("EQUAL"@))
                &&& opts.at("field"@) is Str ==> (opts.at("op"@) is Str
                    ==> content.at("structuredQuery"@).at("where"@).at("fieldFilter"@).at(
                    "op"@) == JsonView::Str(operator(opts.at("op"@)->Str_0)))
                &&& opts.at("field"@) is Str
                    ==> content.at("structuredQuery"@).at("where"@).at("fieldFilter"@).at(
                    "value"@) == encoded(opts.at("value"@))
                &&& !(opts.at("field"@) is Str)
                    ==> !content.at("structuredQuery"@)->Obj_0.dom().contains("where"@)
                &&& opts.at("limit"@).as_i64() is Some
                    ==> content.at("structuredQuery"@).at("limit"@)
                    == JsonView::Int(opts.at("limit"@).as_i64()->0)
                &&& !(opts.at("limit"@).as_i64() is Some)
                    ==> !content.at("structuredQuery"@)->Obj_0.dom().contains("limit"@)
            })
        }),
{
    lemma_names();
    if project_of(opts, env) is Some && opts.str_at("collection"@) is Some {
        let project = project_of(opts, env)->0;
        operators_are_named("EQUAL"@);
        lemma_firestore_run_query(project);
    }
}

/// The documents are those that entries of the answer carry, in their order.
pub proof fn firestore_query_gives(opts: JsonView, env: EnvView, body: JsonView)
    requires
        call_of(Op::FirestoreQuery, opts, env) is Ok,
    ensures
        result_of(Op::FirestoreQuery, opts, env, ReplyView::Document(body)) is Ok,
        ({
            let collection = opts.str_at("collection"@)->0;
            let given = result_of(Op::FirestoreQuery, opts, env, ReplyView::Document(body))->Ok_0;
            &&& has_members(given, set!["collection"@, "documents"@])
            &&& given.at("collection"@) == JsonView::Str(collection)
            &&& !(body is Arr) ==> given.at("documents"@) == JsonView::Arr(Seq::empty())
            &&& body is Arr ==> given.at("documents"@) == JsonView::Arr(
                    body->Arr_0.filter(|o: JsonView| o.get("document"@) is Some).map_values(
                        |o: JsonView|
                            JsonView::Obj(
                                map![
                                    "id"@ => JsonView::Str(leaf(o.at("document"@).str_or(
                                        "name"@, ""@))),
                                    "data"@ => fields_decoded(o.at("document"@).at("fields"@)),
                                ],
                            ),
                    ),
                )
        }),
{
    lemma_names();
    let given = result_of(Op::FirestoreQuery, opts, env, ReplyView::Document(body))->Ok_0;
    if body is Arr {
        lemma_kept(
            body->Arr_0,
            |e: JsonView| found_document(e),
            |o: JsonView| o.get("document"@) is Some,
            |o: JsonView|
                JsonView::Obj(
                    map![
                        "id"@ => JsonView::Str(leaf(o.at("document"@).str_or("name"@, ""@))),
                        "data"@ => fields_decoded(o.at("document"@).at("fields"@)),
                    ],
                ),
        );
    }
}

/// Creating a document sends the encoded data to the collection, with the id where one is given.
pub proof fn firestore_create_asks(opts: JsonView, env: EnvView)
    ensures
        project_of(opts, env) is None
            ==> refuses(Op::FirestoreCreate, opts, env, "missing project"@),
        project_of(opts, env) is Some && opts.str_at("collection"@) is None
            ==> refuses(Op::FirestoreCreate, opts, env, "missing collection"@),
        project_of(opts, env) is Some && opts.str_at("collection"@) is Some
            && !(opts.at("data"@) is Obj)
            ==> refuses(Op::FirestoreCreate, opts, env, "missing data (an object)"@),
        project_of(opts, env) is Some && opts.str_at("collection"@) is Some
            && opts.at("data"@) is Obj ==> ({
            let project = project_of(opts, env)->0;
            let collection = opts.str_at("collection"@)->0;
            let data = opts.at("data"@);
            let document = opts.str_at("document"@)->0;
            &&& call_of(Op::FirestoreCreate, opts, env) is Ok
            &&& ({
                let sent = call_of(Op::FirestoreCreate, opts, env)->Ok_0;
                let content = sent.body->Json_0;
                &&& sent.method == Method::Post
                &&& opts.str_at("document"@) is Some ==> asks_for(
                        sent.url,
                        "https://firestore.googleapis.com/v1/"@,
                        seq!["projects"@, project, "databases"@, "(default)"@, "documents"@,
                            collection],
                        None,
                        seq![("documentId"@, document)],
                    )
                &&& opts.str_at("document"@) is None ==> asks_for(
                        sent.url,
                        "https://firestore.googleapis.com/v1/"@,
                        seq!["projects"@, project, "databases"@, "(default)"@, "documents"@,
                            collection],
                        None,
                        Seq::empty(),
                    )
                &&& sent.query == Seq::<(Seq<char>, Seq<char>)>::empty()
                &&& sent.headers == Seq::<(Seq<char>, Seq<char>)>::empty()
                &&& sent.body is Json
                &&& has_members(content, set!["fields"@])
                &&& content.at("fields"@) == fields_encoded(data)
            })
        }),
{
    lemma_names();
    if project_of(opts, env) is Some && opts.str_at("collection"@) is Some
        && opts.at("data"@) is Obj {
        let project = project_of(opts, env)->0;
        let collection = opts.str_at("collection"@)->0;
        let document = opts.str_at("document"@)->0;
        if opts.str_at("document"@) is Some {
            lemma_firestore_collection_document_id(project, collection, document);
        }
        if opts.str_at("document"@) is None {
            lemma_firestore_collection(project, collection);
        }
    }
}

/// The id is the last part of the name in the answer.
pub proof fn firestore_create_gives(opts: JsonView, env: EnvView, body: JsonView)
    requires
        call_of(Op::FirestoreCreate, opts, env) is Ok,
    ensures
        result_of(Op::FirestoreCreate, opts, env, ReplyView::Document(body)) is Ok,
        ({
            let collection = opts.str_at("collection"@)->0;
            let given = result_of(Op::FirestoreCreate, opts, env, ReplyView::Document(body))->Ok_0;
            &&& has_members(given, set!["collection"@, "id"@])
            &&& given.at("collection"@) == JsonView::Str(collection)
            &&& given.at("id"@) == JsonView::Str(leaf(body.str_or("name"@, ""@)))
        }),
{
    lemma_names();
}

/// Where the service knows no such document, the result names it and has null for its data.
pub proof fn absent_documents_have_no_data(opts: JsonView, env: EnvView)
    requires
        call_of(Op::FirestoreGet, opts, env) is Ok,
    ensures
        ({
            let given = result_of(Op::FirestoreGet, opts, env, ReplyView::Absent);
            &&& given is Ok
            &&& has_members(given->Ok_0, set!["collection"@, "document"@, "data"@])
            &&& given->Ok_0.at("collection"@) == opts.at("collection"@)
            &&& given->Ok_0.at("document"@) == opts.at("document"@)
            &&& given->Ok_0.at("data"@) == JsonView::Null
        }),
{
    lemma_names();
}

/// A query without an operator is the same request as the one with the operator `==`.
pub proof fn comparison_is_equality_by_default(
    members: Map<Seq<char>, JsonView>,
    env: EnvView,
)
    requires
        !(JsonView::Obj(members).at("op"@) is Str),
    ensures
        call_of(Op::FirestoreQuery, JsonView::Obj(members), env) == call_of(
            Op::FirestoreQuery,
            JsonView::Obj(members.insert("op"@, JsonView::Str("=="@))),
            env,
        ),
{
    lemma_names();
    operators_are_named("EQUAL"@);
    operators_are_named("=="@);
    let given = JsonView::Obj(members.insert("op"@, JsonView::Str("=="@)));
    let opts = JsonView::Obj(members);
    assert(given.at("project"@) == opts.at("project"@));
    assert(given.at("collection"@) == opts.at("collection"@));
    assert(given.at("field"@) == opts.at("field"@));
    assert(given.at("value"@) == opts.at("value"@));
    assert(given.at("limit"@) == opts.at("limit"@));
    assert(given.at("op"@) == JsonView::Str("=="@));
}

/// A document is written and deleted where it is read.
pub proof fn a_document_has_one_place(opts: JsonView, env: EnvView)
    requires
        call_of(Op::FirestoreSet, opts, env) is Ok,
    ensures
        call_of(Op::FirestoreGet, opts, env) is Ok,
        call_of(Op::FirestoreDelete, opts, env) is Ok,
        call_of(Op::FirestoreGet, opts, env)->Ok_0.url == call_of(
            Op::FirestoreSet,
            opts,
            env,
        )->Ok_0.url,
        call_of(Op::FirestoreDelete, opts, env)->Ok_0.url == call_of(
            Op::FirestoreSet,
            opts,
            env,
        )->Ok_0.url,
{
}

} // verus!
