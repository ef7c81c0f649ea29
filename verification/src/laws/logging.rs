//! Cloud Logging: how the requests are read, and what the results hold.

use vstd::prelude::*;
use vstd::string::*;

use crate::bridge::{call_of, result_of, Op, ReplyView};
use crate::codec::url_encoded;
use crate::json::JsonView;
use crate::ops::leaf_item;
use crate::options::{project_of, EnvView};
use crate::request::{BodyView, Method};
use crate::resource_name::leaf;
use crate::url::asks_for;
use super::{has_members, lemma_kept, refuses};
use super::urls::{lemma_logging_entries_list, lemma_logging_entries_write, lemma_logging_logs};

verus! {

/// The names of members differ.
proof fn lemma_names()
    ensures
        "entries"@.len() == 7,
        "filter"@.len() == 6,
        "jsonPayload"@.len() == 11,
        "json_payload"@.len() == 12,
        "log"@.len() == 3,
        "logName"@.len() == 7,
        "log_name"@.len() == 8,
        "logs"@.len() == 4,
        "orderBy"@.len() == 7,
        "pageSize"@.len() == 8,
        "project"@.len() == 7,
        "resource"@.len() == 8,
        "resourceNames"@.len() == 13,
        "severity"@.len() == 8,
        "textPayload"@.len() == 11,
        "text_payload"@.len() == 12,
        "timestamp"@.len() == 9,
        "type"@.len() == 4,
        "written"@.len() == 7,
        "jsonPayload"@ != "textPayload"@,
        "project"@ != "entries"@,
        "resource"@ != "severity"@,
        "severity"@ != "log_name"@,
        "text_payload"@ != "json_payload"@,
{
    reveal_strlit("entries");
    reveal_strlit("filter");
    reveal_strlit("jsonPayload");
    reveal_strlit("json_payload");
    reveal_strlit("log");
    reveal_strlit("logName");
    reveal_strlit("log_name");
    reveal_strlit("logs");
    reveal_strlit("orderBy");
    reveal_strlit("pageSize");
    reveal_strlit("project");
    reveal_strlit("resource");
    reveal_strlit("resourceNames");
    reveal_strlit("severity");
    reveal_strlit("textPayload");
    reveal_strlit("text_payload");
    reveal_strlit("timestamp");
    reveal_strlit("type");
    reveal_strlit("written");
    assert("jsonPayload"@[0] != "textPayload"@[0]);
    assert("project"@[0] != "entries"@[0]);
    assert("resource"@[0] != "severity"@[0]);
    assert("severity"@[0] != "log_name"@[0]);
    assert("text_payload"@[0] != "json_payload"@[0]);
}

/// Listing entries asks for those of the project that match the filter, the newest first unless the
/// order is `asc`.
pub proof fn logging_list_entries_asks(opts: JsonView, env: EnvView)
    ensures
        project_of(opts, env) is None
            ==> refuses(Op::LoggingListEntries, opts, env, "missing project"@),
        project_of(opts, env) is Some ==> ({
            let project = project_of(opts, env)->0;
            &&& call_of(Op::LoggingListEntries, opts, env) is Ok
            &&& ({
                let sent = call_of(Op::LoggingListEntries, opts, env)->Ok_0;
                let content = sent.body->Json_0;
                let only = content.at("resourceNames"@).as_array()->0[0];
                &&& sent.method == Method::Post
                &&& asks_for(
                        sent.url,
                        "https://logging.googleapis.com/v2/"@,
                        seq!["entries"@],
                        Some("list"@),
                        Seq::empty(),
                    )
                &&& sent.query == Seq::<(Seq<char>, Seq<char>)>::empty()
                &&& sent.headers == Seq::<(Seq<char>, Seq<char>)>::empty()
                &&& sent.body is Json
                &&& content is Obj
                &&& content->Obj_0.dom().subset_of(set!["resourceNames"@, "pageSize"@,
                    "orderBy"@, "filter"@])
                &&& content.at("resourceNames"@).as_array() is Some
                &&& content.at("resourceNames"@).as_array()->0.len() == 1
                &&& only == JsonView::Str("projects/"@ + project)
                &&& opts.at("page_size"@).as_u64() is Some
                    ==> content.at("pageSize"@) == JsonView::Int(opts.at("page_size"@).as_u64()->0)
                &&& opts.at("page_size"@).as_u64() is None
                    ==> content.at("pageSize"@) == JsonView::Int(50)
                &&& opts.at("order"@) == JsonView::Str("asc"@)
                    ==> content.at("orderBy"@) == JsonView::Str("timestamp asc"@)
                &&& opts.at("order"@) != JsonView::Str("asc"@)
                    ==> content.at("orderBy"@) == JsonView::Str("timestamp desc"@)
                &&& opts.at("filter"@) is Str ==> content.at("filter"@) == opts.at("filter"@)
                &&& !(opts.at("filter"@) is Str) ==> !content->Obj_0.dom().contains("filter"@)
            })
        }),
{
    lemma_names();
    if project_of(opts, env) is Some {
        lemma_logging_entries_list();
    }
}

/// Each item of the answer stands in its place.
pub proof fn logging_list_entries_gives(opts: JsonView, env: EnvView, body: JsonView)
    requires
        call_of(Op::LoggingListEntries, opts, env) is Ok,
    ensures
        result_of(Op::LoggingListEntries, opts, env, ReplyView::Document(body)) is Ok,
        ({
            let project = project_of(opts, env)->0;
            let given = result_of(Op::LoggingListEntries, opts, env,
                ReplyView::Document(body))->Ok_0;
            &&& has_members(given, set!["project"@, "entries"@])
            &&& given.at("project"@) == JsonView::Str(project)
            &&& given.at("entries"@) is Arr
            &&& given.at("entries"@)->Arr_0.len() == body.list("entries"@).len()
            &&& forall|i: int| 0 <= i < body.list("entries"@).len() ==> {
                    let row = #[trigger] given.at("entries"@)->Arr_0[i];
                    let o = body.list("entries"@)[i];
                    &&& has_members(row, set!["timestamp"@, "severity"@, "log_name"@,
                        "text_payload"@, "json_payload"@])
                    &&& row.at("timestamp"@) == o.at("timestamp"@)
                    &&& row.at("severity"@) == o.at("severity"@)
                    &&& row.at("log_name"@) == JsonView::Str(leaf(o.str_or("logName"@, ""@)))
                    &&& row.at("text_payload"@) == o.at("textPayload"@)
                    &&& row.at("json_payload"@) == o.at("jsonPayload"@)
                }
        }),
{
    lemma_names();
}

/// Writing an entry sends it under its log, with the object `json` as its payload, or else the
/// text.
pub proof fn logging_write_entry_asks(opts: JsonView, env: EnvView)
    ensures
        project_of(opts, env) is None
            ==> refuses(Op::LoggingWriteEntry, opts, env, "missing project"@),
        project_of(opts, env) is Some && opts.str_at("log"@) is None
            ==> refuses(Op::LoggingWriteEntry, opts, env, "missing log"@),
        project_of(opts, env) is Some && opts.str_at("log"@) is Some
            && !(opts.at("json"@) is Obj || opts.at("text"@) is Str)
            ==> refuses(Op::LoggingWriteEntry, opts, env, "missing text or json payload"@),
        project_of(opts, env) is Some && opts.str_at("log"@) is Some
            && (opts.at("json"@) is Obj || opts.at("text"@) is Str) ==> ({
            let project = project_of(opts, env)->0;
            let log = opts.str_at("log"@)->0;
            &&& call_of(Op::LoggingWriteEntry, opts, env) is Ok
            &&& ({
                let sent = call_of(Op::LoggingWriteEntry, opts, env)->Ok_0;
                let content = sent.body->Json_0;
                let only = content.at("entries"@).as_array()->0[0];
                &&& sent.method == Method::Post
                &&& asks_for(
                        sent.url,
                        "https://logging.googleapis.com/v2/"@,
                        seq!["entries"@],
                        Some("write"@),
                        Seq::empty(),
                    )
                &&& sent.query == Seq::<(Seq<char>, Seq<char>)>::empty()
                &&& sent.headers == Seq::<(Seq<char>, Seq<char>)>::empty()
                &&& sent.body is Json
                &&& has_members(content, set!["entries"@])
                &&& content.at("entries"@).as_array() is Some
                &&& content.at("entries"@).as_array()->0.len() == 1
                &&& only is Obj
                &&& only->Obj_0.dom().subset_of(set!["logName"@, "resource"@, "severity"@,
                    "jsonPayload"@, "textPayload"@])
                &&& only.at("logName"@)
                    == JsonView::Str("projects/"@ + project + "/logs/"@ + url_encoded(log))
                &&& has_members(only.at("resource"@), set!["type"@])
                &&& only.at("resource"@).at("type"@) == JsonView::Str("global"@)
                &&& only.at("severity"@) == JsonView::Str(opts.str_or("severity"@, "DEFAULT"@))
                &&& opts.at("json"@) is Obj ==> only.at("jsonPayload"@) == opts.at("json"@)
                &&& !(opts.at("json"@) is Obj) ==> !only->Obj_0.dom().contains("jsonPayload"@)
                &&& !(opts.at("json"@) is Obj) ==> only.at("textPayload"@) == opts.at("text"@)
                &&& !(!(opts.at("json"@) is Obj)) ==> !only->Obj_0.dom().contains("textPayload"@)
            })
        }),
{
    lemma_names();
    if project_of(opts, env) is Some && opts.str_at("log"@) is Some
        && (opts.at("json"@) is Obj || opts.at("text"@) is Str) {
        lemma_logging_entries_write();
    }
}

/// The result names the log.
pub proof fn logging_write_entry_gives(opts: JsonView, env: EnvView, reply: ReplyView)
    requires
        call_of(Op::LoggingWriteEntry, opts, env) is Ok,
    ensures
        result_of(Op::LoggingWriteEntry, opts, env, reply) is Ok,
        ({
            let log = opts.str_at("log"@)->0;
            let given = result_of(Op::LoggingWriteEntry, opts, env, reply)->Ok_0;
            &&& has_members(given, set!["log"@, "written"@])
            &&& given.at("log"@) == JsonView::Str(log)
            &&& given.at("written"@) == JsonView::Bool(true)
        }),
{
    lemma_names();
}

/// Listing logs asks for those of the project.
pub proof fn logging_list_logs_asks(opts: JsonView, env: EnvView)
    ensures
        project_of(opts, env) is None
            ==> refuses(Op::LoggingListLogs, opts, env, "missing project"@),
        project_of(opts, env) is Some ==> ({
            let project = project_of(opts, env)->0;
            &&& call_of(Op::LoggingListLogs, opts, env) is Ok
            &&& ({
                let sent = call_of(Op::LoggingListLogs, opts, env)->Ok_0;
                &&& sent.method == Method::Get
                &&& asks_for(
                        sent.url,
                        "https://logging.googleapis.com/v2/"@,
                        seq!["projects"@, project, "logs"@],
                        None,
                        Seq::empty(),
                    )
                &&& sent.query == Seq::<(Seq<char>, Seq<char>)>::empty()
                &&& sent.headers == Seq::<(Seq<char>, Seq<char>)>::empty()
                &&& sent.body == BodyView::Empty
            })
        }),
{
    lemma_names();
    if project_of(opts, env) is Some {
        let project = project_of(opts, env)->0;
        lemma_logging_logs(project);
    }
}

/// The logs are the last parts of the names in the answer, in their order.
pub proof fn logging_list_logs_gives(opts: JsonView, env: EnvView, body: JsonView)
    requires
        call_of(Op::LoggingListLogs, opts, env) is Ok,
    ensures
        result_of(Op::LoggingListLogs, opts, env, ReplyView::Document(body)) is Ok,
        ({
            let project = project_of(opts, env)->0;
            let given = result_of(Op::LoggingListLogs, opts, env, ReplyView::Document(body))->Ok_0;
            &&& has_members(given, set!["project"@, "logs"@])
            &&& given.at("project"@) == JsonView::Str(project)
            &&& given.at("logs"@) == JsonView::Arr(
                    body.list("logNames"@).filter(|o: JsonView| o is Str).map_values(
                        |o: JsonView| JsonView::Str(leaf(o->Str_0)),
                    ),
                )
        }),
{
    lemma_names();
    lemma_kept(
        body.list("logNames"@),
        |o: JsonView| leaf_item(o),
        |o: JsonView| o is Str,
        |o: JsonView| JsonView::Str(leaf(o->Str_0)),
    );
}

} // verus!
