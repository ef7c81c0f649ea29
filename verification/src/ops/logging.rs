//! Cloud Logging.

use vstd::prelude::*;
use vstd::string::*;

use crate::codec::url_encoded;
use crate::json::{kept, picks, rows, str_array, str_value, with_some, Json, JsonView, Members};
use crate::options::{need, need_project, require, require_project, Env, EnvView};
use crate::request::{bare, outcome, prepared, Draft, Error, Method, Request, RequestView};
use crate::resource_name::{leaf, leaf_name};
use super::{leaf_item, leaf_item_json, single};
use crate::text::same;

verus! {

/// The number of entries that a listing asks for: the option `page_size`, fifty where it is no
/// natural number.
pub open spec fn entries_limit(opts: JsonView) -> int {
    match opts.at("page_size"@).as_u64() {
        Some(n) => n,
        None => 50,
    }
}

fn entries_limit_u64(opts: &Json) -> (r: u64)
    ensures
        r == entries_limit(opts@),
{
    match opts.u64_at("page_size") {
        Some(n) => n,
        None => 50,
    }
}

/// The order of the entries: oldest first where the option `order` is `asc`, newest first where
/// it is not.
pub open spec fn entries_order(opts: JsonView) -> Seq<char> {
    if opts.str_at("order"@) == Some("asc"@) {
        "timestamp asc"@
    } else {
        "timestamp desc"@
    }
}

fn entries_order_str(opts: &Json) -> (r: &'static str)
    ensures
        r@ == entries_order(opts@),
{
    match opts.str_at("order") {
        Some(order) => if same(order, "asc") {
            "timestamp asc"
        } else {
            "timestamp desc"
        },
        None => "timestamp desc",
    }
}

/// A log entry in a listing.
pub open spec fn entry_row(o: JsonView) -> JsonView {
    JsonView::Obj(
        map![
            "timestamp"@ => o.at("timestamp"@),
            "severity"@ => o.at("severity"@),
            "log_name"@ => JsonView::Str(leaf(o.str_or("logName"@, ""@))),
            "text_payload"@ => o.at("textPayload"@),
            "json_payload"@ => o.at("jsonPayload"@),
        ],
    )
}

fn entry_row_json(o: &Json) -> (r: Json)
    ensures
        r@ == entry_row(o@),
{
    Json::Object(
        Members::new()
            .with("timestamp", o.at("timestamp"))
            .with("severity", o.at("severity"))
            .with("log_name", Json::text(leaf_name(o.str_or("logName", ""))))
            .with("text_payload", o.at("textPayload"))
            .with("json_payload", o.at("jsonPayload")),
    )
}

/// The request of `logging_list_entries`, or what is answered where it cannot be made.
pub open spec fn logging_list_entries_call(opts: JsonView, env: EnvView) -> Result<
    RequestView,
    Seq<char>,
> {
    match need_project(opts, env) {
        Err(e) => Err(e),
        Ok(project) => Ok(
            bare(
                Method::Post,
                "https://logging.googleapis.com/v2/entries:list"@,
            ).json(
                JsonView::Obj(
                    with_some(
                        map![
                            "resourceNames"@ => str_array(seq!["projects/"@ + project]),
                            "pageSize"@ => JsonView::Int(entries_limit(opts)),
                            "orderBy"@ => JsonView::Str(entries_order(opts)),
                        ],
                        "filter"@,
                        str_value(opts.str_at("filter"@)),
                    ),
                ),
            ),
        ),
    }
}

/// Lists log entries of the project that match `filter`.
pub fn logging_list_entries_request(opts: &Json, env: &Env) -> (r: Result<Request, Error>)
    ensures
        prepared(r) == logging_list_entries_call(opts@, env@),
{
    let project: String = require_project(opts, env)?;
    let resource: Draft = Draft::new("projects/").lit(project.as_str());
    assert(seq![JsonView::Str(resource@)] =~= seq![resource@].map_values(
        |t: Seq<char>| JsonView::Str(t),
    ));
    Ok(
        Request::new(
            Method::Post,
            Draft::new("https://logging.googleapis.com/v2/entries:list"),
        ).json(
            Json::Object(
                Members::new()
                    .with("resourceNames", single(Json::String(resource.text)))
                    .with("pageSize", Json::natural(entries_limit_u64(opts)))
                    .with("orderBy", Json::text(entries_order_str(opts)))
                    .with_some("filter", opts.str_value_at("filter")),
            ),
        ),
    )
}

/// The result of `logging_list_entries`, where the service answers `body`.
pub open spec fn logging_list_entries_result(
    opts: JsonView,
    env: EnvView,
    body: JsonView,
) -> Result<
    JsonView,
    Seq<char>,
> {
    match need_project(opts, env) {
        Err(e) => Err(e),
        Ok(project) => Ok(
            JsonView::Obj(
                map![
                    "project"@ => JsonView::Str(project),
                    "entries"@ => JsonView::Arr(body.list("entries"@).map_values(|o: JsonView| entry_row(o))),
                ],
            ),
        ),
    }
}

/// The result of the operation, where the service answers `body`.
pub fn op_logging_list_entries(opts: &Json, env: &Env, body: &Json) -> (r: Result<Json, Error>)
    ensures
        outcome(r) == logging_list_entries_result(opts@, env@, body@),
{
    let project: String = require_project(opts, env)?;
    Ok(
        Json::Object(
            Members::new()
                .with("project", Json::text(project.as_str()))
                .with("entries", rows(body, "entries", entry_row_json, Ghost(|o: JsonView| entry_row(o)))),
        ),
    )
}

/// The payload of an entry: the option `json` where it is an object, else the option `text` where
/// it is a text. It is given by the name of its member and its value.
pub open spec fn entry_payload(opts: JsonView) -> Option<(Seq<char>, JsonView)> {
    if opts.at("json"@) is Obj {
        Some(("jsonPayload"@, opts.at("json"@)))
    } else {
        match opts.str_at("text"@) {
            Some(t) => Some(("textPayload"@, JsonView::Str(t))),
            None => None,
        }
    }
}

/// An entry without its payload.
pub open spec fn entry_head(opts: JsonView, project: Seq<char>, log: Seq<char>) -> Map<
    Seq<char>,
    JsonView,
> {
    map![
        "logName"@ => JsonView::Str("projects/"@ + project + "/logs/"@ + url_encoded(log)),
        "resource"@ => JsonView::Obj(map!["type"@ => JsonView::Str("global"@)]),
        "severity"@ => JsonView::Str(opts.str_or("severity"@, "DEFAULT"@)),
    ]
}

fn entry_json(opts: &Json, project: &str, log: &str) -> (r: Result<Json, Error>)
    ensures
        match r {
            Ok(j) => entry_payload(opts@) is Some && j@ == JsonView::Obj(
                entry_head(opts@, project@, log@).insert(
                    entry_payload(opts@).unwrap().0,
                    entry_payload(opts@).unwrap().1,
                ),
            ),
            Err(e) => entry_payload(opts@) is None && e@ == "missing text or json payload"@,
        },
{
    let head: Members = Members::new()
        .with(
            "logName",
            Json::String(Draft::new("projects/").lit(project).lit("/logs/").enc(log).text),
        )
        .with("resource", Json::Object(Members::new().with("type", Json::text("global"))))
        .with("severity", Json::text(opts.str_or("severity", "DEFAULT")));
    let structured: Json = opts.at("json");
    if structured.is_object() {
        Ok(Json::Object(head.with("jsonPayload", structured)))
    } else {
        match opts.str_at("text") {
            Some(t) => Ok(Json::Object(head.with("textPayload", Json::text(t)))),
            None => Err(Error::new("missing text or json payload")),
        }
    }
}

/// The request of `logging_write_entry`, or what is answered where it cannot be made.
pub open spec fn logging_write_entry_call(opts: JsonView, env: EnvView) -> Result<
    RequestView,
    Seq<char>,
> {
    match need_project(opts, env) {
        Err(e) => Err(e),
        Ok(project) => match need(opts, "log"@, "missing log"@) {
            Err(e) => Err(e),
            Ok(log) => match entry_payload(opts) {
                None => Err("missing text or json payload"@),
                Some((member, payload)) => Ok(
                    bare(Method::Post, "https://logging.googleapis.com/v2/entries:write"@).json(
                        JsonView::Obj(
                            map![
                                "entries"@ => JsonView::Arr(
                                    seq![
                                        JsonView::Obj(
                                            entry_head(opts, project, log).insert(member, payload),
                                        ),
                                    ],
                                ),
                            ],
                        ),
                    ),
                ),
            },
        },
    }
}

/// Writes an entry with the payload `json` or `text` to `log`.
pub fn logging_write_entry_request(opts: &Json, env: &Env) -> (r: Result<Request, Error>)
    ensures
        prepared(r) == logging_write_entry_call(opts@, env@),
{
    let project: String = require_project(opts, env)?;
    let log: &str = require(opts, "log", "missing log")?;
    let entry: Json = entry_json(opts, project.as_str(), log)?;
    Ok(
        Request::new(
            Method::Post,
            Draft::new("https://logging.googleapis.com/v2/entries:write"),
        ).json(Json::Object(Members::new().with("entries", single(entry)))),
    )
}

/// The result of `logging_write_entry`, where the service agrees.
pub open spec fn logging_write_entry_result(opts: JsonView, env: EnvView) -> Result<
    JsonView,
    Seq<char>,
> {
    match need_project(opts, env) {
        Err(e) => Err(e),
        Ok(_) => match need(opts, "log"@, "missing log"@) {
            Err(e) => Err(e),
            Ok(log) => match entry_payload(opts) {
                None => Err("missing text or json payload"@),
                Some(_) => Ok(
                    JsonView::Obj(
                        map!["log"@ => JsonView::Str(log), "written"@ => JsonView::Bool(true)],
                    ),
                ),
            },
        },
    }
}

/// The result of the operation, where the service agrees.
pub fn op_logging_write_entry(opts: &Json, env: &Env) -> (r: Result<Json, Error>)
    ensures
        outcome(r) == logging_write_entry_result(opts@, env@),
{
    let project: String = require_project(opts, env)?;
    let log: &str = require(opts, "log", "missing log")?;
    entry_json(opts, project.as_str(), log)?;
    Ok(
        Json::Object(Members::new().with("log", Json::text(log)).with("written", Json::Bool(true))),
    )
}

/// The request of `logging_list_logs`, or what is answered where it cannot be made.
pub open spec fn logging_list_logs_call(opts: JsonView, env: EnvView) -> Result<
    RequestView,
    Seq<char>,
> {
    match need_project(opts, env) {
        Err(e) => Err(e),
        Ok(project) => Ok(
            bare(
                Method::Get,
                "https://logging.googleapis.com/v2/projects/"@ + url_encoded(project)
                    + "/logs"@,
            ),
        ),
    }
}

/// Lists the logs of the project.
pub fn logging_list_logs_request(opts: &Json, env: &Env) -> (r: Result<Request, Error>)
    ensures
        prepared(r) == logging_list_logs_call(opts@, env@),
{
    let project: String = require_project(opts, env)?;
    Ok(
        Request::new(
            Method::Get,
            Draft::new("https://logging.googleapis.com/v2/projects/")
                .enc(project.as_str()).lit("/logs"),
        ),
    )
}

/// The result of `logging_list_logs`, where the service answers `body`.
pub open spec fn logging_list_logs_result(opts: JsonView, env: EnvView, body: JsonView) -> Result<
    JsonView,
    Seq<char>,
> {
    match need_project(opts, env) {
        Err(e) => Err(e),
        Ok(project) => Ok(
            JsonView::Obj(
                map![
                    "project"@ => JsonView::Str(project),
                    "logs"@ => JsonView::Arr(kept(body.list("logNames"@), |o: JsonView| leaf_item(o))),
                ],
            ),
        ),
    }
}

/// The result of the operation, where the service answers `body`.
pub fn op_logging_list_logs(opts: &Json, env: &Env, body: &Json) -> (r: Result<Json, Error>)
    ensures
        outcome(r) == logging_list_logs_result(opts@, env@, body@),
{
    let project: String = require_project(opts, env)?;
    Ok(
        Json::Object(
            Members::new()
                .with("project", Json::text(project.as_str()))
                .with("logs", picks(body, "logNames", leaf_item_json, Ghost(|o: JsonView| leaf_item(o)))),
        ),
    )
}

} // verus!
