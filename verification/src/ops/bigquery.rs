//! BigQuery.

use vstd::prelude::*;
use vstd::string::*;

use crate::codec::url_encoded;
use crate::decimal::{decimal, decimal_text};
use crate::json::{
    int_value, items_view, kept, opt_json, picks, rows, str_array, with_some, Json,
    JsonView, Members,
};
use crate::options::{
    is_truthy, need, need_array, need_project, require, require_array, require_project,
    truthy, Env, EnvView,
};
use crate::request::{bare, outcome, prepared, Draft, Error, Method, Request, RequestView};
use super::{strings, text_item, text_item_json};

verus! {

/// The query that is sent: standard SQL, with the limits that are given.
pub open spec fn query_body(opts: JsonView, query: Seq<char>) -> JsonView {
    let asked = map![
        "query"@ => JsonView::Str(query),
        "useLegacySql"@ => JsonView::Bool(false),
    ];
    JsonView::Obj(
        with_some(
            with_some(asked, "maxResults"@, int_value(opts.at("max_results"@).as_u64())),
            "timeoutMs"@,
            int_value(opts.at("timeout_ms"@).as_u64()),
        ),
    )
}

fn natural_option(opts: &Json, key: &str) -> (r: Option<Json>)
    ensures
        opt_json(r) == int_value(opts@.at(key@).as_u64()),
{
    match opts.u64_at(key) {
        Some(n) => Some(Json::natural(n)),
        None => None,
    }
}

fn query_body_json(opts: &Json, query: &str) -> (r: Json)
    ensures
        r@ == query_body(opts@, query@),
{
    Json::Object(
        Members::new()
            .with("query", Json::text(query))
            .with("useLegacySql", Json::Bool(false))
            .with_some("maxResults", natural_option(opts, "max_results"))
            .with_some("timeoutMs", natural_option(opts, "timeout_ms")),
    )
}

/// The names of the columns of an answer.
pub open spec fn columns(body: JsonView) -> Seq<Seq<char>> {
    body.at("schema"@).list("fields"@).map_values(|f: JsonView| f.str_or("name"@, ""@))
}

/// The cell of a row under a column, null where the row is too short.
pub open spec fn cell(cells: Seq<JsonView>, i: int) -> JsonView {
    if i < cells.len() {
        cells[i].at("v"@)
    } else {
        JsonView::Null
    }
}

/// The cells of a row under the names of their columns; where two columns have one name, the
/// later holds.
pub open spec fn row_members(names: Seq<Seq<char>>, cells: Seq<JsonView>) -> Map<
    Seq<char>,
    JsonView,
>
    decreases names.len(),
{
    if names.len() == 0 {
        Map::empty()
    } else {
        row_members(names.drop_last(), cells).insert(
            names.last(),
            cell(cells, names.len() - 1),
        )
    }
}

/// A row of an answer with those columns.
pub open spec fn row_object(names: Seq<Seq<char>>, row: JsonView) -> JsonView {
    JsonView::Obj(row_members(names, row.list("f"@)))
}

fn column_names(body: &Json) -> (r: Vec<String>)
    ensures
        strings(r@) == columns(body@),
{
    let schema: Json = body.at("schema");
    let mut out: Vec<String> = Vec::new();
    match schema.array_at("fields") {
        Some(fields) => {
            let mut i: usize = 0;
            while i < fields.len()
                invariant
                    i <= fields.len(),
                    out@.len() == i,
                    forall|k: int|
                        0 <= k < i ==> (#[trigger] out@[k])@ == fields@[k]@.str_or("name"@, ""@),
                decreases fields.len() - i,
            {
                out.push(fields[i].str_or("name", "").to_owned());
                i += 1;
            }
        },
        None => {},
    }
    assert(strings(out@) =~= columns(body@));
    out
}

fn cell_json(cells: Option<&Vec<Json>>, i: usize) -> (r: Json)
    ensures
        r@ == match cells {
            Some(a) => cell(items_view(a@), i as int),
            None => JsonView::Null,
        },
{
    match cells {
        Some(a) => if i < a.len() {
            a[i].at("v")
        } else {
            Json::Null
        },
        None => Json::Null,
    }
}

fn row_object_json(names: &Vec<String>, row: &Json) -> (r: Json)
    ensures
        r@ == row_object(strings(names@), row@),
{
    let cells: Option<&Vec<Json>> = row.array_at("f");
    let ghost listed = row@.list("f"@);
    let ghost all = strings(names@);
    let mut out: Members = Members::new();
    let mut i: usize = 0;
    while i < names.len()
        invariant
            i <= names.len(),
            all == strings(names@),
            match cells {
                Some(a) => listed == items_view(a@),
                None => listed == Seq::<JsonView>::empty(),
            },
            out@ == row_members(all.take(i as int), listed),
        decreases names.len() - i,
    {
        out = out.with(names[i].as_str(), cell_json(cells, i));
        proof {
            let next = all.take(i + 1);
            assert(next.drop_last() =~= all.take(i as int));
            assert(next.last() == names@[i as int]@);
        }
        i += 1;
    }
    assert(all.take(i as int) =~= all);
    Json::Object(out)
}

fn row_objects(names: &Vec<String>, body: &Json) -> (r: Json)
    ensures
        r@ == JsonView::Arr(
            body@.list("rows"@).map_values(|row: JsonView| row_object(strings(names@), row)),
        ),
{
    let ghost model = |row: JsonView| row_object(strings(names@), row);
    let mut out: Vec<Json> = Vec::new();
    match body.array_at("rows") {
        Some(rows) => {
            let mut i: usize = 0;
            while i < rows.len()
                invariant
                    i <= rows.len(),
                    out@.len() == i,
                    forall|k: int|
                        0 <= k < i ==> (#[trigger] out@[k])@ == row_object(
                            strings(names@),
                            rows@[k]@,
                        ),
                decreases rows.len() - i,
            {
                out.push(row_object_json(names, &rows[i]));
                i += 1;
            }
            assert(items_view(out@) =~= items_view(rows@).map_values(model));
        },
        None => {},
    }
    assert(items_view(out@) =~= body@.list("rows"@).map_values(model));
    Json::array(out)
}

fn names_json(names: &Vec<String>) -> (r: Json)
    ensures
        r@ == str_array(strings(names@)),
{
    let mut out: Vec<Json> = Vec::new();
    let mut i: usize = 0;
    while i < names.len()
        invariant
            i <= names.len(),
            out@.len() == i,
            forall|k: int| 0 <= k < i ==> (#[trigger] out@[k])@ == JsonView::Str(names@[k]@),
        decreases names.len() - i,
    {
        out.push(Json::text(names[i].as_str()));
        i += 1;
    }
    assert(items_view(out@) =~= strings(names@).map_values(|t: Seq<char>| JsonView::Str(t)));
    Json::array(out)
}

/// Whether the query has run to its end; it has, unless the answer says otherwise.
pub open spec fn complete(body: JsonView) -> bool {
    match body.at("jobComplete"@).as_bool() {
        Some(b) => b,
        None => true,
    }
}

/// The request of `bigquery_query`, or what is answered where it cannot be made.
pub open spec fn bigquery_query_call(opts: JsonView, env: EnvView) -> Result<
    RequestView,
    Seq<char>,
> {
    match need_project(opts, env) {
        Err(e) => Err(e),
        Ok(project) => match need(opts, "query"@, "missing query"@) {
            Err(e) => Err(e),
            Ok(query) => Ok(
                bare(
                    Method::Post,
                    "https://bigquery.googleapis.com/bigquery/v2/projects/"@
                        + url_encoded(project) + "/queries"@,
                ).json(
                    query_body(opts, query),
                ),
            ),
        },
    }
}

/// Runs `query` in standard SQL.
pub fn bigquery_query_request(opts: &Json, env: &Env) -> (r: Result<Request, Error>)
    ensures
        prepared(r) == bigquery_query_call(opts@, env@),
{
    let project: String = require_project(opts, env)?;
    let query: &str = require(opts, "query", "missing query")?;
    Ok(
        Request::new(
            Method::Post,
            Draft::new("https://bigquery.googleapis.com/bigquery/v2/projects/")
                .enc(project.as_str()).lit("/queries"),
        ).json(
            query_body_json(opts, query),
        ),
    )
}

/// The result of `bigquery_query`, where the service answers `body`.
pub open spec fn bigquery_query_result(opts: JsonView, env: EnvView, body: JsonView) -> Result<
    JsonView,
    Seq<char>,
> {
    match need_project(opts, env) {
        Err(e) => Err(e),
        Ok(project) => match need(opts, "query"@, "missing query"@) {
            Err(e) => Err(e),
            Ok(query) => Ok(
                JsonView::Obj(
                    map![
                        "columns"@ => str_array(columns(body)),
                        "rows"@ => JsonView::Arr(
                            body.list("rows"@).map_values(|row: JsonView| row_object(columns(body), row)),
                        ),
                        "total_rows"@ => body.at("totalRows"@),
                        "complete"@ => JsonView::Bool(complete(body)),
                    ],
                ),
            ),
        },
    }
}

/// The result of the operation, where the service answers `body`.
pub fn op_bigquery_query(opts: &Json, env: &Env, body: &Json) -> (r: Result<Json, Error>)
    ensures
        outcome(r) == bigquery_query_result(opts@, env@, body@),
{
    require_project(opts, env)?;
    require(opts, "query", "missing query")?;
    let names: Vec<String> = column_names(body);
    let done: bool = match body.at("jobComplete").as_bool() {
        Some(b) => b,
        None => true,
    };
    Ok(
        Json::Object(
            Members::new()
                .with("columns", names_json(&names))
                .with("rows", row_objects(&names, body))
                .with("total_rows", body.at("totalRows"))
                .with("complete", Json::Bool(done)),
        ),
    )
}

/// A row that is inserted.
pub open spec fn inserted_row(o: JsonView) -> JsonView {
    JsonView::Obj(
        map![
            "json"@ => o,
        ],
    )
}

fn inserted_row_json(o: &Json) -> (r: Json)
    ensures
        r@ == inserted_row(o@),
{
    Json::Object(
        Members::new()
            .with("json", o.copy()),
    )
}

/// The request of `bigquery_insert`, or what is answered where it cannot be made.
pub open spec fn bigquery_insert_call(opts: JsonView, env: EnvView) -> Result<
    RequestView,
    Seq<char>,
> {
    match need_project(opts, env) {
        Err(e) => Err(e),
        Ok(project) => match need(opts, "dataset"@, "missing dataset"@) {
            Err(e) => Err(e),
            Ok(dataset) => match need(opts, "table"@, "missing table"@) {
                Err(e) => Err(e),
                Ok(table) => match need_array(opts, "rows"@, "missing rows (an array of objects)"@) {
                    Err(e) => Err(e),
                    Ok(given) => Ok(
                        bare(
                            Method::Post,
                            "https://bigquery.googleapis.com/bigquery/v2/projects/"@
                                + url_encoded(project) + "/datasets/"@ + url_encoded(dataset)
                                + "/tables/"@ + url_encoded(table) + "/insertAll"@,
                        ).json(
                            JsonView::Obj(
                                map![
                                    "rows"@ => JsonView::Arr(given.map_values(|o: JsonView| inserted_row(o))),
                                ],
                            ),
                        ),
                    ),
                },
            },
        },
    }
}

/// Inserts `rows` into `table` of `dataset`.
pub fn bigquery_insert_request(opts: &Json, env: &Env) -> (r: Result<Request, Error>)
    ensures
        prepared(r) == bigquery_insert_call(opts@, env@),
{
    let project: String = require_project(opts, env)?;
    let dataset: &str = require(opts, "dataset", "missing dataset")?;
    let table: &str = require(opts, "table", "missing table")?;
    require_array(opts, "rows", "missing rows (an array of objects)")?;
    Ok(
        Request::new(
            Method::Post,
            Draft::new("https://bigquery.googleapis.com/bigquery/v2/projects/")
                .enc(project.as_str()).lit("/datasets/").enc(dataset)
                .lit("/tables/").enc(table).lit("/insertAll"),
        ).json(
            Json::Object(
                Members::new()
                    .with("rows", rows(opts, "rows", inserted_row_json, Ghost(|o: JsonView| inserted_row(o)))),
            ),
        ),
    )
}

/// The result of `bigquery_insert`, where the service answers `body`.
pub open spec fn bigquery_insert_result(opts: JsonView, env: EnvView, body: JsonView) -> Result<
    JsonView,
    Seq<char>,
> {
    match need_project(opts, env) {
        Err(e) => Err(e),
        Ok(project) => match need(opts, "dataset"@, "missing dataset"@) {
            Err(e) => Err(e),
            Ok(dataset) => match need(opts, "table"@, "missing table"@) {
                Err(e) => Err(e),
                Ok(table) => match need_array(opts, "rows"@, "missing rows (an array of objects)"@) {
                    Err(e) => Err(e),
                    Ok(given) => Ok(
                        JsonView::Obj(
                            map![
                                "inserted"@ => JsonView::Int(given.len() as int),
                                "errors"@ => body.at("insertErrors"@),
                            ],
                        ),
                    ),
                },
            },
        },
    }
}

/// The result of the operation, where the service answers `body`.
pub fn op_bigquery_insert(opts: &Json, env: &Env, body: &Json) -> (r: Result<Json, Error>)
    ensures
        outcome(r) == bigquery_insert_result(opts@, env@, body@),
{
    require_project(opts, env)?;
    require(opts, "dataset", "missing dataset")?;
    require(opts, "table", "missing table")?;
    let given: &Vec<Json> = require_array(opts, "rows", "missing rows (an array of objects)")?;
    assert(items_view(given@).len() == given@.len());
    Ok(
        Json::Object(
            Members::new()
                .with("inserted", Json::natural(given.len() as u64))
                .with("errors", body.at("insertErrors")),
        ),
    )
}

/// The id of a dataset in a listing, where it is a text.
pub open spec fn dataset_id(o: JsonView) -> Option<JsonView> {
    text_item(o.at("datasetReference"@).at("datasetId"@))
}

fn dataset_id_json(o: &Json) -> (r: Option<Json>)
    ensures
        match r {
            Some(j) => dataset_id(o@) == Some(j@),
            None => dataset_id(o@) is None,
        },
{
    text_item_json(&o.at("datasetReference").at("datasetId"))
}

/// The id of a table in a listing, where it is a text.
pub open spec fn table_id(o: JsonView) -> Option<JsonView> {
    text_item(o.at("tableReference"@).at("tableId"@))
}

fn table_id_json(o: &Json) -> (r: Option<Json>)
    ensures
        match r {
            Some(j) => table_id(o@) == Some(j@),
            None => table_id(o@) is None,
        },
{
    text_item_json(&o.at("tableReference").at("tableId"))
}

/// The request of `bigquery_list_datasets`, or what is answered where it cannot be made.
pub open spec fn bigquery_list_datasets_call(opts: JsonView, env: EnvView) -> Result<
    RequestView,
    Seq<char>,
> {
    match need_project(opts, env) {
        Err(e) => Err(e),
        Ok(project) => Ok(
            bare(
                Method::Get,
                "https://bigquery.googleapis.com/bigquery/v2/projects/"@
                    + url_encoded(project) + "/datasets"@,
            ),
        ),
    }
}

/// Lists the datasets of the project.
pub fn bigquery_list_datasets_request(opts: &Json, env: &Env) -> (r: Result<Request, Error>)
    ensures
        prepared(r) == bigquery_list_datasets_call(opts@, env@),
{
    let project: String = require_project(opts, env)?;
    Ok(
        Request::new(
            Method::Get,
            Draft::new("https://bigquery.googleapis.com/bigquery/v2/projects/")
                .enc(project.as_str()).lit("/datasets"),
        ),
    )
}

/// The result of `bigquery_list_datasets`, where the service answers `body`.
pub open spec fn bigquery_list_datasets_result(
    opts: JsonView,
    env: EnvView,
    body: JsonView,
) -> Result<
    JsonView,
    Seq<char>,
> {
    match need_project(opts, env) {
        Err(e) => Err(e),
        Ok(project) => Ok(
            JsonView::Obj(
                map![
                    "project"@ => JsonView::Str(project),
                    "datasets"@ => JsonView::Arr(kept(body.list("datasets"@), |o: JsonView| dataset_id(o))),
                ],
            ),
        ),
    }
}

/// The result of the operation, where the service answers `body`.
pub fn op_bigquery_list_datasets(opts: &Json, env: &Env, body: &Json) -> (r: Result<Json, Error>)
    ensures
        outcome(r) == bigquery_list_datasets_result(opts@, env@, body@),
{
    let project: String = require_project(opts, env)?;
    Ok(
        Json::Object(
            Members::new()
                .with("project", Json::text(project.as_str()))
                .with("datasets", picks(body, "datasets", dataset_id_json, Ghost(|o: JsonView| dataset_id(o)))),
        ),
    )
}

/// The request of `bigquery_get_dataset`, or what is answered where it cannot be made.
pub open spec fn bigquery_get_dataset_call(opts: JsonView, env: EnvView) -> Result<
    RequestView,
    Seq<char>,
> {
    match need_project(opts, env) {
        Err(e) => Err(e),
        Ok(project) => match need(opts, "dataset"@, "missing dataset"@) {
            Err(e) => Err(e),
            Ok(dataset) => Ok(
                bare(
                    Method::Get,
                    "https://bigquery.googleapis.com/bigquery/v2/projects/"@
                        + url_encoded(project) + "/datasets/"@ + url_encoded(dataset),
                ),
            ),
        },
    }
}

/// Asks for `dataset`.
pub fn bigquery_get_dataset_request(opts: &Json, env: &Env) -> (r: Result<Request, Error>)
    ensures
        prepared(r) == bigquery_get_dataset_call(opts@, env@),
{
    let project: String = require_project(opts, env)?;
    let dataset: &str = require(opts, "dataset", "missing dataset")?;
    Ok(
        Request::new(
            Method::Get,
            Draft::new("https://bigquery.googleapis.com/bigquery/v2/projects/")
                .enc(project.as_str()).lit("/datasets/").enc(dataset),
        ),
    )
}

/// The result of `bigquery_get_dataset`, where the service answers `body`.
pub open spec fn bigquery_get_dataset_result(
    opts: JsonView,
    env: EnvView,
    body: JsonView,
) -> Result<
    JsonView,
    Seq<char>,
> {
    match need_project(opts, env) {
        Err(e) => Err(e),
        Ok(project) => match need(opts, "dataset"@, "missing dataset"@) {
            Err(e) => Err(e),
            Ok(dataset) => Ok(
                JsonView::Obj(
                    map![
                        "dataset"@ => JsonView::Str(dataset),
                        "resource"@ => body,
                    ],
                ),
            ),
        },
    }
}

/// The result of the operation, where the service answers `body`.
pub fn op_bigquery_get_dataset(opts: &Json, env: &Env, body: &Json) -> (r: Result<Json, Error>)
    ensures
        outcome(r) == bigquery_get_dataset_result(opts@, env@, body@),
{
    require_project(opts, env)?;
    let dataset: &str = require(opts, "dataset", "missing dataset")?;
    Ok(
        Json::Object(
            Members::new()
                .with("dataset", Json::text(dataset))
                .with("resource", body.copy()),
        ),
    )
}

/// The request of `bigquery_list_tables`, or what is answered where it cannot be made.
pub open spec fn bigquery_list_tables_call(opts: JsonView, env: EnvView) -> Result<
    RequestView,
    Seq<char>,
> {
    match need_project(opts, env) {
        Err(e) => Err(e),
        Ok(project) => match need(opts, "dataset"@, "missing dataset"@) {
            Err(e) => Err(e),
            Ok(dataset) => Ok(
                bare(
                    Method::Get,
                    "https://bigquery.googleapis.com/bigquery/v2/projects/"@
                        + url_encoded(project) + "/datasets/"@ + url_encoded(dataset)
                        + "/tables"@,
                ),
            ),
        },
    }
}

/// Lists the tables of `dataset`.
pub fn bigquery_list_tables_request(opts: &Json, env: &Env) -> (r: Result<Request, Error>)
    ensures
        prepared(r) == bigquery_list_tables_call(opts@, env@),
{
    let project: String = require_project(opts, env)?;
    let dataset: &str = require(opts, "dataset", "missing dataset")?;
    Ok(
        Request::new(
            Method::Get,
            Draft::new("https://bigquery.googleapis.com/bigquery/v2/projects/")
                .enc(project.as_str()).lit("/datasets/").enc(dataset).lit("/tables"),
        ),
    )
}

/// The result of `bigquery_list_tables`, where the service answers `body`.
pub open spec fn bigquery_list_tables_result(
    opts: JsonView,
    env: EnvView,
    body: JsonView,
) -> Result<
    JsonView,
    Seq<char>,
> {
    match need_project(opts, env) {
        Err(e) => Err(e),
        Ok(project) => match need(opts, "dataset"@, "missing dataset"@) {
            Err(e) => Err(e),
            Ok(dataset) => Ok(
                JsonView::Obj(
                    map![
                        "dataset"@ => JsonView::Str(dataset),
                        "tables"@ => JsonView::Arr(kept(body.list("tables"@), |o: JsonView| table_id(o))),
                    ],
                ),
            ),
        },
    }
}

/// The result of the operation, where the service answers `body`.
pub fn op_bigquery_list_tables(opts: &Json, env: &Env, body: &Json) -> (r: Result<Json, Error>)
    ensures
        outcome(r) == bigquery_list_tables_result(opts@, env@, body@),
{
    require_project(opts, env)?;
    let dataset: &str = require(opts, "dataset", "missing dataset")?;
    Ok(
        Json::Object(
            Members::new()
                .with("dataset", Json::text(dataset))
                .with("tables", picks(body, "tables", table_id_json, Ghost(|o: JsonView| table_id(o)))),
        ),
    )
}

/// The request of `bigquery_get_table`, or what is answered where it cannot be made.
pub open spec fn bigquery_get_table_call(opts: JsonView, env: EnvView) -> Result<
    RequestView,
    Seq<char>,
> {
    match need_project(opts, env) {
        Err(e) => Err(e),
        Ok(project) => match need(opts, "dataset"@, "missing dataset"@) {
            Err(e) => Err(e),
            Ok(dataset) => match need(opts, "table"@, "missing table"@) {
                Err(e) => Err(e),
                Ok(table) => Ok(
                    bare(
                        Method::Get,
                        "https://bigquery.googleapis.com/bigquery/v2/projects/"@
                            + url_encoded(project) + "/datasets/"@ + url_encoded(dataset)
                            + "/tables/"@ + url_encoded(table),
                    ),
                ),
            },
        },
    }
}

/// Asks for `table` of `dataset`.
pub fn bigquery_get_table_request(opts: &Json, env: &Env) -> (r: Result<Request, Error>)
    ensures
        prepared(r) == bigquery_get_table_call(opts@, env@),
{
    let project: String = require_project(opts, env)?;
    let dataset: &str = require(opts, "dataset", "missing dataset")?;
    let table: &str = require(opts, "table", "missing table")?;
    Ok(
        Request::new(
            Method::Get,
            Draft::new("https://bigquery.googleapis.com/bigquery/v2/projects/")
                .enc(project.as_str()).lit("/datasets/").enc(dataset)
                .lit("/tables/").enc(table),
        ),
    )
}

/// The result of `bigquery_get_table`, where the service answers `body`.
pub open spec fn bigquery_get_table_result(opts: JsonView, env: EnvView, body: JsonView) -> Result<
    JsonView,
    Seq<char>,
> {
    match need_project(opts, env) {
        Err(e) => Err(e),
        Ok(project) => match need(opts, "dataset"@, "missing dataset"@) {
            Err(e) => Err(e),
            Ok(dataset) => match need(opts, "table"@, "missing table"@) {
                Err(e) => Err(e),
                Ok(table) => Ok(
                    JsonView::Obj(
                        map![
                            "dataset"@ => JsonView::Str(dataset),
                            "table"@ => JsonView::Str(table),
                            "resource"@ => body,
                        ],
                    ),
                ),
            },
        },
    }
}

/// The result of the operation, where the service answers `body`.
pub fn op_bigquery_get_table(opts: &Json, env: &Env, body: &Json) -> (r: Result<Json, Error>)
    ensures
        outcome(r) == bigquery_get_table_result(opts@, env@, body@),
{
    require_project(opts, env)?;
    let dataset: &str = require(opts, "dataset", "missing dataset")?;
    let table: &str = require(opts, "table", "missing table")?;
    Ok(
        Json::Object(
            Members::new()
                .with("dataset", Json::text(dataset))
                .with("table", Json::text(table))
                .with("resource", body.copy()),
        ),
    )
}

/// The kind of a job: `query` where it has the statistics of one, else what its configuration
/// says.
pub open spec fn job_type(o: JsonView) -> Seq<char> {
    if o.at("statistics"@).at("query"@) is Obj {
        "query"@
    } else {
        o.at("configuration"@).str_or("jobType"@, ""@)
    }
}

fn job_type_text(o: &Json) -> (r: String)
    ensures
        r@ == job_type(o@),
{
    if o.at("statistics").at("query").is_object() {
        "query".to_owned()
    } else {
        o.at("configuration").str_or("jobType", "").to_owned()
    }
}

/// A job in a listing.
pub open spec fn job_row(o: JsonView) -> JsonView {
    JsonView::Obj(
        map![
            "id"@ => JsonView::Str(o.at("jobReference"@).str_or("jobId"@, ""@)),
            "state"@ => JsonView::Str(o.at("status"@).str_or("state"@, ""@)),
            "job_type"@ => JsonView::Str(job_type(o)),
            "user_email"@ => JsonView::Str(o.str_or("user_email"@, ""@)),
        ],
    )
}

fn job_row_json(o: &Json) -> (r: Json)
    ensures
        r@ == job_row(o@),
{
    Json::Object(
        Members::new()
            .with("id", Json::text(o.at("jobReference").str_or("jobId", "")))
            .with("state", Json::text(o.at("status").str_or("state", "")))
            .with("job_type", Json::String(job_type_text(o)))
            .with("user_email", Json::text(o.str_or("user_email", ""))),
    )
}

/// The number of jobs that a listing asks for: the option `max_results`, fifty where it is no
/// natural number.
pub open spec fn jobs_limit(opts: JsonView) -> nat {
    match opts.at("max_results"@).as_u64() {
        Some(n) => n as nat,
        None => 50,
    }
}

fn jobs_limit_u64(opts: &Json) -> (r: u64)
    ensures
        r == jobs_limit(opts@),
{
    match opts.u64_at("max_results") {
        Some(n) => n,
        None => 50,
    }
}

/// A flag in a URL.
pub open spec fn flag(b: bool) -> Seq<char> {
    if b {
        "true"@
    } else {
        "false"@
    }
}

/// Where a listing of jobs is asked for.
pub open spec fn jobs_url(opts: JsonView, project: Seq<char>) -> Seq<char> {
    let all = "https://bigquery.googleapis.com/bigquery/v2/projects/"@ + url_encoded(project)
        + "/jobs?allUsers="@ + flag(is_truthy(opts.at("all_users"@))) + "&maxResults="@ + decimal(
        jobs_limit(opts),
    );
    match opts.str_at("state_filter"@) {
        Some(state) => all + "&stateFilter="@ + url_encoded(state),
        None => all,
    }
}

/// The request of `bigquery_list_jobs`, or what is answered where it cannot be made.
pub open spec fn bigquery_list_jobs_call(opts: JsonView, env: EnvView) -> Result<
    RequestView,
    Seq<char>,
> {
    match need_project(opts, env) {
        Err(e) => Err(e),
        Ok(project) => Ok(
            bare(
                Method::Get,
                jobs_url(opts, project),
            ),
        ),
    }
}

/// Lists the jobs of the caller, or of all users where `all_users` is set.
pub fn bigquery_list_jobs_request(opts: &Json, env: &Env) -> (r: Result<Request, Error>)
    ensures
        prepared(r) == bigquery_list_jobs_call(opts@, env@),
{
    let project: String = require_project(opts, env)?;
    let all_users: &str = if truthy(&opts.at("all_users")) {
        "true"
    } else {
        "false"
    };
    let all: Draft = Draft::new("https://bigquery.googleapis.com/bigquery/v2/projects/").enc(
        project.as_str(),
    ).lit("/jobs?allUsers=").lit(all_users).lit("&maxResults=").lit(
        decimal_text(jobs_limit_u64(opts)).as_str(),
    );
    let url: Draft = match opts.str_at("state_filter") {
        Some(state) => all.lit("&stateFilter=").enc(state),
        None => all,
    };
    Ok(
        Request::new(
            Method::Get,
            url,
        ),
    )
}

/// The result of `bigquery_list_jobs`, where the service answers `body`.
pub open spec fn bigquery_list_jobs_result(opts: JsonView, env: EnvView, body: JsonView) -> Result<
    JsonView,
    Seq<char>,
> {
    match need_project(opts, env) {
        Err(e) => Err(e),
        Ok(project) => Ok(
            JsonView::Obj(
                map![
                    "project"@ => JsonView::Str(project),
                    "jobs"@ => JsonView::Arr(body.list("jobs"@).map_values(|o: JsonView| job_row(o))),
                ],
            ),
        ),
    }
}

/// The result of the operation, where the service answers `body`.
pub fn op_bigquery_list_jobs(opts: &Json, env: &Env, body: &Json) -> (r: Result<Json, Error>)
    ensures
        outcome(r) == bigquery_list_jobs_result(opts@, env@, body@),
{
    let project: String = require_project(opts, env)?;
    Ok(
        Json::Object(
            Members::new()
                .with("project", Json::text(project.as_str()))
                .with("jobs", rows(body, "jobs", job_row_json, Ghost(|o: JsonView| job_row(o)))),
        ),
    )
}

/// A row has a member for each column and no other.
pub proof fn lemma_row_members(names: Seq<Seq<char>>, cells: Seq<JsonView>)
    ensures
        forall|name: Seq<char>| #[trigger]
            row_members(names, cells).contains_key(name) <==> names.contains(name),
    decreases names.len(),
{
    if names.len() > 0 {
        let init = names.drop_last();
        lemma_row_members(init, cells);
        assert forall|name: Seq<char>| #[trigger]
            row_members(names, cells).contains_key(name) <==> names.contains(name) by {
            if names.contains(name) {
                let i = choose|i: int| 0 <= i < names.len() && names[i] == name;
                if i < init.len() {
                    assert(init[i] == name);
                    assert(init.contains(name));
                }
            }
            if init.contains(name) {
                let i = choose|i: int| 0 <= i < init.len() && init[i] == name;
                assert(names[i] == name);
            }
            assert(names[names.len() - 1] == names.last());
            assert(row_members(init, cells).contains_key(name) <==> init.contains(name));
        }
    }
}

/// The members of a row are the columns of the answer, and under a column whose name no later
/// column has stands the cell at its place.
pub proof fn rows_have_the_columns(names: Seq<Seq<char>>, row: JsonView, i: int)
    requires
        0 <= i < names.len(),
        forall|j: int| i < j < names.len() ==> #[trigger] names[j] != names[i],
    ensures
        forall|name: Seq<char>|
            (#[trigger] row_object(names, row).get(name)) is Some <==> names.contains(name),
        row_object(names, row).at(names[i]) == cell(row.list("f"@), i),
    decreases names.len(),
{
    let cells = row.list("f"@);
    lemma_row_members(names, cells);
    assert forall|name: Seq<char>|
        (#[trigger] row_object(names, row).get(name)) is Some <==> names.contains(name) by {
        assert(row_members(names, cells).contains_key(name) <==> names.contains(name));
    }
    lemma_cell_of_column(names, cells, i);
}

proof fn lemma_cell_of_column(names: Seq<Seq<char>>, cells: Seq<JsonView>, i: int)
    requires
        0 <= i < names.len(),
        forall|j: int| i < j < names.len() ==> #[trigger] names[j] != names[i],
    ensures
        row_members(names, cells).contains_key(names[i]),
        row_members(names, cells)[names[i]] == cell(cells, i),
    decreases names.len(),
{
    if i < names.len() - 1 {
        let init = names.drop_last();
        assert forall|j: int| i < j < init.len() implies #[trigger] init[j] != init[i] by {
            assert(init[j] == names[j]);
        }
        lemma_cell_of_column(init, cells, i);
        assert(names[names.len() - 1] != names[i]);
    }
}

} // verus!
