//! BigQuery: how the requests are read, and what the results hold.

use vstd::prelude::*;
use vstd::string::*;

use crate::bridge::{call_of, result_of, Op, ReplyView};
use crate::decimal::decimal;
use crate::json::JsonView;
use crate::ops::bigquery::{
    columns, dataset_id, lemma_row_members, rows_have_the_columns, table_id,
};
use crate::options::{is_truthy, project_of, EnvView};
use crate::request::{BodyView, Method};
use crate::url::{asks_for, lemma_decimal_piece};
use super::{has_members, lemma_kept, refuses};
use super::urls::{
    lemma_bigquery_datasets, lemma_bigquery_datasets_dataset, lemma_bigquery_datasets_tables,
    lemma_bigquery_datasets_tables_insert_all, lemma_bigquery_datasets_tables_table,
    lemma_bigquery_jobs_all_users_false_max_results,
    lemma_bigquery_jobs_all_users_false_max_results_state_filter,
    lemma_bigquery_jobs_all_users_true_max_results,
    lemma_bigquery_jobs_all_users_true_max_results_state_filter, lemma_bigquery_queries,
};

verus! {

/// The names of members differ.
proof fn lemma_names()
    ensures
        "columns"@.len() == 7,
        "complete"@.len() == 8,
        "dataset"@.len() == 7,
        "datasets"@.len() == 8,
        "errors"@.len() == 6,
        "id"@.len() == 2,
        "inserted"@.len() == 8,
        "job_type"@.len() == 8,
        "jobs"@.len() == 4,
        "json"@.len() == 4,
        "maxResults"@.len() == 10,
        "project"@.len() == 7,
        "query"@.len() == 5,
        "resource"@.len() == 8,
        "rows"@.len() == 4,
        "state"@.len() == 5,
        "table"@.len() == 5,
        "tables"@.len() == 6,
        "timeoutMs"@.len() == 9,
        "total_rows"@.len() == 10,
        "useLegacySql"@.len() == 12,
        "user_email"@.len() == 10,
{
    reveal_strlit("columns");
    reveal_strlit("complete");
    reveal_strlit("dataset");
    reveal_strlit("datasets");
    reveal_strlit("errors");
    reveal_strlit("id");
    reveal_strlit("inserted");
    reveal_strlit("job_type");
    reveal_strlit("jobs");
    reveal_strlit("json");
    reveal_strlit("maxResults");
    reveal_strlit("project");
    reveal_strlit("query");
    reveal_strlit("resource");
    reveal_strlit("rows");
    reveal_strlit("state");
    reveal_strlit("table");
    reveal_strlit("tables");
    reveal_strlit("timeoutMs");
    reveal_strlit("total_rows");
    reveal_strlit("useLegacySql");
    reveal_strlit("user_email");
}

/// A query is sent in standard SQL, with the limits that are given.
pub proof fn bigquery_query_asks(opts: JsonView, env: EnvView)
    ensures
        project_of(opts, env) is None ==> refuses(Op::BigqueryQuery, opts, env, "missing project"@),
        project_of(opts, env) is Some && opts.str_at("query"@) is None
            ==> refuses(Op::BigqueryQuery, opts, env, "missing query"@),
        project_of(opts, env) is Some && opts.str_at("query"@) is Some ==> ({
            let project = project_of(opts, env)->0;
            let query = opts.str_at("query"@)->0;
            &&& call_of(Op::BigqueryQuery, opts, env) is Ok
            &&& ({
                let sent = call_of(Op::BigqueryQuery, opts, env)->Ok_0;
                let content = sent.body->Json_0;
                &&& sent.method == Method::Post
                &&& asks_for(
                        sent.url,
                        "https://bigquery.googleapis.com/bigquery/v2/"@,
                        seq!["projects"@, project, "queries"@],
                        None,
                        Seq::empty(),
                    )
                &&& sent.query == Seq::<(Seq<char>, Seq<char>)>::empty()
                &&& sent.headers == Seq::<(Seq<char>, Seq<char>)>::empty()
                &&& sent.body is Json
                &&& content is Obj
                &&& content->Obj_0.dom().subset_of(set!["query"@, "useLegacySql"@,
                    "maxResults"@, "timeoutMs"@])
                &&& content.at("query"@) == JsonView::Str(query)
                &&& content.at("useLegacySql"@) == JsonView::Bool(false)
                &&& opts.at("max_results"@).as_u64() is Some
                    ==> content.at("maxResults"@)
                    == JsonView::Int(opts.at("max_results"@).as_u64()->0)
                &&& !(opts.at("max_results"@).as_u64() is Some)
                    ==> !content->Obj_0.dom().contains("maxResults"@)
                &&& opts.at("timeout_ms"@).as_u64() is Some
                    ==> content.at("timeoutMs"@)
                    == JsonView::Int(opts.at("timeout_ms"@).as_u64()->0)
                &&& !(opts.at("timeout_ms"@).as_u64() is Some)
                    ==> !content->Obj_0.dom().contains("timeoutMs"@)
            })
        }),
{
    lemma_names();
    if project_of(opts, env) is Some && opts.str_at("query"@) is Some {
        let project = project_of(opts, env)->0;
        lemma_bigquery_queries(project);
    }
}

/// The columns are the names of the fields of the schema, and there are as many rows as in the
/// answer.
pub proof fn bigquery_query_gives(opts: JsonView, env: EnvView, body: JsonView)
    requires
        call_of(Op::BigqueryQuery, opts, env) is Ok,
    ensures
        result_of(Op::BigqueryQuery, opts, env, ReplyView::Document(body)) is Ok,
        ({
            let given = result_of(Op::BigqueryQuery, opts, env, ReplyView::Document(body))->Ok_0;
            &&& has_members(given, set!["columns"@, "rows"@, "total_rows"@, "complete"@])
            &&& given.at("columns"@) is Arr
            &&& given.at("columns"@)->Arr_0.len() == body.at("schema"@).list("fields"@).len()
            &&& forall|i: int| 0 <= i < body.at("schema"@).list("fields"@).len()
                ==> (#[trigger] given.at("columns"@)->Arr_0[i])
                == JsonView::Str(body.at("schema"@).list("fields"@)[i].str_or("name"@, ""@))
            &&& given.at("rows"@) is Arr
            &&& given.at("rows"@)->Arr_0.len() == body.list("rows"@).len()
            &&& given.at("total_rows"@) == body.at("totalRows"@)
            &&& body.at("jobComplete"@) is Bool ==> given.at("complete"@) == body.at("jobComplete"@)
            &&& !(body.at("jobComplete"@) is Bool) ==> given.at("complete"@) == JsonView::Bool(true)
        }),
{
    lemma_names();
}

/// Inserting sends each row to the table, in its place.
pub proof fn bigquery_insert_asks(opts: JsonView, env: EnvView)
    ensures
        project_of(opts, env) is None
            ==> refuses(Op::BigqueryInsert, opts, env, "missing project"@),
        project_of(opts, env) is Some && opts.str_at("dataset"@) is None
            ==> refuses(Op::BigqueryInsert, opts, env, "missing dataset"@),
        project_of(opts, env) is Some && opts.str_at("dataset"@) is Some
            && opts.str_at("table"@) is None
            ==> refuses(Op::BigqueryInsert, opts, env, "missing table"@),
        project_of(opts, env) is Some && opts.str_at("dataset"@) is Some
            && opts.str_at("table"@) is Some && !(opts.at("rows"@) is Arr)
            ==> refuses(Op::BigqueryInsert, opts, env, "missing rows (an array of objects)"@),
        project_of(opts, env) is Some && opts.str_at("dataset"@) is Some
            && opts.str_at("table"@) is Some && opts.at("rows"@) is Arr ==> ({
            let project = project_of(opts, env)->0;
            let dataset = opts.str_at("dataset"@)->0;
            let table = opts.str_at("table"@)->0;
            let rows = opts.at("rows"@)->Arr_0;
            &&& call_of(Op::BigqueryInsert, opts, env) is Ok
            &&& ({
                let sent = call_of(Op::BigqueryInsert, opts, env)->Ok_0;
                let content = sent.body->Json_0;
                &&& sent.method == Method::Post
                &&& asks_for(
                        sent.url,
                        "https://bigquery.googleapis.com/bigquery/v2/"@,
                        seq!["projects"@, project, "datasets"@, dataset, "tables"@, table,
                            "insertAll"@],
                        None,
                        Seq::empty(),
                    )
                &&& sent.query == Seq::<(Seq<char>, Seq<char>)>::empty()
                &&& sent.headers == Seq::<(Seq<char>, Seq<char>)>::empty()
                &&& sent.body is Json
                &&& has_members(content, set!["rows"@])
                &&& content.at("rows"@) is Arr
                &&& content.at("rows"@)->Arr_0.len() == rows.len()
                &&& forall|i: int| 0 <= i < rows.len() ==> {
                        let row = #[trigger] content.at("rows"@)->Arr_0[i];
                        let o = rows[i];
                        &&& has_members(row, set!["json"@])
                        &&& row.at("json"@) == o
                    }
            })
        }),
{
    lemma_names();
    if project_of(opts, env) is Some && opts.str_at("dataset"@) is Some
        && opts.str_at("table"@) is Some && opts.at("rows"@) is Arr {
        let project = project_of(opts, env)->0;
        let dataset = opts.str_at("dataset"@)->0;
        let table = opts.str_at("table"@)->0;
        lemma_bigquery_datasets_tables_insert_all(project, dataset, table);
    }
}

/// The number of rows is that of the rows that were sent.
pub proof fn bigquery_insert_gives(opts: JsonView, env: EnvView, body: JsonView)
    requires
        call_of(Op::BigqueryInsert, opts, env) is Ok,
    ensures
        result_of(Op::BigqueryInsert, opts, env, ReplyView::Document(body)) is Ok,
        ({
            let rows = opts.at("rows"@)->Arr_0;
            let given = result_of(Op::BigqueryInsert, opts, env, ReplyView::Document(body))->Ok_0;
            &&& has_members(given, set!["inserted"@, "errors"@])
            &&& given.at("inserted"@) == JsonView::Int(rows.len() as int)
            &&& given.at("errors"@) == body.at("insertErrors"@)
        }),
{
    lemma_names();
}

/// Listing datasets asks for those of the project.
pub proof fn bigquery_list_datasets_asks(opts: JsonView, env: EnvView)
    ensures
        project_of(opts, env) is None
            ==> refuses(Op::BigqueryListDatasets, opts, env, "missing project"@),
        project_of(opts, env) is Some ==> ({
            let project = project_of(opts, env)->0;
            &&& call_of(Op::BigqueryListDatasets, opts, env) is Ok
            &&& ({
                let sent = call_of(Op::BigqueryListDatasets, opts, env)->Ok_0;
                &&& sent.method == Method::Get
                &&& asks_for(
                        sent.url,
                        "https://bigquery.googleapis.com/bigquery/v2/"@,
                        seq!["projects"@, project, "datasets"@],
                        None,
                        Seq::empty(),
                    )
                &&& sent.query == Seq::<(Seq<char>, Seq<char>)>::empty()
                &&& sent.headers == Seq::<(Seq<char>, Seq<char>)>::empty()
                &&& sent.body == BodyView::Empty
            })
        }),
{
    lemma_names();
    if project_of(opts, env) is Some {
        let project = project_of(opts, env)->0;
        lemma_bigquery_datasets(project);
    }
}

/// The datasets are the ids in the answer, in their order.
pub proof fn bigquery_list_datasets_gives(opts: JsonView, env: EnvView, body: JsonView)
    requires
        call_of(Op::BigqueryListDatasets, opts, env) is Ok,
    ensures
        result_of(Op::BigqueryListDatasets, opts, env, ReplyView::Document(body)) is Ok,
        ({
            let project = project_of(opts, env)->0;
            let given = result_of(Op::BigqueryListDatasets, opts, env,
                ReplyView::Document(body))->Ok_0;
            &&& has_members(given, set!["project"@, "datasets"@])
            &&& given.at("project"@) == JsonView::Str(project)
            &&& given.at("datasets"@) == JsonView::Arr(
                    body.list("datasets"@).filter(|o: JsonView| o.at("datasetReference"@).at(
                        "datasetId"@) is Str).map_values(
                        |o: JsonView| o.at("datasetReference"@).at("datasetId"@),
                    ),
                )
        }),
{
    lemma_names();
    lemma_kept(
        body.list("datasets"@),
        |o: JsonView| dataset_id(o),
        |o: JsonView| o.at("datasetReference"@).at("datasetId"@) is Str,
        |o: JsonView| o.at("datasetReference"@).at("datasetId"@),
    );
}

/// Asking for a dataset asks for it under the project.
pub proof fn bigquery_get_dataset_asks(opts: JsonView, env: EnvView)
    ensures
        project_of(opts, env) is None
            ==> refuses(Op::BigqueryGetDataset, opts, env, "missing project"@),
        project_of(opts, env) is Some && opts.str_at("dataset"@) is None
            ==> refuses(Op::BigqueryGetDataset, opts, env, "missing dataset"@),
        project_of(opts, env) is Some && opts.str_at("dataset"@) is Some ==> ({
            let project = project_of(opts, env)->0;
            let dataset = opts.str_at("dataset"@)->0;
            &&& call_of(Op::BigqueryGetDataset, opts, env) is Ok
            &&& ({
                let sent = call_of(Op::BigqueryGetDataset, opts, env)->Ok_0;
                &&& sent.method == Method::Get
                &&& asks_for(
                        sent.url,
                        "https://bigquery.googleapis.com/bigquery/v2/"@,
                        seq!["projects"@, project, "datasets"@, dataset],
                        None,
                        Seq::empty(),
                    )
                &&& sent.query == Seq::<(Seq<char>, Seq<char>)>::empty()
                &&& sent.headers == Seq::<(Seq<char>, Seq<char>)>::empty()
                &&& sent.body == BodyView::Empty
            })
        }),
{
    lemma_names();
    if project_of(opts, env) is Some && opts.str_at("dataset"@) is Some {
        let project = project_of(opts, env)->0;
        let dataset = opts.str_at("dataset"@)->0;
        lemma_bigquery_datasets_dataset(project, dataset);
    }
}

/// The resource is the answer.
pub proof fn bigquery_get_dataset_gives(opts: JsonView, env: EnvView, body: JsonView)
    requires
        call_of(Op::BigqueryGetDataset, opts, env) is Ok,
    ensures
        result_of(Op::BigqueryGetDataset, opts, env, ReplyView::Document(body)) is Ok,
        ({
            let dataset = opts.str_at("dataset"@)->0;
            let given = result_of(Op::BigqueryGetDataset, opts, env,
                ReplyView::Document(body))->Ok_0;
            &&& has_members(given, set!["dataset"@, "resource"@])
            &&& given.at("dataset"@) == JsonView::Str(dataset)
            &&& given.at("resource"@) == body
        }),
{
    lemma_names();
}

/// Listing tables asks for those of the dataset.
pub proof fn bigquery_list_tables_asks(opts: JsonView, env: EnvView)
    ensures
        project_of(opts, env) is None
            ==> refuses(Op::BigqueryListTables, opts, env, "missing project"@),
        project_of(opts, env) is Some && opts.str_at("dataset"@) is None
            ==> refuses(Op::BigqueryListTables, opts, env, "missing dataset"@),
        project_of(opts, env) is Some && opts.str_at("dataset"@) is Some ==> ({
            let project = project_of(opts, env)->0;
            let dataset = opts.str_at("dataset"@)->0;
            &&& call_of(Op::BigqueryListTables, opts, env) is Ok
            &&& ({
                let sent = call_of(Op::BigqueryListTables, opts, env)->Ok_0;
                &&& sent.method == Method::Get
                &&& asks_for(
                        sent.url,
                        "https://bigquery.googleapis.com/bigquery/v2/"@,
                        seq!["projects"@, project, "datasets"@, dataset, "tables"@],
                        None,
                        Seq::empty(),
                    )
                &&& sent.query == Seq::<(Seq<char>, Seq<char>)>::empty()
                &&& sent.headers == Seq::<(Seq<char>, Seq<char>)>::empty()
                &&& sent.body == BodyView::Empty
            })
        }),
{
    lemma_names();
    if project_of(opts, env) is Some && opts.str_at("dataset"@) is Some {
        let project = project_of(opts, env)->0;
        let dataset = opts.str_at("dataset"@)->0;
        lemma_bigquery_datasets_tables(project, dataset);
    }
}

/// The tables are the ids in the answer, in their order.
pub proof fn bigquery_list_tables_gives(opts: JsonView, env: EnvView, body: JsonView)
    requires
        call_of(Op::BigqueryListTables, opts, env) is Ok,
    ensures
        result_of(Op::BigqueryListTables, opts, env, ReplyView::Document(body)) is Ok,
        ({
            let dataset = opts.str_at("dataset"@)->0;
            let given = result_of(Op::BigqueryListTables, opts, env,
                ReplyView::Document(body))->Ok_0;
            &&& has_members(given, set!["dataset"@, "tables"@])
            &&& given.at("dataset"@) == JsonView::Str(dataset)
            &&& given.at("tables"@) == JsonView::Arr(
                    body.list("tables"@).filter(|o: JsonView| o.at("tableReference"@).at(
                        "tableId"@) is Str).map_values(
                        |o: JsonView| o.at("tableReference"@).at("tableId"@),
                    ),
                )
        }),
{
    lemma_names();
    lemma_kept(
        body.list("tables"@),
        |o: JsonView| table_id(o),
        |o: JsonView| o.at("tableReference"@).at("tableId"@) is Str,
        |o: JsonView| o.at("tableReference"@).at("tableId"@),
    );
}

/// Asking for a table asks for it in the dataset.
pub proof fn bigquery_get_table_asks(opts: JsonView, env: EnvView)
    ensures
        project_of(opts, env) is None
            ==> refuses(Op::BigqueryGetTable, opts, env, "missing project"@),
        project_of(opts, env) is Some && opts.str_at("dataset"@) is None
            ==> refuses(Op::BigqueryGetTable, opts, env, "missing dataset"@),
        project_of(opts, env) is Some && opts.str_at("dataset"@) is Some
            && opts.str_at("table"@) is None
            ==> refuses(Op::BigqueryGetTable, opts, env, "missing table"@),
        project_of(opts, env) is Some && opts.str_at("dataset"@) is Some
            && opts.str_at("table"@) is Some ==> ({
            let project = project_of(opts, env)->0;
            let dataset = opts.str_at("dataset"@)->0;
            let table = opts.str_at("table"@)->0;
            &&& call_of(Op::BigqueryGetTable, opts, env) is Ok
            &&& ({
                let sent = call_of(Op::BigqueryGetTable, opts, env)->Ok_0;
                &&& sent.method == Method::Get
                &&& asks_for(
                        sent.url,
                        "https://bigquery.googleapis.com/bigquery/v2/"@,
                        seq!["projects"@, project, "datasets"@, dataset, "tables"@, table],
                        None,
                        Seq::empty(),
                    )
                &&& sent.query == Seq::<(Seq<char>, Seq<char>)>::empty()
                &&& sent.headers == Seq::<(Seq<char>, Seq<char>)>::empty()
                &&& sent.body == BodyView::Empty
            })
        }),
{
    lemma_names();
    if project_of(opts, env) is Some && opts.str_at("dataset"@) is Some
        && opts.str_at("table"@) is Some {
        let project = project_of(opts, env)->0;
        let dataset = opts.str_at("dataset"@)->0;
        let table = opts.str_at("table"@)->0;
        lemma_bigquery_datasets_tables_table(project, dataset, table);
    }
}

/// The resource is the answer.
pub proof fn bigquery_get_table_gives(opts: JsonView, env: EnvView, body: JsonView)
    requires
        call_of(Op::BigqueryGetTable, opts, env) is Ok,
    ensures
        result_of(Op::BigqueryGetTable, opts, env, ReplyView::Document(body)) is Ok,
        ({
            let dataset = opts.str_at("dataset"@)->0;
            let table = opts.str_at("table"@)->0;
            let given = result_of(Op::BigqueryGetTable, opts, env, ReplyView::Document(body))->Ok_0;
            &&& has_members(given, set!["dataset"@, "table"@, "resource"@])
            &&& given.at("dataset"@) == JsonView::Str(dataset)
            &&& given.at("table"@) == JsonView::Str(table)
            &&& given.at("resource"@) == body
        }),
{
    lemma_names();
}

/// Listing jobs asks for those of all users where that is set, for as many as are given, and for
/// those in the state that is given.
pub proof fn bigquery_list_jobs_asks(opts: JsonView, env: EnvView)
    ensures
        project_of(opts, env) is None
            ==> refuses(Op::BigqueryListJobs, opts, env, "missing project"@),
        project_of(opts, env) is Some ==> ({
            let project = project_of(opts, env)->0;
            let state = opts.str_at("state_filter"@)->0;
            let limit = match opts.at("max_results"@).as_u64() {
                Some(n) => decimal(n as nat),
                None => decimal(50),
            };
            &&& call_of(Op::BigqueryListJobs, opts, env) is Ok
            &&& ({
                let sent = call_of(Op::BigqueryListJobs, opts, env)->Ok_0;
                &&& sent.method == Method::Get
                &&& is_truthy(opts.at("all_users"@))
                    && opts.str_at("state_filter"@) is Some ==> asks_for(
                        sent.url,
                        "https://bigquery.googleapis.com/bigquery/v2/"@,
                        seq!["projects"@, project, "jobs"@],
                        None,
                        seq![("allUsers"@, "true"@), ("maxResults"@, limit), ("stateFilter"@,
                            state)],
                    )
                &&& is_truthy(opts.at("all_users"@))
                    && opts.str_at("state_filter"@) is None ==> asks_for(
                        sent.url,
                        "https://bigquery.googleapis.com/bigquery/v2/"@,
                        seq!["projects"@, project, "jobs"@],
                        None,
                        seq![("allUsers"@, "true"@), ("maxResults"@, limit)],
                    )
                &&& !is_truthy(opts.at("all_users"@))
                    && opts.str_at("state_filter"@) is Some ==> asks_for(
                        sent.url,
                        "https://bigquery.googleapis.com/bigquery/v2/"@,
                        seq!["projects"@, project, "jobs"@],
                        None,
                        seq![("allUsers"@, "false"@), ("maxResults"@, limit), ("stateFilter"@,
                            state)],
                    )
                &&& !is_truthy(opts.at("all_users"@))
                    && opts.str_at("state_filter"@) is None ==> asks_for(
                        sent.url,
                        "https://bigquery.googleapis.com/bigquery/v2/"@,
                        seq!["projects"@, project, "jobs"@],
                        None,
                        seq![("allUsers"@, "false"@), ("maxResults"@, limit)],
                    )
                &&& sent.query == Seq::<(Seq<char>, Seq<char>)>::empty()
                &&& sent.headers == Seq::<(Seq<char>, Seq<char>)>::empty()
                &&& sent.body == BodyView::Empty
            })
        }),
{
    lemma_names();
    if project_of(opts, env) is Some {
        let project = project_of(opts, env)->0;
        let state = opts.str_at("state_filter"@)->0;
        let limit = match opts.at("max_results"@).as_u64() {
                Some(n) => decimal(n as nat),
                None => decimal(50),
            };
        lemma_decimal_piece(50);
        if let Some(n) = opts.at("max_results"@).as_u64() {
            lemma_decimal_piece(n as nat);
        }
        if is_truthy(opts.at("all_users"@)) && opts.str_at("state_filter"@) is Some {
            lemma_bigquery_jobs_all_users_true_max_results_state_filter(project, limit, state);
        }
        if is_truthy(opts.at("all_users"@)) && opts.str_at("state_filter"@) is None {
            lemma_bigquery_jobs_all_users_true_max_results(project, limit);
        }
        if !is_truthy(opts.at("all_users"@)) && opts.str_at("state_filter"@) is Some {
            lemma_bigquery_jobs_all_users_false_max_results_state_filter(project, limit, state);
        }
        if !is_truthy(opts.at("all_users"@)) && opts.str_at("state_filter"@) is None {
            lemma_bigquery_jobs_all_users_false_max_results(project, limit);
        }
    }
}

/// Each item of the answer stands in its place.
pub proof fn bigquery_list_jobs_gives(opts: JsonView, env: EnvView, body: JsonView)
    requires
        call_of(Op::BigqueryListJobs, opts, env) is Ok,
    ensures
        result_of(Op::BigqueryListJobs, opts, env, ReplyView::Document(body)) is Ok,
        ({
            let project = project_of(opts, env)->0;
            let given = result_of(Op::BigqueryListJobs, opts, env, ReplyView::Document(body))->Ok_0;
            &&& has_members(given, set!["project"@, "jobs"@])
            &&& given.at("project"@) == JsonView::Str(project)
            &&& given.at("jobs"@) is Arr
            &&& given.at("jobs"@)->Arr_0.len() == body.list("jobs"@).len()
            &&& forall|i: int| 0 <= i < body.list("jobs"@).len() ==> {
                    let row = #[trigger] given.at("jobs"@)->Arr_0[i];
                    let o = body.list("jobs"@)[i];
                    &&& has_members(row, set!["id"@, "state"@, "job_type"@, "user_email"@])
                    &&& row.at("id"@) == JsonView::Str(o.at("jobReference"@).str_or("jobId"@, ""@))
                    &&& row.at("state"@) == JsonView::Str(o.at("status"@).str_or("state"@, ""@))
                    &&& o.at("statistics"@).at("query"@) is Obj
                        ==> row.at("job_type"@) == JsonView::Str("query"@)
                    &&& !(o.at("statistics"@).at("query"@) is Obj)
                        ==> row.at("job_type"@)
                        == JsonView::Str(o.at("configuration"@).str_or("jobType"@, ""@))
                    &&& row.at("user_email"@) == JsonView::Str(o.str_or("user_email"@, ""@))
                }
        }),
{
    lemma_names();
}

/// The result of a query holds, in each row and under each column whose name no later column has,
/// the value of the cell at the column's place in the answer's row; null where the row is shorter.
pub proof fn query_rows_hold_the_cells(
    opts: JsonView,
    env: EnvView,
    body: JsonView,
    r: int,
    i: int,
)
    requires
        call_of(Op::BigqueryQuery, opts, env) is Ok,
        0 <= r < body.list("rows"@).len(),
        0 <= i < body.at("schema"@).list("fields"@).len(),
        forall|k: int|
            i < k < body.at("schema"@).list("fields"@).len() ==> (#[trigger] body.at(
                "schema"@,
            ).list("fields"@)[k]).str_or("name"@, ""@) != body.at("schema"@).list(
                "fields"@,
            )[i].str_or("name"@, ""@),
    ensures
        ({
            let given = result_of(
                Op::BigqueryQuery,
                opts,
                env,
                ReplyView::Document(body),
            )->Ok_0;
            let name = body.at("schema"@).list("fields"@)[i].str_or("name"@, ""@);
            let cells = body.list("rows"@)[r].list("f"@);
            &&& given.list("columns"@)[i] == JsonView::Str(name)
            &&& i < cells.len() ==> given.list("rows"@)[r].at(name) == cells[i].at("v"@)
            &&& i >= cells.len() ==> given.list("rows"@)[r].at(name) == JsonView::Null
        }),
{
    lemma_names();
    let fields = body.at("schema"@).list("fields"@);
    let names = columns(body);
    assert forall|k: int| i < k < names.len() implies names[k] != names[i] by {
        assert(names[k] == fields[k].str_or("name"@, ""@));
    }
    rows_have_the_columns(names, body.list("rows"@)[r], i);
}

/// A row of the result of a query has a member for each column of the answer and no other.
pub proof fn query_rows_have_the_columns(
    opts: JsonView,
    env: EnvView,
    body: JsonView,
    r: int,
    name: Seq<char>,
)
    requires
        call_of(Op::BigqueryQuery, opts, env) is Ok,
        0 <= r < body.list("rows"@).len(),
    ensures
        ({
            let given = result_of(
                Op::BigqueryQuery,
                opts,
                env,
                ReplyView::Document(body),
            )->Ok_0;
            &&& given.list("rows"@)[r] is Obj
            &&& given.list("rows"@)[r]->Obj_0.dom().contains(name) <==> given.list(
                "columns"@,
            ).contains(JsonView::Str(name))
        }),
{
    lemma_names();
    let given = result_of(Op::BigqueryQuery, opts, env, ReplyView::Document(body))->Ok_0;
    let names = columns(body);
    let shown = given.list("columns"@);
    assert(shown =~= names.map_values(|t: Seq<char>| JsonView::Str(t)));
    lemma_row_members(names, body.list("rows"@)[r].list("f"@));
    if names.contains(name) {
        let k = choose|k: int| 0 <= k < names.len() && names[k] == name;
        assert(shown[k] == JsonView::Str(name));
    }
    if shown.contains(JsonView::Str(name)) {
        let k = choose|k: int| 0 <= k < shown.len() && shown[k] == JsonView::Str(name);
        assert(names[k] == name);
    }
}

} // verus!
