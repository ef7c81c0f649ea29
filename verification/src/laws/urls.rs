//! How the URLs of the requests are read.

use vstd::prelude::*;
use vstd::string::*;

use crate::codec::url_encoded;
use crate::text::join;
use crate::url::{
    asks_for, lemma_encoded_piece, lemma_joined, lemma_literal_piece, lemma_read, lemma_regroup,
    piece, query_suffix, url_decoded, verb_suffix, written,
};

verus! {

proof fn lemma_word_default()
    ensures
        piece("(default)"@),
        url_decoded("(default)"@) == "(default)"@,
{
    reveal(piece);
    reveal_strlit("(default)");
    lemma_literal_piece("(default)"@);
}

proof fn lemma_word_access()
    ensures
        piece("access"@),
        url_decoded("access"@) == "access"@,
{
    reveal(piece);
    reveal_strlit("access");
    lemma_literal_piece("access"@);
}

proof fn lemma_word_acknowledge()
    ensures
        piece("acknowledge"@),
        url_decoded("acknowledge"@) == "acknowledge"@,
{
    reveal(piece);
    reveal_strlit("acknowledge");
    lemma_literal_piece("acknowledge"@);
}

proof fn lemma_word_addversion()
    ensures
        piece("addVersion"@),
        url_decoded("addVersion"@) == "addVersion"@,
{
    reveal(piece);
    reveal_strlit("addVersion");
    lemma_literal_piece("addVersion"@);
}

proof fn lemma_word_allusers()
    ensures
        piece("allUsers"@),
        url_decoded("allUsers"@) == "allUsers"@,
{
    reveal(piece);
    reveal_strlit("allUsers");
    lemma_literal_piece("allUsers"@);
}

proof fn lemma_word_alt()
    ensures
        piece("alt"@),
        url_decoded("alt"@) == "alt"@,
{
    reveal(piece);
    reveal_strlit("alt");
    lemma_literal_piece("alt"@);
}

proof fn lemma_word_b()
    ensures
        piece("b"@),
        url_decoded("b"@) == "b"@,
{
    reveal(piece);
    reveal_strlit("b");
    lemma_literal_piece("b"@);
}

proof fn lemma_word_compose()
    ensures
        piece("compose"@),
        url_decoded("compose"@) == "compose"@,
{
    reveal(piece);
    reveal_strlit("compose");
    lemma_literal_piece("compose"@);
}

proof fn lemma_word_copyto()
    ensures
        piece("copyTo"@),
        url_decoded("copyTo"@) == "copyTo"@,
{
    reveal(piece);
    reveal_strlit("copyTo");
    lemma_literal_piece("copyTo"@);
}

proof fn lemma_word_databases()
    ensures
        piece("databases"@),
        url_decoded("databases"@) == "databases"@,
{
    reveal(piece);
    reveal_strlit("databases");
    lemma_literal_piece("databases"@);
}

proof fn lemma_word_datasets()
    ensures
        piece("datasets"@),
        url_decoded("datasets"@) == "datasets"@,
{
    reveal(piece);
    reveal_strlit("datasets");
    lemma_literal_piece("datasets"@);
}

proof fn lemma_word_disks()
    ensures
        piece("disks"@),
        url_decoded("disks"@) == "disks"@,
{
    reveal(piece);
    reveal_strlit("disks");
    lemma_literal_piece("disks"@);
}

proof fn lemma_word_documentid()
    ensures
        piece("documentId"@),
        url_decoded("documentId"@) == "documentId"@,
{
    reveal(piece);
    reveal_strlit("documentId");
    lemma_literal_piece("documentId"@);
}

proof fn lemma_word_documents()
    ensures
        piece("documents"@),
        url_decoded("documents"@) == "documents"@,
{
    reveal(piece);
    reveal_strlit("documents");
    lemma_literal_piece("documents"@);
}

proof fn lemma_word_entries()
    ensures
        piece("entries"@),
        url_decoded("entries"@) == "entries"@,
{
    reveal(piece);
    reveal_strlit("entries");
    lemma_literal_piece("entries"@);
}

proof fn lemma_word_false()
    ensures
        piece("false"@),
        url_decoded("false"@) == "false"@,
{
    reveal(piece);
    reveal_strlit("false");
    lemma_literal_piece("false"@);
}

proof fn lemma_word_filter()
    ensures
        piece("filter"@),
        url_decoded("filter"@) == "filter"@,
{
    reveal(piece);
    reveal_strlit("filter");
    lemma_literal_piece("filter"@);
}

proof fn lemma_word_functions()
    ensures
        piece("functions"@),
        url_decoded("functions"@) == "functions"@,
{
    reveal(piece);
    reveal_strlit("functions");
    lemma_literal_piece("functions"@);
}

proof fn lemma_word_iam()
    ensures
        piece("iam"@),
        url_decoded("iam"@) == "iam"@,
{
    reveal(piece);
    reveal_strlit("iam");
    lemma_literal_piece("iam"@);
}

proof fn lemma_word_insertall()
    ensures
        piece("insertAll"@),
        url_decoded("insertAll"@) == "insertAll"@,
{
    reveal(piece);
    reveal_strlit("insertAll");
    lemma_literal_piece("insertAll"@);
}

proof fn lemma_word_instances()
    ensures
        piece("instances"@),
        url_decoded("instances"@) == "instances"@,
{
    reveal(piece);
    reveal_strlit("instances");
    lemma_literal_piece("instances"@);
}

proof fn lemma_word_interval_endtime()
    ensures
        piece("interval.endTime"@),
        url_decoded("interval.endTime"@) == "interval.endTime"@,
{
    reveal(piece);
    reveal_strlit("interval.endTime");
    lemma_literal_piece("interval.endTime"@);
}

proof fn lemma_word_interval_starttime()
    ensures
        piece("interval.startTime"@),
        url_decoded("interval.startTime"@) == "interval.startTime"@,
{
    reveal(piece);
    reveal_strlit("interval.startTime");
    lemma_literal_piece("interval.startTime"@);
}

proof fn lemma_word_jobs()
    ensures
        piece("jobs"@),
        url_decoded("jobs"@) == "jobs"@,
{
    reveal(piece);
    reveal_strlit("jobs");
    lemma_literal_piece("jobs"@);
}

proof fn lemma_word_list()
    ensures
        piece("list"@),
        url_decoded("list"@) == "list"@,
{
    reveal(piece);
    reveal_strlit("list");
    lemma_literal_piece("list"@);
}

proof fn lemma_word_locations()
    ensures
        piece("locations"@),
        url_decoded("locations"@) == "locations"@,
{
    reveal(piece);
    reveal_strlit("locations");
    lemma_literal_piece("locations"@);
}

proof fn lemma_word_logs()
    ensures
        piece("logs"@),
        url_decoded("logs"@) == "logs"@,
{
    reveal(piece);
    reveal_strlit("logs");
    lemma_literal_piece("logs"@);
}

proof fn lemma_word_machinetypes()
    ensures
        piece("machineTypes"@),
        url_decoded("machineTypes"@) == "machineTypes"@,
{
    reveal(piece);
    reveal_strlit("machineTypes");
    lemma_literal_piece("machineTypes"@);
}

proof fn lemma_word_maxresults()
    ensures
        piece("maxResults"@),
        url_decoded("maxResults"@) == "maxResults"@,
{
    reveal(piece);
    reveal_strlit("maxResults");
    lemma_literal_piece("maxResults"@);
}

proof fn lemma_word_media()
    ensures
        piece("media"@),
        url_decoded("media"@) == "media"@,
{
    reveal(piece);
    reveal_strlit("media");
    lemma_literal_piece("media"@);
}

proof fn lemma_word_metricdescriptors()
    ensures
        piece("metricDescriptors"@),
        url_decoded("metricDescriptors"@) == "metricDescriptors"@,
{
    reveal(piece);
    reveal_strlit("metricDescriptors");
    lemma_literal_piece("metricDescriptors"@);
}

proof fn lemma_word_name()
    ensures
        piece("name"@),
        url_decoded("name"@) == "name"@,
{
    reveal(piece);
    reveal_strlit("name");
    lemma_literal_piece("name"@);
}

proof fn lemma_word_o()
    ensures
        piece("o"@),
        url_decoded("o"@) == "o"@,
{
    reveal(piece);
    reveal_strlit("o");
    lemma_literal_piece("o"@);
}

proof fn lemma_word_pagesize()
    ensures
        piece("pageSize"@),
        url_decoded("pageSize"@) == "pageSize"@,
{
    reveal(piece);
    reveal_strlit("pageSize");
    lemma_literal_piece("pageSize"@);
}

proof fn lemma_word_prefix()
    ensures
        piece("prefix"@),
        url_decoded("prefix"@) == "prefix"@,
{
    reveal(piece);
    reveal_strlit("prefix");
    lemma_literal_piece("prefix"@);
}

proof fn lemma_word_project()
    ensures
        piece("project"@),
        url_decoded("project"@) == "project"@,
{
    reveal(piece);
    reveal_strlit("project");
    lemma_literal_piece("project"@);
}

proof fn lemma_word_projects()
    ensures
        piece("projects"@),
        url_decoded("projects"@) == "projects"@,
{
    reveal(piece);
    reveal_strlit("projects");
    lemma_literal_piece("projects"@);
}

proof fn lemma_word_publish()
    ensures
        piece("publish"@),
        url_decoded("publish"@) == "publish"@,
{
    reveal(piece);
    reveal_strlit("publish");
    lemma_literal_piece("publish"@);
}

proof fn lemma_word_pull()
    ensures
        piece("pull"@),
        url_decoded("pull"@) == "pull"@,
{
    reveal(piece);
    reveal_strlit("pull");
    lemma_literal_piece("pull"@);
}

proof fn lemma_word_queries()
    ensures
        piece("queries"@),
        url_decoded("queries"@) == "queries"@,
{
    reveal(piece);
    reveal_strlit("queries");
    lemma_literal_piece("queries"@);
}

proof fn lemma_word_regions()
    ensures
        piece("regions"@),
        url_decoded("regions"@) == "regions"@,
{
    reveal(piece);
    reveal_strlit("regions");
    lemma_literal_piece("regions"@);
}

proof fn lemma_word_reset()
    ensures
        piece("reset"@),
        url_decoded("reset"@) == "reset"@,
{
    reveal(piece);
    reveal_strlit("reset");
    lemma_literal_piece("reset"@);
}

proof fn lemma_word_revisions()
    ensures
        piece("revisions"@),
        url_decoded("revisions"@) == "revisions"@,
{
    reveal(piece);
    reveal_strlit("revisions");
    lemma_literal_piece("revisions"@);
}

proof fn lemma_word_runquery()
    ensures
        piece("runQuery"@),
        url_decoded("runQuery"@) == "runQuery"@,
{
    reveal(piece);
    reveal_strlit("runQuery");
    lemma_literal_piece("runQuery"@);
}

proof fn lemma_word_secretid()
    ensures
        piece("secretId"@),
        url_decoded("secretId"@) == "secretId"@,
{
    reveal(piece);
    reveal_strlit("secretId");
    lemma_literal_piece("secretId"@);
}

proof fn lemma_word_secrets()
    ensures
        piece("secrets"@),
        url_decoded("secrets"@) == "secrets"@,
{
    reveal(piece);
    reveal_strlit("secrets");
    lemma_literal_piece("secrets"@);
}

proof fn lemma_word_serviceaccounts()
    ensures
        piece("serviceAccounts"@),
        url_decoded("serviceAccounts"@) == "serviceAccounts"@,
{
    reveal(piece);
    reveal_strlit("serviceAccounts");
    lemma_literal_piece("serviceAccounts"@);
}

proof fn lemma_word_services()
    ensures
        piece("services"@),
        url_decoded("services"@) == "services"@,
{
    reveal(piece);
    reveal_strlit("services");
    lemma_literal_piece("services"@);
}

proof fn lemma_word_start()
    ensures
        piece("start"@),
        url_decoded("start"@) == "start"@,
{
    reveal(piece);
    reveal_strlit("start");
    lemma_literal_piece("start"@);
}

proof fn lemma_word_statefilter()
    ensures
        piece("stateFilter"@),
        url_decoded("stateFilter"@) == "stateFilter"@,
{
    reveal(piece);
    reveal_strlit("stateFilter");
    lemma_literal_piece("stateFilter"@);
}

proof fn lemma_word_stop()
    ensures
        piece("stop"@),
        url_decoded("stop"@) == "stop"@,
{
    reveal(piece);
    reveal_strlit("stop");
    lemma_literal_piece("stop"@);
}

proof fn lemma_word_subscriptions()
    ensures
        piece("subscriptions"@),
        url_decoded("subscriptions"@) == "subscriptions"@,
{
    reveal(piece);
    reveal_strlit("subscriptions");
    lemma_literal_piece("subscriptions"@);
}

proof fn lemma_word_tables()
    ensures
        piece("tables"@),
        url_decoded("tables"@) == "tables"@,
{
    reveal(piece);
    reveal_strlit("tables");
    lemma_literal_piece("tables"@);
}

proof fn lemma_word_timeseries()
    ensures
        piece("timeSeries"@),
        url_decoded("timeSeries"@) == "timeSeries"@,
{
    reveal(piece);
    reveal_strlit("timeSeries");
    lemma_literal_piece("timeSeries"@);
}

proof fn lemma_word_topics()
    ensures
        piece("topics"@),
        url_decoded("topics"@) == "topics"@,
{
    reveal(piece);
    reveal_strlit("topics");
    lemma_literal_piece("topics"@);
}

proof fn lemma_word_true()
    ensures
        piece("true"@),
        url_decoded("true"@) == "true"@,
{
    reveal(piece);
    reveal_strlit("true");
    lemma_literal_piece("true"@);
}

proof fn lemma_word_uploadtype()
    ensures
        piece("uploadType"@),
        url_decoded("uploadType"@) == "uploadType"@,
{
    reveal(piece);
    reveal_strlit("uploadType");
    lemma_literal_piece("uploadType"@);
}

proof fn lemma_word_versions()
    ensures
        piece("versions"@),
        url_decoded("versions"@) == "versions"@,
{
    reveal(piece);
    reveal_strlit("versions");
    lemma_literal_piece("versions"@);
}

proof fn lemma_word_write()
    ensures
        piece("write"@),
        url_decoded("write"@) == "write"@,
{
    reveal(piece);
    reveal_strlit("write");
    lemma_literal_piece("write"@);
}

proof fn lemma_word_zones()
    ensures
        piece("zones"@),
        url_decoded("zones"@) == "zones"@,
{
    reveal(piece);
    reveal_strlit("zones");
    lemma_literal_piece("zones"@);
}

pub proof fn lemma_bigquery_datasets(project: Seq<char>)
    ensures
        asks_for(
            "https://bigquery.googleapis.com/bigquery/v2/projects/"@ + url_encoded(project)
                + "/datasets"@,
            "https://bigquery.googleapis.com/bigquery/v2/"@,
            seq!["projects"@, project, "datasets"@],
            None,
            Seq::empty(),
        ),
{
    lemma_word_projects();
    lemma_word_datasets();
    lemma_encoded_piece(project);
    assert("https://bigquery.googleapis.com/bigquery/v2/projects/"@
        == "https://bigquery.googleapis.com/bigquery/v2/"@ + "projects"@ + seq!['/']) by {
        reveal_strlit("https://bigquery.googleapis.com/bigquery/v2/projects/");
        reveal_strlit("https://bigquery.googleapis.com/bigquery/v2/");
        reveal_strlit("projects");
    }
    assert("/datasets"@ == seq!['/'] + "datasets"@) by {
        reveal_strlit("/datasets");
        reveal_strlit("datasets");
    }
    let pieces = seq!["projects"@, url_encoded(project), "datasets"@];
    lemma_joined(pieces, seq!['/']);
    let parameters = Seq::<(Seq<char>, Seq<char>)>::empty();
    let url = "https://bigquery.googleapis.com/bigquery/v2/projects/"@ + url_encoded(project)
        + "/datasets"@;
    assert(url =~= "https://bigquery.googleapis.com/bigquery/v2/"@ + join(pieces, seq!['/'])
        + verb_suffix(None) + query_suffix(None)) by {
        lemma_regroup();
    }
    lemma_read(url, "https://bigquery.googleapis.com/bigquery/v2/"@, pieces, None, parameters);
    assert(pieces.map_values(|s: Seq<char>| url_decoded(s)) =~= seq!["projects"@, project,
        "datasets"@]);
    assert(parameters.map_values(|p: (Seq<char>, Seq<char>)| (p.0,
        url_decoded(p.1))) =~= Seq::empty());
}

pub proof fn lemma_bigquery_datasets_dataset(project: Seq<char>, dataset: Seq<char>)
    ensures
        asks_for(
            "https://bigquery.googleapis.com/bigquery/v2/projects/"@ + url_encoded(project)
                + "/datasets/"@ + url_encoded(dataset),
            "https://bigquery.googleapis.com/bigquery/v2/"@,
            seq!["projects"@, project, "datasets"@, dataset],
            None,
            Seq::empty(),
        ),
{
    lemma_word_projects();
    lemma_word_datasets();
    lemma_encoded_piece(project);
    lemma_encoded_piece(dataset);
    assert("https://bigquery.googleapis.com/bigquery/v2/projects/"@
        == "https://bigquery.googleapis.com/bigquery/v2/"@ + "projects"@ + seq!['/']) by {
        reveal_strlit("https://bigquery.googleapis.com/bigquery/v2/projects/");
        reveal_strlit("https://bigquery.googleapis.com/bigquery/v2/");
        reveal_strlit("projects");
    }
    assert("/datasets/"@ == seq!['/'] + "datasets"@ + seq!['/']) by {
        reveal_strlit("/datasets/");
        reveal_strlit("datasets");
    }
    let pieces = seq!["projects"@, url_encoded(project), "datasets"@, url_encoded(dataset)];
    lemma_joined(pieces, seq!['/']);
    let parameters = Seq::<(Seq<char>, Seq<char>)>::empty();
    let url = "https://bigquery.googleapis.com/bigquery/v2/projects/"@ + url_encoded(project)
        + "/datasets/"@ + url_encoded(dataset);
    assert(url =~= "https://bigquery.googleapis.com/bigquery/v2/"@ + join(pieces, seq!['/'])
        + verb_suffix(None) + query_suffix(None)) by {
        lemma_regroup();
    }
    lemma_read(url, "https://bigquery.googleapis.com/bigquery/v2/"@, pieces, None, parameters);
    assert(pieces.map_values(|s: Seq<char>| url_decoded(s)) =~= seq!["projects"@, project,
        "datasets"@, dataset]);
    assert(parameters.map_values(|p: (Seq<char>, Seq<char>)| (p.0,
        url_decoded(p.1))) =~= Seq::empty());
}

pub proof fn lemma_bigquery_datasets_tables(project: Seq<char>, dataset: Seq<char>)
    ensures
        asks_for(
            "https://bigquery.googleapis.com/bigquery/v2/projects/"@ + url_encoded(project)
                + "/datasets/"@ + url_encoded(dataset) + "/tables"@,
            "https://bigquery.googleapis.com/bigquery/v2/"@,
            seq!["projects"@, project, "datasets"@, dataset, "tables"@],
            None,
            Seq::empty(),
        ),
{
    lemma_word_projects();
    lemma_word_datasets();
    lemma_word_tables();
    lemma_encoded_piece(project);
    lemma_encoded_piece(dataset);
    assert("https://bigquery.googleapis.com/bigquery/v2/projects/"@
        == "https://bigquery.googleapis.com/bigquery/v2/"@ + "projects"@ + seq!['/']) by {
        reveal_strlit("https://bigquery.googleapis.com/bigquery/v2/projects/");
        reveal_strlit("https://bigquery.googleapis.com/bigquery/v2/");
        reveal_strlit("projects");
    }
    assert("/datasets/"@ == seq!['/'] + "datasets"@ + seq!['/']) by {
        reveal_strlit("/datasets/");
        reveal_strlit("datasets");
    }
    assert("/tables"@ == seq!['/'] + "tables"@) by {
        reveal_strlit("/tables");
        reveal_strlit("tables");
    }
    let pieces = seq!["projects"@, url_encoded(project), "datasets"@, url_encoded(dataset),
        "tables"@];
    lemma_joined(pieces, seq!['/']);
    let parameters = Seq::<(Seq<char>, Seq<char>)>::empty();
    let url = "https://bigquery.googleapis.com/bigquery/v2/projects/"@ + url_encoded(project)
        + "/datasets/"@ + url_encoded(dataset) + "/tables"@;
    assert(url =~= "https://bigquery.googleapis.com/bigquery/v2/"@ + join(pieces, seq!['/'])
        + verb_suffix(None) + query_suffix(None)) by {
        lemma_regroup();
    }
    lemma_read(url, "https://bigquery.googleapis.com/bigquery/v2/"@, pieces, None, parameters);
    assert(pieces.map_values(|s: Seq<char>| url_decoded(s)) =~= seq!["projects"@, project,
        "datasets"@, dataset, "tables"@]);
    assert(parameters.map_values(|p: (Seq<char>, Seq<char>)| (p.0,
        url_decoded(p.1))) =~= Seq::empty());
}

pub proof fn lemma_bigquery_datasets_tables_insert_all(
    project: Seq<char>,
    dataset: Seq<char>,
    table: Seq<char>,
)
    ensures
        asks_for(
            "https://bigquery.googleapis.com/bigquery/v2/projects/"@ + url_encoded(project)
                + "/datasets/"@ + url_encoded(dataset) + "/tables/"@ + url_encoded(table)
                + "/insertAll"@,
            "https://bigquery.googleapis.com/bigquery/v2/"@,
            seq!["projects"@, project, "datasets"@, dataset, "tables"@, table, "insertAll"@],
            None,
            Seq::empty(),
        ),
{
    lemma_word_projects();
    lemma_word_datasets();
    lemma_word_tables();
    lemma_word_insertall();
    lemma_encoded_piece(project);
    lemma_encoded_piece(dataset);
    lemma_encoded_piece(table);
    assert("https://bigquery.googleapis.com/bigquery/v2/projects/"@
        == "https://bigquery.googleapis.com/bigquery/v2/"@ + "projects"@ + seq!['/']) by {
        reveal_strlit("https://bigquery.googleapis.com/bigquery/v2/projects/");
        reveal_strlit("https://bigquery.googleapis.com/bigquery/v2/");
        reveal_strlit("projects");
    }
    assert("/datasets/"@ == seq!['/'] + "datasets"@ + seq!['/']) by {
        reveal_strlit("/datasets/");
        reveal_strlit("datasets");
    }
    assert("/tables/"@ == seq!['/'] + "tables"@ + seq!['/']) by {
        reveal_strlit("/tables/");
        reveal_strlit("tables");
    }
    assert("/insertAll"@ == seq!['/'] + "insertAll"@) by {
        reveal_strlit("/insertAll");
        reveal_strlit("insertAll");
    }
    let pieces = seq!["projects"@, url_encoded(project), "datasets"@, url_encoded(dataset),
        "tables"@, url_encoded(table), "insertAll"@];
    lemma_joined(pieces, seq!['/']);
    let parameters = Seq::<(Seq<char>, Seq<char>)>::empty();
    let url = "https://bigquery.googleapis.com/bigquery/v2/projects/"@ + url_encoded(project)
        + "/datasets/"@ + url_encoded(dataset) + "/tables/"@ + url_encoded(table) + "/insertAll"@;
    assert(url =~= "https://bigquery.googleapis.com/bigquery/v2/"@ + join(pieces, seq!['/'])
        + verb_suffix(None) + query_suffix(None)) by {
        lemma_regroup();
    }
    lemma_read(url, "https://bigquery.googleapis.com/bigquery/v2/"@, pieces, None, parameters);
    assert(pieces.map_values(|s: Seq<char>| url_decoded(s)) =~= seq!["projects"@, project,
        "datasets"@, dataset, "tables"@, table, "insertAll"@]);
    assert(parameters.map_values(|p: (Seq<char>, Seq<char>)| (p.0,
        url_decoded(p.1))) =~= Seq::empty());
}

pub proof fn lemma_bigquery_datasets_tables_table(
    project: Seq<char>,
    dataset: Seq<char>,
    table: Seq<char>,
)
    ensures
        asks_for(
            "https://bigquery.googleapis.com/bigquery/v2/projects/"@ + url_encoded(project)
                + "/datasets/"@ + url_encoded(dataset) + "/tables/"@ + url_encoded(table),
            "https://bigquery.googleapis.com/bigquery/v2/"@,
            seq!["projects"@, project, "datasets"@, dataset, "tables"@, table],
            None,
            Seq::empty(),
        ),
{
    lemma_word_projects();
    lemma_word_datasets();
    lemma_word_tables();
    lemma_encoded_piece(project);
    lemma_encoded_piece(dataset);
    lemma_encoded_piece(table);
    assert("https://bigquery.googleapis.com/bigquery/v2/projects/"@
        == "https://bigquery.googleapis.com/bigquery/v2/"@ + "projects"@ + seq!['/']) by {
        reveal_strlit("https://bigquery.googleapis.com/bigquery/v2/projects/");
        reveal_strlit("https://bigquery.googleapis.com/bigquery/v2/");
        reveal_strlit("projects");
    }
    assert("/datasets/"@ == seq!['/'] + "datasets"@ + seq!['/']) by {
        reveal_strlit("/datasets/");
        reveal_strlit("datasets");
    }
    assert("/tables/"@ == seq!['/'] + "tables"@ + seq!['/']) by {
        reveal_strlit("/tables/");
        reveal_strlit("tables");
    }
    let pieces = seq!["projects"@, url_encoded(project), "datasets"@, url_encoded(dataset),
        "tables"@, url_encoded(table)];
    lemma_joined(pieces, seq!['/']);
    let parameters = Seq::<(Seq<char>, Seq<char>)>::empty();
    let url = "https://bigquery.googleapis.com/bigquery/v2/projects/"@ + url_encoded(project)
        + "/datasets/"@ + url_encoded(dataset) + "/tables/"@ + url_encoded(table);
    assert(url =~= "https://bigquery.googleapis.com/bigquery/v2/"@ + join(pieces, seq!['/'])
        + verb_suffix(None) + query_suffix(None)) by {
        lemma_regroup();
    }
    lemma_read(url, "https://bigquery.googleapis.com/bigquery/v2/"@, pieces, None, parameters);
    assert(pieces.map_values(|s: Seq<char>| url_decoded(s)) =~= seq!["projects"@, project,
        "datasets"@, dataset, "tables"@, table]);
    assert(parameters.map_values(|p: (Seq<char>, Seq<char>)| (p.0,
        url_decoded(p.1))) =~= Seq::empty());
}

pub proof fn lemma_bigquery_jobs_all_users_false_max_results(project: Seq<char>, limit: Seq<char>)
    requires
        piece(limit),
        url_decoded(limit) == limit,
    ensures
        asks_for(
            "https://bigquery.googleapis.com/bigquery/v2/projects/"@ + url_encoded(project)
                + "/jobs?allUsers="@ + "false"@ + "&maxResults="@ + limit,
            "https://bigquery.googleapis.com/bigquery/v2/"@,
            seq!["projects"@, project, "jobs"@],
            None,
            seq![("allUsers"@, "false"@), ("maxResults"@, limit)],
        ),
{
    lemma_word_projects();
    lemma_word_jobs();
    lemma_word_allusers();
    lemma_word_false();
    lemma_word_maxresults();
    lemma_encoded_piece(project);
    assert("https://bigquery.googleapis.com/bigquery/v2/projects/"@
        == "https://bigquery.googleapis.com/bigquery/v2/"@ + "projects"@ + seq!['/']) by {
        reveal_strlit("https://bigquery.googleapis.com/bigquery/v2/projects/");
        reveal_strlit("https://bigquery.googleapis.com/bigquery/v2/");
        reveal_strlit("projects");
    }
    assert("/jobs?allUsers="@ == seq!['/'] + "jobs"@ + seq!['?'] + "allUsers"@ + seq!['=']) by {
        reveal_strlit("/jobs?allUsers=");
        reveal_strlit("jobs");
        reveal_strlit("allUsers");
    }
    assert("&maxResults="@ == seq!['&'] + "maxResults"@ + seq!['=']) by {
        reveal_strlit("&maxResults=");
        reveal_strlit("maxResults");
    }
    let pieces = seq!["projects"@, url_encoded(project), "jobs"@];
    lemma_joined(pieces, seq!['/']);
    let parameters = seq![("allUsers"@, "false"@), ("maxResults"@, limit)];
    let wrote = parameters.map_values(|p: (Seq<char>, Seq<char>)| written(p));
    assert(wrote =~= seq!["allUsers"@ + seq!['='] + "false"@, "maxResults"@ + seq!['='] + limit]);
    lemma_joined(wrote, seq!['&']);
    let url = "https://bigquery.googleapis.com/bigquery/v2/projects/"@ + url_encoded(project)
        + "/jobs?allUsers="@ + "false"@ + "&maxResults="@ + limit;
    assert(url =~= "https://bigquery.googleapis.com/bigquery/v2/"@ + join(pieces, seq!['/'])
        + verb_suffix(None) + query_suffix(Some(join(wrote, seq!['&'])))) by {
        lemma_regroup();
    }
    lemma_read(url, "https://bigquery.googleapis.com/bigquery/v2/"@, pieces, None, parameters);
    assert(pieces.map_values(|s: Seq<char>| url_decoded(s)) =~= seq!["projects"@, project,
        "jobs"@]);
    assert(parameters.map_values(|p: (Seq<char>, Seq<char>)| (p.0,
        url_decoded(p.1))) =~= seq![("allUsers"@, "false"@), ("maxResults"@, limit)]);
}

pub proof fn lemma_bigquery_jobs_all_users_false_max_results_state_filter(
    project: Seq<char>,
    limit: Seq<char>,
    state: Seq<char>,
)
    requires
        piece(limit),
        url_decoded(limit) == limit,
    ensures
        asks_for(
            "https://bigquery.googleapis.com/bigquery/v2/projects/"@ + url_encoded(project)
                + "/jobs?allUsers="@ + "false"@ + "&maxResults="@ + limit + "&stateFilter="@
                + url_encoded(state),
            "https://bigquery.googleapis.com/bigquery/v2/"@,
            seq!["projects"@, project, "jobs"@],
            None,
            seq![("allUsers"@, "false"@), ("maxResults"@, limit), ("stateFilter"@, state)],
        ),
{
    lemma_word_projects();
    lemma_word_jobs();
    lemma_word_allusers();
    lemma_word_false();
    lemma_word_maxresults();
    lemma_word_statefilter();
    lemma_encoded_piece(project);
    lemma_encoded_piece(state);
    assert("https://bigquery.googleapis.com/bigquery/v2/projects/"@
        == "https://bigquery.googleapis.com/bigquery/v2/"@ + "projects"@ + seq!['/']) by {
        reveal_strlit("https://bigquery.googleapis.com/bigquery/v2/projects/");
        reveal_strlit("https://bigquery.googleapis.com/bigquery/v2/");
        reveal_strlit("projects");
    }
    assert("/jobs?allUsers="@ == seq!['/'] + "jobs"@ + seq!['?'] + "allUsers"@ + seq!['=']) by {
        reveal_strlit("/jobs?allUsers=");
        reveal_strlit("jobs");
        reveal_strlit("allUsers");
    }
    assert("&maxResults="@ == seq!['&'] + "maxResults"@ + seq!['=']) by {
        reveal_strlit("&maxResults=");
        reveal_strlit("maxResults");
    }
    assert("&stateFilter="@ == seq!['&'] + "stateFilter"@ + seq!['=']) by {
        reveal_strlit("&stateFilter=");
        reveal_strlit("stateFilter");
    }
    let pieces = seq!["projects"@, url_encoded(project), "jobs"@];
    lemma_joined(pieces, seq!['/']);
    let parameters = seq![("allUsers"@, "false"@), ("maxResults"@, limit), ("stateFilter"@,
        url_encoded(state))];
    let wrote = parameters.map_values(|p: (Seq<char>, Seq<char>)| written(p));
    assert(wrote =~= seq!["allUsers"@ + seq!['='] + "false"@, "maxResults"@ + seq!['=']
        + limit, "stateFilter"@ + seq!['='] + url_encoded(state)]);
    lemma_joined(wrote, seq!['&']);
    let url = "https://bigquery.googleapis.com/bigquery/v2/projects/"@ + url_encoded(project)
        + "/jobs?allUsers="@ + "false"@ + "&maxResults="@ + limit + "&stateFilter="@
        + url_encoded(state);
    assert(url =~= "https://bigquery.googleapis.com/bigquery/v2/"@ + join(pieces, seq!['/'])
        + verb_suffix(None) + query_suffix(Some(join(wrote, seq!['&'])))) by {
        lemma_regroup();
    }
    lemma_read(url, "https://bigquery.googleapis.com/bigquery/v2/"@, pieces, None, parameters);
    assert(pieces.map_values(|s: Seq<char>| url_decoded(s)) =~= seq!["projects"@, project,
        "jobs"@]);
    assert(parameters.map_values(|p: (Seq<char>, Seq<char>)| (p.0,
        url_decoded(p.1))) =~= seq![("allUsers"@, "false"@), ("maxResults"@, limit),
        ("stateFilter"@, state)]);
}

pub proof fn lemma_bigquery_jobs_all_users_true_max_results(project: Seq<char>, limit: Seq<char>)
    requires
        piece(limit),
        url_decoded(limit) == limit,
    ensures
        asks_for(
            "https://bigquery.googleapis.com/bigquery/v2/projects/"@ + url_encoded(project)
                + "/jobs?allUsers="@ + "true"@ + "&maxResults="@ + limit,
            "https://bigquery.googleapis.com/bigquery/v2/"@,
            seq!["projects"@, project, "jobs"@],
            None,
            seq![("allUsers"@, "true"@), ("maxResults"@, limit)],
        ),
{
    lemma_word_projects();
    lemma_word_jobs();
    lemma_word_allusers();
    lemma_word_true();
    lemma_word_maxresults();
    lemma_encoded_piece(project);
    assert("https://bigquery.googleapis.com/bigquery/v2/projects/"@
        == "https://bigquery.googleapis.com/bigquery/v2/"@ + "projects"@ + seq!['/']) by {
        reveal_strlit("https://bigquery.googleapis.com/bigquery/v2/projects/");
        reveal_strlit("https://bigquery.googleapis.com/bigquery/v2/");
        reveal_strlit("projects");
    }
    assert("/jobs?allUsers="@ == seq!['/'] + "jobs"@ + seq!['?'] + "allUsers"@ + seq!['=']) by {
        reveal_strlit("/jobs?allUsers=");
        reveal_strlit("jobs");
        reveal_strlit("allUsers");
    }
    assert("&maxResults="@ == seq!['&'] + "maxResults"@ + seq!['=']) by {
        reveal_strlit("&maxResults=");
        reveal_strlit("maxResults");
    }
    let pieces = seq!["projects"@, url_encoded(project), "jobs"@];
    lemma_joined(pieces, seq!['/']);
    let parameters = seq![("allUsers"@, "true"@), ("maxResults"@, limit)];
    let wrote = parameters.map_values(|p: (Seq<char>, Seq<char>)| written(p));
    assert(wrote =~= seq!["allUsers"@ + seq!['='] + "true"@, "maxResults"@ + seq!['='] + limit]);
    lemma_joined(wrote, seq!['&']);
    let url = "https://bigquery.googleapis.com/bigquery/v2/projects/"@ + url_encoded(project)
        + "/jobs?allUsers="@ + "true"@ + "&maxResults="@ + limit;
    assert(url =~= "https://bigquery.googleapis.com/bigquery/v2/"@ + join(pieces, seq!['/'])
        + verb_suffix(None) + query_suffix(Some(join(wrote, seq!['&'])))) by {
        lemma_regroup();
    }
    lemma_read(url, "https://bigquery.googleapis.com/bigquery/v2/"@, pieces, None, parameters);
    assert(pieces.map_values(|s: Seq<char>| url_decoded(s)) =~= seq!["projects"@, project,
        "jobs"@]);
    assert(parameters.map_values(|p: (Seq<char>, Seq<char>)| (p.0,
        url_decoded(p.1))) =~= seq![("allUsers"@, "true"@), ("maxResults"@, limit)]);
}

pub proof fn lemma_bigquery_jobs_all_users_true_max_results_state_filter(
    project: Seq<char>,
    limit: Seq<char>,
    state: Seq<char>,
)
    requires
        piece(limit),
        url_decoded(limit) == limit,
    ensures
        asks_for(
            "https://bigquery.googleapis.com/bigquery/v2/projects/"@ + url_encoded(project)
                + "/jobs?allUsers="@ + "true"@ + "&maxResults="@ + limit + "&stateFilter="@
                + url_encoded(state),
            "https://bigquery.googleapis.com/bigquery/v2/"@,
            seq!["projects"@, project, "jobs"@],
            None,
            seq![("allUsers"@, "true"@), ("maxResults"@, limit), ("stateFilter"@, state)],
        ),
{
    lemma_word_projects();
    lemma_word_jobs();
    lemma_word_allusers();
    lemma_word_true();
    lemma_word_maxresults();
    lemma_word_statefilter();
    lemma_encoded_piece(project);
    lemma_encoded_piece(state);
    assert("https://bigquery.googleapis.com/bigquery/v2/projects/"@
        == "https://bigquery.googleapis.com/bigquery/v2/"@ + "projects"@ + seq!['/']) by {
        reveal_strlit("https://bigquery.googleapis.com/bigquery/v2/projects/");
        reveal_strlit("https://bigquery.googleapis.com/bigquery/v2/");
        reveal_strlit("projects");
    }
    assert("/jobs?allUsers="@ == seq!['/'] + "jobs"@ + seq!['?'] + "allUsers"@ + seq!['=']) by {
        reveal_strlit("/jobs?allUsers=");
        reveal_strlit("jobs");
        reveal_strlit("allUsers");
    }
    assert("&maxResults="@ == seq!['&'] + "maxResults"@ + seq!['=']) by {
        reveal_strlit("&maxResults=");
        reveal_strlit("maxResults");
    }
    assert("&stateFilter="@ == seq!['&'] + "stateFilter"@ + seq!['=']) by {
        reveal_strlit("&stateFilter=");
        reveal_strlit("stateFilter");
    }
    let pieces = seq!["projects"@, url_encoded(project), "jobs"@];
    lemma_joined(pieces, seq!['/']);
    let parameters = seq![("allUsers"@, "true"@), ("maxResults"@, limit), ("stateFilter"@,
        url_encoded(state))];
    let wrote = parameters.map_values(|p: (Seq<char>, Seq<char>)| written(p));
    assert(wrote =~= seq!["allUsers"@ + seq!['='] + "true"@, "maxResults"@ + seq!['=']
        + limit, "stateFilter"@ + seq!['='] + url_encoded(state)]);
    lemma_joined(wrote, seq!['&']);
    let url = "https://bigquery.googleapis.com/bigquery/v2/projects/"@ + url_encoded(project)
        + "/jobs?allUsers="@ + "true"@ + "&maxResults="@ + limit + "&stateFilter="@
        + url_encoded(state);
    assert(url =~= "https://bigquery.googleapis.com/bigquery/v2/"@ + join(pieces, seq!['/'])
        + verb_suffix(None) + query_suffix(Some(join(wrote, seq!['&'])))) by {
        lemma_regroup();
    }
    lemma_read(url, "https://bigquery.googleapis.com/bigquery/v2/"@, pieces, None, parameters);
    assert(pieces.map_values(|s: Seq<char>| url_decoded(s)) =~= seq!["projects"@, project,
        "jobs"@]);
    assert(parameters.map_values(|p: (Seq<char>, Seq<char>)| (p.0,
        url_decoded(p.1))) =~= seq![("allUsers"@, "true"@), ("maxResults"@, limit),
        ("stateFilter"@, state)]);
}

pub proof fn lemma_bigquery_queries(project: Seq<char>)
    ensures
        asks_for(
            "https://bigquery.googleapis.com/bigquery/v2/projects/"@ + url_encoded(project)
                + "/queries"@,
            "https://bigquery.googleapis.com/bigquery/v2/"@,
            seq!["projects"@, project, "queries"@],
            None,
            Seq::empty(),
        ),
{
    lemma_word_projects();
    lemma_word_queries();
    lemma_encoded_piece(project);
    assert("https://bigquery.googleapis.com/bigquery/v2/projects/"@
        == "https://bigquery.googleapis.com/bigquery/v2/"@ + "projects"@ + seq!['/']) by {
        reveal_strlit("https://bigquery.googleapis.com/bigquery/v2/projects/");
        reveal_strlit("https://bigquery.googleapis.com/bigquery/v2/");
        reveal_strlit("projects");
    }
    assert("/queries"@ == seq!['/'] + "queries"@) by {
        reveal_strlit("/queries");
        reveal_strlit("queries");
    }
    let pieces = seq!["projects"@, url_encoded(project), "queries"@];
    lemma_joined(pieces, seq!['/']);
    let parameters = Seq::<(Seq<char>, Seq<char>)>::empty();
    let url = "https://bigquery.googleapis.com/bigquery/v2/projects/"@ + url_encoded(project)
        + "/queries"@;
    assert(url =~= "https://bigquery.googleapis.com/bigquery/v2/"@ + join(pieces, seq!['/'])
        + verb_suffix(None) + query_suffix(None)) by {
        lemma_regroup();
    }
    lemma_read(url, "https://bigquery.googleapis.com/bigquery/v2/"@, pieces, None, parameters);
    assert(pieces.map_values(|s: Seq<char>| url_decoded(s)) =~= seq!["projects"@, project,
        "queries"@]);
    assert(parameters.map_values(|p: (Seq<char>, Seq<char>)| (p.0,
        url_decoded(p.1))) =~= Seq::empty());
}

pub proof fn lemma_cloudfunctions_functions(project: Seq<char>, region: Seq<char>)
    ensures
        asks_for(
            "https://cloudfunctions.googleapis.com/v2/projects/"@ + url_encoded(project)
                + "/locations/"@ + url_encoded(region) + "/functions"@,
            "https://cloudfunctions.googleapis.com/v2/"@,
            seq!["projects"@, project, "locations"@, region, "functions"@],
            None,
            Seq::empty(),
        ),
{
    lemma_word_projects();
    lemma_word_locations();
    lemma_word_functions();
    lemma_encoded_piece(project);
    lemma_encoded_piece(region);
    assert("https://cloudfunctions.googleapis.com/v2/projects/"@
        == "https://cloudfunctions.googleapis.com/v2/"@ + "projects"@ + seq!['/']) by {
        reveal_strlit("https://cloudfunctions.googleapis.com/v2/projects/");
        reveal_strlit("https://cloudfunctions.googleapis.com/v2/");
        reveal_strlit("projects");
    }
    assert("/locations/"@ == seq!['/'] + "locations"@ + seq!['/']) by {
        reveal_strlit("/locations/");
        reveal_strlit("locations");
    }
    assert("/functions"@ == seq!['/'] + "functions"@) by {
        reveal_strlit("/functions");
        reveal_strlit("functions");
    }
    let pieces = seq!["projects"@, url_encoded(project), "locations"@, url_encoded(region),
        "functions"@];
    lemma_joined(pieces, seq!['/']);
    let parameters = Seq::<(Seq<char>, Seq<char>)>::empty();
    let url = "https://cloudfunctions.googleapis.com/v2/projects/"@ + url_encoded(project)
        + "/locations/"@ + url_encoded(region) + "/functions"@;
    assert(url =~= "https://cloudfunctions.googleapis.com/v2/"@ + join(pieces, seq!['/'])
        + verb_suffix(None) + query_suffix(None)) by {
        lemma_regroup();
    }
    lemma_read(url, "https://cloudfunctions.googleapis.com/v2/"@, pieces, None, parameters);
    assert(pieces.map_values(|s: Seq<char>| url_decoded(s)) =~= seq!["projects"@, project,
        "locations"@, region, "functions"@]);
    assert(parameters.map_values(|p: (Seq<char>, Seq<char>)| (p.0,
        url_decoded(p.1))) =~= Seq::empty());
}

pub proof fn lemma_cloudfunctions_functions_function(
    project: Seq<char>,
    region: Seq<char>,
    function: Seq<char>,
)
    ensures
        asks_for(
            "https://cloudfunctions.googleapis.com/v2/projects/"@ + url_encoded(project)
                + "/locations/"@ + url_encoded(region) + "/functions/"@ + url_encoded(function),
            "https://cloudfunctions.googleapis.com/v2/"@,
            seq!["projects"@, project, "locations"@, region, "functions"@, function],
            None,
            Seq::empty(),
        ),
{
    lemma_word_projects();
    lemma_word_locations();
    lemma_word_functions();
    lemma_encoded_piece(project);
    lemma_encoded_piece(region);
    lemma_encoded_piece(function);
    assert("https://cloudfunctions.googleapis.com/v2/projects/"@
        == "https://cloudfunctions.googleapis.com/v2/"@ + "projects"@ + seq!['/']) by {
        reveal_strlit("https://cloudfunctions.googleapis.com/v2/projects/");
        reveal_strlit("https://cloudfunctions.googleapis.com/v2/");
        reveal_strlit("projects");
    }
    assert("/locations/"@ == seq!['/'] + "locations"@ + seq!['/']) by {
        reveal_strlit("/locations/");
        reveal_strlit("locations");
    }
    assert("/functions/"@ == seq!['/'] + "functions"@ + seq!['/']) by {
        reveal_strlit("/functions/");
        reveal_strlit("functions");
    }
    let pieces = seq!["projects"@, url_encoded(project), "locations"@, url_encoded(region),
        "functions"@, url_encoded(function)];
    lemma_joined(pieces, seq!['/']);
    let parameters = Seq::<(Seq<char>, Seq<char>)>::empty();
    let url = "https://cloudfunctions.googleapis.com/v2/projects/"@ + url_encoded(project)
        + "/locations/"@ + url_encoded(region) + "/functions/"@ + url_encoded(function);
    assert(url =~= "https://cloudfunctions.googleapis.com/v2/"@ + join(pieces, seq!['/'])
        + verb_suffix(None) + query_suffix(None)) by {
        lemma_regroup();
    }
    lemma_read(url, "https://cloudfunctions.googleapis.com/v2/"@, pieces, None, parameters);
    assert(pieces.map_values(|s: Seq<char>| url_decoded(s)) =~= seq!["projects"@, project,
        "locations"@, region, "functions"@, function]);
    assert(parameters.map_values(|p: (Seq<char>, Seq<char>)| (p.0,
        url_decoded(p.1))) =~= Seq::empty());
}

pub proof fn lemma_compute_regions(project: Seq<char>)
    ensures
        asks_for(
            "https://compute.googleapis.com/compute/v1/projects/"@ + url_encoded(project)
                + "/regions"@,
            "https://compute.googleapis.com/compute/v1/"@,
            seq!["projects"@, project, "regions"@],
            None,
            Seq::empty(),
        ),
{
    lemma_word_projects();
    lemma_word_regions();
    lemma_encoded_piece(project);
    assert("https://compute.googleapis.com/compute/v1/projects/"@
        == "https://compute.googleapis.com/compute/v1/"@ + "projects"@ + seq!['/']) by {
        reveal_strlit("https://compute.googleapis.com/compute/v1/projects/");
        reveal_strlit("https://compute.googleapis.com/compute/v1/");
        reveal_strlit("projects");
    }
    assert("/regions"@ == seq!['/'] + "regions"@) by {
        reveal_strlit("/regions");
        reveal_strlit("regions");
    }
    let pieces = seq!["projects"@, url_encoded(project), "regions"@];
    lemma_joined(pieces, seq!['/']);
    let parameters = Seq::<(Seq<char>, Seq<char>)>::empty();
    let url = "https://compute.googleapis.com/compute/v1/projects/"@ + url_encoded(project)
        + "/regions"@;
    assert(url =~= "https://compute.googleapis.com/compute/v1/"@ + join(pieces, seq!['/'])
        + verb_suffix(None) + query_suffix(None)) by {
        lemma_regroup();
    }
    lemma_read(url, "https://compute.googleapis.com/compute/v1/"@, pieces, None, parameters);
    assert(pieces.map_values(|s: Seq<char>| url_decoded(s)) =~= seq!["projects"@, project,
        "regions"@]);
    assert(parameters.map_values(|p: (Seq<char>, Seq<char>)| (p.0,
        url_decoded(p.1))) =~= Seq::empty());
}

pub proof fn lemma_compute_zones(project: Seq<char>)
    ensures
        asks_for(
            "https://compute.googleapis.com/compute/v1/projects/"@ + url_encoded(project)
                + "/zones"@,
            "https://compute.googleapis.com/compute/v1/"@,
            seq!["projects"@, project, "zones"@],
            None,
            Seq::empty(),
        ),
{
    lemma_word_projects();
    lemma_word_zones();
    lemma_encoded_piece(project);
    assert("https://compute.googleapis.com/compute/v1/projects/"@
        == "https://compute.googleapis.com/compute/v1/"@ + "projects"@ + seq!['/']) by {
        reveal_strlit("https://compute.googleapis.com/compute/v1/projects/");
        reveal_strlit("https://compute.googleapis.com/compute/v1/");
        reveal_strlit("projects");
    }
    assert("/zones"@ == seq!['/'] + "zones"@) by {
        reveal_strlit("/zones");
        reveal_strlit("zones");
    }
    let pieces = seq!["projects"@, url_encoded(project), "zones"@];
    lemma_joined(pieces, seq!['/']);
    let parameters = Seq::<(Seq<char>, Seq<char>)>::empty();
    let url = "https://compute.googleapis.com/compute/v1/projects/"@ + url_encoded(project)
        + "/zones"@;
    assert(url =~= "https://compute.googleapis.com/compute/v1/"@ + join(pieces, seq!['/'])
        + verb_suffix(None) + query_suffix(None)) by {
        lemma_regroup();
    }
    lemma_read(url, "https://compute.googleapis.com/compute/v1/"@, pieces, None, parameters);
    assert(pieces.map_values(|s: Seq<char>| url_decoded(s)) =~= seq!["projects"@, project,
        "zones"@]);
    assert(parameters.map_values(|p: (Seq<char>, Seq<char>)| (p.0,
        url_decoded(p.1))) =~= Seq::empty());
}

pub proof fn lemma_compute_zones_disks(project: Seq<char>, zone: Seq<char>)
    ensures
        asks_for(
            "https://compute.googleapis.com/compute/v1/projects/"@ + url_encoded(project)
                + "/zones/"@ + url_encoded(zone) + "/disks"@,
            "https://compute.googleapis.com/compute/v1/"@,
            seq!["projects"@, project, "zones"@, zone, "disks"@],
            None,
            Seq::empty(),
        ),
{
    lemma_word_projects();
    lemma_word_zones();
    lemma_word_disks();
    lemma_encoded_piece(project);
    lemma_encoded_piece(zone);
    assert("https://compute.googleapis.com/compute/v1/projects/"@
        == "https://compute.googleapis.com/compute/v1/"@ + "projects"@ + seq!['/']) by {
        reveal_strlit("https://compute.googleapis.com/compute/v1/projects/");
        reveal_strlit("https://compute.googleapis.com/compute/v1/");
        reveal_strlit("projects");
    }
    assert("/zones/"@ == seq!['/'] + "zones"@ + seq!['/']) by {
        reveal_strlit("/zones/");
        reveal_strlit("zones");
    }
    assert("/disks"@ == seq!['/'] + "disks"@) by {
        reveal_strlit("/disks");
        reveal_strlit("disks");
    }
    let pieces = seq!["projects"@, url_encoded(project), "zones"@, url_encoded(zone), "disks"@];
    lemma_joined(pieces, seq!['/']);
    let parameters = Seq::<(Seq<char>, Seq<char>)>::empty();
    let url = "https://compute.googleapis.com/compute/v1/projects/"@ + url_encoded(project)
        + "/zones/"@ + url_encoded(zone) + "/disks"@;
    assert(url =~= "https://compute.googleapis.com/compute/v1/"@ + join(pieces, seq!['/'])
        + verb_suffix(None) + query_suffix(None)) by {
        lemma_regroup();
    }
    lemma_read(url, "https://compute.googleapis.com/compute/v1/"@, pieces, None, parameters);
    assert(pieces.map_values(|s: Seq<char>| url_decoded(s)) =~= seq!["projects"@, project,
        "zones"@, zone, "disks"@]);
    assert(parameters.map_values(|p: (Seq<char>, Seq<char>)| (p.0,
        url_decoded(p.1))) =~= Seq::empty());
}

pub proof fn lemma_compute_zones_instances(project: Seq<char>, zone: Seq<char>)
    ensures
        asks_for(
            "https://compute.googleapis.com/compute/v1/projects/"@ + url_encoded(project)
                + "/zones/"@ + url_encoded(zone) + "/instances"@,
            "https://compute.googleapis.com/compute/v1/"@,
            seq!["projects"@, project, "zones"@, zone, "instances"@],
            None,
            Seq::empty(),
        ),
{
    lemma_word_projects();
    lemma_word_zones();
    lemma_word_instances();
    lemma_encoded_piece(project);
    lemma_encoded_piece(zone);
    assert("https://compute.googleapis.com/compute/v1/projects/"@
        == "https://compute.googleapis.com/compute/v1/"@ + "projects"@ + seq!['/']) by {
        reveal_strlit("https://compute.googleapis.com/compute/v1/projects/");
        reveal_strlit("https://compute.googleapis.com/compute/v1/");
        reveal_strlit("projects");
    }
    assert("/zones/"@ == seq!['/'] + "zones"@ + seq!['/']) by {
        reveal_strlit("/zones/");
        reveal_strlit("zones");
    }
    assert("/instances"@ == seq!['/'] + "instances"@) by {
        reveal_strlit("/instances");
        reveal_strlit("instances");
    }
    let pieces = seq!["projects"@, url_encoded(project), "zones"@, url_encoded(zone), "instances"@];
    lemma_joined(pieces, seq!['/']);
    let parameters = Seq::<(Seq<char>, Seq<char>)>::empty();
    let url = "https://compute.googleapis.com/compute/v1/projects/"@ + url_encoded(project)
        + "/zones/"@ + url_encoded(zone) + "/instances"@;
    assert(url =~= "https://compute.googleapis.com/compute/v1/"@ + join(pieces, seq!['/'])
        + verb_suffix(None) + query_suffix(None)) by {
        lemma_regroup();
    }
    lemma_read(url, "https://compute.googleapis.com/compute/v1/"@, pieces, None, parameters);
    assert(pieces.map_values(|s: Seq<char>| url_decoded(s)) =~= seq!["projects"@, project,
        "zones"@, zone, "instances"@]);
    assert(parameters.map_values(|p: (Seq<char>, Seq<char>)| (p.0,
        url_decoded(p.1))) =~= Seq::empty());
}

pub proof fn lemma_compute_zones_instances_instance(
    project: Seq<char>,
    zone: Seq<char>,
    instance: Seq<char>,
)
    ensures
        asks_for(
            "https://compute.googleapis.com/compute/v1/projects/"@ + url_encoded(project)
                + "/zones/"@ + url_encoded(zone) + "/instances/"@ + url_encoded(instance),
            "https://compute.googleapis.com/compute/v1/"@,
            seq!["projects"@, project, "zones"@, zone, "instances"@, instance],
            None,
            Seq::empty(),
        ),
{
    lemma_word_projects();
    lemma_word_zones();
    lemma_word_instances();
    lemma_encoded_piece(project);
    lemma_encoded_piece(zone);
    lemma_encoded_piece(instance);
    assert("https://compute.googleapis.com/compute/v1/projects/"@
        == "https://compute.googleapis.com/compute/v1/"@ + "projects"@ + seq!['/']) by {
        reveal_strlit("https://compute.googleapis.com/compute/v1/projects/");
        reveal_strlit("https://compute.googleapis.com/compute/v1/");
        reveal_strlit("projects");
    }
    assert("/zones/"@ == seq!['/'] + "zones"@ + seq!['/']) by {
        reveal_strlit("/zones/");
        reveal_strlit("zones");
    }
    assert("/instances/"@ == seq!['/'] + "instances"@ + seq!['/']) by {
        reveal_strlit("/instances/");
        reveal_strlit("instances");
    }
    let pieces = seq!["projects"@, url_encoded(project), "zones"@, url_encoded(zone),
        "instances"@, url_encoded(instance)];
    lemma_joined(pieces, seq!['/']);
    let parameters = Seq::<(Seq<char>, Seq<char>)>::empty();
    let url = "https://compute.googleapis.com/compute/v1/projects/"@ + url_encoded(project)
        + "/zones/"@ + url_encoded(zone) + "/instances/"@ + url_encoded(instance);
    assert(url =~= "https://compute.googleapis.com/compute/v1/"@ + join(pieces, seq!['/'])
        + verb_suffix(None) + query_suffix(None)) by {
        lemma_regroup();
    }
    lemma_read(url, "https://compute.googleapis.com/compute/v1/"@, pieces, None, parameters);
    assert(pieces.map_values(|s: Seq<char>| url_decoded(s)) =~= seq!["projects"@, project,
        "zones"@, zone, "instances"@, instance]);
    assert(parameters.map_values(|p: (Seq<char>, Seq<char>)| (p.0,
        url_decoded(p.1))) =~= Seq::empty());
}

pub proof fn lemma_compute_zones_instances_reset(
    project: Seq<char>,
    zone: Seq<char>,
    instance: Seq<char>,
)
    ensures
        asks_for(
            "https://compute.googleapis.com/compute/v1/projects/"@ + url_encoded(project)
                + "/zones/"@ + url_encoded(zone) + "/instances/"@ + url_encoded(instance)
                + "/"@ + "reset"@,
            "https://compute.googleapis.com/compute/v1/"@,
            seq!["projects"@, project, "zones"@, zone, "instances"@, instance, "reset"@],
            None,
            Seq::empty(),
        ),
{
    lemma_word_projects();
    lemma_word_zones();
    lemma_word_instances();
    lemma_word_reset();
    lemma_encoded_piece(project);
    lemma_encoded_piece(zone);
    lemma_encoded_piece(instance);
    assert("https://compute.googleapis.com/compute/v1/projects/"@
        == "https://compute.googleapis.com/compute/v1/"@ + "projects"@ + seq!['/']) by {
        reveal_strlit("https://compute.googleapis.com/compute/v1/projects/");
        reveal_strlit("https://compute.googleapis.com/compute/v1/");
        reveal_strlit("projects");
    }
    assert("/zones/"@ == seq!['/'] + "zones"@ + seq!['/']) by {
        reveal_strlit("/zones/");
        reveal_strlit("zones");
    }
    assert("/instances/"@ == seq!['/'] + "instances"@ + seq!['/']) by {
        reveal_strlit("/instances/");
        reveal_strlit("instances");
    }
    assert("/"@ == seq!['/']) by {
        reveal_strlit("/");
    }
    let pieces = seq!["projects"@, url_encoded(project), "zones"@, url_encoded(zone),
        "instances"@, url_encoded(instance), "reset"@];
    lemma_joined(pieces, seq!['/']);
    let parameters = Seq::<(Seq<char>, Seq<char>)>::empty();
    let url = "https://compute.googleapis.com/compute/v1/projects/"@ + url_encoded(project)
        + "/zones/"@ + url_encoded(zone) + "/instances/"@ + url_encoded(instance) + "/"@ + "reset"@;
    assert(url =~= "https://compute.googleapis.com/compute/v1/"@ + join(pieces, seq!['/'])
        + verb_suffix(None) + query_suffix(None)) by {
        lemma_regroup();
    }
    lemma_read(url, "https://compute.googleapis.com/compute/v1/"@, pieces, None, parameters);
    assert(pieces.map_values(|s: Seq<char>| url_decoded(s)) =~= seq!["projects"@, project,
        "zones"@, zone, "instances"@, instance, "reset"@]);
    assert(parameters.map_values(|p: (Seq<char>, Seq<char>)| (p.0,
        url_decoded(p.1))) =~= Seq::empty());
}

pub proof fn lemma_compute_zones_instances_start(
    project: Seq<char>,
    zone: Seq<char>,
    instance: Seq<char>,
)
    ensures
        asks_for(
            "https://compute.googleapis.com/compute/v1/projects/"@ + url_encoded(project)
                + "/zones/"@ + url_encoded(zone) + "/instances/"@ + url_encoded(instance)
                + "/"@ + "start"@,
            "https://compute.googleapis.com/compute/v1/"@,
            seq!["projects"@, project, "zones"@, zone, "instances"@, instance, "start"@],
            None,
            Seq::empty(),
        ),
{
    lemma_word_projects();
    lemma_word_zones();
    lemma_word_instances();
    lemma_word_start();
    lemma_encoded_piece(project);
    lemma_encoded_piece(zone);
    lemma_encoded_piece(instance);
    assert("https://compute.googleapis.com/compute/v1/projects/"@
        == "https://compute.googleapis.com/compute/v1/"@ + "projects"@ + seq!['/']) by {
        reveal_strlit("https://compute.googleapis.com/compute/v1/projects/");
        reveal_strlit("https://compute.googleapis.com/compute/v1/");
        reveal_strlit("projects");
    }
    assert("/zones/"@ == seq!['/'] + "zones"@ + seq!['/']) by {
        reveal_strlit("/zones/");
        reveal_strlit("zones");
    }
    assert("/instances/"@ == seq!['/'] + "instances"@ + seq!['/']) by {
        reveal_strlit("/instances/");
        reveal_strlit("instances");
    }
    assert("/"@ == seq!['/']) by {
        reveal_strlit("/");
    }
    let pieces = seq!["projects"@, url_encoded(project), "zones"@, url_encoded(zone),
        "instances"@, url_encoded(instance), "start"@];
    lemma_joined(pieces, seq!['/']);
    let parameters = Seq::<(Seq<char>, Seq<char>)>::empty();
    let url = "https://compute.googleapis.com/compute/v1/projects/"@ + url_encoded(project)
        + "/zones/"@ + url_encoded(zone) + "/instances/"@ + url_encoded(instance) + "/"@ + "start"@;
    assert(url =~= "https://compute.googleapis.com/compute/v1/"@ + join(pieces, seq!['/'])
        + verb_suffix(None) + query_suffix(None)) by {
        lemma_regroup();
    }
    lemma_read(url, "https://compute.googleapis.com/compute/v1/"@, pieces, None, parameters);
    assert(pieces.map_values(|s: Seq<char>| url_decoded(s)) =~= seq!["projects"@, project,
        "zones"@, zone, "instances"@, instance, "start"@]);
    assert(parameters.map_values(|p: (Seq<char>, Seq<char>)| (p.0,
        url_decoded(p.1))) =~= Seq::empty());
}

pub proof fn lemma_compute_zones_instances_stop(
    project: Seq<char>,
    zone: Seq<char>,
    instance: Seq<char>,
)
    ensures
        asks_for(
            "https://compute.googleapis.com/compute/v1/projects/"@ + url_encoded(project)
                + "/zones/"@ + url_encoded(zone) + "/instances/"@ + url_encoded(instance)
                + "/"@ + "stop"@,
            "https://compute.googleapis.com/compute/v1/"@,
            seq!["projects"@, project, "zones"@, zone, "instances"@, instance, "stop"@],
            None,
            Seq::empty(),
        ),
{
    lemma_word_projects();
    lemma_word_zones();
    lemma_word_instances();
    lemma_word_stop();
    lemma_encoded_piece(project);
    lemma_encoded_piece(zone);
    lemma_encoded_piece(instance);
    assert("https://compute.googleapis.com/compute/v1/projects/"@
        == "https://compute.googleapis.com/compute/v1/"@ + "projects"@ + seq!['/']) by {
        reveal_strlit("https://compute.googleapis.com/compute/v1/projects/");
        reveal_strlit("https://compute.googleapis.com/compute/v1/");
        reveal_strlit("projects");
    }
    assert("/zones/"@ == seq!['/'] + "zones"@ + seq!['/']) by {
        reveal_strlit("/zones/");
        reveal_strlit("zones");
    }
    assert("/instances/"@ == seq!['/'] + "instances"@ + seq!['/']) by {
        reveal_strlit("/instances/");
        reveal_strlit("instances");
    }
    assert("/"@ == seq!['/']) by {
        reveal_strlit("/");
    }
    let pieces = seq!["projects"@, url_encoded(project), "zones"@, url_encoded(zone),
        "instances"@, url_encoded(instance), "stop"@];
    lemma_joined(pieces, seq!['/']);
    let parameters = Seq::<(Seq<char>, Seq<char>)>::empty();
    let url = "https://compute.googleapis.com/compute/v1/projects/"@ + url_encoded(project)
        + "/zones/"@ + url_encoded(zone) + "/instances/"@ + url_encoded(instance) + "/"@ + "stop"@;
    assert(url =~= "https://compute.googleapis.com/compute/v1/"@ + join(pieces, seq!['/'])
        + verb_suffix(None) + query_suffix(None)) by {
        lemma_regroup();
    }
    lemma_read(url, "https://compute.googleapis.com/compute/v1/"@, pieces, None, parameters);
    assert(pieces.map_values(|s: Seq<char>| url_decoded(s)) =~= seq!["projects"@, project,
        "zones"@, zone, "instances"@, instance, "stop"@]);
    assert(parameters.map_values(|p: (Seq<char>, Seq<char>)| (p.0,
        url_decoded(p.1))) =~= Seq::empty());
}

pub proof fn lemma_compute_zones_machine_types(project: Seq<char>, zone: Seq<char>)
    ensures
        asks_for(
            "https://compute.googleapis.com/compute/v1/projects/"@ + url_encoded(project)
                + "/zones/"@ + url_encoded(zone) + "/machineTypes"@,
            "https://compute.googleapis.com/compute/v1/"@,
            seq!["projects"@, project, "zones"@, zone, "machineTypes"@],
            None,
            Seq::empty(),
        ),
{
    lemma_word_projects();
    lemma_word_zones();
    lemma_word_machinetypes();
    lemma_encoded_piece(project);
    lemma_encoded_piece(zone);
    assert("https://compute.googleapis.com/compute/v1/projects/"@
        == "https://compute.googleapis.com/compute/v1/"@ + "projects"@ + seq!['/']) by {
        reveal_strlit("https://compute.googleapis.com/compute/v1/projects/");
        reveal_strlit("https://compute.googleapis.com/compute/v1/");
        reveal_strlit("projects");
    }
    assert("/zones/"@ == seq!['/'] + "zones"@ + seq!['/']) by {
        reveal_strlit("/zones/");
        reveal_strlit("zones");
    }
    assert("/machineTypes"@ == seq!['/'] + "machineTypes"@) by {
        reveal_strlit("/machineTypes");
        reveal_strlit("machineTypes");
    }
    let pieces = seq!["projects"@, url_encoded(project), "zones"@, url_encoded(zone),
        "machineTypes"@];
    lemma_joined(pieces, seq!['/']);
    let parameters = Seq::<(Seq<char>, Seq<char>)>::empty();
    let url = "https://compute.googleapis.com/compute/v1/projects/"@ + url_encoded(project)
        + "/zones/"@ + url_encoded(zone) + "/machineTypes"@;
    assert(url =~= "https://compute.googleapis.com/compute/v1/"@ + join(pieces, seq!['/'])
        + verb_suffix(None) + query_suffix(None)) by {
        lemma_regroup();
    }
    lemma_read(url, "https://compute.googleapis.com/compute/v1/"@, pieces, None, parameters);
    assert(pieces.map_values(|s: Seq<char>| url_decoded(s)) =~= seq!["projects"@, project,
        "zones"@, zone, "machineTypes"@]);
    assert(parameters.map_values(|p: (Seq<char>, Seq<char>)| (p.0,
        url_decoded(p.1))) =~= Seq::empty());
}

pub proof fn lemma_firestore_collection(project: Seq<char>, collection: Seq<char>)
    ensures
        asks_for(
            "https://firestore.googleapis.com/v1/projects/"@ + url_encoded(project)
                + "/databases/(default)/documents"@ + "/"@ + url_encoded(collection),
            "https://firestore.googleapis.com/v1/"@,
            seq!["projects"@, project, "databases"@, "(default)"@, "documents"@, collection],
            None,
            Seq::empty(),
        ),
{
    lemma_word_projects();
    lemma_word_databases();
    lemma_word_default();
    lemma_word_documents();
    lemma_encoded_piece(project);
    lemma_encoded_piece(collection);
    assert("https://firestore.googleapis.com/v1/projects/"@
        == "https://firestore.googleapis.com/v1/"@ + "projects"@ + seq!['/']) by {
        reveal_strlit("https://firestore.googleapis.com/v1/projects/");
        reveal_strlit("https://firestore.googleapis.com/v1/");
        reveal_strlit("projects");
    }
    assert("/databases/(default)/documents"@
        == seq!['/'] + "databases"@ + seq!['/'] + "(default)"@ + seq!['/'] + "documents"@) by {
        reveal_strlit("/databases/(default)/documents");
        reveal_strlit("databases");
        reveal_strlit("(default)");
        reveal_strlit("documents");
    }
    assert("/"@ == seq!['/']) by {
        reveal_strlit("/");
    }
    let pieces = seq!["projects"@, url_encoded(project), "databases"@, "(default)"@,
        "documents"@, url_encoded(collection)];
    lemma_joined(pieces, seq!['/']);
    let parameters = Seq::<(Seq<char>, Seq<char>)>::empty();
    let url = "https://firestore.googleapis.com/v1/projects/"@ + url_encoded(project)
        + "/databases/(default)/documents"@ + "/"@ + url_encoded(collection);
    assert(url =~= "https://firestore.googleapis.com/v1/"@ + join(pieces, seq!['/'])
        + verb_suffix(None) + query_suffix(None)) by {
        lemma_regroup();
    }
    lemma_read(url, "https://firestore.googleapis.com/v1/"@, pieces, None, parameters);
    assert(pieces.map_values(|s: Seq<char>| url_decoded(s)) =~= seq!["projects"@, project,
        "databases"@, "(default)"@, "documents"@, collection]);
    assert(parameters.map_values(|p: (Seq<char>, Seq<char>)| (p.0,
        url_decoded(p.1))) =~= Seq::empty());
}

pub proof fn lemma_firestore_collection_document_id(
    project: Seq<char>,
    collection: Seq<char>,
    document: Seq<char>,
)
    ensures
        asks_for(
            "https://firestore.googleapis.com/v1/projects/"@ + url_encoded(project)
                + "/databases/(default)/documents"@ + "/"@ + url_encoded(collection)
                + "?documentId="@ + url_encoded(document),
            "https://firestore.googleapis.com/v1/"@,
            seq!["projects"@, project, "databases"@, "(default)"@, "documents"@, collection],
            None,
            seq![("documentId"@, document)],
        ),
{
    lemma_word_projects();
    lemma_word_databases();
    lemma_word_default();
    lemma_word_documents();
    lemma_word_documentid();
    lemma_encoded_piece(project);
    lemma_encoded_piece(collection);
    lemma_encoded_piece(document);
    assert("https://firestore.googleapis.com/v1/projects/"@
        == "https://firestore.googleapis.com/v1/"@ + "projects"@ + seq!['/']) by {
        reveal_strlit("https://firestore.googleapis.com/v1/projects/");
        reveal_strlit("https://firestore.googleapis.com/v1/");
        reveal_strlit("projects");
    }
    assert("/databases/(default)/documents"@
        == seq!['/'] + "databases"@ + seq!['/'] + "(default)"@ + seq!['/'] + "documents"@) by {
        reveal_strlit("/databases/(default)/documents");
        reveal_strlit("databases");
        reveal_strlit("(default)");
        reveal_strlit("documents");
    }
    assert("/"@ == seq!['/']) by {
        reveal_strlit("/");
    }
    assert("?documentId="@ == seq!['?'] + "documentId"@ + seq!['=']) by {
        reveal_strlit("?documentId=");
        reveal_strlit("documentId");
    }
    let pieces = seq!["projects"@, url_encoded(project), "databases"@, "(default)"@,
        "documents"@, url_encoded(collection)];
    lemma_joined(pieces, seq!['/']);
    let parameters = seq![("documentId"@, url_encoded(document))];
    let wrote = parameters.map_values(|p: (Seq<char>, Seq<char>)| written(p));
    assert(wrote =~= seq!["documentId"@ + seq!['='] + url_encoded(document)]);
    lemma_joined(wrote, seq!['&']);
    let url = "https://firestore.googleapis.com/v1/projects/"@ + url_encoded(project)
        + "/databases/(default)/documents"@ + "/"@ + url_encoded(collection)
        + "?documentId="@ + url_encoded(document);
    assert(url =~= "https://firestore.googleapis.com/v1/"@ + join(pieces, seq!['/'])
        + verb_suffix(None) + query_suffix(Some(join(wrote, seq!['&'])))) by {
        lemma_regroup();
    }
    lemma_read(url, "https://firestore.googleapis.com/v1/"@, pieces, None, parameters);
    assert(pieces.map_values(|s: Seq<char>| url_decoded(s)) =~= seq!["projects"@, project,
        "databases"@, "(default)"@, "documents"@, collection]);
    assert(parameters.map_values(|p: (Seq<char>, Seq<char>)| (p.0,
        url_decoded(p.1))) =~= seq![("documentId"@, document)]);
}

pub proof fn lemma_firestore_collection_page_size(
    project: Seq<char>,
    collection: Seq<char>,
    size: Seq<char>,
)
    requires
        piece(size),
        url_decoded(size) == size,
    ensures
        asks_for(
            "https://firestore.googleapis.com/v1/projects/"@ + url_encoded(project)
                + "/databases/(default)/documents"@ + "/"@ + url_encoded(collection)
                + "?pageSize="@ + size,
            "https://firestore.googleapis.com/v1/"@,
            seq!["projects"@, project, "databases"@, "(default)"@, "documents"@, collection],
            None,
            seq![("pageSize"@, size)],
        ),
{
    lemma_word_projects();
    lemma_word_databases();
    lemma_word_default();
    lemma_word_documents();
    lemma_word_pagesize();
    lemma_encoded_piece(project);
    lemma_encoded_piece(collection);
    assert("https://firestore.googleapis.com/v1/projects/"@
        == "https://firestore.googleapis.com/v1/"@ + "projects"@ + seq!['/']) by {
        reveal_strlit("https://firestore.googleapis.com/v1/projects/");
        reveal_strlit("https://firestore.googleapis.com/v1/");
        reveal_strlit("projects");
    }
    assert("/databases/(default)/documents"@
        == seq!['/'] + "databases"@ + seq!['/'] + "(default)"@ + seq!['/'] + "documents"@) by {
        reveal_strlit("/databases/(default)/documents");
        reveal_strlit("databases");
        reveal_strlit("(default)");
        reveal_strlit("documents");
    }
    assert("/"@ == seq!['/']) by {
        reveal_strlit("/");
    }
    assert("?pageSize="@ == seq!['?'] + "pageSize"@ + seq!['=']) by {
        reveal_strlit("?pageSize=");
        reveal_strlit("pageSize");
    }
    let pieces = seq!["projects"@, url_encoded(project), "databases"@, "(default)"@,
        "documents"@, url_encoded(collection)];
    lemma_joined(pieces, seq!['/']);
    let parameters = seq![("pageSize"@, size)];
    let wrote = parameters.map_values(|p: (Seq<char>, Seq<char>)| written(p));
    assert(wrote =~= seq!["pageSize"@ + seq!['='] + size]);
    lemma_joined(wrote, seq!['&']);
    let url = "https://firestore.googleapis.com/v1/projects/"@ + url_encoded(project)
        + "/databases/(default)/documents"@ + "/"@ + url_encoded(collection) + "?pageSize="@ + size;
    assert(url =~= "https://firestore.googleapis.com/v1/"@ + join(pieces, seq!['/'])
        + verb_suffix(None) + query_suffix(Some(join(wrote, seq!['&'])))) by {
        lemma_regroup();
    }
    lemma_read(url, "https://firestore.googleapis.com/v1/"@, pieces, None, parameters);
    assert(pieces.map_values(|s: Seq<char>| url_decoded(s)) =~= seq!["projects"@, project,
        "databases"@, "(default)"@, "documents"@, collection]);
    assert(parameters.map_values(|p: (Seq<char>, Seq<char>)| (p.0,
        url_decoded(p.1))) =~= seq![("pageSize"@, size)]);
}

pub proof fn lemma_firestore_document(
    project: Seq<char>,
    collection: Seq<char>,
    document: Seq<char>,
)
    ensures
        asks_for(
            "https://firestore.googleapis.com/v1/projects/"@ + url_encoded(project)
                + "/databases/(default)/documents"@ + "/"@ + url_encoded(collection) + "/"@
                + url_encoded(document),
            "https://firestore.googleapis.com/v1/"@,
            seq!["projects"@, project, "databases"@, "(default)"@, "documents"@, collection,
                document],
            None,
            Seq::empty(),
        ),
{
    lemma_word_projects();
    lemma_word_databases();
    lemma_word_default();
    lemma_word_documents();
    lemma_encoded_piece(project);
    lemma_encoded_piece(collection);
    lemma_encoded_piece(document);
    assert("https://firestore.googleapis.com/v1/projects/"@
        == "https://firestore.googleapis.com/v1/"@ + "projects"@ + seq!['/']) by {
        reveal_strlit("https://firestore.googleapis.com/v1/projects/");
        reveal_strlit("https://firestore.googleapis.com/v1/");
        reveal_strlit("projects");
    }
    assert("/databases/(default)/documents"@
        == seq!['/'] + "databases"@ + seq!['/'] + "(default)"@ + seq!['/'] + "documents"@) by {
        reveal_strlit("/databases/(default)/documents");
        reveal_strlit("databases");
        reveal_strlit("(default)");
        reveal_strlit("documents");
    }
    assert("/"@ == seq!['/']) by {
        reveal_strlit("/");
    }
    assert("/"@ == seq!['/']) by {
        reveal_strlit("/");
    }
    let pieces = seq!["projects"@, url_encoded(project), "databases"@, "(default)"@,
        "documents"@, url_encoded(collection), url_encoded(document)];
    lemma_joined(pieces, seq!['/']);
    let parameters = Seq::<(Seq<char>, Seq<char>)>::empty();
    let url = "https://firestore.googleapis.com/v1/projects/"@ + url_encoded(project)
        + "/databases/(default)/documents"@ + "/"@ + url_encoded(collection) + "/"@
        + url_encoded(document);
    assert(url =~= "https://firestore.googleapis.com/v1/"@ + join(pieces, seq!['/'])
        + verb_suffix(None) + query_suffix(None)) by {
        lemma_regroup();
    }
    lemma_read(url, "https://firestore.googleapis.com/v1/"@, pieces, None, parameters);
    assert(pieces.map_values(|s: Seq<char>| url_decoded(s)) =~= seq!["projects"@, project,
        "databases"@, "(default)"@, "documents"@, collection, document]);
    assert(parameters.map_values(|p: (Seq<char>, Seq<char>)| (p.0,
        url_decoded(p.1))) =~= Seq::empty());
}

pub proof fn lemma_firestore_run_query(project: Seq<char>)
    ensures
        asks_for(
            "https://firestore.googleapis.com/v1/projects/"@ + url_encoded(project)
                + "/databases/(default)/documents"@ + ":runQuery"@,
            "https://firestore.googleapis.com/v1/"@,
            seq!["projects"@, project, "databases"@, "(default)"@, "documents"@],
            Some("runQuery"@),
            Seq::empty(),
        ),
{
    lemma_word_projects();
    lemma_word_databases();
    lemma_word_default();
    lemma_word_documents();
    lemma_word_runquery();
    lemma_encoded_piece(project);
    assert("https://firestore.googleapis.com/v1/projects/"@
        == "https://firestore.googleapis.com/v1/"@ + "projects"@ + seq!['/']) by {
        reveal_strlit("https://firestore.googleapis.com/v1/projects/");
        reveal_strlit("https://firestore.googleapis.com/v1/");
        reveal_strlit("projects");
    }
    assert("/databases/(default)/documents"@
        == seq!['/'] + "databases"@ + seq!['/'] + "(default)"@ + seq!['/'] + "documents"@) by {
        reveal_strlit("/databases/(default)/documents");
        reveal_strlit("databases");
        reveal_strlit("(default)");
        reveal_strlit("documents");
    }
    assert(":runQuery"@ == seq![':'] + "runQuery"@) by {
        reveal_strlit(":runQuery");
        reveal_strlit("runQuery");
    }
    let pieces = seq!["projects"@, url_encoded(project), "databases"@, "(default)"@, "documents"@];
    lemma_joined(pieces, seq!['/']);
    let parameters = Seq::<(Seq<char>, Seq<char>)>::empty();
    let url = "https://firestore.googleapis.com/v1/projects/"@ + url_encoded(project)
        + "/databases/(default)/documents"@ + ":runQuery"@;
    assert(url =~= "https://firestore.googleapis.com/v1/"@ + join(pieces, seq!['/'])
        + verb_suffix(Some("runQuery"@)) + query_suffix(None)) by {
        lemma_regroup();
    }
    lemma_read(url, "https://firestore.googleapis.com/v1/"@, pieces, Some("runQuery"@), parameters);
    assert(pieces.map_values(|s: Seq<char>| url_decoded(s)) =~= seq!["projects"@, project,
        "databases"@, "(default)"@, "documents"@]);
    assert(parameters.map_values(|p: (Seq<char>, Seq<char>)| (p.0,
        url_decoded(p.1))) =~= Seq::empty());
}

pub proof fn lemma_iam_service_accounts(project: Seq<char>)
    ensures
        asks_for(
            "https://iam.googleapis.com/v1/projects/"@ + url_encoded(project) + "/serviceAccounts"@,
            "https://iam.googleapis.com/v1/"@,
            seq!["projects"@, project, "serviceAccounts"@],
            None,
            Seq::empty(),
        ),
{
    lemma_word_projects();
    lemma_word_serviceaccounts();
    lemma_encoded_piece(project);
    assert("https://iam.googleapis.com/v1/projects/"@
        == "https://iam.googleapis.com/v1/"@ + "projects"@ + seq!['/']) by {
        reveal_strlit("https://iam.googleapis.com/v1/projects/");
        reveal_strlit("https://iam.googleapis.com/v1/");
        reveal_strlit("projects");
    }
    assert("/serviceAccounts"@ == seq!['/'] + "serviceAccounts"@) by {
        reveal_strlit("/serviceAccounts");
        reveal_strlit("serviceAccounts");
    }
    let pieces = seq!["projects"@, url_encoded(project), "serviceAccounts"@];
    lemma_joined(pieces, seq!['/']);
    let parameters = Seq::<(Seq<char>, Seq<char>)>::empty();
    let url = "https://iam.googleapis.com/v1/projects/"@ + url_encoded(project)
        + "/serviceAccounts"@;
    assert(url =~= "https://iam.googleapis.com/v1/"@ + join(pieces, seq!['/'])
        + verb_suffix(None) + query_suffix(None)) by {
        lemma_regroup();
    }
    lemma_read(url, "https://iam.googleapis.com/v1/"@, pieces, None, parameters);
    assert(pieces.map_values(|s: Seq<char>| url_decoded(s)) =~= seq!["projects"@, project,
        "serviceAccounts"@]);
    assert(parameters.map_values(|p: (Seq<char>, Seq<char>)| (p.0,
        url_decoded(p.1))) =~= Seq::empty());
}

pub proof fn lemma_iam_service_accounts_email(project: Seq<char>, email: Seq<char>)
    ensures
        asks_for(
            "https://iam.googleapis.com/v1/projects/"@ + url_encoded(project)
                + "/serviceAccounts/"@ + url_encoded(email),
            "https://iam.googleapis.com/v1/"@,
            seq!["projects"@, project, "serviceAccounts"@, email],
            None,
            Seq::empty(),
        ),
{
    lemma_word_projects();
    lemma_word_serviceaccounts();
    lemma_encoded_piece(project);
    lemma_encoded_piece(email);
    assert("https://iam.googleapis.com/v1/projects/"@
        == "https://iam.googleapis.com/v1/"@ + "projects"@ + seq!['/']) by {
        reveal_strlit("https://iam.googleapis.com/v1/projects/");
        reveal_strlit("https://iam.googleapis.com/v1/");
        reveal_strlit("projects");
    }
    assert("/serviceAccounts/"@ == seq!['/'] + "serviceAccounts"@ + seq!['/']) by {
        reveal_strlit("/serviceAccounts/");
        reveal_strlit("serviceAccounts");
    }
    let pieces = seq!["projects"@, url_encoded(project), "serviceAccounts"@, url_encoded(email)];
    lemma_joined(pieces, seq!['/']);
    let parameters = Seq::<(Seq<char>, Seq<char>)>::empty();
    let url = "https://iam.googleapis.com/v1/projects/"@ + url_encoded(project)
        + "/serviceAccounts/"@ + url_encoded(email);
    assert(url =~= "https://iam.googleapis.com/v1/"@ + join(pieces, seq!['/'])
        + verb_suffix(None) + query_suffix(None)) by {
        lemma_regroup();
    }
    lemma_read(url, "https://iam.googleapis.com/v1/"@, pieces, None, parameters);
    assert(pieces.map_values(|s: Seq<char>| url_decoded(s)) =~= seq!["projects"@, project,
        "serviceAccounts"@, email]);
    assert(parameters.map_values(|p: (Seq<char>, Seq<char>)| (p.0,
        url_decoded(p.1))) =~= Seq::empty());
}

pub proof fn lemma_logging_entries_list()
    ensures
        asks_for(
            "https://logging.googleapis.com/v2/entries:list"@,
            "https://logging.googleapis.com/v2/"@,
            seq!["entries"@],
            Some("list"@),
            Seq::empty(),
        ),
{
    lemma_word_entries();
    lemma_word_list();
    assert("https://logging.googleapis.com/v2/entries:list"@
        == "https://logging.googleapis.com/v2/"@ + "entries"@ + seq![':'] + "list"@) by {
        reveal_strlit("https://logging.googleapis.com/v2/entries:list");
        reveal_strlit("https://logging.googleapis.com/v2/");
        reveal_strlit("entries");
        reveal_strlit("list");
    }
    let pieces = seq!["entries"@];
    lemma_joined(pieces, seq!['/']);
    let parameters = Seq::<(Seq<char>, Seq<char>)>::empty();
    let url = "https://logging.googleapis.com/v2/entries:list"@;
    assert(url =~= "https://logging.googleapis.com/v2/"@ + join(pieces, seq!['/'])
        + verb_suffix(Some("list"@)) + query_suffix(None)) by {
        lemma_regroup();
    }
    lemma_read(url, "https://logging.googleapis.com/v2/"@, pieces, Some("list"@), parameters);
    assert(pieces.map_values(|s: Seq<char>| url_decoded(s)) =~= seq!["entries"@]);
    assert(parameters.map_values(|p: (Seq<char>, Seq<char>)| (p.0,
        url_decoded(p.1))) =~= Seq::empty());
}

pub proof fn lemma_logging_entries_write()
    ensures
        asks_for(
            "https://logging.googleapis.com/v2/entries:write"@,
            "https://logging.googleapis.com/v2/"@,
            seq!["entries"@],
            Some("write"@),
            Seq::empty(),
        ),
{
    lemma_word_entries();
    lemma_word_write();
    assert("https://logging.googleapis.com/v2/entries:write"@
        == "https://logging.googleapis.com/v2/"@ + "entries"@ + seq![':'] + "write"@) by {
        reveal_strlit("https://logging.googleapis.com/v2/entries:write");
        reveal_strlit("https://logging.googleapis.com/v2/");
        reveal_strlit("entries");
        reveal_strlit("write");
    }
    let pieces = seq!["entries"@];
    lemma_joined(pieces, seq!['/']);
    let parameters = Seq::<(Seq<char>, Seq<char>)>::empty();
    let url = "https://logging.googleapis.com/v2/entries:write"@;
    assert(url =~= "https://logging.googleapis.com/v2/"@ + join(pieces, seq!['/'])
        + verb_suffix(Some("write"@)) + query_suffix(None)) by {
        lemma_regroup();
    }
    lemma_read(url, "https://logging.googleapis.com/v2/"@, pieces, Some("write"@), parameters);
    assert(pieces.map_values(|s: Seq<char>| url_decoded(s)) =~= seq!["entries"@]);
    assert(parameters.map_values(|p: (Seq<char>, Seq<char>)| (p.0,
        url_decoded(p.1))) =~= Seq::empty());
}

pub proof fn lemma_logging_logs(project: Seq<char>)
    ensures
        asks_for(
            "https://logging.googleapis.com/v2/projects/"@ + url_encoded(project) + "/logs"@,
            "https://logging.googleapis.com/v2/"@,
            seq!["projects"@, project, "logs"@],
            None,
            Seq::empty(),
        ),
{
    lemma_word_projects();
    lemma_word_logs();
    lemma_encoded_piece(project);
    assert("https://logging.googleapis.com/v2/projects/"@
        == "https://logging.googleapis.com/v2/"@ + "projects"@ + seq!['/']) by {
        reveal_strlit("https://logging.googleapis.com/v2/projects/");
        reveal_strlit("https://logging.googleapis.com/v2/");
        reveal_strlit("projects");
    }
    assert("/logs"@ == seq!['/'] + "logs"@) by {
        reveal_strlit("/logs");
        reveal_strlit("logs");
    }
    let pieces = seq!["projects"@, url_encoded(project), "logs"@];
    lemma_joined(pieces, seq!['/']);
    let parameters = Seq::<(Seq<char>, Seq<char>)>::empty();
    let url = "https://logging.googleapis.com/v2/projects/"@ + url_encoded(project) + "/logs"@;
    assert(url =~= "https://logging.googleapis.com/v2/"@ + join(pieces, seq!['/'])
        + verb_suffix(None) + query_suffix(None)) by {
        lemma_regroup();
    }
    lemma_read(url, "https://logging.googleapis.com/v2/"@, pieces, None, parameters);
    assert(pieces.map_values(|s: Seq<char>| url_decoded(s)) =~= seq!["projects"@, project,
        "logs"@]);
    assert(parameters.map_values(|p: (Seq<char>, Seq<char>)| (p.0,
        url_decoded(p.1))) =~= Seq::empty());
}

pub proof fn lemma_monitoring_metric_descriptors(project: Seq<char>)
    ensures
        asks_for(
            "https://monitoring.googleapis.com/v3/projects/"@ + url_encoded(project)
                + "/metricDescriptors"@,
            "https://monitoring.googleapis.com/v3/"@,
            seq!["projects"@, project, "metricDescriptors"@],
            None,
            Seq::empty(),
        ),
{
    lemma_word_projects();
    lemma_word_metricdescriptors();
    lemma_encoded_piece(project);
    assert("https://monitoring.googleapis.com/v3/projects/"@
        == "https://monitoring.googleapis.com/v3/"@ + "projects"@ + seq!['/']) by {
        reveal_strlit("https://monitoring.googleapis.com/v3/projects/");
        reveal_strlit("https://monitoring.googleapis.com/v3/");
        reveal_strlit("projects");
    }
    assert("/metricDescriptors"@ == seq!['/'] + "metricDescriptors"@) by {
        reveal_strlit("/metricDescriptors");
        reveal_strlit("metricDescriptors");
    }
    let pieces = seq!["projects"@, url_encoded(project), "metricDescriptors"@];
    lemma_joined(pieces, seq!['/']);
    let parameters = Seq::<(Seq<char>, Seq<char>)>::empty();
    let url = "https://monitoring.googleapis.com/v3/projects/"@ + url_encoded(project)
        + "/metricDescriptors"@;
    assert(url =~= "https://monitoring.googleapis.com/v3/"@ + join(pieces, seq!['/'])
        + verb_suffix(None) + query_suffix(None)) by {
        lemma_regroup();
    }
    lemma_read(url, "https://monitoring.googleapis.com/v3/"@, pieces, None, parameters);
    assert(pieces.map_values(|s: Seq<char>| url_decoded(s)) =~= seq!["projects"@, project,
        "metricDescriptors"@]);
    assert(parameters.map_values(|p: (Seq<char>, Seq<char>)| (p.0,
        url_decoded(p.1))) =~= Seq::empty());
}

pub proof fn lemma_monitoring_metric_descriptors_filter(project: Seq<char>, filter: Seq<char>)
    ensures
        asks_for(
            "https://monitoring.googleapis.com/v3/projects/"@ + url_encoded(project)
                + "/metricDescriptors"@ + "?filter="@ + url_encoded(filter),
            "https://monitoring.googleapis.com/v3/"@,
            seq!["projects"@, project, "metricDescriptors"@],
            None,
            seq![("filter"@, filter)],
        ),
{
    lemma_word_projects();
    lemma_word_metricdescriptors();
    lemma_word_filter();
    lemma_encoded_piece(project);
    lemma_encoded_piece(filter);
    assert("https://monitoring.googleapis.com/v3/projects/"@
        == "https://monitoring.googleapis.com/v3/"@ + "projects"@ + seq!['/']) by {
        reveal_strlit("https://monitoring.googleapis.com/v3/projects/");
        reveal_strlit("https://monitoring.googleapis.com/v3/");
        reveal_strlit("projects");
    }
    assert("/metricDescriptors"@ == seq!['/'] + "metricDescriptors"@) by {
        reveal_strlit("/metricDescriptors");
        reveal_strlit("metricDescriptors");
    }
    assert("?filter="@ == seq!['?'] + "filter"@ + seq!['=']) by {
        reveal_strlit("?filter=");
        reveal_strlit("filter");
    }
    let pieces = seq!["projects"@, url_encoded(project), "metricDescriptors"@];
    lemma_joined(pieces, seq!['/']);
    let parameters = seq![("filter"@, url_encoded(filter))];
    let wrote = parameters.map_values(|p: (Seq<char>, Seq<char>)| written(p));
    assert(wrote =~= seq!["filter"@ + seq!['='] + url_encoded(filter)]);
    lemma_joined(wrote, seq!['&']);
    let url = "https://monitoring.googleapis.com/v3/projects/"@ + url_encoded(project)
        + "/metricDescriptors"@ + "?filter="@ + url_encoded(filter);
    assert(url =~= "https://monitoring.googleapis.com/v3/"@ + join(pieces, seq!['/'])
        + verb_suffix(None) + query_suffix(Some(join(wrote, seq!['&'])))) by {
        lemma_regroup();
    }
    lemma_read(url, "https://monitoring.googleapis.com/v3/"@, pieces, None, parameters);
    assert(pieces.map_values(|s: Seq<char>| url_decoded(s)) =~= seq!["projects"@, project,
        "metricDescriptors"@]);
    assert(parameters.map_values(|p: (Seq<char>, Seq<char>)| (p.0,
        url_decoded(p.1))) =~= seq![("filter"@, filter)]);
}

pub proof fn lemma_monitoring_time_series_filter_interval_start_time_interval_end_time(
    project: Seq<char>,
    filter: Seq<char>,
    start: Seq<char>,
    end: Seq<char>,
)
    ensures
        asks_for(
            "https://monitoring.googleapis.com/v3/projects/"@ + url_encoded(project)
                + "/timeSeries?filter="@ + url_encoded(filter) + "&interval.startTime="@
                + url_encoded(start) + "&interval.endTime="@ + url_encoded(end),
            "https://monitoring.googleapis.com/v3/"@,
            seq!["projects"@, project, "timeSeries"@],
            None,
            seq![("filter"@, filter), ("interval.startTime"@, start), ("interval.endTime"@, end)],
        ),
{
    lemma_word_projects();
    lemma_word_timeseries();
    lemma_word_filter();
    lemma_word_interval_starttime();
    lemma_word_interval_endtime();
    lemma_encoded_piece(project);
    lemma_encoded_piece(filter);
    lemma_encoded_piece(start);
    lemma_encoded_piece(end);
    assert("https://monitoring.googleapis.com/v3/projects/"@
        == "https://monitoring.googleapis.com/v3/"@ + "projects"@ + seq!['/']) by {
        reveal_strlit("https://monitoring.googleapis.com/v3/projects/");
        reveal_strlit("https://monitoring.googleapis.com/v3/");
        reveal_strlit("projects");
    }
    assert("/timeSeries?filter="@
        == seq!['/'] + "timeSeries"@ + seq!['?'] + "filter"@ + seq!['=']) by {
        reveal_strlit("/timeSeries?filter=");
        reveal_strlit("timeSeries");
        reveal_strlit("filter");
    }
    assert("&interval.startTime="@ == seq!['&'] + "interval.startTime"@ + seq!['=']) by {
        reveal_strlit("&interval.startTime=");
        reveal_strlit("interval.startTime");
    }
    assert("&interval.endTime="@ == seq!['&'] + "interval.endTime"@ + seq!['=']) by {
        reveal_strlit("&interval.endTime=");
        reveal_strlit("interval.endTime");
    }
    let pieces = seq!["projects"@, url_encoded(project), "timeSeries"@];
    lemma_joined(pieces, seq!['/']);
    let parameters = seq![("filter"@, url_encoded(filter)), ("interval.startTime"@,
        url_encoded(start)), ("interval.endTime"@, url_encoded(end))];
    let wrote = parameters.map_values(|p: (Seq<char>, Seq<char>)| written(p));
    assert(wrote =~= seq!["filter"@ + seq!['='] + url_encoded(filter), "interval.startTime"@
        + seq!['='] + url_encoded(start), "interval.endTime"@ + seq!['='] + url_encoded(end)]);
    lemma_joined(wrote, seq!['&']);
    let url = "https://monitoring.googleapis.com/v3/projects/"@ + url_encoded(project)
        + "/timeSeries?filter="@ + url_encoded(filter) + "&interval.startTime="@
        + url_encoded(start) + "&interval.endTime="@ + url_encoded(end);
    assert(url =~= "https://monitoring.googleapis.com/v3/"@ + join(pieces, seq!['/'])
        + verb_suffix(None) + query_suffix(Some(join(wrote, seq!['&'])))) by {
        lemma_regroup();
    }
    lemma_read(url, "https://monitoring.googleapis.com/v3/"@, pieces, None, parameters);
    assert(pieces.map_values(|s: Seq<char>| url_decoded(s)) =~= seq!["projects"@, project,
        "timeSeries"@]);
    assert(parameters.map_values(|p: (Seq<char>, Seq<char>)| (p.0,
        url_decoded(p.1))) =~= seq![("filter"@, filter), ("interval.startTime"@, start),
        ("interval.endTime"@, end)]);
}

pub proof fn lemma_pubsub_subscriptions(project: Seq<char>)
    ensures
        asks_for(
            "https://pubsub.googleapis.com/v1/projects/"@ + url_encoded(project)
                + "/subscriptions"@,
            "https://pubsub.googleapis.com/v1/"@,
            seq!["projects"@, project, "subscriptions"@],
            None,
            Seq::empty(),
        ),
{
    lemma_word_projects();
    lemma_word_subscriptions();
    lemma_encoded_piece(project);
    assert("https://pubsub.googleapis.com/v1/projects/"@
        == "https://pubsub.googleapis.com/v1/"@ + "projects"@ + seq!['/']) by {
        reveal_strlit("https://pubsub.googleapis.com/v1/projects/");
        reveal_strlit("https://pubsub.googleapis.com/v1/");
        reveal_strlit("projects");
    }
    assert("/subscriptions"@ == seq!['/'] + "subscriptions"@) by {
        reveal_strlit("/subscriptions");
        reveal_strlit("subscriptions");
    }
    let pieces = seq!["projects"@, url_encoded(project), "subscriptions"@];
    lemma_joined(pieces, seq!['/']);
    let parameters = Seq::<(Seq<char>, Seq<char>)>::empty();
    let url = "https://pubsub.googleapis.com/v1/projects/"@ + url_encoded(project)
        + "/subscriptions"@;
    assert(url =~= "https://pubsub.googleapis.com/v1/"@ + join(pieces, seq!['/'])
        + verb_suffix(None) + query_suffix(None)) by {
        lemma_regroup();
    }
    lemma_read(url, "https://pubsub.googleapis.com/v1/"@, pieces, None, parameters);
    assert(pieces.map_values(|s: Seq<char>| url_decoded(s)) =~= seq!["projects"@, project,
        "subscriptions"@]);
    assert(parameters.map_values(|p: (Seq<char>, Seq<char>)| (p.0,
        url_decoded(p.1))) =~= Seq::empty());
}

pub proof fn lemma_pubsub_subscriptions_subscription(project: Seq<char>, subscription: Seq<char>)
    ensures
        asks_for(
            "https://pubsub.googleapis.com/v1/projects/"@ + url_encoded(project)
                + "/subscriptions/"@ + url_encoded(subscription),
            "https://pubsub.googleapis.com/v1/"@,
            seq!["projects"@, project, "subscriptions"@, subscription],
            None,
            Seq::empty(),
        ),
{
    lemma_word_projects();
    lemma_word_subscriptions();
    lemma_encoded_piece(project);
    lemma_encoded_piece(subscription);
    assert("https://pubsub.googleapis.com/v1/projects/"@
        == "https://pubsub.googleapis.com/v1/"@ + "projects"@ + seq!['/']) by {
        reveal_strlit("https://pubsub.googleapis.com/v1/projects/");
        reveal_strlit("https://pubsub.googleapis.com/v1/");
        reveal_strlit("projects");
    }
    assert("/subscriptions/"@ == seq!['/'] + "subscriptions"@ + seq!['/']) by {
        reveal_strlit("/subscriptions/");
        reveal_strlit("subscriptions");
    }
    let pieces = seq!["projects"@, url_encoded(project), "subscriptions"@,
        url_encoded(subscription)];
    lemma_joined(pieces, seq!['/']);
    let parameters = Seq::<(Seq<char>, Seq<char>)>::empty();
    let url = "https://pubsub.googleapis.com/v1/projects/"@ + url_encoded(project)
        + "/subscriptions/"@ + url_encoded(subscription);
    assert(url =~= "https://pubsub.googleapis.com/v1/"@ + join(pieces, seq!['/'])
        + verb_suffix(None) + query_suffix(None)) by {
        lemma_regroup();
    }
    lemma_read(url, "https://pubsub.googleapis.com/v1/"@, pieces, None, parameters);
    assert(pieces.map_values(|s: Seq<char>| url_decoded(s)) =~= seq!["projects"@, project,
        "subscriptions"@, subscription]);
    assert(parameters.map_values(|p: (Seq<char>, Seq<char>)| (p.0,
        url_decoded(p.1))) =~= Seq::empty());
}

pub proof fn lemma_pubsub_subscriptions_subscription_acknowledge(
    project: Seq<char>,
    subscription: Seq<char>,
)
    ensures
        asks_for(
            "https://pubsub.googleapis.com/v1/projects/"@ + url_encoded(project)
                + "/subscriptions/"@ + url_encoded(subscription) + ":acknowledge"@,
            "https://pubsub.googleapis.com/v1/"@,
            seq!["projects"@, project, "subscriptions"@, subscription],
            Some("acknowledge"@),
            Seq::empty(),
        ),
{
    lemma_word_projects();
    lemma_word_subscriptions();
    lemma_word_acknowledge();
    lemma_encoded_piece(project);
    lemma_encoded_piece(subscription);
    assert("https://pubsub.googleapis.com/v1/projects/"@
        == "https://pubsub.googleapis.com/v1/"@ + "projects"@ + seq!['/']) by {
        reveal_strlit("https://pubsub.googleapis.com/v1/projects/");
        reveal_strlit("https://pubsub.googleapis.com/v1/");
        reveal_strlit("projects");
    }
    assert("/subscriptions/"@ == seq!['/'] + "subscriptions"@ + seq!['/']) by {
        reveal_strlit("/subscriptions/");
        reveal_strlit("subscriptions");
    }
    assert(":acknowledge"@ == seq![':'] + "acknowledge"@) by {
        reveal_strlit(":acknowledge");
        reveal_strlit("acknowledge");
    }
    let pieces = seq!["projects"@, url_encoded(project), "subscriptions"@,
        url_encoded(subscription)];
    lemma_joined(pieces, seq!['/']);
    let parameters = Seq::<(Seq<char>, Seq<char>)>::empty();
    let url = "https://pubsub.googleapis.com/v1/projects/"@ + url_encoded(project)
        + "/subscriptions/"@ + url_encoded(subscription) + ":acknowledge"@;
    assert(url =~= "https://pubsub.googleapis.com/v1/"@ + join(pieces, seq!['/'])
        + verb_suffix(Some("acknowledge"@)) + query_suffix(None)) by {
        lemma_regroup();
    }
    lemma_read(url, "https://pubsub.googleapis.com/v1/"@, pieces, Some("acknowledge"@), parameters);
    assert(pieces.map_values(|s: Seq<char>| url_decoded(s)) =~= seq!["projects"@, project,
        "subscriptions"@, subscription]);
    assert(parameters.map_values(|p: (Seq<char>, Seq<char>)| (p.0,
        url_decoded(p.1))) =~= Seq::empty());
}

pub proof fn lemma_pubsub_subscriptions_subscription_pull(
    project: Seq<char>,
    subscription: Seq<char>,
)
    ensures
        asks_for(
            "https://pubsub.googleapis.com/v1/projects/"@ + url_encoded(project)
                + "/subscriptions/"@ + url_encoded(subscription) + ":pull"@,
            "https://pubsub.googleapis.com/v1/"@,
            seq!["projects"@, project, "subscriptions"@, subscription],
            Some("pull"@),
            Seq::empty(),
        ),
{
    lemma_word_projects();
    lemma_word_subscriptions();
    lemma_word_pull();
    lemma_encoded_piece(project);
    lemma_encoded_piece(subscription);
    assert("https://pubsub.googleapis.com/v1/projects/"@
        == "https://pubsub.googleapis.com/v1/"@ + "projects"@ + seq!['/']) by {
        reveal_strlit("https://pubsub.googleapis.com/v1/projects/");
        reveal_strlit("https://pubsub.googleapis.com/v1/");
        reveal_strlit("projects");
    }
    assert("/subscriptions/"@ == seq!['/'] + "subscriptions"@ + seq!['/']) by {
        reveal_strlit("/subscriptions/");
        reveal_strlit("subscriptions");
    }
    assert(":pull"@ == seq![':'] + "pull"@) by {
        reveal_strlit(":pull");
        reveal_strlit("pull");
    }
    let pieces = seq!["projects"@, url_encoded(project), "subscriptions"@,
        url_encoded(subscription)];
    lemma_joined(pieces, seq!['/']);
    let parameters = Seq::<(Seq<char>, Seq<char>)>::empty();
    let url = "https://pubsub.googleapis.com/v1/projects/"@ + url_encoded(project)
        + "/subscriptions/"@ + url_encoded(subscription) + ":pull"@;
    assert(url =~= "https://pubsub.googleapis.com/v1/"@ + join(pieces, seq!['/'])
        + verb_suffix(Some("pull"@)) + query_suffix(None)) by {
        lemma_regroup();
    }
    lemma_read(url, "https://pubsub.googleapis.com/v1/"@, pieces, Some("pull"@), parameters);
    assert(pieces.map_values(|s: Seq<char>| url_decoded(s)) =~= seq!["projects"@, project,
        "subscriptions"@, subscription]);
    assert(parameters.map_values(|p: (Seq<char>, Seq<char>)| (p.0,
        url_decoded(p.1))) =~= Seq::empty());
}

pub proof fn lemma_pubsub_topics(project: Seq<char>)
    ensures
        asks_for(
            "https://pubsub.googleapis.com/v1/projects/"@ + url_encoded(project) + "/topics"@,
            "https://pubsub.googleapis.com/v1/"@,
            seq!["projects"@, project, "topics"@],
            None,
            Seq::empty(),
        ),
{
    lemma_word_projects();
    lemma_word_topics();
    lemma_encoded_piece(project);
    assert("https://pubsub.googleapis.com/v1/projects/"@
        == "https://pubsub.googleapis.com/v1/"@ + "projects"@ + seq!['/']) by {
        reveal_strlit("https://pubsub.googleapis.com/v1/projects/");
        reveal_strlit("https://pubsub.googleapis.com/v1/");
        reveal_strlit("projects");
    }
    assert("/topics"@ == seq!['/'] + "topics"@) by {
        reveal_strlit("/topics");
        reveal_strlit("topics");
    }
    let pieces = seq!["projects"@, url_encoded(project), "topics"@];
    lemma_joined(pieces, seq!['/']);
    let parameters = Seq::<(Seq<char>, Seq<char>)>::empty();
    let url = "https://pubsub.googleapis.com/v1/projects/"@ + url_encoded(project) + "/topics"@;
    assert(url =~= "https://pubsub.googleapis.com/v1/"@ + join(pieces, seq!['/'])
        + verb_suffix(None) + query_suffix(None)) by {
        lemma_regroup();
    }
    lemma_read(url, "https://pubsub.googleapis.com/v1/"@, pieces, None, parameters);
    assert(pieces.map_values(|s: Seq<char>| url_decoded(s)) =~= seq!["projects"@, project,
        "topics"@]);
    assert(parameters.map_values(|p: (Seq<char>, Seq<char>)| (p.0,
        url_decoded(p.1))) =~= Seq::empty());
}

pub proof fn lemma_pubsub_topics_subscriptions(project: Seq<char>, topic: Seq<char>)
    ensures
        asks_for(
            "https://pubsub.googleapis.com/v1/projects/"@ + url_encoded(project)
                + "/topics/"@ + url_encoded(topic) + "/subscriptions"@,
            "https://pubsub.googleapis.com/v1/"@,
            seq!["projects"@, project, "topics"@, topic, "subscriptions"@],
            None,
            Seq::empty(),
        ),
{
    lemma_word_projects();
    lemma_word_topics();
    lemma_word_subscriptions();
    lemma_encoded_piece(project);
    lemma_encoded_piece(topic);
    assert("https://pubsub.googleapis.com/v1/projects/"@
        == "https://pubsub.googleapis.com/v1/"@ + "projects"@ + seq!['/']) by {
        reveal_strlit("https://pubsub.googleapis.com/v1/projects/");
        reveal_strlit("https://pubsub.googleapis.com/v1/");
        reveal_strlit("projects");
    }
    assert("/topics/"@ == seq!['/'] + "topics"@ + seq!['/']) by {
        reveal_strlit("/topics/");
        reveal_strlit("topics");
    }
    assert("/subscriptions"@ == seq!['/'] + "subscriptions"@) by {
        reveal_strlit("/subscriptions");
        reveal_strlit("subscriptions");
    }
    let pieces = seq!["projects"@, url_encoded(project), "topics"@, url_encoded(topic),
        "subscriptions"@];
    lemma_joined(pieces, seq!['/']);
    let parameters = Seq::<(Seq<char>, Seq<char>)>::empty();
    let url = "https://pubsub.googleapis.com/v1/projects/"@ + url_encoded(project)
        + "/topics/"@ + url_encoded(topic) + "/subscriptions"@;
    assert(url =~= "https://pubsub.googleapis.com/v1/"@ + join(pieces, seq!['/'])
        + verb_suffix(None) + query_suffix(None)) by {
        lemma_regroup();
    }
    lemma_read(url, "https://pubsub.googleapis.com/v1/"@, pieces, None, parameters);
    assert(pieces.map_values(|s: Seq<char>| url_decoded(s)) =~= seq!["projects"@, project,
        "topics"@, topic, "subscriptions"@]);
    assert(parameters.map_values(|p: (Seq<char>, Seq<char>)| (p.0,
        url_decoded(p.1))) =~= Seq::empty());
}

pub proof fn lemma_pubsub_topics_topic(project: Seq<char>, topic: Seq<char>)
    ensures
        asks_for(
            "https://pubsub.googleapis.com/v1/projects/"@ + url_encoded(project)
                + "/topics/"@ + url_encoded(topic),
            "https://pubsub.googleapis.com/v1/"@,
            seq!["projects"@, project, "topics"@, topic],
            None,
            Seq::empty(),
        ),
{
    lemma_word_projects();
    lemma_word_topics();
    lemma_encoded_piece(project);
    lemma_encoded_piece(topic);
    assert("https://pubsub.googleapis.com/v1/projects/"@
        == "https://pubsub.googleapis.com/v1/"@ + "projects"@ + seq!['/']) by {
        reveal_strlit("https://pubsub.googleapis.com/v1/projects/");
        reveal_strlit("https://pubsub.googleapis.com/v1/");
        reveal_strlit("projects");
    }
    assert("/topics/"@ == seq!['/'] + "topics"@ + seq!['/']) by {
        reveal_strlit("/topics/");
        reveal_strlit("topics");
    }
    let pieces = seq!["projects"@, url_encoded(project), "topics"@, url_encoded(topic)];
    lemma_joined(pieces, seq!['/']);
    let parameters = Seq::<(Seq<char>, Seq<char>)>::empty();
    let url = "https://pubsub.googleapis.com/v1/projects/"@ + url_encoded(project)
        + "/topics/"@ + url_encoded(topic);
    assert(url =~= "https://pubsub.googleapis.com/v1/"@ + join(pieces, seq!['/'])
        + verb_suffix(None) + query_suffix(None)) by {
        lemma_regroup();
    }
    lemma_read(url, "https://pubsub.googleapis.com/v1/"@, pieces, None, parameters);
    assert(pieces.map_values(|s: Seq<char>| url_decoded(s)) =~= seq!["projects"@, project,
        "topics"@, topic]);
    assert(parameters.map_values(|p: (Seq<char>, Seq<char>)| (p.0,
        url_decoded(p.1))) =~= Seq::empty());
}

pub proof fn lemma_pubsub_topics_topic_publish(project: Seq<char>, topic: Seq<char>)
    ensures
        asks_for(
            "https://pubsub.googleapis.com/v1/projects/"@ + url_encoded(project)
                + "/topics/"@ + url_encoded(topic) + ":publish"@,
            "https://pubsub.googleapis.com/v1/"@,
            seq!["projects"@, project, "topics"@, topic],
            Some("publish"@),
            Seq::empty(),
        ),
{
    lemma_word_projects();
    lemma_word_topics();
    lemma_word_publish();
    lemma_encoded_piece(project);
    lemma_encoded_piece(topic);
    assert("https://pubsub.googleapis.com/v1/projects/"@
        == "https://pubsub.googleapis.com/v1/"@ + "projects"@ + seq!['/']) by {
        reveal_strlit("https://pubsub.googleapis.com/v1/projects/");
        reveal_strlit("https://pubsub.googleapis.com/v1/");
        reveal_strlit("projects");
    }
    assert("/topics/"@ == seq!['/'] + "topics"@ + seq!['/']) by {
        reveal_strlit("/topics/");
        reveal_strlit("topics");
    }
    assert(":publish"@ == seq![':'] + "publish"@) by {
        reveal_strlit(":publish");
        reveal_strlit("publish");
    }
    let pieces = seq!["projects"@, url_encoded(project), "topics"@, url_encoded(topic)];
    lemma_joined(pieces, seq!['/']);
    let parameters = Seq::<(Seq<char>, Seq<char>)>::empty();
    let url = "https://pubsub.googleapis.com/v1/projects/"@ + url_encoded(project)
        + "/topics/"@ + url_encoded(topic) + ":publish"@;
    assert(url =~= "https://pubsub.googleapis.com/v1/"@ + join(pieces, seq!['/'])
        + verb_suffix(Some("publish"@)) + query_suffix(None)) by {
        lemma_regroup();
    }
    lemma_read(url, "https://pubsub.googleapis.com/v1/"@, pieces, Some("publish"@), parameters);
    assert(pieces.map_values(|s: Seq<char>| url_decoded(s)) =~= seq!["projects"@, project,
        "topics"@, topic]);
    assert(parameters.map_values(|p: (Seq<char>, Seq<char>)| (p.0,
        url_decoded(p.1))) =~= Seq::empty());
}

pub proof fn lemma_run_services(project: Seq<char>, region: Seq<char>)
    ensures
        asks_for(
            "https://run.googleapis.com/v2/projects/"@ + url_encoded(project)
                + "/locations/"@ + url_encoded(region) + "/services"@,
            "https://run.googleapis.com/v2/"@,
            seq!["projects"@, project, "locations"@, region, "services"@],
            None,
            Seq::empty(),
        ),
{
    lemma_word_projects();
    lemma_word_locations();
    lemma_word_services();
    lemma_encoded_piece(project);
    lemma_encoded_piece(region);
    assert("https://run.googleapis.com/v2/projects/"@
        == "https://run.googleapis.com/v2/"@ + "projects"@ + seq!['/']) by {
        reveal_strlit("https://run.googleapis.com/v2/projects/");
        reveal_strlit("https://run.googleapis.com/v2/");
        reveal_strlit("projects");
    }
    assert("/locations/"@ == seq!['/'] + "locations"@ + seq!['/']) by {
        reveal_strlit("/locations/");
        reveal_strlit("locations");
    }
    assert("/services"@ == seq!['/'] + "services"@) by {
        reveal_strlit("/services");
        reveal_strlit("services");
    }
    let pieces = seq!["projects"@, url_encoded(project), "locations"@, url_encoded(region),
        "services"@];
    lemma_joined(pieces, seq!['/']);
    let parameters = Seq::<(Seq<char>, Seq<char>)>::empty();
    let url = "https://run.googleapis.com/v2/projects/"@ + url_encoded(project)
        + "/locations/"@ + url_encoded(region) + "/services"@;
    assert(url =~= "https://run.googleapis.com/v2/"@ + join(pieces, seq!['/'])
        + verb_suffix(None) + query_suffix(None)) by {
        lemma_regroup();
    }
    lemma_read(url, "https://run.googleapis.com/v2/"@, pieces, None, parameters);
    assert(pieces.map_values(|s: Seq<char>| url_decoded(s)) =~= seq!["projects"@, project,
        "locations"@, region, "services"@]);
    assert(parameters.map_values(|p: (Seq<char>, Seq<char>)| (p.0,
        url_decoded(p.1))) =~= Seq::empty());
}

pub proof fn lemma_run_services_revisions(project: Seq<char>, region: Seq<char>, service: Seq<char>)
    ensures
        asks_for(
            "https://run.googleapis.com/v2/projects/"@ + url_encoded(project)
                + "/locations/"@ + url_encoded(region) + "/services/"@ + url_encoded(service)
                + "/revisions"@,
            "https://run.googleapis.com/v2/"@,
            seq!["projects"@, project, "locations"@, region, "services"@, service, "revisions"@],
            None,
            Seq::empty(),
        ),
{
    lemma_word_projects();
    lemma_word_locations();
    lemma_word_services();
    lemma_word_revisions();
    lemma_encoded_piece(project);
    lemma_encoded_piece(region);
    lemma_encoded_piece(service);
    assert("https://run.googleapis.com/v2/projects/"@
        == "https://run.googleapis.com/v2/"@ + "projects"@ + seq!['/']) by {
        reveal_strlit("https://run.googleapis.com/v2/projects/");
        reveal_strlit("https://run.googleapis.com/v2/");
        reveal_strlit("projects");
    }
    assert("/locations/"@ == seq!['/'] + "locations"@ + seq!['/']) by {
        reveal_strlit("/locations/");
        reveal_strlit("locations");
    }
    assert("/services/"@ == seq!['/'] + "services"@ + seq!['/']) by {
        reveal_strlit("/services/");
        reveal_strlit("services");
    }
    assert("/revisions"@ == seq!['/'] + "revisions"@) by {
        reveal_strlit("/revisions");
        reveal_strlit("revisions");
    }
    let pieces = seq!["projects"@, url_encoded(project), "locations"@, url_encoded(region),
        "services"@, url_encoded(service), "revisions"@];
    lemma_joined(pieces, seq!['/']);
    let parameters = Seq::<(Seq<char>, Seq<char>)>::empty();
    let url = "https://run.googleapis.com/v2/projects/"@ + url_encoded(project)
        + "/locations/"@ + url_encoded(region) + "/services/"@ + url_encoded(service)
        + "/revisions"@;
    assert(url =~= "https://run.googleapis.com/v2/"@ + join(pieces, seq!['/'])
        + verb_suffix(None) + query_suffix(None)) by {
        lemma_regroup();
    }
    lemma_read(url, "https://run.googleapis.com/v2/"@, pieces, None, parameters);
    assert(pieces.map_values(|s: Seq<char>| url_decoded(s)) =~= seq!["projects"@, project,
        "locations"@, region, "services"@, service, "revisions"@]);
    assert(parameters.map_values(|p: (Seq<char>, Seq<char>)| (p.0,
        url_decoded(p.1))) =~= Seq::empty());
}

pub proof fn lemma_run_services_service(project: Seq<char>, region: Seq<char>, service: Seq<char>)
    ensures
        asks_for(
            "https://run.googleapis.com/v2/projects/"@ + url_encoded(project)
                + "/locations/"@ + url_encoded(region) + "/services/"@ + url_encoded(service),
            "https://run.googleapis.com/v2/"@,
            seq!["projects"@, project, "locations"@, region, "services"@, service],
            None,
            Seq::empty(),
        ),
{
    lemma_word_projects();
    lemma_word_locations();
    lemma_word_services();
    lemma_encoded_piece(project);
    lemma_encoded_piece(region);
    lemma_encoded_piece(service);
    assert("https://run.googleapis.com/v2/projects/"@
        == "https://run.googleapis.com/v2/"@ + "projects"@ + seq!['/']) by {
        reveal_strlit("https://run.googleapis.com/v2/projects/");
        reveal_strlit("https://run.googleapis.com/v2/");
        reveal_strlit("projects");
    }
    assert("/locations/"@ == seq!['/'] + "locations"@ + seq!['/']) by {
        reveal_strlit("/locations/");
        reveal_strlit("locations");
    }
    assert("/services/"@ == seq!['/'] + "services"@ + seq!['/']) by {
        reveal_strlit("/services/");
        reveal_strlit("services");
    }
    let pieces = seq!["projects"@, url_encoded(project), "locations"@, url_encoded(region),
        "services"@, url_encoded(service)];
    lemma_joined(pieces, seq!['/']);
    let parameters = Seq::<(Seq<char>, Seq<char>)>::empty();
    let url = "https://run.googleapis.com/v2/projects/"@ + url_encoded(project)
        + "/locations/"@ + url_encoded(region) + "/services/"@ + url_encoded(service);
    assert(url =~= "https://run.googleapis.com/v2/"@ + join(pieces, seq!['/'])
        + verb_suffix(None) + query_suffix(None)) by {
        lemma_regroup();
    }
    lemma_read(url, "https://run.googleapis.com/v2/"@, pieces, None, parameters);
    assert(pieces.map_values(|s: Seq<char>| url_decoded(s)) =~= seq!["projects"@, project,
        "locations"@, region, "services"@, service]);
    assert(parameters.map_values(|p: (Seq<char>, Seq<char>)| (p.0,
        url_decoded(p.1))) =~= Seq::empty());
}

pub proof fn lemma_secretmanager_secrets(project: Seq<char>)
    ensures
        asks_for(
            "https://secretmanager.googleapis.com/v1/projects/"@ + url_encoded(project)
                + "/secrets"@,
            "https://secretmanager.googleapis.com/v1/"@,
            seq!["projects"@, project, "secrets"@],
            None,
            Seq::empty(),
        ),
{
    lemma_word_projects();
    lemma_word_secrets();
    lemma_encoded_piece(project);
    assert("https://secretmanager.googleapis.com/v1/projects/"@
        == "https://secretmanager.googleapis.com/v1/"@ + "projects"@ + seq!['/']) by {
        reveal_strlit("https://secretmanager.googleapis.com/v1/projects/");
        reveal_strlit("https://secretmanager.googleapis.com/v1/");
        reveal_strlit("projects");
    }
    assert("/secrets"@ == seq!['/'] + "secrets"@) by {
        reveal_strlit("/secrets");
        reveal_strlit("secrets");
    }
    let pieces = seq!["projects"@, url_encoded(project), "secrets"@];
    lemma_joined(pieces, seq!['/']);
    let parameters = Seq::<(Seq<char>, Seq<char>)>::empty();
    let url = "https://secretmanager.googleapis.com/v1/projects/"@ + url_encoded(project)
        + "/secrets"@;
    assert(url =~= "https://secretmanager.googleapis.com/v1/"@ + join(pieces, seq!['/'])
        + verb_suffix(None) + query_suffix(None)) by {
        lemma_regroup();
    }
    lemma_read(url, "https://secretmanager.googleapis.com/v1/"@, pieces, None, parameters);
    assert(pieces.map_values(|s: Seq<char>| url_decoded(s)) =~= seq!["projects"@, project,
        "secrets"@]);
    assert(parameters.map_values(|p: (Seq<char>, Seq<char>)| (p.0,
        url_decoded(p.1))) =~= Seq::empty());
}

pub proof fn lemma_secretmanager_secrets_secret(project: Seq<char>, secret: Seq<char>)
    ensures
        asks_for(
            "https://secretmanager.googleapis.com/v1/projects/"@ + url_encoded(project)
                + "/secrets/"@ + url_encoded(secret),
            "https://secretmanager.googleapis.com/v1/"@,
            seq!["projects"@, project, "secrets"@, secret],
            None,
            Seq::empty(),
        ),
{
    lemma_word_projects();
    lemma_word_secrets();
    lemma_encoded_piece(project);
    lemma_encoded_piece(secret);
    assert("https://secretmanager.googleapis.com/v1/projects/"@
        == "https://secretmanager.googleapis.com/v1/"@ + "projects"@ + seq!['/']) by {
        reveal_strlit("https://secretmanager.googleapis.com/v1/projects/");
        reveal_strlit("https://secretmanager.googleapis.com/v1/");
        reveal_strlit("projects");
    }
    assert("/secrets/"@ == seq!['/'] + "secrets"@ + seq!['/']) by {
        reveal_strlit("/secrets/");
        reveal_strlit("secrets");
    }
    let pieces = seq!["projects"@, url_encoded(project), "secrets"@, url_encoded(secret)];
    lemma_joined(pieces, seq!['/']);
    let parameters = Seq::<(Seq<char>, Seq<char>)>::empty();
    let url = "https://secretmanager.googleapis.com/v1/projects/"@ + url_encoded(project)
        + "/secrets/"@ + url_encoded(secret);
    assert(url =~= "https://secretmanager.googleapis.com/v1/"@ + join(pieces, seq!['/'])
        + verb_suffix(None) + query_suffix(None)) by {
        lemma_regroup();
    }
    lemma_read(url, "https://secretmanager.googleapis.com/v1/"@, pieces, None, parameters);
    assert(pieces.map_values(|s: Seq<char>| url_decoded(s)) =~= seq!["projects"@, project,
        "secrets"@, secret]);
    assert(parameters.map_values(|p: (Seq<char>, Seq<char>)| (p.0,
        url_decoded(p.1))) =~= Seq::empty());
}

pub proof fn lemma_secretmanager_secrets_secret_add_version(project: Seq<char>, secret: Seq<char>)
    ensures
        asks_for(
            "https://secretmanager.googleapis.com/v1/projects/"@ + url_encoded(project)
                + "/secrets/"@ + url_encoded(secret) + ":addVersion"@,
            "https://secretmanager.googleapis.com/v1/"@,
            seq!["projects"@, project, "secrets"@, secret],
            Some("addVersion"@),
            Seq::empty(),
        ),
{
    lemma_word_projects();
    lemma_word_secrets();
    lemma_word_addversion();
    lemma_encoded_piece(project);
    lemma_encoded_piece(secret);
    assert("https://secretmanager.googleapis.com/v1/projects/"@
        == "https://secretmanager.googleapis.com/v1/"@ + "projects"@ + seq!['/']) by {
        reveal_strlit("https://secretmanager.googleapis.com/v1/projects/");
        reveal_strlit("https://secretmanager.googleapis.com/v1/");
        reveal_strlit("projects");
    }
    assert("/secrets/"@ == seq!['/'] + "secrets"@ + seq!['/']) by {
        reveal_strlit("/secrets/");
        reveal_strlit("secrets");
    }
    assert(":addVersion"@ == seq![':'] + "addVersion"@) by {
        reveal_strlit(":addVersion");
        reveal_strlit("addVersion");
    }
    let pieces = seq!["projects"@, url_encoded(project), "secrets"@, url_encoded(secret)];
    lemma_joined(pieces, seq!['/']);
    let parameters = Seq::<(Seq<char>, Seq<char>)>::empty();
    let url = "https://secretmanager.googleapis.com/v1/projects/"@ + url_encoded(project)
        + "/secrets/"@ + url_encoded(secret) + ":addVersion"@;
    assert(url =~= "https://secretmanager.googleapis.com/v1/"@ + join(pieces, seq!['/'])
        + verb_suffix(Some("addVersion"@)) + query_suffix(None)) by {
        lemma_regroup();
    }
    lemma_read(url, "https://secretmanager.googleapis.com/v1/"@, pieces, Some("addVersion"@),
        parameters);
    assert(pieces.map_values(|s: Seq<char>| url_decoded(s)) =~= seq!["projects"@, project,
        "secrets"@, secret]);
    assert(parameters.map_values(|p: (Seq<char>, Seq<char>)| (p.0,
        url_decoded(p.1))) =~= Seq::empty());
}

pub proof fn lemma_secretmanager_secrets_secret_id(project: Seq<char>, secret: Seq<char>)
    ensures
        asks_for(
            "https://secretmanager.googleapis.com/v1/projects/"@ + url_encoded(project)
                + "/secrets?secretId="@ + url_encoded(secret),
            "https://secretmanager.googleapis.com/v1/"@,
            seq!["projects"@, project, "secrets"@],
            None,
            seq![("secretId"@, secret)],
        ),
{
    lemma_word_projects();
    lemma_word_secrets();
    lemma_word_secretid();
    lemma_encoded_piece(project);
    lemma_encoded_piece(secret);
    assert("https://secretmanager.googleapis.com/v1/projects/"@
        == "https://secretmanager.googleapis.com/v1/"@ + "projects"@ + seq!['/']) by {
        reveal_strlit("https://secretmanager.googleapis.com/v1/projects/");
        reveal_strlit("https://secretmanager.googleapis.com/v1/");
        reveal_strlit("projects");
    }
    assert("/secrets?secretId="@
        == seq!['/'] + "secrets"@ + seq!['?'] + "secretId"@ + seq!['=']) by {
        reveal_strlit("/secrets?secretId=");
        reveal_strlit("secrets");
        reveal_strlit("secretId");
    }
    let pieces = seq!["projects"@, url_encoded(project), "secrets"@];
    lemma_joined(pieces, seq!['/']);
    let parameters = seq![("secretId"@, url_encoded(secret))];
    let wrote = parameters.map_values(|p: (Seq<char>, Seq<char>)| written(p));
    assert(wrote =~= seq!["secretId"@ + seq!['='] + url_encoded(secret)]);
    lemma_joined(wrote, seq!['&']);
    let url = "https://secretmanager.googleapis.com/v1/projects/"@ + url_encoded(project)
        + "/secrets?secretId="@ + url_encoded(secret);
    assert(url =~= "https://secretmanager.googleapis.com/v1/"@ + join(pieces, seq!['/'])
        + verb_suffix(None) + query_suffix(Some(join(wrote, seq!['&'])))) by {
        lemma_regroup();
    }
    lemma_read(url, "https://secretmanager.googleapis.com/v1/"@, pieces, None, parameters);
    assert(pieces.map_values(|s: Seq<char>| url_decoded(s)) =~= seq!["projects"@, project,
        "secrets"@]);
    assert(parameters.map_values(|p: (Seq<char>, Seq<char>)| (p.0,
        url_decoded(p.1))) =~= seq![("secretId"@, secret)]);
}

pub proof fn lemma_secretmanager_secrets_versions(project: Seq<char>, secret: Seq<char>)
    ensures
        asks_for(
            "https://secretmanager.googleapis.com/v1/projects/"@ + url_encoded(project)
                + "/secrets/"@ + url_encoded(secret) + "/versions"@,
            "https://secretmanager.googleapis.com/v1/"@,
            seq!["projects"@, project, "secrets"@, secret, "versions"@],
            None,
            Seq::empty(),
        ),
{
    lemma_word_projects();
    lemma_word_secrets();
    lemma_word_versions();
    lemma_encoded_piece(project);
    lemma_encoded_piece(secret);
    assert("https://secretmanager.googleapis.com/v1/projects/"@
        == "https://secretmanager.googleapis.com/v1/"@ + "projects"@ + seq!['/']) by {
        reveal_strlit("https://secretmanager.googleapis.com/v1/projects/");
        reveal_strlit("https://secretmanager.googleapis.com/v1/");
        reveal_strlit("projects");
    }
    assert("/secrets/"@ == seq!['/'] + "secrets"@ + seq!['/']) by {
        reveal_strlit("/secrets/");
        reveal_strlit("secrets");
    }
    assert("/versions"@ == seq!['/'] + "versions"@) by {
        reveal_strlit("/versions");
        reveal_strlit("versions");
    }
    let pieces = seq!["projects"@, url_encoded(project), "secrets"@, url_encoded(secret),
        "versions"@];
    lemma_joined(pieces, seq!['/']);
    let parameters = Seq::<(Seq<char>, Seq<char>)>::empty();
    let url = "https://secretmanager.googleapis.com/v1/projects/"@ + url_encoded(project)
        + "/secrets/"@ + url_encoded(secret) + "/versions"@;
    assert(url =~= "https://secretmanager.googleapis.com/v1/"@ + join(pieces, seq!['/'])
        + verb_suffix(None) + query_suffix(None)) by {
        lemma_regroup();
    }
    lemma_read(url, "https://secretmanager.googleapis.com/v1/"@, pieces, None, parameters);
    assert(pieces.map_values(|s: Seq<char>| url_decoded(s)) =~= seq!["projects"@, project,
        "secrets"@, secret, "versions"@]);
    assert(parameters.map_values(|p: (Seq<char>, Seq<char>)| (p.0,
        url_decoded(p.1))) =~= Seq::empty());
}

pub proof fn lemma_secretmanager_secrets_versions_version_access(
    project: Seq<char>,
    secret: Seq<char>,
    version: Seq<char>,
)
    ensures
        asks_for(
            "https://secretmanager.googleapis.com/v1/projects/"@ + url_encoded(project)
                + "/secrets/"@ + url_encoded(secret) + "/versions/"@ + url_encoded(version)
                + ":access"@,
            "https://secretmanager.googleapis.com/v1/"@,
            seq!["projects"@, project, "secrets"@, secret, "versions"@, version],
            Some("access"@),
            Seq::empty(),
        ),
{
    lemma_word_projects();
    lemma_word_secrets();
    lemma_word_versions();
    lemma_word_access();
    lemma_encoded_piece(project);
    lemma_encoded_piece(secret);
    lemma_encoded_piece(version);
    assert("https://secretmanager.googleapis.com/v1/projects/"@
        == "https://secretmanager.googleapis.com/v1/"@ + "projects"@ + seq!['/']) by {
        reveal_strlit("https://secretmanager.googleapis.com/v1/projects/");
        reveal_strlit("https://secretmanager.googleapis.com/v1/");
        reveal_strlit("projects");
    }
    assert("/secrets/"@ == seq!['/'] + "secrets"@ + seq!['/']) by {
        reveal_strlit("/secrets/");
        reveal_strlit("secrets");
    }
    assert("/versions/"@ == seq!['/'] + "versions"@ + seq!['/']) by {
        reveal_strlit("/versions/");
        reveal_strlit("versions");
    }
    assert(":access"@ == seq![':'] + "access"@) by {
        reveal_strlit(":access");
        reveal_strlit("access");
    }
    let pieces = seq!["projects"@, url_encoded(project), "secrets"@, url_encoded(secret),
        "versions"@, url_encoded(version)];
    lemma_joined(pieces, seq!['/']);
    let parameters = Seq::<(Seq<char>, Seq<char>)>::empty();
    let url = "https://secretmanager.googleapis.com/v1/projects/"@ + url_encoded(project)
        + "/secrets/"@ + url_encoded(secret) + "/versions/"@ + url_encoded(version) + ":access"@;
    assert(url =~= "https://secretmanager.googleapis.com/v1/"@ + join(pieces, seq!['/'])
        + verb_suffix(Some("access"@)) + query_suffix(None)) by {
        lemma_regroup();
    }
    lemma_read(url, "https://secretmanager.googleapis.com/v1/"@, pieces, Some("access"@),
        parameters);
    assert(pieces.map_values(|s: Seq<char>| url_decoded(s)) =~= seq!["projects"@, project,
        "secrets"@, secret, "versions"@, version]);
    assert(parameters.map_values(|p: (Seq<char>, Seq<char>)| (p.0,
        url_decoded(p.1))) =~= Seq::empty());
}

pub proof fn lemma_storage_b_iam(bucket: Seq<char>)
    ensures
        asks_for(
            "https://storage.googleapis.com/storage/v1/b/"@ + url_encoded(bucket) + "/iam"@,
            "https://storage.googleapis.com/storage/v1/"@,
            seq!["b"@, bucket, "iam"@],
            None,
            Seq::empty(),
        ),
{
    lemma_word_b();
    lemma_word_iam();
    lemma_encoded_piece(bucket);
    assert("https://storage.googleapis.com/storage/v1/b/"@
        == "https://storage.googleapis.com/storage/v1/"@ + "b"@ + seq!['/']) by {
        reveal_strlit("https://storage.googleapis.com/storage/v1/b/");
        reveal_strlit("https://storage.googleapis.com/storage/v1/");
        reveal_strlit("b");
    }
    assert("/iam"@ == seq!['/'] + "iam"@) by {
        reveal_strlit("/iam");
        reveal_strlit("iam");
    }
    let pieces = seq!["b"@, url_encoded(bucket), "iam"@];
    lemma_joined(pieces, seq!['/']);
    let parameters = Seq::<(Seq<char>, Seq<char>)>::empty();
    let url = "https://storage.googleapis.com/storage/v1/b/"@ + url_encoded(bucket) + "/iam"@;
    assert(url =~= "https://storage.googleapis.com/storage/v1/"@ + join(pieces, seq!['/'])
        + verb_suffix(None) + query_suffix(None)) by {
        lemma_regroup();
    }
    lemma_read(url, "https://storage.googleapis.com/storage/v1/"@, pieces, None, parameters);
    assert(pieces.map_values(|s: Seq<char>| url_decoded(s)) =~= seq!["b"@, bucket, "iam"@]);
    assert(parameters.map_values(|p: (Seq<char>, Seq<char>)| (p.0,
        url_decoded(p.1))) =~= Seq::empty());
}

pub proof fn lemma_storage_b_o(bucket: Seq<char>)
    ensures
        asks_for(
            "https://storage.googleapis.com/storage/v1/b/"@ + url_encoded(bucket) + "/o"@,
            "https://storage.googleapis.com/storage/v1/"@,
            seq!["b"@, bucket, "o"@],
            None,
            Seq::empty(),
        ),
{
    lemma_word_b();
    lemma_word_o();
    lemma_encoded_piece(bucket);
    assert("https://storage.googleapis.com/storage/v1/b/"@
        == "https://storage.googleapis.com/storage/v1/"@ + "b"@ + seq!['/']) by {
        reveal_strlit("https://storage.googleapis.com/storage/v1/b/");
        reveal_strlit("https://storage.googleapis.com/storage/v1/");
        reveal_strlit("b");
    }
    assert("/o"@ == seq!['/'] + "o"@) by {
        reveal_strlit("/o");
        reveal_strlit("o");
    }
    let pieces = seq!["b"@, url_encoded(bucket), "o"@];
    lemma_joined(pieces, seq!['/']);
    let parameters = Seq::<(Seq<char>, Seq<char>)>::empty();
    let url = "https://storage.googleapis.com/storage/v1/b/"@ + url_encoded(bucket) + "/o"@;
    assert(url =~= "https://storage.googleapis.com/storage/v1/"@ + join(pieces, seq!['/'])
        + verb_suffix(None) + query_suffix(None)) by {
        lemma_regroup();
    }
    lemma_read(url, "https://storage.googleapis.com/storage/v1/"@, pieces, None, parameters);
    assert(pieces.map_values(|s: Seq<char>| url_decoded(s)) =~= seq!["b"@, bucket, "o"@]);
    assert(parameters.map_values(|p: (Seq<char>, Seq<char>)| (p.0,
        url_decoded(p.1))) =~= Seq::empty());
}

pub proof fn lemma_storage_b_o_compose(bucket: Seq<char>, destination: Seq<char>)
    ensures
        asks_for(
            "https://storage.googleapis.com/storage/v1/b/"@ + url_encoded(bucket) + "/o/"@
                + url_encoded(destination) + "/compose"@,
            "https://storage.googleapis.com/storage/v1/"@,
            seq!["b"@, bucket, "o"@, destination, "compose"@],
            None,
            Seq::empty(),
        ),
{
    lemma_word_b();
    lemma_word_o();
    lemma_word_compose();
    lemma_encoded_piece(bucket);
    lemma_encoded_piece(destination);
    assert("https://storage.googleapis.com/storage/v1/b/"@
        == "https://storage.googleapis.com/storage/v1/"@ + "b"@ + seq!['/']) by {
        reveal_strlit("https://storage.googleapis.com/storage/v1/b/");
        reveal_strlit("https://storage.googleapis.com/storage/v1/");
        reveal_strlit("b");
    }
    assert("/o/"@ == seq!['/'] + "o"@ + seq!['/']) by {
        reveal_strlit("/o/");
        reveal_strlit("o");
    }
    assert("/compose"@ == seq!['/'] + "compose"@) by {
        reveal_strlit("/compose");
        reveal_strlit("compose");
    }
    let pieces = seq!["b"@, url_encoded(bucket), "o"@, url_encoded(destination), "compose"@];
    lemma_joined(pieces, seq!['/']);
    let parameters = Seq::<(Seq<char>, Seq<char>)>::empty();
    let url = "https://storage.googleapis.com/storage/v1/b/"@ + url_encoded(bucket) + "/o/"@
        + url_encoded(destination) + "/compose"@;
    assert(url =~= "https://storage.googleapis.com/storage/v1/"@ + join(pieces, seq!['/'])
        + verb_suffix(None) + query_suffix(None)) by {
        lemma_regroup();
    }
    lemma_read(url, "https://storage.googleapis.com/storage/v1/"@, pieces, None, parameters);
    assert(pieces.map_values(|s: Seq<char>| url_decoded(s)) =~= seq!["b"@, bucket, "o"@,
        destination, "compose"@]);
    assert(parameters.map_values(|p: (Seq<char>, Seq<char>)| (p.0,
        url_decoded(p.1))) =~= Seq::empty());
}

pub proof fn lemma_storage_b_o_copy_to_b_o_dst_key(
    src_bucket: Seq<char>,
    src_key: Seq<char>,
    dst_bucket: Seq<char>,
    dst_key: Seq<char>,
)
    ensures
        asks_for(
            "https://storage.googleapis.com/storage/v1/b/"@ + url_encoded(src_bucket)
                + "/o/"@ + url_encoded(src_key) + "/copyTo/b/"@ + url_encoded(dst_bucket)
                + "/o/"@ + url_encoded(dst_key),
            "https://storage.googleapis.com/storage/v1/"@,
            seq!["b"@, src_bucket, "o"@, src_key, "copyTo"@, "b"@, dst_bucket, "o"@, dst_key],
            None,
            Seq::empty(),
        ),
{
    lemma_word_b();
    lemma_word_o();
    lemma_word_copyto();
    lemma_encoded_piece(src_bucket);
    lemma_encoded_piece(src_key);
    lemma_encoded_piece(dst_bucket);
    lemma_encoded_piece(dst_key);
    assert("https://storage.googleapis.com/storage/v1/b/"@
        == "https://storage.googleapis.com/storage/v1/"@ + "b"@ + seq!['/']) by {
        reveal_strlit("https://storage.googleapis.com/storage/v1/b/");
        reveal_strlit("https://storage.googleapis.com/storage/v1/");
        reveal_strlit("b");
    }
    assert("/o/"@ == seq!['/'] + "o"@ + seq!['/']) by {
        reveal_strlit("/o/");
        reveal_strlit("o");
    }
    assert("/copyTo/b/"@ == seq!['/'] + "copyTo"@ + seq!['/'] + "b"@ + seq!['/']) by {
        reveal_strlit("/copyTo/b/");
        reveal_strlit("copyTo");
        reveal_strlit("b");
    }
    assert("/o/"@ == seq!['/'] + "o"@ + seq!['/']) by {
        reveal_strlit("/o/");
        reveal_strlit("o");
    }
    let pieces = seq!["b"@, url_encoded(src_bucket), "o"@, url_encoded(src_key), "copyTo"@,
        "b"@, url_encoded(dst_bucket), "o"@, url_encoded(dst_key)];
    lemma_joined(pieces, seq!['/']);
    let parameters = Seq::<(Seq<char>, Seq<char>)>::empty();
    let url = "https://storage.googleapis.com/storage/v1/b/"@ + url_encoded(src_bucket)
        + "/o/"@ + url_encoded(src_key) + "/copyTo/b/"@ + url_encoded(dst_bucket) + "/o/"@
        + url_encoded(dst_key);
    assert(url =~= "https://storage.googleapis.com/storage/v1/"@ + join(pieces, seq!['/'])
        + verb_suffix(None) + query_suffix(None)) by {
        lemma_regroup();
    }
    lemma_read(url, "https://storage.googleapis.com/storage/v1/"@, pieces, None, parameters);
    assert(pieces.map_values(|s: Seq<char>| url_decoded(s)) =~= seq!["b"@, src_bucket, "o"@,
        src_key, "copyTo"@, "b"@, dst_bucket, "o"@, dst_key]);
    assert(parameters.map_values(|p: (Seq<char>, Seq<char>)| (p.0,
        url_decoded(p.1))) =~= Seq::empty());
}

pub proof fn lemma_storage_b_o_key(bucket: Seq<char>, key: Seq<char>)
    ensures
        asks_for(
            "https://storage.googleapis.com/storage/v1/b/"@ + url_encoded(bucket) + "/o/"@
                + url_encoded(key),
            "https://storage.googleapis.com/storage/v1/"@,
            seq!["b"@, bucket, "o"@, key],
            None,
            Seq::empty(),
        ),
{
    lemma_word_b();
    lemma_word_o();
    lemma_encoded_piece(bucket);
    lemma_encoded_piece(key);
    assert("https://storage.googleapis.com/storage/v1/b/"@
        == "https://storage.googleapis.com/storage/v1/"@ + "b"@ + seq!['/']) by {
        reveal_strlit("https://storage.googleapis.com/storage/v1/b/");
        reveal_strlit("https://storage.googleapis.com/storage/v1/");
        reveal_strlit("b");
    }
    assert("/o/"@ == seq!['/'] + "o"@ + seq!['/']) by {
        reveal_strlit("/o/");
        reveal_strlit("o");
    }
    let pieces = seq!["b"@, url_encoded(bucket), "o"@, url_encoded(key)];
    lemma_joined(pieces, seq!['/']);
    let parameters = Seq::<(Seq<char>, Seq<char>)>::empty();
    let url = "https://storage.googleapis.com/storage/v1/b/"@ + url_encoded(bucket) + "/o/"@
        + url_encoded(key);
    assert(url =~= "https://storage.googleapis.com/storage/v1/"@ + join(pieces, seq!['/'])
        + verb_suffix(None) + query_suffix(None)) by {
        lemma_regroup();
    }
    lemma_read(url, "https://storage.googleapis.com/storage/v1/"@, pieces, None, parameters);
    assert(pieces.map_values(|s: Seq<char>| url_decoded(s)) =~= seq!["b"@, bucket, "o"@, key]);
    assert(parameters.map_values(|p: (Seq<char>, Seq<char>)| (p.0,
        url_decoded(p.1))) =~= Seq::empty());
}

pub proof fn lemma_storage_b_o_key_alt_media(bucket: Seq<char>, key: Seq<char>)
    ensures
        asks_for(
            "https://storage.googleapis.com/storage/v1/b/"@ + url_encoded(bucket) + "/o/"@
                + url_encoded(key) + "?alt=media"@,
            "https://storage.googleapis.com/storage/v1/"@,
            seq!["b"@, bucket, "o"@, key],
            None,
            seq![("alt"@, "media"@)],
        ),
{
    lemma_word_b();
    lemma_word_o();
    lemma_word_alt();
    lemma_word_media();
    lemma_encoded_piece(bucket);
    lemma_encoded_piece(key);
    assert("https://storage.googleapis.com/storage/v1/b/"@
        == "https://storage.googleapis.com/storage/v1/"@ + "b"@ + seq!['/']) by {
        reveal_strlit("https://storage.googleapis.com/storage/v1/b/");
        reveal_strlit("https://storage.googleapis.com/storage/v1/");
        reveal_strlit("b");
    }
    assert("/o/"@ == seq!['/'] + "o"@ + seq!['/']) by {
        reveal_strlit("/o/");
        reveal_strlit("o");
    }
    assert("?alt=media"@ == seq!['?'] + "alt"@ + seq!['='] + "media"@) by {
        reveal_strlit("?alt=media");
        reveal_strlit("alt");
        reveal_strlit("media");
    }
    let pieces = seq!["b"@, url_encoded(bucket), "o"@, url_encoded(key)];
    lemma_joined(pieces, seq!['/']);
    let parameters = seq![("alt"@, "media"@)];
    let wrote = parameters.map_values(|p: (Seq<char>, Seq<char>)| written(p));
    assert(wrote =~= seq!["alt"@ + seq!['='] + "media"@]);
    lemma_joined(wrote, seq!['&']);
    let url = "https://storage.googleapis.com/storage/v1/b/"@ + url_encoded(bucket) + "/o/"@
        + url_encoded(key) + "?alt=media"@;
    assert(url =~= "https://storage.googleapis.com/storage/v1/"@ + join(pieces, seq!['/'])
        + verb_suffix(None) + query_suffix(Some(join(wrote, seq!['&'])))) by {
        lemma_regroup();
    }
    lemma_read(url, "https://storage.googleapis.com/storage/v1/"@, pieces, None, parameters);
    assert(pieces.map_values(|s: Seq<char>| url_decoded(s)) =~= seq!["b"@, bucket, "o"@, key]);
    assert(parameters.map_values(|p: (Seq<char>, Seq<char>)| (p.0,
        url_decoded(p.1))) =~= seq![("alt"@, "media"@)]);
}

pub proof fn lemma_storage_b_o_prefix(bucket: Seq<char>, prefix: Seq<char>)
    ensures
        asks_for(
            "https://storage.googleapis.com/storage/v1/b/"@ + url_encoded(bucket)
                + "/o?prefix="@ + url_encoded(prefix),
            "https://storage.googleapis.com/storage/v1/"@,
            seq!["b"@, bucket, "o"@],
            None,
            seq![("prefix"@, prefix)],
        ),
{
    lemma_word_b();
    lemma_word_o();
    lemma_word_prefix();
    lemma_encoded_piece(bucket);
    lemma_encoded_piece(prefix);
    assert("https://storage.googleapis.com/storage/v1/b/"@
        == "https://storage.googleapis.com/storage/v1/"@ + "b"@ + seq!['/']) by {
        reveal_strlit("https://storage.googleapis.com/storage/v1/b/");
        reveal_strlit("https://storage.googleapis.com/storage/v1/");
        reveal_strlit("b");
    }
    assert("/o?prefix="@ == seq!['/'] + "o"@ + seq!['?'] + "prefix"@ + seq!['=']) by {
        reveal_strlit("/o?prefix=");
        reveal_strlit("o");
        reveal_strlit("prefix");
    }
    let pieces = seq!["b"@, url_encoded(bucket), "o"@];
    lemma_joined(pieces, seq!['/']);
    let parameters = seq![("prefix"@, url_encoded(prefix))];
    let wrote = parameters.map_values(|p: (Seq<char>, Seq<char>)| written(p));
    assert(wrote =~= seq!["prefix"@ + seq!['='] + url_encoded(prefix)]);
    lemma_joined(wrote, seq!['&']);
    let url = "https://storage.googleapis.com/storage/v1/b/"@ + url_encoded(bucket)
        + "/o?prefix="@ + url_encoded(prefix);
    assert(url =~= "https://storage.googleapis.com/storage/v1/"@ + join(pieces, seq!['/'])
        + verb_suffix(None) + query_suffix(Some(join(wrote, seq!['&'])))) by {
        lemma_regroup();
    }
    lemma_read(url, "https://storage.googleapis.com/storage/v1/"@, pieces, None, parameters);
    assert(pieces.map_values(|s: Seq<char>| url_decoded(s)) =~= seq!["b"@, bucket, "o"@]);
    assert(parameters.map_values(|p: (Seq<char>, Seq<char>)| (p.0,
        url_decoded(p.1))) =~= seq![("prefix"@, prefix)]);
}

pub proof fn lemma_storage_b_project(project: Seq<char>)
    ensures
        asks_for(
            "https://storage.googleapis.com/storage/v1/b?project="@ + url_encoded(project),
            "https://storage.googleapis.com/storage/v1/"@,
            seq!["b"@],
            None,
            seq![("project"@, project)],
        ),
{
    lemma_word_b();
    lemma_word_project();
    lemma_encoded_piece(project);
    assert("https://storage.googleapis.com/storage/v1/b?project="@
        == "https://storage.googleapis.com/storage/v1/"@ + "b"@ + seq!['?'] + "project"@
        + seq!['=']) by {
        reveal_strlit("https://storage.googleapis.com/storage/v1/b?project=");
        reveal_strlit("https://storage.googleapis.com/storage/v1/");
        reveal_strlit("b");
        reveal_strlit("project");
    }
    let pieces = seq!["b"@];
    lemma_joined(pieces, seq!['/']);
    let parameters = seq![("project"@, url_encoded(project))];
    let wrote = parameters.map_values(|p: (Seq<char>, Seq<char>)| written(p));
    assert(wrote =~= seq!["project"@ + seq!['='] + url_encoded(project)]);
    lemma_joined(wrote, seq!['&']);
    let url = "https://storage.googleapis.com/storage/v1/b?project="@ + url_encoded(project);
    assert(url =~= "https://storage.googleapis.com/storage/v1/"@ + join(pieces, seq!['/'])
        + verb_suffix(None) + query_suffix(Some(join(wrote, seq!['&'])))) by {
        lemma_regroup();
    }
    lemma_read(url, "https://storage.googleapis.com/storage/v1/"@, pieces, None, parameters);
    assert(pieces.map_values(|s: Seq<char>| url_decoded(s)) =~= seq!["b"@]);
    assert(parameters.map_values(|p: (Seq<char>, Seq<char>)| (p.0,
        url_decoded(p.1))) =~= seq![("project"@, project)]);
}

pub proof fn lemma_storage_upload_b_o_upload_type_media_name(bucket: Seq<char>, key: Seq<char>)
    ensures
        asks_for(
            "https://storage.googleapis.com/upload/storage/v1/b/"@ + url_encoded(bucket)
                + "/o?uploadType=media&name="@ + url_encoded(key),
            "https://storage.googleapis.com/upload/storage/v1/"@,
            seq!["b"@, bucket, "o"@],
            None,
            seq![("uploadType"@, "media"@), ("name"@, key)],
        ),
{
    lemma_word_b();
    lemma_word_o();
    lemma_word_uploadtype();
    lemma_word_media();
    lemma_word_name();
    lemma_encoded_piece(bucket);
    lemma_encoded_piece(key);
    assert("https://storage.googleapis.com/upload/storage/v1/b/"@
        == "https://storage.googleapis.com/upload/storage/v1/"@ + "b"@ + seq!['/']) by {
        reveal_strlit("https://storage.googleapis.com/upload/storage/v1/b/");
        reveal_strlit("https://storage.googleapis.com/upload/storage/v1/");
        reveal_strlit("b");
    }
    assert("/o?uploadType=media&name="@
        == seq!['/'] + "o"@ + seq!['?'] + "uploadType"@ + seq!['='] + "media"@ + seq!['&']
        + "name"@ + seq!['=']) by {
        reveal_strlit("/o?uploadType=media&name=");
        reveal_strlit("o");
        reveal_strlit("uploadType");
        reveal_strlit("media");
        reveal_strlit("name");
    }
    let pieces = seq!["b"@, url_encoded(bucket), "o"@];
    lemma_joined(pieces, seq!['/']);
    let parameters = seq![("uploadType"@, "media"@), ("name"@, url_encoded(key))];
    let wrote = parameters.map_values(|p: (Seq<char>, Seq<char>)| written(p));
    assert(wrote =~= seq!["uploadType"@ + seq!['='] + "media"@, "name"@ + seq!['=']
        + url_encoded(key)]);
    lemma_joined(wrote, seq!['&']);
    let url = "https://storage.googleapis.com/upload/storage/v1/b/"@ + url_encoded(bucket)
        + "/o?uploadType=media&name="@ + url_encoded(key);
    assert(url =~= "https://storage.googleapis.com/upload/storage/v1/"@
        + join(pieces, seq!['/']) + verb_suffix(None)
        + query_suffix(Some(join(wrote, seq!['&'])))) by {
        lemma_regroup();
    }
    lemma_read(url, "https://storage.googleapis.com/upload/storage/v1/"@, pieces, None, parameters);
    assert(pieces.map_values(|s: Seq<char>| url_decoded(s)) =~= seq!["b"@, bucket, "o"@]);
    assert(parameters.map_values(|p: (Seq<char>, Seq<char>)| (p.0,
        url_decoded(p.1))) =~= seq![("uploadType"@, "media"@), ("name"@, key)]);
}

} // verus!
