//! URIs, table references and resource names: how they are read and written.

use vstd::prelude::*;
use vstd::string::*;

use crate::gs_uri::{
    addressed, build_gs_uri_result, gs_parts, gs_uri_to_url_result, parse_gs_uri_result,
    url_to_gs_uri_result,
};
use crate::json::JsonView;
use crate::options::{either, is_truthy};
use crate::resource_name::{
    build_resource_name_result, gathered, ids_by_collection, pair_segments, pairs_hold_the_last_id,
    parse_resource_name_result, part_segments, resource_name_parent_result, segments,
};
use crate::table_ref::{build_table_ref_result, parse_table_ref_result, two_colons};
use crate::text::{
    cut_first, join, lemma_cut_first_found, lemma_cut_first_parts, lemma_nonempty_all,
    lemma_split_join, lemma_without_prefix, split, trim_start, without_prefix,
};
use crate::url::lemma_joined;
use super::has_members;

verus! {

/// The names of members differ.
proof fn lemma_names()
    ensures
        "bucket"@.len() == 6,
        "collection"@.len() == 10,
        "dataset"@.len() == 7,
        "has_parent"@.len() == 10,
        "id"@.len() == 2,
        "legacy"@.len() == 6,
        "name"@.len() == 4,
        "object"@.len() == 6,
        "pairs"@.len() == 5,
        "parent"@.len() == 6,
        "parts"@.len() == 5,
        "project"@.len() == 7,
        "table"@.len() == 5,
        "table_ref"@.len() == 9,
        "trailing"@.len() == 8,
        "uri"@.len() == 3,
        "url"@.len() == 3,
        "bucket"@ != "object"@,
        "has_parent"@ != "collection"@,
        "parts"@ != "pairs"@,
        "project"@ != "dataset"@,
{
    reveal_strlit("bucket");
    reveal_strlit("collection");
    reveal_strlit("dataset");
    reveal_strlit("has_parent");
    reveal_strlit("id");
    reveal_strlit("legacy");
    reveal_strlit("name");
    reveal_strlit("object");
    reveal_strlit("pairs");
    reveal_strlit("parent");
    reveal_strlit("parts");
    reveal_strlit("project");
    reveal_strlit("table");
    reveal_strlit("table_ref");
    reveal_strlit("trailing");
    reveal_strlit("uri");
    reveal_strlit("url");
    assert("bucket"@[0] != "object"@[0]);
    assert("has_parent"@[0] != "collection"@[0]);
    assert("parts"@[2] != "pairs"@[2]);
    assert("project"@[0] != "dataset"@[0]);
}

proof fn lemma_slash()
    ensures
        "/"@ == seq!['/'],
{
    reveal_strlit("/");
    assert("/"@ =~= seq!['/']);
}

/// A `gs://` URI is read as its bucket and, behind a slash, its object.
proof fn lemma_gs(bucket: Seq<char>, object: Seq<char>)
    requires
        !bucket.contains('/'),
    ensures
        gs_parts("gs://"@ + bucket) == Some((bucket, None::<Seq<char>>)),
        gs_parts("gs://"@ + bucket + "/"@ + object) == Some((bucket, Some(object))),
{
    lemma_slash();
    let rest = bucket + "/"@ + object;
    assert("gs://"@ + bucket + "/"@ + object =~= "gs://"@ + rest);
    lemma_without_prefix("gs://"@, rest);
    lemma_without_prefix("gs://"@, bucket);
    lemma_cut_first_found(bucket, '/', object);
    lemma_absent(bucket, '/');
}

proof fn lemma_absent(s: Seq<char>, c: char)
    requires
        !s.contains(c),
    ensures
        cut_first(s, c) is None,
{
    lemma_cut_first_parts(s, c);
    if let Some((a, b)) = cut_first(s, c) {
        assert((a + seq![c] + b)[a.len() as int] == c);
    }
}

proof fn lemma_other(uri: Seq<char>, prefix: Seq<char>)
    ensures
        without_prefix(uri, prefix) is Some <==> prefix.is_prefix_of(uri),
{
    if prefix.is_prefix_of(uri) {
        let rest = uri.skip(prefix.len() as int);
        assert(uri =~= prefix + rest);
        lemma_without_prefix(prefix, rest);
    }
}

/// A URI is read as its bucket and, where there is a slash behind it, its object. Without a bucket,
/// or without the scheme, it is refused.
pub proof fn uris_are_read(opts: JsonView, bucket: Seq<char>, object: Seq<char>)
    requires
        !bucket.contains('/'),
    ensures
        ({
            let given = parse_gs_uri_result(opts);
            &&& opts.str_at("uri"@) == Some("gs://"@ + bucket) && bucket.len() > 0
                ==> given is Ok && has_members(given->Ok_0, set!["bucket"@, "object"@])
                && given->Ok_0.at("bucket"@) == JsonView::Str(bucket)
                && given->Ok_0.at("object"@) == JsonView::Null
            &&& opts.str_at("uri"@) == Some("gs://"@ + bucket + "/"@ + object)
                && bucket.len() > 0
                ==> given is Ok && has_members(given->Ok_0, set!["bucket"@, "object"@])
                && given->Ok_0.at("bucket"@) == JsonView::Str(bucket)
                && given->Ok_0.at("object"@) == JsonView::Str(object)
            &&& opts.str_at("uri"@) == Some("gs://"@ + bucket) && bucket.len() == 0
                ==> given
                == Err::<JsonView, Seq<char>>("gs URI missing bucket: "@ + opts.str_at("uri"@)->0)
            &&& opts.str_at("uri"@) == Some("gs://"@ + bucket + "/"@ + object)
                && bucket.len() == 0
                ==> given
                == Err::<JsonView, Seq<char>>("gs URI missing bucket: "@ + opts.str_at("uri"@)->0)
            &&& opts.str_at("uri"@) is None ==> given == Err::<JsonView, Seq<char>>("missing uri"@)
            &&& opts.str_at("uri"@) is Some
                && !"gs://"@.is_prefix_of(opts.str_at("uri"@)->0)
                ==> given
                == Err::<JsonView, Seq<char>>("not a gs:// URI: "@ + opts.str_at("uri"@)->0)
        }),
{
    lemma_names();
    lemma_gs(bucket, object);
    if let Some(uri) = opts.str_at("uri"@) {
        lemma_other(uri, "gs://"@);
    }
}

/// The URL of a URI has its bucket and its object behind the host of the service.
pub proof fn urls_are_made_of_uris(opts: JsonView, bucket: Seq<char>, object: Seq<char>)
    requires
        !bucket.contains('/'),
    ensures
        ({
            let given = gs_uri_to_url_result(opts);
            &&& (opts.str_at("uri"@) == Some("gs://"@ + bucket) || opts.str_at("uri"@)
                == Some("gs://"@ + bucket + "/"@)) && bucket.len() > 0
                ==> given is Ok
                && has_members(given->Ok_0, set!["url"@, "bucket"@, "object"@])
                && given->Ok_0.at("url"@)
                == JsonView::Str("https://storage.googleapis.com/"@ + bucket)
                && given->Ok_0.at("bucket"@) == JsonView::Str(bucket)
                && given->Ok_0.at("object"@) == JsonView::Null
            &&& opts.str_at("uri"@) == Some("gs://"@ + bucket + "/"@ + object)
                && bucket.len() > 0 && object.len() > 0
                ==> given is Ok
                && has_members(given->Ok_0, set!["url"@, "bucket"@, "object"@])
                && given->Ok_0.at("url"@)
                == JsonView::Str("https://storage.googleapis.com/"@ + bucket + "/"@
                + object) && given->Ok_0.at("bucket"@) == JsonView::Str(bucket)
                && given->Ok_0.at("object"@) == JsonView::Str(object)
            &&& (opts.str_at("uri"@) == Some("gs://"@ + bucket) || opts.str_at("uri"@)
                == Some("gs://"@ + bucket + "/"@ + object)) && bucket.len() == 0
                ==> given
                == Err::<JsonView, Seq<char>>("gs URI missing bucket: "@ + opts.str_at("uri"@)->0)
            &&& opts.str_at("uri"@) is None ==> given == Err::<JsonView, Seq<char>>("missing uri"@)
            &&& opts.str_at("uri"@) is Some
                && !"gs://"@.is_prefix_of(opts.str_at("uri"@)->0)
                ==> given
                == Err::<JsonView, Seq<char>>("not a gs:// URI: "@ + opts.str_at("uri"@)->0)
        }),
{
    lemma_names();
    lemma_gs(bucket, object);
    lemma_gs(bucket, Seq::empty());
    assert("gs://"@ + bucket + "/"@ + Seq::<char>::empty() =~= "gs://"@ + bucket + "/"@);
    if let Some(uri) = opts.str_at("uri"@) {
        lemma_other(uri, "gs://"@);
    }
}

/// A URI is built of its bucket and, where it is given, its object.
pub proof fn uris_are_built(opts: JsonView, bucket: Seq<char>)
    requires
        opts.str_at("bucket"@) == Some(bucket),
    ensures
        ({
            let given = build_gs_uri_result(opts);
            &&& bucket.len() == 0
                ==> given == Err::<JsonView, Seq<char>>("bucket must not be empty"@)
            &&& bucket.len() > 0 && opts.str_at("object"@) is None
                ==> given is Ok && has_members(given->Ok_0, set!["uri"@])
                && given->Ok_0.at("uri"@) == JsonView::Str("gs://"@ + bucket)
            &&& bucket.len() > 0 && opts.str_at("object"@) is Some
                && opts.str_at("object"@)->0.len() > 0
                && opts.str_at("object"@)->0[0] != '/'
                ==> given is Ok && has_members(given->Ok_0, set!["uri"@])
                && given->Ok_0.at("uri"@)
                == JsonView::Str("gs://"@ + bucket + "/"@ + opts.str_at("object"@)->0)
            &&& bucket.len() > 0 && opts.str_at("object"@) == Some(Seq::<char>::empty())
                ==> given is Ok && has_members(given->Ok_0, set!["uri"@])
                && given->Ok_0.at("uri"@) == JsonView::Str("gs://"@ + bucket)
        }),
{
    lemma_names();
}

/// A slash in front of the object makes no difference to the URI that is built.
pub proof fn slashes_before_the_object_are_dropped(
    with: Map<Seq<char>, JsonView>,
    object: Seq<char>,
)
    ensures
        build_gs_uri_result(
            JsonView::Obj(with.insert("object"@, JsonView::Str(seq!['/'] + object))),
        ) == build_gs_uri_result(
            JsonView::Obj(with.insert("object"@, JsonView::Str(object))),
        ),
{
    lemma_names();
    let slashed = JsonView::Obj(with.insert("object"@, JsonView::Str(seq!['/'] + object)));
    let plain = JsonView::Obj(with.insert("object"@, JsonView::Str(object)));
    assert(slashed.at("bucket"@) == plain.at("bucket"@));
    assert(slashed.at("object"@) == JsonView::Str(seq!['/'] + object));
    assert(plain.at("object"@) == JsonView::Str(object));
    assert((seq!['/'] + object).skip(1) =~= object);
    assert(trim_start(seq!['/'] + object, '/') == trim_start(object, '/'));
}

/// Without a bucket no URI is built.
pub proof fn uris_need_a_bucket(opts: JsonView)
    requires
        opts.str_at("bucket"@) is None,
    ensures
        build_gs_uri_result(opts) == Err::<JsonView, Seq<char>>("missing bucket"@),
{
}

/// A URL is read behind either scheme, and its host and path tell the bucket and the object.
pub proof fn urls_are_read_as_uris(opts: JsonView, scheme: Seq<char>, host: Seq<char>,
    path: Seq<char>)
    requires
        scheme == "https://"@ || scheme == "http://"@,
        !host.contains('/'),
        opts.str_at("url"@) == Some(scheme + host + "/"@ + path),
    ensures
        ({
            let given = url_to_gs_uri_result(opts);
            &&& given == addressed_answer(opts.str_at("url"@)->0, addressed(host, path))
        }),
{
    lemma_names();
    lemma_slash();
    let rest = host + "/"@ + path;
    let url = scheme + host + "/"@ + path;
    assert(url =~= scheme + rest);
    lemma_without_prefix(scheme, rest);
    lemma_other(url, "https://"@);
    if scheme == "http://"@ {
        reveal_strlit("https://");
        reveal_strlit("http://");
        assert(url[4] == ':');
        if "https://"@.is_prefix_of(url) {
            assert(url[4] == "https://"@[4]);
        }
    }
    lemma_cut_first_found(host, '/', path);
}

/// What is answered where a URL tells that place.
pub open spec fn addressed_answer(
    url: Seq<char>,
    place: Option<(Seq<char>, Option<Seq<char>>)>,
) -> Result<JsonView, Seq<char>> {
    match place {
        None => Err("not a GCS URL: "@ + url),
        Some((bucket, object)) => if bucket.len() == 0 {
            Err("GCS URL missing bucket: "@ + url)
        } else {
            Ok(
                JsonView::Obj(
                    map![
                        "uri"@ => JsonView::Str(
                            match object {
                                Some(o) => "gs://"@ + bucket + "/"@ + o,
                                None => "gs://"@ + bucket,
                            },
                        ),
                        "bucket"@ => JsonView::Str(bucket),
                        "object"@ => match object {
                            Some(o) => JsonView::Str(o),
                            None => JsonView::Null,
                        },
                    ],
                ),
            )
        },
    }
}

/// Behind a host of the service the path is the bucket and the object; where the bucket stands in
/// front of the host, the path is the object. Any other host is none of the service.
pub proof fn hosts_tell_the_bucket(host: Seq<char>, bucket: Seq<char>, object: Seq<char>)
    requires
        host == "storage.googleapis.com"@ || host == "commondatastorage.googleapis.com"@,
        !bucket.contains('/'),
    ensures
        addressed(host, bucket) == Some((bucket, None::<Seq<char>>)),
        object.len() > 0 ==> addressed(host, bucket + "/"@ + object) == Some(
            (bucket, Some(object)),
        ),
        addressed(host, bucket + "/"@) == Some((bucket, None::<Seq<char>>)),
{
    lemma_slash();
    lemma_absent(bucket, '/');
    lemma_cut_first_found(bucket, '/', object);
    lemma_cut_first_found(bucket, '/', Seq::empty());
    assert(bucket + seq!['/'] + Seq::<char>::empty() =~= bucket + "/"@);
}

/// Where the bucket stands in front of the host, the path is the object.
pub proof fn bucket_hosts_tell_the_bucket(bucket: Seq<char>, object: Seq<char>)
    ensures
        addressed(bucket + ".storage.googleapis.com"@, object) == Some(
            (
                bucket,
                if object.len() > 0 {
                    Some(object)
                } else {
                    None
                },
            ),
        ),
{
    reveal_strlit("storage.googleapis.com");
    reveal_strlit("commondatastorage.googleapis.com");
    reveal_strlit(".storage.googleapis.com");
    let host = bucket + ".storage.googleapis.com"@;
    let n = bucket.len() as int;
    assert(".storage.googleapis.com"@.is_suffix_of(host)) by {
        assert(host.skip(n) =~= ".storage.googleapis.com"@);
    }
    assert(host.take(n) =~= bucket);
    assert(host[n] == '.');
    if host == "commondatastorage.googleapis.com"@ {
        assert(n == 9);
        assert("commondatastorage.googleapis.com"@[9] != '.');
    }
}

/// So it is with the other host of the service.
pub proof fn other_bucket_hosts_tell_the_bucket(bucket: Seq<char>, object: Seq<char>)
    ensures
        addressed(bucket + ".commondatastorage.googleapis.com"@, object) == Some(
            (
                bucket,
                if object.len() > 0 {
                    Some(object)
                } else {
                    None
                },
            ),
        ),
{
    reveal_strlit("storage.googleapis.com");
    reveal_strlit("commondatastorage.googleapis.com");
    reveal_strlit(".storage.googleapis.com");
    reveal_strlit(".commondatastorage.googleapis.com");
    let host = bucket + ".commondatastorage.googleapis.com"@;
    let n = bucket.len() as int;
    assert(".commondatastorage.googleapis.com"@.is_suffix_of(host)) by {
        assert(host.skip(n) =~= ".commondatastorage.googleapis.com"@);
    }
    assert(host.take(n) =~= bucket);
    assert(host[n + 10] == 'a');
    if ".storage.googleapis.com"@.is_suffix_of(host) {
        assert(host[n + 10] == ".storage.googleapis.com"@[0]);
    }
}

/// Any other host is none of the service.
pub proof fn other_hosts_are_none_of_the_service(host: Seq<char>, path: Seq<char>)
    requires
        host != "storage.googleapis.com"@,
        host != "commondatastorage.googleapis.com"@,
        !".storage.googleapis.com"@.is_suffix_of(host),
        !".commondatastorage.googleapis.com"@.is_suffix_of(host),
    ensures
        addressed(host, path) is None,
{
}

/// A URL without a path is read as one with an empty path.
pub proof fn urls_may_lack_a_path(opts: JsonView, scheme: Seq<char>, host: Seq<char>)
    requires
        scheme == "https://"@ || scheme == "http://"@,
        !host.contains('/'),
        opts.str_at("url"@) == Some(scheme + host),
    ensures
        url_to_gs_uri_result(opts) == addressed_answer(
            scheme + host,
            addressed(host, Seq::empty()),
        ),
{
    let url = scheme + host;
    lemma_without_prefix(scheme, host);
    lemma_other(url, "https://"@);
    if scheme == "http://"@ {
        reveal_strlit("https://");
        reveal_strlit("http://");
        assert(url[4] == ':');
        if "https://"@.is_prefix_of(url) {
            assert(url[4] == "https://"@[4]);
        }
    }
    lemma_absent(host, '/');
}

/// What begins with neither scheme is no URL.
pub proof fn urls_have_a_scheme(opts: JsonView, url: Seq<char>)
    requires
        opts.str_at("url"@) == Some(url),
        !"https://"@.is_prefix_of(url),
        !"http://"@.is_prefix_of(url),
    ensures
        url_to_gs_uri_result(opts) == Err::<JsonView, Seq<char>>("not an http(s) URL: "@ + url),
{
    lemma_other(url, "https://"@);
    lemma_other(url, "http://"@);
}

/// Without a URL to read, that is what is answered.
pub proof fn urls_are_needed(opts: JsonView)
    requires
        opts.str_at("url"@) is None,
    ensures
        url_to_gs_uri_result(opts) == Err::<JsonView, Seq<char>>("missing url"@),
{
}

/// A table reference is a dataset and a table with a dot between them, with a project in front of
/// them behind a dot or, in the legacy form, a colon.
pub proof fn table_references_are_read(opts: JsonView, project: Seq<char>, dataset: Seq<char>,
    table: Seq<char>)
    requires
        !project.contains('.') && !dataset.contains('.') && !table.contains('.'),
        !project.contains(':') && !dataset.contains(':') && !table.contains(':'),
        project.len() > 0 && dataset.len() > 0 && table.len() > 0,
    ensures
        ({
            let given = parse_table_ref_result(opts);
            &&& either(opts, "table_ref"@, "value"@)
                == Some(project + seq!['.'] + dataset + seq!['.'] + table)
                ==> given is Ok
                && has_members(given->Ok_0, set!["table_ref"@, "project"@, "dataset"@,
                "table"@, "legacy"@])
                && given->Ok_0.at("table_ref"@)
                == JsonView::Str(project + seq!['.'] + dataset + seq!['.'] + table)
                && given->Ok_0.at("project"@) == JsonView::Str(project)
                && given->Ok_0.at("dataset"@) == JsonView::Str(dataset)
                && given->Ok_0.at("table"@) == JsonView::Str(table)
                && given->Ok_0.at("legacy"@) == JsonView::Bool(false)
            &&& either(opts, "table_ref"@, "value"@)
                == Some(project + seq![':'] + dataset + seq!['.'] + table)
                ==> given is Ok
                && has_members(given->Ok_0, set!["table_ref"@, "project"@, "dataset"@,
                "table"@, "legacy"@])
                && given->Ok_0.at("table_ref"@)
                == JsonView::Str(project + seq![':'] + dataset + seq!['.'] + table)
                && given->Ok_0.at("project"@) == JsonView::Str(project)
                && given->Ok_0.at("dataset"@) == JsonView::Str(dataset)
                && given->Ok_0.at("table"@) == JsonView::Str(table)
                && given->Ok_0.at("legacy"@) == JsonView::Bool(true)
            &&& either(opts, "table_ref"@, "value"@) == Some(dataset + seq!['.'] + table)
                ==> given is Ok
                && has_members(given->Ok_0, set!["table_ref"@, "project"@, "dataset"@,
                "table"@, "legacy"@])
                && given->Ok_0.at("table_ref"@)
                == JsonView::Str(dataset + seq!['.'] + table)
                && given->Ok_0.at("project"@) == JsonView::Null
                && given->Ok_0.at("dataset"@) == JsonView::Str(dataset)
                && given->Ok_0.at("table"@) == JsonView::Str(table)
                && given->Ok_0.at("legacy"@) == JsonView::Bool(false)
        }),
{
    lemma_names();
    let one = dataset + seq!['.'] + table;
    lemma_join_two(dataset, table);
    lemma_join_three(project, dataset, table);
    lemma_lacks(dataset, '.', table, ':');
    lemma_lacks(project, '.', dataset, ':');
    lemma_lacks(project + seq!['.'] + dataset, '.', table, ':');
    lemma_absent(one, ':');
    lemma_absent(project + seq!['.'] + dataset + seq!['.'] + table, ':');
    lemma_cut_first_found(project, ':', one);
    assert(project + seq![':'] + dataset + seq!['.'] + table =~= project + seq![':'] + one);
}

proof fn lemma_lacks(a: Seq<char>, sep: char, b: Seq<char>, c: char)
    requires
        !a.contains(c),
        !b.contains(c),
        sep != c,
    ensures
        !(a + seq![sep] + b).contains(c),
{
    let s = a + seq![sep] + b;
    if s.contains(c) {
        let i = choose|i: int| 0 <= i < s.len() && s[i] == c;
        if i < a.len() {
            assert(a[i] == c);
        } else if i > a.len() {
            assert(b[i - a.len() - 1] == c);
        }
    }
}

proof fn lemma_join_two(a: Seq<char>, b: Seq<char>)
    requires
        !a.contains('.') && !b.contains('.'),
    ensures
        split(a + seq!['.'] + b, '.') == seq![a, b],
{
    let parts = seq![a, b];
    lemma_split_join(parts, '.');
    lemma_joined(parts, seq!['.']);
}

proof fn lemma_join_three(a: Seq<char>, b: Seq<char>, c: Seq<char>)
    requires
        !a.contains('.') && !b.contains('.') && !c.contains('.'),
    ensures
        split(a + seq!['.'] + b + seq!['.'] + c, '.') == seq![a, b, c],
{
    let parts = seq![a, b, c];
    lemma_split_join(parts, '.');
    lemma_joined(parts, seq!['.']);
}

/// A table reference is built of its parts, none of which may hold a separator; the legacy form has
/// a colon behind the project, and needs one.
pub proof fn table_references_are_built(opts: JsonView, dataset: Seq<char>, table: Seq<char>)
    requires
        opts.str_at("dataset"@) == Some(dataset),
        opts.str_at("table"@) == Some(table),
        dataset.len() > 0 && table.len() > 0,
    ensures
        ({
            let given = build_table_ref_result(opts);
            &&& (dataset.contains('.') || dataset.contains(':'))
                ==> given
                == Err::<JsonView, Seq<char>>("dataset"@ + " must not contain `.` or `:`: "@
                + dataset)
            &&& !(dataset.contains('.') || dataset.contains(':'))
                && (table.contains('.') || table.contains(':'))
                ==> given
                == Err::<JsonView, Seq<char>>("table"@ + " must not contain `.` or `:`: "@ + table)
            &&& !(dataset.contains('.') || dataset.contains(':'))
                && !(table.contains('.') || table.contains(':'))
                && opts.str_or("project"@, ""@).len() > 0
                && (opts.str_or("project"@, ""@).contains('.') || opts.str_or("project"@,
                ""@).contains(':'))
                ==> given
                == Err::<JsonView, Seq<char>>("project"@ + " must not contain `.` or `:`: "@
                + opts.str_or("project"@, ""@))
            &&& !(dataset.contains('.') || dataset.contains(':'))
                && !(table.contains('.') || table.contains(':'))
                && opts.str_or("project"@, ""@).len() == 0 && is_truthy(opts.at("legacy"@))
                ==> given == Err::<JsonView, Seq<char>>("legacy form requires a project"@)
            &&& !(dataset.contains('.') || dataset.contains(':'))
                && !(table.contains('.') || table.contains(':'))
                && opts.str_or("project"@, ""@).len() == 0
                && !is_truthy(opts.at("legacy"@))
                ==> given is Ok
                && has_members(given->Ok_0, set!["table_ref"@, "project"@, "dataset"@,
                "table"@, "legacy"@])
                && given->Ok_0.at("table_ref"@) == JsonView::Str(dataset + "."@ + table)
                && given->Ok_0.at("project"@) == JsonView::Null
                && given->Ok_0.at("dataset"@) == JsonView::Str(dataset)
                && given->Ok_0.at("table"@) == JsonView::Str(table)
                && given->Ok_0.at("legacy"@) == JsonView::Bool(false)
            &&& !(dataset.contains('.') || dataset.contains(':'))
                && !(table.contains('.') || table.contains(':'))
                && opts.str_or("project"@, ""@).len() > 0
                && !(opts.str_or("project"@, ""@).contains('.') || opts.str_or("project"@,
                ""@).contains(':')) && !is_truthy(opts.at("legacy"@))
                ==> given is Ok
                && has_members(given->Ok_0, set!["table_ref"@, "project"@, "dataset"@,
                "table"@, "legacy"@])
                && given->Ok_0.at("table_ref"@)
                == JsonView::Str(opts.str_or("project"@, ""@) + "."@ + dataset + "."@
                + table)
                && given->Ok_0.at("project"@) == JsonView::Str(opts.str_or("project"@, ""@))
                && given->Ok_0.at("dataset"@) == JsonView::Str(dataset)
                && given->Ok_0.at("table"@) == JsonView::Str(table)
                && given->Ok_0.at("legacy"@) == JsonView::Bool(false)
            &&& !(dataset.contains('.') || dataset.contains(':'))
                && !(table.contains('.') || table.contains(':'))
                && opts.str_or("project"@, ""@).len() > 0
                && !(opts.str_or("project"@, ""@).contains('.') || opts.str_or("project"@,
                ""@).contains(':')) && is_truthy(opts.at("legacy"@))
                ==> given is Ok
                && has_members(given->Ok_0, set!["table_ref"@, "project"@, "dataset"@,
                "table"@, "legacy"@])
                && given->Ok_0.at("table_ref"@)
                == JsonView::Str(opts.str_or("project"@, ""@) + ":"@ + dataset + "."@
                + table)
                && given->Ok_0.at("project"@) == JsonView::Str(opts.str_or("project"@, ""@))
                && given->Ok_0.at("dataset"@) == JsonView::Str(dataset)
                && given->Ok_0.at("table"@) == JsonView::Str(table)
                && given->Ok_0.at("legacy"@) == JsonView::Bool(true)
        }),
{
    lemma_names();
    reveal_strlit("");
}

/// Without a dataset or a table no reference is built.
pub proof fn table_references_need_their_parts(opts: JsonView)
    ensures
        opts.str_or("dataset"@, ""@).len() == 0 ==> build_table_ref_result(opts) == Err::<
            JsonView,
            Seq<char>,
        >("missing dataset"@),
        opts.str_or("dataset"@, ""@).len() > 0 && opts.str_or("table"@, ""@).len() == 0
            ==> build_table_ref_result(opts) == Err::<JsonView, Seq<char>>("missing table"@),
        either(opts, "table_ref"@, "value"@) is None ==> parse_table_ref_result(opts) == Err::<
            JsonView,
            Seq<char>,
        >("missing table_ref"@),
{
    reveal_strlit("");
}

/// A reference with an empty part, with two colons or with another number of parts is refused.
pub proof fn other_table_references_are_refused(opts: JsonView, r: Seq<char>)
    requires
        either(opts, "table_ref"@, "value"@) == Some(r),
    ensures
        forall|a: Seq<char>, b: Seq<char>, c: Seq<char>|
            r == #[trigger] (a + seq![':'] + b + seq![':'] + c) ==> parse_table_ref_result(opts)
                == Err::<JsonView, Seq<char>>(
                "invalid table ref `"@ + r + "` (more than one `:`)"@,
            ),
        !r.contains(':') && split(r, '.').len() != 2 && split(r, '.').len() != 3
            ==> parse_table_ref_result(opts) == Err::<JsonView, Seq<char>>(
            "invalid table ref `"@ + r + "` (want [project.|project:]dataset.table)"@,
        ),
        !r.contains(':') && (split(r, '.').len() == 2 || split(r, '.').len() == 3) && (exists|
            i: int,
        |
            0 <= i < split(r, '.').len() && (#[trigger] split(r, '.')[i]).len() == 0)
            ==> parse_table_ref_result(opts) == Err::<JsonView, Seq<char>>(
            "table ref `"@ + r + "` has an empty segment"@,
        ),
{
    assert forall|a: Seq<char>, b: Seq<char>, c: Seq<char>|
        r == #[trigger] (a + seq![':'] + b + seq![':'] + c) implies two_colons(r) by {
        let i = a.len() as int;
        let j = i + 1 + b.len();
        assert(r[i] == ':' && r[j] == ':');
        lemma_cut_first_parts(r, ':');
        lemma_absent_means(r, ':');
        let (front, rest) = cut_first(r, ':')->0;
        assert(r == front + seq![':'] + rest);
        if front.len() < j {
            assert(rest[j - front.len() - 1] == ':');
        } else {
            if front.len() > i {
                assert(front[i] == ':');
            }
        }
    }
    if !r.contains(':') {
        lemma_absent(r, ':');
        if exists|i: int| 0 <= i < split(r, '.').len() && (#[trigger] split(r, '.')[i]).len() == 0 {
            let i = choose|i: int|
                0 <= i < split(r, '.').len() && (#[trigger] split(r, '.')[i]).len() == 0;
            assert(split(r, '.')[i] =~= Seq::<char>::empty());
        }
    }
}

/// In the legacy form there are two parts behind the colon, and no part is empty.
pub proof fn other_legacy_references_are_refused(
    opts: JsonView,
    project: Seq<char>,
    rest: Seq<char>,
)
    requires
        !project.contains(':'),
        !rest.contains(':'),
        either(opts, "table_ref"@, "value"@) == Some(project + seq![':'] + rest),
    ensures
        ({
            let r = project + seq![':'] + rest;
            let parts = split(rest, '.');
            &&& parts.len() != 2 ==> parse_table_ref_result(opts) == Err::<JsonView, Seq<char>>(
                "invalid table ref `"@ + r + "` (want [project.|project:]dataset.table)"@,
            )
            &&& parts.len() == 2 && (project.len() == 0 || parts[0].len() == 0 || parts[1].len()
                == 0) ==> parse_table_ref_result(opts) == Err::<JsonView, Seq<char>>(
                "table ref `"@ + r + "` has an empty segment"@,
            )
        }),
{
    lemma_cut_first_found(project, ':', rest);
    if project.len() == 0 {
        assert(project =~= Seq::<char>::empty());
    }
}

proof fn lemma_absent_means(s: Seq<char>, c: char)
    ensures
        s.contains(c) ==> cut_first(s, c) is Some,
        cut_first(s, c) matches Some((a, _)) ==> !a.contains(c),
{
    s.index_of_first_ensures(c);
    if let Some((a, b)) = cut_first(s, c) {
        if a.contains(c) {
            let i = choose|i: int| 0 <= i < a.len() && a[i] == c;
            assert(s[i] == c);
        }
    }
}

/// The segments of a resource name are read back, with the odd one behind the pairs.
pub proof fn resource_names_are_read(opts: JsonView, segs: Seq<Seq<char>>)
    requires
        segs.len() > 0,
        forall|i: int|
            0 <= i < segs.len() ==> (#[trigger] segs[i]).len() > 0 && !segs[i].contains('/'),
        either(opts, "name"@, "resource"@) == Some(join(segs, seq!['/'])),
    ensures
        ({
            let given = parse_resource_name_result(opts);
            &&& given is Ok
            &&& has_members(given->Ok_0, set!["parts"@, "pairs"@, "trailing"@])
            &&& given->Ok_0.at("parts"@) == JsonView::Arr(
                segs.map_values(|t: Seq<char>| JsonView::Str(t)),
            )
            &&& given->Ok_0.at("pairs"@) is Obj
            &&& segs.len() % 2 == 1 ==> given->Ok_0.at("trailing"@) == JsonView::Str(segs.last())
            &&& segs.len() % 2 == 0 ==> given->Ok_0.at("trailing"@) == JsonView::Null
            &&& forall|i: int|
                #![trigger segs[i]]
                0 <= i && i + 1 < segs.len() && i % 2 == 0 && (forall|j: int|
                    i < j && j + 1 < segs.len() && j % 2 == 0 ==> #[trigger] segs[j] != segs[i])
                    ==> given->Ok_0.at("pairs"@).at(segs[i]) == JsonView::Str(segs[i + 1])
        }),
{
    lemma_names();
    lemma_segments(segs);
    assert forall|i: int|
        #![trigger segs[i]]
        0 <= i && i + 1 < segs.len() && i % 2 == 0 && (forall|j: int|
            i < j && j + 1 < segs.len() && j % 2 == 0 ==> #[trigger] segs[j] != segs[i]) implies {
        &&& ids_by_collection(segs).contains_key(segs[i])
        &&& ids_by_collection(segs)[segs[i]] == JsonView::Str(segs[i + 1])
    } by {
        pairs_hold_the_last_id(segs, i);
    }
}

proof fn lemma_segments(segs: Seq<Seq<char>>)
    requires
        segs.len() > 0,
        forall|i: int|
            0 <= i < segs.len() ==> (#[trigger] segs[i]).len() > 0 && !segs[i].contains('/'),
    ensures
        segments(join(segs, seq!['/'])) == segs,
{
    assert forall|i: int| 0 <= i < segs.len() implies !(#[trigger] segs[i]).contains('/') by {
        assert(segs[i].len() > 0);
    }
    lemma_split_join(segs, '/');
    lemma_nonempty_all(segs);
}

/// The parent of a resource is its name without the last pair.
pub proof fn resource_parents_are_found(
    opts: JsonView,
    segs: Seq<Seq<char>>,
)
    requires
        segs.len() > 0,
        forall|i: int|
            0 <= i < segs.len() ==> (#[trigger] segs[i]).len() > 0 && !segs[i].contains('/'),
        either(opts, "name"@, "resource"@) == Some(join(segs, seq!['/'])),
    ensures
        ({
            let given = resource_name_parent_result(opts);
            let name = join(segs, seq!['/']);
            &&& segs.len() % 2 == 1 ==> given == Err::<JsonView, Seq<char>>(
                "not a relative resource name (expected `collection/id` pairs): `"@ + name + "`"@,
            )
            &&& segs.len() % 2 == 0 ==> given is Ok && has_members(
                given->Ok_0,
                set!["name"@, "parent"@, "has_parent"@, "collection"@, "id"@],
            ) && given->Ok_0.at("name"@) == JsonView::Str(name) && given->Ok_0.at("parent"@)
                == JsonView::Str(join(segs.take(segs.len() - 2), seq!['/'])) && given->Ok_0.at(
                "has_parent"@,
            ) == JsonView::Bool(segs.len() > 2) && given->Ok_0.at("collection"@) == JsonView::Str(
                segs[segs.len() - 2],
            ) && given->Ok_0.at("id"@) == JsonView::Str(segs[segs.len() - 1])
        }),
{
    lemma_names();
    lemma_slash();
    lemma_segments(segs);
}

/// Without a name to read, that is what is answered; so it is of a name without a segment.
pub proof fn resource_names_are_needed(opts: JsonView)
    ensures
        either(opts, "name"@, "resource"@) is None ==> parse_resource_name_result(opts) == Err::<
            JsonView,
            Seq<char>,
        >("missing name"@) && resource_name_parent_result(opts) == Err::<JsonView, Seq<char>>(
            "missing name"@,
        ),
        either(opts, "name"@, "resource"@) is Some && segments(
            either(opts, "name"@, "resource"@)->0,
        ).len() == 0 ==> parse_resource_name_result(opts) == Err::<JsonView, Seq<char>>(
            "empty resource name"@,
        ),
{
}

/// A resource name is built of the texts `parts` with slashes between them.
pub proof fn resource_names_are_built_of_parts(opts: JsonView, parts: Seq<JsonView>)
    requires
        opts.at("parts"@) == JsonView::Arr(parts),
        parts.len() > 0,
        forall|i: int|
            0 <= i < parts.len() ==> (#[trigger] parts[i] matches JsonView::Str(s) && s.len() > 0
                && !s.contains('/')),
    ensures
        build_resource_name_result(opts) == Ok::<JsonView, Seq<char>>(
            JsonView::Obj(
                map![
                    "name"@ => JsonView::Str(
                        join(parts.map_values(|p: JsonView| p->Str_0), seq!['/']),
                    ),
                ],
            ),
        ),
{
    lemma_slash();
    lemma_gathered_parts(parts);
}

proof fn lemma_gathered_parts(parts: Seq<JsonView>)
    requires
        forall|i: int|
            0 <= i < parts.len() ==> (#[trigger] parts[i] matches JsonView::Str(s) && s.len() > 0
                && !s.contains('/')),
    ensures
        gathered(parts, |p: JsonView| part_segments(p)) == Ok::<Seq<Seq<char>>, Seq<char>>(
            parts.map_values(|p: JsonView| p->Str_0),
        ),
    decreases parts.len(),
{
    if parts.len() > 0 {
        let init = parts.drop_last();
        assert forall|i: int| 0 <= i < init.len() implies (#[trigger] init[i] matches JsonView::Str(
            s,
        ) && s.len() > 0 && !s.contains('/')) by {
            assert(parts[i] is Str);
        }
        lemma_gathered_parts(init);
        assert(parts[parts.len() - 1] is Str);
        assert(init.map_values(|p: JsonView| p->Str_0) + seq![parts.last()->Str_0]
            =~= parts.map_values(|p: JsonView| p->Str_0));
    } else {
        assert(parts.map_values(|p: JsonView| p->Str_0) =~= Seq::empty());
    }
}

/// A resource name is built of pairs, given as arrays or as objects, with the option `trailing`
/// behind them.
pub proof fn resource_names_are_built_of_pairs(
    opts: JsonView,
    before: Seq<JsonView>,
    pair: JsonView,
    collection: Seq<char>,
    id: Seq<char>,
)
    requires
        collection.len() > 0 && !collection.contains('/'),
        id.len() > 0 && !id.contains('/'),
        pair == JsonView::Arr(seq![JsonView::Str(collection), JsonView::Str(id)]) || (pair is Obj
            && pair.at("collection"@) == JsonView::Str(collection) && pair.at("id"@)
            == JsonView::Str(id)),
        gathered(before, |p: JsonView| pair_segments(p)) is Ok,
        !(opts.at("parts"@) is Arr),
        opts.at("pairs"@) == JsonView::Arr(before.push(pair)),
        opts.str_at("trailing"@) matches Some(t) ==> t.len() > 0 && !t.contains('/'),
    ensures
        ({
            let front = gathered(before, |p: JsonView| pair_segments(p))->Ok_0;
            let name = build_resource_name_result(opts);
            &&& name is Ok
            &&& opts.str_at("trailing"@) is None ==> name->Ok_0.at("name"@) == JsonView::Str(
                join(front.push(collection).push(id), seq!['/']),
            )
            &&& opts.str_at("trailing"@) is Some ==> name->Ok_0.at("name"@) == JsonView::Str(
                join(
                    front.push(collection).push(id).push(opts.str_at("trailing"@)->0),
                    seq!['/'],
                ),
            )
        }),
{
    lemma_slash();
    let front = gathered(before, |p: JsonView| pair_segments(p))->Ok_0;
    assert(before.push(pair).drop_last() =~= before);
    assert(front + seq![collection, id] =~= front.push(collection).push(id));
}

/// What is no segment is named in the refusal, and so is what is no part and no pair.
pub proof fn other_segments_are_refused(s: Seq<char>, part: JsonView, pair: JsonView)
    ensures
        s.len() == 0 || s.contains('/') ==> part_segments(JsonView::Str(s)) == Err::<
            Seq<Seq<char>>,
            Seq<char>,
        >("invalid segment `"@ + s + "` (non-empty, no `/`)"@),
        !(part is Str) ==> part_segments(part) == Err::<Seq<Seq<char>>, Seq<char>>(
            "parts entries must be strings"@,
        ),
        !(pair is Obj) && !(pair matches JsonView::Arr(a) && a.len() == 2) ==> pair_segments(pair)
            == Err::<Seq<Seq<char>>, Seq<char>>(
            "each pair must be [collection, id] or {collection, id}"@,
        ),
        pair is Obj && !(pair.at("collection"@) is Str) ==> pair_segments(pair) == Err::<
            Seq<Seq<char>>,
            Seq<char>,
        >("pair missing collection"@),
        pair is Obj && pair.at("collection"@) is Str && pair.at("collection"@)->Str_0.len() > 0
            && !pair.at("collection"@)->Str_0.contains('/') && !(pair.at("id"@) is Str)
            ==> pair_segments(pair) == Err::<
            Seq<Seq<char>>,
            Seq<char>,
        >("pair missing id"@),
{
}

/// The first refusal among parts or pairs is what is answered.
pub proof fn first_refusal_is_answered(
    entries: Seq<JsonView>,
    give: spec_fn(JsonView) -> Result<Seq<Seq<char>>, Seq<char>>,
    i: int,
)
    requires
        0 <= i < entries.len(),
        give(entries[i]) is Err,
        forall|j: int| 0 <= j < i ==> give(#[trigger] entries[j]) is Ok,
    ensures
        gathered(entries, give) == Err::<Seq<Seq<char>>, Seq<char>>(give(entries[i])->Err_0),
    decreases entries.len(),
{
    if i < entries.len() - 1 {
        first_refusal_is_answered(entries.drop_last(), give, i);
    } else {
        lemma_all_given(entries.drop_last(), give);
    }
}

proof fn lemma_all_given(
    entries: Seq<JsonView>,
    give: spec_fn(JsonView) -> Result<Seq<Seq<char>>, Seq<char>>,
)
    requires
        forall|j: int| 0 <= j < entries.len() ==> give(#[trigger] entries[j]) is Ok,
    ensures
        gathered(entries, give) is Ok,
    decreases entries.len(),
{
    if entries.len() > 0 {
        assert(give(entries[entries.len() - 1]) is Ok);
        lemma_all_given(entries.drop_last(), give);
    }
}

/// Without parts and pairs, or without any segment in them, no name is built.
pub proof fn resource_names_need_segments(opts: JsonView)
    ensures
        opts.at("parts"@) == JsonView::Arr(Seq::empty()) ==> build_resource_name_result(opts)
            == Err::<JsonView, Seq<char>>("parts must not be empty"@),
        !(opts.at("parts"@) is Arr) && !(opts.at("pairs"@) is Arr) ==> build_resource_name_result(
            opts,
        ) == Err::<JsonView, Seq<char>>("missing parts or pairs"@),
        !(opts.at("parts"@) is Arr) && opts.at("pairs"@) == JsonView::Arr(Seq::empty())
            && opts.str_at("trailing"@) is None ==> build_resource_name_result(opts) == Err::<
            JsonView,
            Seq<char>,
        >("no segments to build"@),
{
}

} // verus!
