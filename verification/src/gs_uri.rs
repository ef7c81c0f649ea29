//! `gs://bucket/object` URIs and the download URLs of Cloud Storage objects.

use vstd::prelude::*;
use vstd::string::*;

use crate::json::{str_or_null, Json, JsonView, Members};
use crate::options::{need, opt_str, require};
use crate::request::{outcome, Draft, Error};
use crate::text::{
    cut_first, lemma_cut_first_found, lemma_cut_first_parts, lemma_without_prefix, same,
    split_once, strip_prefix, strip_suffix, trim_leading, trim_start, without_prefix,
    without_suffix,
};

verus! {

/// The bucket of a `gs://` URI and what stands behind the first `/`; `None` where the text is no
/// such URI.
pub open spec fn gs_parts(uri: Seq<char>) -> Option<(Seq<char>, Option<Seq<char>>)> {
    match without_prefix(uri, "gs://"@) {
        None => None,
        Some(rest) => match cut_first(rest, '/') {
            Some((bucket, object)) => Some((bucket, Some(object))),
            None => Some((rest, None)),
        },
    }
}

/// As `gs_parts`, with an empty object counted as none.
pub open spec fn gs_location(uri: Seq<char>) -> Option<(Seq<char>, Option<Seq<char>>)> {
    match gs_parts(uri) {
        None => None,
        Some((bucket, object)) => Some((bucket, nonempty_only(object))),
    }
}

/// The bucket of a place, where there is one.
pub open spec fn bucket_in(place: Option<(Seq<char>, Option<Seq<char>>)>) -> Seq<char> {
    match place {
        Some((bucket, object)) => bucket,
        None => Seq::empty(),
    }
}

/// The object of a place.
pub open spec fn object_in(place: Option<(Seq<char>, Option<Seq<char>>)>) -> Option<Seq<char>> {
    match place {
        Some((bucket, object)) => object,
        None => None,
    }
}

pub open spec fn nonempty_only(s: Option<Seq<char>>) -> Option<Seq<char>> {
    match s {
        Some(t) => if t.len() > 0 {
            Some(t)
        } else {
            None
        },
        None => None,
    }
}

/// `head` and the bucket, and behind a `/` the object where there is one.
pub open spec fn located(head: Seq<char>, bucket: Seq<char>, object: Option<Seq<char>>) -> Seq<
    char,
> {
    match object {
        Some(o) => head + bucket + "/"@ + o,
        None => head + bucket,
    }
}

/// The object that an `object` option names: leading slashes do not count.
pub open spec fn trimmed_object(object: Option<Seq<char>>) -> Option<Seq<char>> {
    match object {
        Some(o) => nonempty_only(Some(trim_start(o, '/'))),
        None => None,
    }
}

/// What stands behind the scheme of an `https` or `http` URL.
pub open spec fn behind_scheme(url: Seq<char>) -> Option<Seq<char>> {
    match without_prefix(url, "https://"@) {
        Some(rest) => Some(rest),
        None => without_prefix(url, "http://"@),
    }
}

/// The host and the path behind its `/`.
pub open spec fn host_and_path(rest: Seq<char>) -> (Seq<char>, Seq<char>) {
    match cut_first(rest, '/') {
        Some((host, path)) => (host, path),
        None => (rest, Seq::empty()),
    }
}

/// The bucket and object that a Cloud Storage host and path address, path-style or
/// virtual-hosted; `None` where the host is not one of Cloud Storage.
pub open spec fn addressed(host: Seq<char>, path: Seq<char>) -> Option<
    (Seq<char>, Option<Seq<char>>),
> {
    if host == "storage.googleapis.com"@ || host == "commondatastorage.googleapis.com"@ {
        match cut_first(path, '/') {
            Some((bucket, object)) => Some((bucket, nonempty_only(Some(object)))),
            None => Some((path, None)),
        }
    } else {
        match without_suffix(host, ".storage.googleapis.com"@) {
            Some(bucket) => Some((bucket, nonempty_only(Some(path)))),
            None => match without_suffix(host, ".commondatastorage.googleapis.com"@) {
                Some(bucket) => Some((bucket, nonempty_only(Some(path)))),
                None => None,
            },
        }
    }
}

/// The result of `parse_gs_uri`.
pub open spec fn parse_gs_uri_result(opts: JsonView) -> Result<JsonView, Seq<char>> {
    match need(opts, "uri"@, "missing uri"@) {
        Err(e) => Err(e),
        Ok(uri) => match gs_parts(uri) {
            None => Err("not a gs:// URI: "@ + uri),
            Some((bucket, object)) => if bucket.len() == 0 {
                Err("gs URI missing bucket: "@ + uri)
            } else {
                Ok(
                    JsonView::Obj(
                        map!["bucket"@ => JsonView::Str(bucket), "object"@ => str_or_null(object)],
                    ),
                )
            },
        },
    }
}

/// The result of `build_gs_uri`.
pub open spec fn build_gs_uri_result(opts: JsonView) -> Result<JsonView, Seq<char>> {
    match need(opts, "bucket"@, "missing bucket"@) {
        Err(e) => Err(e),
        Ok(bucket) => if bucket.len() == 0 {
            Err("bucket must not be empty"@)
        } else {
            Ok(
                JsonView::Obj(
                    map![
                        "uri"@ => JsonView::Str(
                            located("gs://"@, bucket, trimmed_object(opts.str_at("object"@))),
                        ),
                    ],
                ),
            )
        },
    }
}

/// The result of `gs_uri_to_url`.
pub open spec fn gs_uri_to_url_result(opts: JsonView) -> Result<JsonView, Seq<char>> {
    match need(opts, "uri"@, "missing uri"@) {
        Err(e) => Err(e),
        Ok(uri) => match gs_location(uri) {
            None => Err("not a gs:// URI: "@ + uri),
            Some((bucket, object)) => if bucket.len() == 0 {
                Err("gs URI missing bucket: "@ + uri)
            } else {
                Ok(
                    JsonView::Obj(
                        map![
                            "url"@ => JsonView::Str(
                                located("https://storage.googleapis.com/"@, bucket, object),
                            ),
                            "bucket"@ => JsonView::Str(bucket),
                            "object"@ => str_or_null(object),
                        ],
                    ),
                )
            },
        },
    }
}

/// The result of `url_to_gs_uri`.
pub open spec fn url_to_gs_uri_result(opts: JsonView) -> Result<JsonView, Seq<char>> {
    match need(opts, "url"@, "missing url"@) {
        Err(e) => Err(e),
        Ok(url) => match behind_scheme(url) {
            None => Err("not an http(s) URL: "@ + url),
            Some(rest) => {
                let (host, path) = host_and_path(rest);
                match addressed(host, path) {
                    None => Err("not a GCS URL: "@ + url),
                    Some((bucket, object)) => if bucket.len() == 0 {
                        Err("GCS URL missing bucket: "@ + url)
                    } else {
                        Ok(
                            JsonView::Obj(
                                map![
                                    "uri"@ => JsonView::Str(located("gs://"@, bucket, object)),
                                    "bucket"@ => JsonView::Str(bucket),
                                    "object"@ => str_or_null(object),
                                ],
                            ),
                        )
                    },
                }
            },
        },
    }
}

/// What the parts of a URI denote.
pub open spec fn parts_view(r: Option<(&str, Option<&str>)>) -> Option<
    (Seq<char>, Option<Seq<char>>),
> {
    match r {
        Some((bucket, object)) => Some((bucket@, opt_str(object))),
        None => None,
    }
}

/// Splits a `gs://` URI into its bucket and what stands behind the first `/`.
pub fn split_gs_uri<'a>(uri: &'a str) -> (r: Option<(&'a str, Option<&'a str>)>)
    ensures
        parts_view(r) == gs_parts(uri@),
{
    match strip_prefix(uri, "gs://") {
        None => None,
        Some(rest) => match split_once(rest, '/') {
            Some((bucket, object)) => Some((bucket, Some(object))),
            None => Some((rest, None)),
        },
    }
}

fn drop_empty<'a>(s: Option<&'a str>) -> (r: Option<&'a str>)
    ensures
        opt_str(r) == nonempty_only(opt_str(s)),
{
    match s {
        Some(t) => if t.is_empty() {
            None
        } else {
            Some(t)
        },
        None => None,
    }
}

fn locate(head: &str, bucket: &str, object: Option<&str>) -> (r: Json)
    ensures
        r@ == JsonView::Str(located(head@, bucket@, opt_str(object))),
{
    let start: Draft = Draft::new(head).lit(bucket);
    match object {
        Some(o) => Json::String(start.lit("/").lit(o).text),
        None => Json::String(start.text),
    }
}

/// Parses the `gs://bucket/object` URI of the option `uri` into `{bucket, object}`; the object
/// is null where only a bucket is given.
pub fn op_parse_gs_uri(opts: Json) -> (r: Result<Json, Error>)
    ensures
        outcome(r) == parse_gs_uri_result(opts@),
{
    let uri: &str = require(&opts, "uri", "missing uri")?;
    match split_gs_uri(uri) {
        None => Err(Draft::new("not a gs:// URI: ").lit(uri).error()),
        Some((bucket, object)) => {
            if bucket.is_empty() {
                return Err(Draft::new("gs URI missing bucket: ").lit(uri).error());
            }
            Ok(
                Json::Object(
                    Members::new().with("bucket", Json::text(bucket)).with(
                        "object",
                        Json::text_or_null(object),
                    ),
                ),
            )
        },
    }
}

/// Builds the `gs://` URI of the options `bucket` and `object`. Leading slashes of the object
/// are trimmed; without an object the URI is that of the bucket.
pub fn op_build_gs_uri(opts: Json) -> (r: Result<Json, Error>)
    ensures
        outcome(r) == build_gs_uri_result(opts@),
{
    let bucket: &str = require(&opts, "bucket", "missing bucket")?;
    if bucket.is_empty() {
        return Err(Error::new("bucket must not be empty"));
    }
    let object: Option<&str> = match opts.str_at("object") {
        Some(o) => drop_empty(Some(trim_leading(o, '/'))),
        None => None,
    };
    Ok(Json::Object(Members::new().with("uri", locate("gs://", bucket, object))))
}

/// Converts the `gs://` URI of the option `uri` to its path-style download URL.
pub fn op_gs_uri_to_url(opts: Json) -> (r: Result<Json, Error>)
    ensures
        outcome(r) == gs_uri_to_url_result(opts@),
{
    let uri: &str = require(&opts, "uri", "missing uri")?;
    match split_gs_uri(uri) {
        None => Err(Draft::new("not a gs:// URI: ").lit(uri).error()),
        Some((bucket, rest)) => {
            let object: Option<&str> = drop_empty(rest);
            if bucket.is_empty() {
                return Err(Draft::new("gs URI missing bucket: ").lit(uri).error());
            }
            Ok(
                Json::Object(
                    Members::new().with(
                        "url",
                        locate("https://storage.googleapis.com/", bucket, object),
                    ).with("bucket", Json::text(bucket)).with(
                        "object",
                        Json::text_or_null(object),
                    ),
                ),
            )
        },
    }
}

fn find_addressed<'a>(host: &'a str, path: &'a str) -> (r: Option<(&'a str, Option<&'a str>)>)
    ensures
        parts_view(r) == addressed(host@, path@),
{
    if same(host, "storage.googleapis.com") || same(host, "commondatastorage.googleapis.com") {
        match split_once(path, '/') {
            Some((bucket, object)) => Some((bucket, drop_empty(Some(object)))),
            None => Some((path, None)),
        }
    } else {
        match strip_suffix(host, ".storage.googleapis.com") {
            Some(bucket) => Some((bucket, drop_empty(Some(path)))),
            None => match strip_suffix(host, ".commondatastorage.googleapis.com") {
                Some(bucket) => Some((bucket, drop_empty(Some(path)))),
                None => None,
            },
        }
    }
}

/// Converts the download URL of the option `url` back to its `gs://` URI. Path-style and
/// virtual-hosted URLs are accepted.
pub fn op_url_to_gs_uri(opts: Json) -> (r: Result<Json, Error>)
    ensures
        outcome(r) == url_to_gs_uri_result(opts@),
{
    let url: &str = require(&opts, "url", "missing url")?;
    let scheme_free: Option<&str> = match strip_prefix(url, "https://") {
        Some(rest) => Some(rest),
        None => strip_prefix(url, "http://"),
    };
    match scheme_free {
        None => Err(Draft::new("not an http(s) URL: ").lit(url).error()),
        Some(rest) => {
            proof {
                reveal_strlit("");
                assert(""@ =~= Seq::empty());
            }
            let (host, path): (&str, &str) = match split_once(rest, '/') {
                Some((h, p)) => (h, p),
                None => (rest, ""),
            };
            match find_addressed(host, path) {
                None => Err(Draft::new("not a GCS URL: ").lit(url).error()),
                Some((bucket, object)) => {
                    if bucket.is_empty() {
                        return Err(Draft::new("GCS URL missing bucket: ").lit(url).error());
                    }
                    Ok(
                        Json::Object(
                            Members::new().with("uri", locate("gs://", bucket, object)).with(
                                "bucket",
                                Json::text(bucket),
                            ).with("object", Json::text_or_null(object)),
                        ),
                    )
                },
            }
        },
    }
}

proof fn lemma_names()
    ensures
        "uri"@ != "bucket"@,
        "uri"@ != "object"@,
        "url"@ != "bucket"@,
        "url"@ != "object"@,
        "bucket"@ != "object"@,
        "/"@ == seq!['/'],
{
    reveal_strlit("uri");
    reveal_strlit("url");
    reveal_strlit("bucket");
    reveal_strlit("object");
    reveal_strlit("/");
    assert("bucket"@[0] == 'b');
    assert("object"@[0] == 'o');
    assert("/"@ =~= seq!['/']);
}

proof fn lemma_trimmed(s: Seq<char>)
    requires
        s.len() > 0 ==> s[0] != '/',
    ensures
        trim_start(s, '/') == s,
{
}

/// The parts of a URI that was put together from a bucket and an object are those.
proof fn lemma_parts_of_located(bucket: Seq<char>, object: Option<Seq<char>>)
    requires
        !bucket.contains('/'),
    ensures
        gs_parts(located("gs://"@, bucket, object)) == Some((bucket, object)),
{
    lemma_names();
    let head = "gs://"@;
    match object {
        Some(o) => {
            let rest = bucket + seq!['/'] + o;
            assert(head + bucket + "/"@ + o =~= head + rest);
            lemma_without_prefix(head, rest);
            lemma_cut_first_found(bucket, '/', o);
        },
        None => {
            lemma_without_prefix(head, bucket);
            lemma_cut_first_parts(bucket, '/');
            if let Some((a, b)) = cut_first(bucket, '/') {
                assert(bucket[a.len() as int] == '/');
            }
        },
    }
}

/// A URI is put together again from its parts.
proof fn lemma_located_of_parts(uri: Seq<char>)
    requires
        gs_parts(uri) is Some,
    ensures
        located("gs://"@, bucket_in(gs_parts(uri)), object_in(gs_parts(uri))) == uri,
        !bucket_in(gs_parts(uri)).contains('/'),
{
    lemma_names();
    let rest = without_prefix(uri, "gs://"@)->0;
    lemma_cut_first_parts(rest, '/');
    assert("gs://"@ + rest =~= uri);
    match object_in(gs_parts(uri)) {
        Some(o) => {
            assert("gs://"@ + bucket_in(gs_parts(uri)) + "/"@ + o =~= "gs://"@ + rest);
        },
        None => {},
    }
}

/// Parsing a built URI gives the bucket and the object back, the object without leading
/// slashes. A bucket with a slash in it is no bucket.
pub proof fn parsing_undoes_building(opts: JsonView)
    requires
        build_gs_uri_result(opts) is Ok,
        !opts.str_at("bucket"@)->0.contains('/'),
    ensures
        parse_gs_uri_result(build_gs_uri_result(opts)->Ok_0) == Ok::<JsonView, Seq<char>>(
            JsonView::Obj(
                map![
                    "bucket"@ => JsonView::Str(opts.str_at("bucket"@)->0),
                    "object"@ => str_or_null(trimmed_object(opts.str_at("object"@))),
                ],
            ),
        ),
{
    lemma_parts_of_located(opts.str_at("bucket"@)->0, trimmed_object(opts.str_at("object"@)));
}

/// Building from the parts of a parsed URI gives the URI back, unless its object is empty or
/// begins with a slash.
pub proof fn building_undoes_parsing(opts: JsonView)
    requires
        parse_gs_uri_result(opts) is Ok,
        object_in(gs_parts(opts.str_at("uri"@)->0)) matches Some(o) ==> o.len() > 0 && o[0] != '/',
    ensures
        build_gs_uri_result(parse_gs_uri_result(opts)->Ok_0) == Ok::<JsonView, Seq<char>>(
            JsonView::Obj(map!["uri"@ => JsonView::Str(opts.str_at("uri"@)->0)]),
        ),
{
    lemma_names();
    let uri = opts.str_at("uri"@)->0;
    lemma_located_of_parts(uri);
    if let Some(o) = object_in(gs_parts(uri)) {
        lemma_trimmed(o);
    }
}

/// The download URL of a URI leads back to its bucket and object.
pub proof fn download_url_leads_back(opts: JsonView)
    requires
        gs_uri_to_url_result(opts) is Ok,
    ensures
        url_to_gs_uri_result(gs_uri_to_url_result(opts)->Ok_0) == Ok::<JsonView, Seq<char>>(
            JsonView::Obj(
                map![
                    "uri"@ => JsonView::Str(
                        located(
                            "gs://"@,
                            bucket_in(gs_location(opts.str_at("uri"@)->0)),
                            object_in(gs_location(opts.str_at("uri"@)->0)),
                        ),
                    ),
                    "bucket"@ => JsonView::Str(bucket_in(gs_location(opts.str_at("uri"@)->0))),
                    "object"@ => str_or_null(object_in(gs_location(opts.str_at("uri"@)->0))),
                ],
            ),
        ),
{
    lemma_names();
    let (bucket, object) = gs_location(opts.str_at("uri"@)->0)->0;
    lemma_located_of_parts(opts.str_at("uri"@)->0);
    let host = "storage.googleapis.com"@;
    reveal_strlit("https://");
    reveal_strlit("storage.googleapis.com");
    reveal_strlit("https://storage.googleapis.com/");
    assert("https://storage.googleapis.com/"@ =~= "https://"@ + host + seq!['/']);
    let path = match object {
        Some(o) => bucket + seq!['/'] + o,
        None => bucket,
    };
    let url = located("https://storage.googleapis.com/"@, bucket, object);
    let rest = host + seq!['/'] + path;
    assert(url =~= "https://"@ + rest);
    lemma_without_prefix("https://"@, rest);
    assert(!host.contains('/'));
    lemma_cut_first_found(host, '/', path);
    match object {
        Some(o) => {
            lemma_cut_first_found(bucket, '/', o);
        },
        None => {
            lemma_cut_first_parts(bucket, '/');
            if let Some((a, b)) = cut_first(bucket, '/') {
                assert(bucket[a.len() as int] == '/');
            }
        },
    }
}

/// A URI that does not end in the slash behind its bucket comes back from its download URL.
pub proof fn download_url_is_inverted(opts: JsonView)
    requires
        gs_uri_to_url_result(opts) is Ok,
        object_in(gs_parts(opts.str_at("uri"@)->0)) matches Some(o) ==> o.len() > 0,
    ensures
        url_to_gs_uri_result(gs_uri_to_url_result(opts)->Ok_0) is Ok,
        url_to_gs_uri_result(gs_uri_to_url_result(opts)->Ok_0)->Ok_0.str_at("uri"@)
            == opts.str_at("uri"@),
{
    lemma_names();
    download_url_leads_back(opts);
    lemma_located_of_parts(opts.str_at("uri"@)->0);
}

/// The path-style and the virtual-hosted-style URL of an object lead to the same URI.
pub proof fn both_styles_address_the_same(
    bucket: Seq<char>,
    object: Seq<char>,
    hosted: JsonView,
    path: JsonView,
)
    requires
        bucket.len() > 0,
        !bucket.contains('/'),
        hosted.str_at("url"@) == Some(
            "https://"@ + bucket + ".storage.googleapis.com/"@ + object,
        ),
        path.str_at("url"@) == Some(
            "https://storage.googleapis.com/"@ + bucket + "/"@ + object,
        ),
    ensures
        url_to_gs_uri_result(hosted) is Ok,
        url_to_gs_uri_result(hosted) == url_to_gs_uri_result(path),
{
    reveal_strlit("/");
    reveal_strlit("https://");
    reveal_strlit("storage.googleapis.com");
    reveal_strlit("commondatastorage.googleapis.com");
    reveal_strlit(".storage.googleapis.com");
    reveal_strlit(".storage.googleapis.com/");
    reveal_strlit("https://storage.googleapis.com/");
    let suffix = ".storage.googleapis.com"@;
    assert("/"@ =~= seq!['/']);
    assert(".storage.googleapis.com/"@ =~= suffix + seq!['/']);
    let host = bucket + suffix;
    assert(!host.contains('/')) by {
        if host.contains('/') {
            let i = choose|i: int| 0 <= i < host.len() && host[i] == '/';
            if i < bucket.len() {
                assert(bucket[i] == '/');
            } else {
                assert(suffix[i - bucket.len()] == '/');
            }
        }
    }
    let rest = host + seq!['/'] + object;
    assert("https://"@ + bucket + ".storage.googleapis.com/"@ + object =~= "https://"@ + rest);
    lemma_without_prefix("https://"@, rest);
    lemma_cut_first_found(host, '/', object);
    assert(host[bucket.len() as int] == '.');
    assert("commondatastorage.googleapis.com"@[9] == 'a');
    assert(host.len() == bucket.len() + 23);
    assert("commondatastorage.googleapis.com"@.len() == 32);
    assert(host.subrange(host.len() - suffix.len(), host.len() as int) =~= suffix);
    assert(host.take(host.len() - suffix.len()) =~= bucket);
    assert(without_suffix(host, suffix) == Some(bucket));
    let api = "storage.googleapis.com"@;
    let behind = bucket + seq!['/'] + object;
    let place = api + seq!['/'] + behind;
    assert("https://storage.googleapis.com/"@ =~= "https://"@ + api + seq!['/']);
    assert("https://storage.googleapis.com/"@ + bucket + "/"@ + object =~= "https://"@ + place);
    lemma_without_prefix("https://"@, place);
    assert(!api.contains('/'));
    lemma_cut_first_found(api, '/', behind);
    lemma_cut_first_found(bucket, '/', object);
}

} // verus!
