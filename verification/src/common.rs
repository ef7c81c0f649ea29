//! What the commands of the helper share.

use vstd::prelude::*;
use vstd::string::*;

use crate::codec::{percent_encode, url_encoded};
use crate::gs_uri::{bucket_in, gs_parts, object_in};
use crate::json::{Json, JsonView};
use crate::options::{opt_str, Env, EnvView};
use crate::request::{outcome, Draft, Error};
use crate::text::{cut_first, lemma_cut_first_parts, split_once, strip_prefix, without_prefix};

verus! {

/// The text, where there is one and it is not empty.
pub open spec fn set(s: Option<Seq<char>>) -> Option<Seq<char>> {
    match s {
        Some(t) => if t.len() > 0 {
            Some(t)
        } else {
            None
        },
        None => None,
    }
}

/// The project of a command: the one that is named, whatever it is, else the first of
/// `GOOGLE_CLOUD_PROJECT`, `GCLOUD_PROJECT` and `GCP_PROJECT` that is set to something.
pub open spec fn chosen_project(explicit: Option<Seq<char>>, env: EnvView) -> Result<
    Seq<char>,
    Seq<char>,
> {
    match explicit {
        Some(p) => Ok(p),
        None => match set(env.google_cloud_project) {
            Some(p) => Ok(p),
            None => match set(env.gcloud_project) {
                Some(p) => Ok(p),
                None => match set(env.gcp_project) {
                    Some(p) => Ok(p),
                    None => Err(
                        "no GCP project specified — pass --project or set $GOOGLE_CLOUD_PROJECT"@,
                    ),
                },
            },
        },
    }
}

/// What a text denotes, or the message of the error.
pub open spec fn string_view(r: Result<String, Error>) -> Result<Seq<char>, Seq<char>> {
    match r {
        Ok(s) => Ok(s@),
        Err(e) => Err(e@),
    }
}

fn set_str(s: &Option<String>) -> (r: Option<&str>)
    ensures
        opt_str(r) == set(crate::options::opt_text(*s)),
{
    match s {
        Some(t) => if t.as_str().is_empty() {
            None
        } else {
            Some(t.as_str())
        },
        None => None,
    }
}

/// Resolves the project of a command.
pub fn resolve_project(explicit: Option<&str>, env: &Env) -> (r: Result<String, Error>)
    ensures
        string_view(r) == chosen_project(opt_str(explicit), env@),
{
    if let Some(p) = explicit {
        return Ok(p.to_owned());
    }
    if let Some(p) = set_str(&env.google_cloud_project) {
        return Ok(p.to_owned());
    }
    if let Some(p) = set_str(&env.gcloud_project) {
        return Ok(p.to_owned());
    }
    if let Some(p) = set_str(&env.gcp_project) {
        return Ok(p.to_owned());
    }
    Err(Error::new("no GCP project specified — pass --project or set $GOOGLE_CLOUD_PROJECT"))
}

/// The bucket and the key of a `gs://` URI; the key is empty where the URI names a bucket alone.
pub open spec fn bucket_and_key(uri: Seq<char>) -> Result<(Seq<char>, Seq<char>), Seq<char>> {
    match without_prefix(uri, "gs://"@) {
        None => Err("expected `gs://bucket/key…`, got `"@ + uri + "`"@),
        Some(rest) => match cut_first(rest, '/') {
            Some((bucket, key)) => Ok((bucket, key)),
            None => Ok((rest, Seq::empty())),
        },
    }
}

/// What a pair of texts denotes, or the message of the error.
pub open spec fn pair_view(r: Result<(String, String), Error>) -> Result<
    (Seq<char>, Seq<char>),
    Seq<char>,
> {
    match r {
        Ok((a, b)) => Ok((a@, b@)),
        Err(e) => Err(e@),
    }
}

/// `gs://bucket/key/path` as `bucket` and `key/path`.
pub fn parse_gs_uri(uri: &str) -> (r: Result<(String, String), Error>)
    ensures
        pair_view(r) == bucket_and_key(uri@),
{
    match strip_prefix(uri, "gs://") {
        None => Err(Draft::new("expected `gs://bucket/key…`, got `").lit(uri).lit("`").error()),
        Some(rest) => match split_once(rest, '/') {
            Some((bucket, key)) => Ok((bucket.to_owned(), key.to_owned())),
            None => {
                let empty: String = String::new();
                assert(empty@ =~= Seq::<char>::empty());
                Ok((rest.to_owned(), empty))
            },
        },
    }
}

/// Percent-encodes a segment of a URL's path.
pub fn url_encode(s: &str) -> (r: String)
    ensures
        r@ == url_encoded(s@),
{
    percent_encode(s)
}

/// Appends a serialised value and a line feed.
pub fn emit_ndjson_line(w: &mut Vec<u8>, serialised: &[u8])
    ensures
        final(w)@ == old(w)@ + serialised@ + seq![10u8],
{
    let ghost before = w@;
    let mut i: usize = 0;
    while i < serialised.len()
        invariant
            i <= serialised.len(),
            w@ == before + serialised@.take(i as int),
        decreases serialised.len() - i,
    {
        w.push(serialised[i]);
        assert(w@ =~= before + serialised@.take(i + 1));
        i += 1;
    }
    assert(serialised@.take(i as int) =~= serialised@);
    w.push(10u8);
    assert(w@ =~= before + serialised@ + seq![10u8]);
}

/// The answer to a reply that is no success; `status` is the status in words.
pub open spec fn http_complaint(status: Seq<char>, text: Seq<char>) -> Seq<char> {
    "HTTP "@ + status + ": "@ + text
}

/// The error for a reply that is no success.
pub fn http_error(status: &str, text: &str) -> (r: Error)
    ensures
        r@ == http_complaint(status@, text@),
{
    Draft::new("HTTP ").lit(status).lit(": ").lit(text).error()
}

/// The status says success.
pub open spec fn succeeded(code: u16) -> bool {
    200 <= code < 300
}

pub fn is_success(code: u16) -> (r: bool)
    ensures
        r == succeeded(code),
{
    200 <= code && code < 300
}

/// The value in a reply with that status and text: null where the text is empty, else what the
/// text parses to, and the text itself where it is no JSON.
pub open spec fn json_in_reply(
    code: u16,
    status: Seq<char>,
    text: Seq<char>,
    parsed: Option<JsonView>,
) -> Result<JsonView, Seq<char>> {
    if !succeeded(code) {
        Err(http_complaint(status, text))
    } else if text.len() == 0 {
        Ok(JsonView::Null)
    } else {
        match parsed {
            Some(v) => Ok(v),
            None => Ok(JsonView::Str(text)),
        }
    }
}

/// Reads the value in a reply. `parsed` is what the text parses to, `None` where it is no JSON.
pub fn json_request(code: u16, status: &str, text: &str, parsed: Option<Json>) -> (r: Result<
    Json,
    Error,
>)
    ensures
        outcome(r) == json_in_reply(code, status@, text@, crate::json::opt_json(parsed)),
{
    if !is_success(code) {
        return Err(http_error(status, text));
    }
    if text.is_empty() {
        return Ok(Json::Null);
    }
    match parsed {
        Some(v) => Ok(v),
        None => Ok(Json::text(text)),
    }
}

/// A URI is its bucket and its key with a slash between them, or its bucket alone; the bucket has
/// no slash in it. The operation on URIs finds the same bucket.
pub proof fn uri_is_its_bucket_and_key(uri: Seq<char>)
    requires
        bucket_and_key(uri) is Ok,
    ensures
        ({
            let (bucket, key) = bucket_and_key(uri)->Ok_0;
            &&& !bucket.contains('/')
            &&& uri == "gs://"@ + bucket + "/"@ + key || (uri == "gs://"@ + bucket && key.len()
                == 0)
            &&& bucket == bucket_in(gs_parts(uri))
            &&& key == match object_in(gs_parts(uri)) {
                Some(object) => object,
                None => Seq::<char>::empty(),
            }
        }),
{
    reveal_strlit("/");
    assert("/"@ =~= seq!['/']);
    let rest = without_prefix(uri, "gs://"@)->0;
    assert("gs://"@ + rest =~= uri);
    lemma_cut_first_parts(rest, '/');
    rest.index_of_first_ensures('/');
    if let Some((bucket, key)) = cut_first(rest, '/') {
        assert("gs://"@ + bucket + "/"@ + key =~= "gs://"@ + rest);
    }
}

} // verus!
