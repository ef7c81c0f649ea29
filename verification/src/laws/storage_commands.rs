//! The commands on Cloud Storage: how their requests are read, and what their lines hold.

use vstd::prelude::*;
use vstd::string::*;

use crate::common::{bucket_and_key, chosen_project};
use crate::decimal::{decimal, denoted_i64};
use crate::gcs::{
    advanced, allowed, bucket_line, fits, goes_on, object_line, page_call, page_lines, prefix_line,
    shown, size, upload_call, uploaded, GcsCmd, ListingView, Step,
};
use crate::json::JsonView;
use crate::options::{opt_text, EnvView};
use crate::request::{BodyView, Error, Method};
use crate::text::{
    cut_first, lemma_cut_first_found, lemma_cut_first_parts, lemma_without_prefix, without_prefix,
};
use crate::url::asks_for;
use super::{has_members, lemma_kept};
use super::urls::{
    lemma_storage_b_o, lemma_storage_b_o_key, lemma_storage_b_o_key_alt_media,
    lemma_storage_b_project, lemma_storage_upload_b_o_upload_type_media_name,
};

verus! {

/// The names of members differ.
proof fn lemma_names()
    ensures
        "bucket"@.len() == 6,
        "cache_control"@.len() == 13,
        "content_type"@.len() == 12,
        "created"@.len() == 7,
        "etag"@.len() == 4,
        "generation"@.len() == 10,
        "key"@.len() == 3,
        "location"@.len() == 8,
        "md5"@.len() == 3,
        "name"@.len() == 4,
        "size"@.len() == 4,
        "storage_class"@.len() == 13,
        "type"@.len() == 4,
        "updated"@.len() == 7,
        "cache_control"@ != "storage_class"@,
        "key"@ != "md5"@,
        "size"@ != "etag"@,
        "type"@ != "etag"@,
        "type"@ != "size"@,
{
    reveal_strlit("bucket");
    reveal_strlit("cache_control");
    reveal_strlit("content_type");
    reveal_strlit("created");
    reveal_strlit("etag");
    reveal_strlit("generation");
    reveal_strlit("key");
    reveal_strlit("location");
    reveal_strlit("md5");
    reveal_strlit("name");
    reveal_strlit("size");
    reveal_strlit("storage_class");
    reveal_strlit("type");
    reveal_strlit("updated");
    assert("cache_control"@[0] != "storage_class"@[0]);
    assert("key"@[0] != "md5"@[0]);
    assert("size"@[0] != "etag"@[0]);
    assert("type"@[0] != "etag"@[0]);
    assert("type"@[0] != "size"@[0]);
}

/// A URI with a bucket and a key names them.
pub proof fn uris_name_bucket_and_key(bucket: Seq<char>, key: Seq<char>)
    requires
        !bucket.contains('/'),
    ensures
        bucket_and_key("gs://"@ + bucket + "/"@ + key) == Ok::<
            (Seq<char>, Seq<char>),
            Seq<char>,
        >((bucket, key)),
        bucket_and_key("gs://"@ + bucket) == Ok::<(Seq<char>, Seq<char>), Seq<char>>(
            (bucket, Seq::empty()),
        ),
{
    reveal_strlit("/");
    assert("/"@ =~= seq!['/']);
    let rest = bucket + "/"@ + key;
    assert("gs://"@ + bucket + "/"@ + key =~= "gs://"@ + rest);
    lemma_without_prefix("gs://"@, rest);
    lemma_without_prefix("gs://"@, bucket);
    lemma_cut_first_found(bucket, '/', key);
    lemma_cut_first_parts(bucket, '/');
    if let Some((a, b)) = cut_first(bucket, '/') {
        assert((a + seq!['/'] + b)[a.len() as int] == '/');
    }
}

/// What does not begin with `gs://` is refused, and named in what is answered.
pub proof fn other_uris_are_refused(uri: Seq<char>)
    requires
        !"gs://"@.is_prefix_of(uri),
    ensures
        bucket_and_key(uri) == Err::<(Seq<char>, Seq<char>), Seq<char>>(
            "expected `gs://bucket/key…`, got `"@ + uri + "`"@,
        ),
{
    if let Some(rest) = without_prefix(uri, "gs://"@) {
        assert("gs://"@.is_prefix_of("gs://"@ + rest));
    }
}

/// A command on an object refuses a URI that is none of an object, with its own name in the answer.
pub proof fn object_commands_need_a_key(
    project: Option<Seq<char>>,
    env: EnvView,
    cmd: GcsCmd,
    r: Result<Step, Error>,
    bucket: Seq<char>,
)
    requires
        fits(project, env, cmd, r),
        !bucket.contains('/'),
    ensures
        ({
            let bare_uri = |uri: String| uri@ == "gs://"@ + bucket || uri@
                == "gs://"@ + bucket + "/"@;
            let refused = |verb: Seq<char>|
                r matches Err(e) && e@ == verb + " needs a full object URI (gs://bucket/key)"@;
            &&& (cmd matches GcsCmd::Get { uri, .. } && bare_uri(uri)) ==> refused("get"@)
            &&& (cmd matches GcsCmd::Put { uri, .. } && bare_uri(uri)) ==> refused("put"@)
            &&& (cmd matches GcsCmd::Head { uri } && bare_uri(uri)) ==> refused("head"@)
            &&& (cmd matches GcsCmd::Rm { uri } && bare_uri(uri)) ==> refused("rm"@)
        }),
{
    uris_name_bucket_and_key(bucket, Seq::empty());
    assert("gs://"@ + bucket + "/"@ + Seq::<char>::empty() =~= "gs://"@ + bucket + "/"@);
}

/// The command `get` reads the object that its URI names, and writes it to its output.
pub proof fn get_reads_the_object(
    project: Option<Seq<char>>,
    env: EnvView,
    cmd: GcsCmd,
    r: Result<Step, Error>,
    bucket: Seq<char>,
    key: Seq<char>,
)
    requires
        fits(project, env, cmd, r),
        !bucket.contains('/'),
        key.len() > 0,
        cmd matches GcsCmd::Get { uri, output } && uri@ == "gs://"@ + bucket + "/"@ + key,
    ensures
        r is Ok && r->Ok_0 is Download,
        r->Ok_0->output@ == cmd->Get_output@,
        r->Ok_0->Download_request@.method == Method::Get,
        asks_for(
            r->Ok_0->Download_request@.url,
            "https://storage.googleapis.com/storage/v1/"@,
            seq!["b"@, bucket, "o"@, key],
            None,
            seq![("alt"@, "media"@)],
        ),
        r->Ok_0->Download_request@.query == Seq::<(Seq<char>, Seq<char>)>::empty(),
        r->Ok_0->Download_request@.headers == Seq::<(Seq<char>, Seq<char>)>::empty(),
        r->Ok_0->Download_request@.body == BodyView::Empty,
{
    uris_name_bucket_and_key(bucket, key);
    lemma_storage_b_o_key_alt_media(bucket, key);
}

/// The command `head` asks for the object that its URI names.
pub proof fn head_asks_for_the_object(
    project: Option<Seq<char>>,
    env: EnvView,
    cmd: GcsCmd,
    r: Result<Step, Error>,
    bucket: Seq<char>,
    key: Seq<char>,
)
    requires
        fits(project, env, cmd, r),
        !bucket.contains('/'),
        key.len() > 0,
        cmd matches GcsCmd::Head { uri } && uri@ == "gs://"@ + bucket + "/"@ + key,
    ensures
        r is Ok && r->Ok_0 is Show,
        r->Ok_0->Show_request@.method == Method::Get,
        asks_for(
            r->Ok_0->Show_request@.url,
            "https://storage.googleapis.com/storage/v1/"@,
            seq!["b"@, bucket, "o"@, key],
            None,
            Seq::empty(),
        ),
        r->Ok_0->Show_request@.query == Seq::<(Seq<char>, Seq<char>)>::empty(),
        r->Ok_0->Show_request@.headers == Seq::<(Seq<char>, Seq<char>)>::empty(),
        r->Ok_0->Show_request@.body == BodyView::Empty,
{
    uris_name_bucket_and_key(bucket, key);
    lemma_storage_b_o_key(bucket, key);
}

/// The command `rm` deletes the object that its URI names, and says so of it.
pub proof fn rm_deletes_the_object(
    project: Option<Seq<char>>,
    env: EnvView,
    cmd: GcsCmd,
    r: Result<Step, Error>,
    bucket: Seq<char>,
    key: Seq<char>,
)
    requires
        fits(project, env, cmd, r),
        !bucket.contains('/'),
        key.len() > 0,
        cmd matches GcsCmd::Rm { uri } && uri@ == "gs://"@ + bucket + "/"@ + key,
    ensures
        r is Ok && r->Ok_0 is Remove,
        r->Ok_0->bucket@ == bucket,
        r->Ok_0->key@ == key,
        r->Ok_0->Remove_request@.method == Method::Delete,
        asks_for(
            r->Ok_0->Remove_request@.url,
            "https://storage.googleapis.com/storage/v1/"@,
            seq!["b"@, bucket, "o"@, key],
            None,
            Seq::empty(),
        ),
        r->Ok_0->Remove_request@.query == Seq::<(Seq<char>, Seq<char>)>::empty(),
        r->Ok_0->Remove_request@.headers == Seq::<(Seq<char>, Seq<char>)>::empty(),
        r->Ok_0->Remove_request@.body == BodyView::Empty,
{
    uris_name_bucket_and_key(bucket, key);
    lemma_storage_b_o_key(bucket, key);
}

/// The command `put` writes its input to the object that its URI names.
pub proof fn put_writes_the_object(
    project: Option<Seq<char>>,
    env: EnvView,
    cmd: GcsCmd,
    r: Result<Step, Error>,
    bucket: Seq<char>,
    key: Seq<char>,
)
    requires
        fits(project, env, cmd, r),
        !bucket.contains('/'),
        key.len() > 0,
        cmd matches GcsCmd::Put { uri, input, content_type, cache_control }
            && uri@ == "gs://"@ + bucket + "/"@ + key,
    ensures
        r is Ok && r->Ok_0 is Upload,
        r->Ok_0->upload.bucket@ == bucket,
        r->Ok_0->upload.key@ == key,
        r->Ok_0->upload.content_type@ == cmd->content_type@,
        opt_text(r->Ok_0->upload.cache_control) == opt_text(cmd->cache_control),
        r->Ok_0->input@ == cmd->Put_input@,
{
    uris_name_bucket_and_key(bucket, key);
}

/// An upload sends the bytes to the bucket under the name of the key, with their type and, where
/// it is given, how they may be cached.
pub proof fn uploads_name_the_object(
    bucket: Seq<char>,
    key: Seq<char>,
    content_type: Seq<char>,
    cache_control: Option<Seq<char>>,
    bytes: Seq<u8>,
)
    ensures
        ({
            let sent = upload_call(bucket, key, content_type, cache_control, bytes);
            &&& sent.method == Method::Post
            &&& asks_for(
                sent.url,
                "https://storage.googleapis.com/upload/storage/v1/"@,
                seq!["b"@, bucket, "o"@],
                None,
                seq![("uploadType"@, "media"@), ("name"@, key)],
            )
            &&& sent.query == Seq::<(Seq<char>, Seq<char>)>::empty()
            &&& sent.headers.len() == if cache_control is Some {
                2nat
            } else {
                1
            }
            &&& sent.headers[0] == ("Content-Type"@, content_type)
            &&& cache_control is Some ==> sent.headers[1] == ("Cache-Control"@, cache_control->0)
            &&& sent.body == BodyView::Bytes(bytes)
        }),
{
    lemma_storage_upload_b_o_upload_type_media_name(bucket, key);
}

/// The command `buckets` asks for the buckets of the project that is chosen.
pub proof fn buckets_are_those_of_the_project(
    project: Option<Seq<char>>,
    env: EnvView,
    r: Result<Step, Error>,
)
    requires
        fits(project, env, GcsCmd::Buckets, r),
    ensures
        chosen_project(project, env) matches Err(e) ==> r is Err && r->Err_0@ == e,
        chosen_project(project, env) matches Ok(p) ==> r is Ok && r->Ok_0 is ListBuckets && ({
            let sent = r->Ok_0->ListBuckets_request@;
            &&& sent.method == Method::Get
            &&& asks_for(
                sent.url,
                "https://storage.googleapis.com/storage/v1/"@,
                seq!["b"@],
                None,
                seq![("project"@, p)],
            )
            &&& sent.query == Seq::<(Seq<char>, Seq<char>)>::empty()
            &&& sent.headers == Seq::<(Seq<char>, Seq<char>)>::empty()
            &&& sent.body == BodyView::Empty
        }),
{
    if let Ok(p) = chosen_project(project, env) {
        lemma_storage_b_project(p);
    }
}

/// The command `ls` lists the objects of the bucket whose names begin with the key of the URI, from
/// the first page on. A limit of none is one of a single line.
pub proof fn ls_starts_at_the_first_page(
    project: Option<Seq<char>>,
    env: EnvView,
    cmd: GcsCmd,
    r: Result<Step, Error>,
    bucket: Seq<char>,
    key: Seq<char>,
)
    requires
        fits(project, env, cmd, r),
        !bucket.contains('/'),
        cmd matches GcsCmd::Ls { uri, delimiter, page_size, limit } && uri@ == "gs://"@ + bucket
            + "/"@ + key,
    ensures
        r is Ok && r->Ok_0 is List,
        ({
            let listing = r->Ok_0->List_0@;
            &&& listing.bucket == bucket
            &&& listing.prefix == key
            &&& listing.delimiter == opt_text(cmd->delimiter)
            &&& listing.page_size == cmd->page_size
            &&& listing.token is None
            &&& cmd->limit is None ==> listing.left is None
            &&& cmd->limit == Some(0usize) ==> listing.left == Some(1usize)
            &&& cmd->limit is Some && cmd->limit->0 > 0 ==> listing.left == cmd->limit
        }),
{
    uris_name_bucket_and_key(bucket, key);
}

/// A parameter, where there is a value for it.
pub open spec fn given(name: Seq<char>, value: Option<Seq<char>>) -> Seq<(Seq<char>, Seq<char>)> {
    match value {
        Some(v) => seq![(name, v)],
        None => Seq::empty(),
    }
}

/// A page of a listing is asked of the bucket, with the size of the page and, where there are any,
/// the prefix, the delimiter and the token of the page.
pub proof fn pages_are_asked_of_the_bucket(l: ListingView)
    ensures
        ({
            let sent = page_call(l);
            let prefix = if l.prefix.len() > 0 {
                Some(l.prefix)
            } else {
                None
            };
            &&& sent.method == Method::Get
            &&& asks_for(sent.url, "https://storage.googleapis.com/storage/v1/"@, seq!["b"@,
                l.bucket, "o"@], None, Seq::empty())
            &&& sent.query == given("maxResults"@, Some(decimal(l.page_size as nat))) + given(
                "prefix"@,
                prefix,
            ) + given("delimiter"@, l.delimiter) + given("pageToken"@, l.token)
            &&& sent.headers == Seq::<(Seq<char>, Seq<char>)>::empty()
            &&& sent.body == BodyView::Empty
        }),
{
    lemma_storage_b_o(l.bucket);
}

/// The next page is the one that the page names, and what the page writes is taken off the limit.
pub proof fn pages_follow_one_another(l: ListingView, page: JsonView)
    ensures
        ({
            let next = advanced(l, page);
            let wrote = allowed(page_lines(page), l.left);
            &&& next.bucket == l.bucket
            &&& next.prefix == l.prefix
            &&& next.delimiter == l.delimiter
            &&& next.page_size == l.page_size
            &&& next.token == page.str_at("nextPageToken"@)
            &&& l.left is None ==> next.left is None
            &&& l.left is Some ==> next.left is Some && next.left->0 + wrote.len() == l.left->0
            &&& goes_on(next) ==> page.str_at("nextPageToken"@) is Some
            &&& goes_on(next) && l.left is Some ==> wrote.len() < l.left->0
            &&& !goes_on(next) ==> page.str_at("nextPageToken"@) is None || (l.left is Some
                && wrote.len() == l.left->0)
        }),
{
}

/// Of the lines of a page as many are written as the limit allows, from the first on.
pub proof fn lines_are_written_up_to_the_limit(lines: Seq<JsonView>, left: Option<usize>)
    ensures
        allowed(lines, left).is_prefix_of(lines),
        left is None ==> allowed(lines, left) == lines,
        left is Some && lines.len() <= left->0 ==> allowed(lines, left) == lines,
        left is Some && lines.len() > left->0 ==> allowed(lines, left).len() == left->0,
{
}

/// The size of an object is the integer that its text denotes, null where it denotes none.
pub proof fn sizes_are_integers(o: JsonView)
    ensures
        (o.at("size"@) matches JsonView::Str(s) && denoted_i64(s) is Some) ==> size(o)
            == JsonView::Int(denoted_i64(o.at("size"@)->Str_0)->0),
        !(o.at("size"@) matches JsonView::Str(s) && denoted_i64(s) is Some) ==> size(o)
            == JsonView::Null,
{
}

/// A page has a line for each prefix that is a text and then one for each object, in their order.
pub proof fn page_lines_are_prefixes_and_objects(page: JsonView)
    ensures
        ({
            let lines = page_lines(page);
            let prefixes = page.list("prefixes"@).filter(|p: JsonView| p is Str);
            let items = page.list("items"@);
            &&& lines.len() == prefixes.len() + items.len()
            &&& forall|i: int| 0 <= i < prefixes.len() ==> {
                    let line = #[trigger] lines[i];
                    &&& has_members(line, set!["type"@, "key"@])
                    &&& line.at("type"@) == JsonView::Str("prefix"@)
                    &&& line.at("key"@) == prefixes[i]
                }
            &&& forall|i: int| 0 <= i < items.len() ==> {
                    let line = lines[prefixes.len() + i];
                    let o = #[trigger] items[i];
                    &&& has_members(
                        line,
                        set![
                            "type"@,
                            "key"@,
                            "size"@,
                            "content_type"@,
                            "md5"@,
                            "etag"@,
                            "updated"@,
                            "storage_class"@,
                            "generation"@,
                        ],
                    )
                    &&& line.at("type"@) == JsonView::Str("object"@)
                    &&& line.at("key"@) == o.at("name"@)
                    &&& line.at("size"@) == size(o)
                    &&& line.at("content_type"@) == o.at("contentType"@)
                    &&& line.at("md5"@) == o.at("md5Hash"@)
                    &&& line.at("etag"@) == o.at("etag"@)
                    &&& line.at("updated"@) == o.at("updated"@)
                    &&& line.at("storage_class"@) == o.at("storageClass"@)
                    &&& line.at("generation"@) == o.at("generation"@)
                }
        }),
{
    lemma_names();
    let value = |p: JsonView|
        JsonView::Obj(map!["type"@ => JsonView::Str("prefix"@), "key"@ => p]);
    lemma_kept(
        page.list("prefixes"@),
        |p: JsonView| prefix_line(p),
        |p: JsonView| p is Str,
        value,
    );
    let prefixes = page.list("prefixes"@).filter(|p: JsonView| p is Str);
    assert forall|i: int| 0 <= i < prefixes.len() implies #[trigger] page_lines(page)[i] == value(
        prefixes[i],
    ) by {}
    assert forall|i: int| 0 <= i < page.list("items"@).len() implies page_lines(
        page,
    )[prefixes.len() + i] == object_line(#[trigger] page.list("items"@)[i]) by {}
}

/// What is said of an uploaded object is what the answer says of it.
pub proof fn uploaded_objects_are_described(v: JsonView)
    ensures
        ({
            let line = uploaded(v);
            &&& has_members(line, set!["bucket"@, "key"@, "size"@, "md5"@, "etag"@, "generation"@])
            &&& line.at("bucket"@) == v.at("bucket"@)
            &&& line.at("key"@) == v.at("name"@)
            &&& line.at("size"@) == size(v)
            &&& line.at("md5"@) == v.at("md5Hash"@)
            &&& line.at("etag"@) == v.at("etag"@)
            &&& line.at("generation"@) == v.at("generation"@)
        }),
{
    lemma_names();
}

/// What is said of an object is what the answer says of it.
pub proof fn shown_objects_are_described(v: JsonView)
    ensures
        ({
            let line = shown(v);
            &&& has_members(line, set!["bucket"@, "key"@, "size"@, "content_type"@,
                "cache_control"@, "md5"@, "etag"@, "updated"@, "storage_class"@, "generation"@])
            &&& line.at("bucket"@) == v.at("bucket"@)
            &&& line.at("key"@) == v.at("name"@)
            &&& line.at("size"@) == size(v)
            &&& line.at("content_type"@) == v.at("contentType"@)
            &&& line.at("cache_control"@) == v.at("cacheControl"@)
            &&& line.at("md5"@) == v.at("md5Hash"@)
            &&& line.at("etag"@) == v.at("etag"@)
            &&& line.at("updated"@) == v.at("updated"@)
            &&& line.at("storage_class"@) == v.at("storageClass"@)
            &&& line.at("generation"@) == v.at("generation"@)
        }),
{
    lemma_names();
}

/// What is said of a bucket is what the answer says of it.
pub proof fn buckets_are_described(b: JsonView)
    ensures
        ({
            let line = bucket_line(b);
            &&& has_members(line, set!["name"@, "location"@, "storage_class"@, "created"@])
            &&& line.at("name"@) == b.at("name"@)
            &&& line.at("location"@) == b.at("location"@)
            &&& line.at("storage_class"@) == b.at("storageClass"@)
            &&& line.at("created"@) == b.at("timeCreated"@)
        }),
{
    lemma_names();
}

} // verus!
