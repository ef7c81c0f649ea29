//! The helper's commands on Cloud Storage.

use vstd::prelude::*;
use vstd::string::*;

use crate::codec::url_encoded;
use crate::common::{
    bucket_and_key, chosen_project, pair_view, parse_gs_uri, resolve_project,
};
use crate::decimal::{decimal, decimal_text, denoted_i64, parse_i64};
use crate::json::{each, items_view, kept, Json, JsonView, Members};
use crate::options::{opt_str, opt_text, Env, EnvView};
use crate::request::{bare, Draft, Error, Method, Request, RequestView};

verus! {

/// A command.
#[derive(Debug)]
pub enum GcsCmd {
    /// Lists the objects under `gs://bucket/prefix`.
    Ls { uri: String, delimiter: Option<String>, page_size: u32, limit: Option<usize> },
    /// Downloads an object to a file, or to the standard output where it is `-`.
    Get { uri: String, output: String },
    /// Uploads a file, or the standard input where it is `-`.
    Put { uri: String, input: String, content_type: String, cache_control: Option<String> },
    /// Shows the metadata of an object.
    Head { uri: String },
    /// Deletes an object.
    Rm { uri: String },
    /// Lists the buckets of the project.
    Buckets,
}

/// What a command does first.
#[derive(Debug)]
pub enum Step {
    /// Asks for one page of a listing after the other.
    List(Listing),
    /// Sends the request and writes the bytes of the reply to `output`.
    Download { request: Request, output: String },
    /// Reads the bytes of `input` and uploads them.
    Upload { upload: Upload, input: String },
    /// Sends the request and shows the metadata in the reply.
    Show { request: Request },
    /// Sends the request and says that the object is gone.
    Remove { request: Request, bucket: String, key: String },
    /// Sends the request and writes a line for each bucket in the reply.
    ListBuckets { request: Request },
}

/// The bucket and the key of an object that `verb` is to be done to.
pub open spec fn object_target(verb: Seq<char>, uri: Seq<char>) -> Result<
    (Seq<char>, Seq<char>),
    Seq<char>,
> {
    match bucket_and_key(uri) {
        Err(e) => Err(e),
        Ok((bucket, key)) => if key.len() == 0 {
            Err(verb + " needs a full object URI (gs://bucket/key)"@)
        } else {
            Ok((bucket, key))
        },
    }
}

fn object_uri(verb: &str, uri: &str) -> (r: Result<(String, String), Error>)
    ensures
        pair_view(r) == object_target(verb@, uri@),
{
    let (bucket, key): (String, String) = parse_gs_uri(uri)?;
    if key.as_str().is_empty() {
        Err(Draft::new(verb).lit(" needs a full object URI (gs://bucket/key)").error())
    } else {
        Ok((bucket, key))
    }
}

/// Where the metadata of an object is.
pub open spec fn object_url(bucket: Seq<char>, key: Seq<char>) -> Seq<char> {
    "https://storage.googleapis.com/storage/v1/b/"@ + url_encoded(bucket) + "/o/"@ + url_encoded(
        key,
    )
}

fn object_url_draft(bucket: &str, key: &str) -> (r: Draft)
    ensures
        r@ == object_url(bucket@, key@),
{
    Draft::new("https://storage.googleapis.com/storage/v1/b/").enc(bucket).lit("/o/").enc(key)
}

/// The size of an object as an integer, null where it is none.
pub open spec fn size(o: JsonView) -> JsonView {
    match o.str_at("size"@) {
        Some(s) => match denoted_i64(s) {
            Some(i) => JsonView::Int(i),
            None => JsonView::Null,
        },
        None => JsonView::Null,
    }
}

fn size_json(o: &Json) -> (r: Json)
    ensures
        r@ == size(o@),
{
    match o.str_at("size") {
        Some(s) => match parse_i64(s) {
            Some(i) => Json::integer(i),
            None => Json::Null,
        },
        None => Json::Null,
    }
}

// Listing

/// A listing between two pages.
#[derive(Debug)]
pub struct Listing {
    pub bucket: String,
    pub prefix: String,
    pub delimiter: Option<String>,
    pub page_size: u32,
    /// The page that comes next, the first where there is none.
    pub token: Option<String>,
    /// The number of lines that may still be written, where there is a limit.
    pub left: Option<usize>,
}

pub struct ListingView {
    pub bucket: Seq<char>,
    pub prefix: Seq<char>,
    pub delimiter: Option<Seq<char>>,
    pub page_size: u32,
    pub token: Option<Seq<char>>,
    pub left: Option<usize>,
}

impl View for Listing {
    type V = ListingView;

    open spec fn view(&self) -> ListingView {
        ListingView {
            bucket: self.bucket@,
            prefix: self.prefix@,
            delimiter: opt_text(self.delimiter),
            page_size: self.page_size,
            token: opt_text(self.token),
            left: self.left,
        }
    }
}

/// The number of lines that a listing with that limit may write. The limit is looked at behind
/// each line, so that a limit of zero lets one line through.
pub open spec fn allowance(limit: Option<usize>) -> Option<usize> {
    match limit {
        Some(l) => Some(
            if l == 0 {
                1
            } else {
                l
            },
        ),
        None => None,
    }
}

/// A listing before its first page.
pub open spec fn started(
    uri: Seq<char>,
    delimiter: Option<Seq<char>>,
    page_size: u32,
    limit: Option<usize>,
) -> Result<ListingView, Seq<char>> {
    match bucket_and_key(uri) {
        Err(e) => Err(e),
        Ok((bucket, prefix)) => Ok(
            ListingView {
                bucket,
                prefix,
                delimiter,
                page_size,
                token: None,
                left: allowance(limit),
            },
        ),
    }
}

/// The request with one more query parameter, where there is a value for it.
pub open spec fn param_some(q: RequestView, name: Seq<char>, value: Option<Seq<char>>) -> RequestView {
    match value {
        Some(v) => q.param(name, v),
        None => q,
    }
}

/// The request for the page that comes next.
pub open spec fn page_call(l: ListingView) -> RequestView {
    let sized = bare(
        Method::Get,
        "https://storage.googleapis.com/storage/v1/b/"@ + url_encoded(l.bucket) + "/o"@,
    ).param("maxResults"@, decimal(l.page_size as nat));
    let under = if l.prefix.len() > 0 {
        sized.param("prefix"@, l.prefix)
    } else {
        sized
    };
    param_some(param_some(under, "delimiter"@, l.delimiter), "pageToken"@, l.token)
}

/// A common prefix in a page.
pub open spec fn prefix_line(p: JsonView) -> Option<JsonView> {
    match p.as_str() {
        Some(s) => Some(
            JsonView::Obj(map!["type"@ => JsonView::Str("prefix"@), "key"@ => JsonView::Str(s)]),
        ),
        None => None,
    }
}

/// An object in a page.
pub open spec fn object_line(o: JsonView) -> JsonView {
    JsonView::Obj(
        map![
            "type"@ => JsonView::Str("object"@),
            "key"@ => o.at("name"@),
            "size"@ => size(o),
            "content_type"@ => o.at("contentType"@),
            "md5"@ => o.at("md5Hash"@),
            "etag"@ => o.at("etag"@),
            "updated"@ => o.at("updated"@),
            "storage_class"@ => o.at("storageClass"@),
            "generation"@ => o.at("generation"@),
        ],
    )
}

/// All lines of a page: its common prefixes, then its objects.
pub open spec fn page_lines(page: JsonView) -> Seq<JsonView> {
    kept(page.list("prefixes"@), |p: JsonView| prefix_line(p)) + page.list("items"@).map_values(
        |o: JsonView| object_line(o),
    )
}

/// The first of the lines, no more than may be written.
pub open spec fn allowed(lines: Seq<JsonView>, left: Option<usize>) -> Seq<JsonView> {
    match left {
        Some(n) => if lines.len() <= n {
            lines
        } else {
            lines.take(n as int)
        },
        None => lines,
    }
}

/// What may still be written after that many lines.
pub open spec fn left_after(left: Option<usize>, written: nat) -> Option<usize> {
    match left {
        Some(n) => Some((n - written) as usize),
        None => None,
    }
}

/// The listing behind a page.
pub open spec fn advanced(l: ListingView, page: JsonView) -> ListingView {
    ListingView {
        token: page.str_at("nextPageToken"@),
        left: left_after(l.left, allowed(page_lines(page), l.left).len()),
        ..l
    }
}

/// There is a further page to ask for, and a line to write of it.
pub open spec fn goes_on(l: ListingView) -> bool {
    l.token is Some && l.left != Some(0usize)
}

/// What is left of the pages, one reply after the other, and the lines that are written of them.
pub open spec fn listed(l: ListingView, pages: Seq<JsonView>) -> Seq<JsonView>
    decreases pages.len(),
{
    if pages.len() == 0 {
        Seq::empty()
    } else {
        let lines = allowed(page_lines(pages[0]), l.left);
        let next = advanced(l, pages[0]);
        if goes_on(next) {
            lines + listed(next, pages.drop_first())
        } else {
            lines
        }
    }
}

fn copy_of(s: &Option<String>) -> (r: Option<String>)
    ensures
        opt_text(r) == opt_text(*s),
{
    match s {
        Some(t) => Some(t.as_str().to_owned()),
        None => None,
    }
}

fn prefix_line_json(p: &Json) -> (r: Option<Json>)
    ensures
        match r {
            Some(j) => prefix_line(p@) == Some(j@),
            None => prefix_line(p@) is None,
        },
{
    match p.as_str() {
        Some(s) => Some(
            Json::Object(
                Members::new().with("type", Json::text("prefix")).with("key", Json::text(s)),
            ),
        ),
        None => None,
    }
}

fn object_line_json(o: &Json) -> (r: Json)
    ensures
        r@ == object_line(o@),
{
    Json::Object(
        Members::new()
            .with("type", Json::text("object"))
            .with("key", o.at("name"))
            .with("size", size_json(o))
            .with("content_type", o.at("contentType"))
            .with("md5", o.at("md5Hash"))
            .with("etag", o.at("etag"))
            .with("updated", o.at("updated"))
            .with("storage_class", o.at("storageClass"))
            .with("generation", o.at("generation")),
    )
}

impl Listing {
    /// The listing that a command starts.
    pub fn start(uri: &str, delimiter: &Option<String>, page_size: u32, limit: Option<usize>) -> (r:
        Result<Listing, Error>)
        ensures
            match r {
                Ok(l) => started(uri@, opt_text(*delimiter), page_size, limit) == Ok::<
                    ListingView,
                    Seq<char>,
                >(l@),
                Err(e) => started(uri@, opt_text(*delimiter), page_size, limit) == Err::<
                    ListingView,
                    Seq<char>,
                >(e@),
            },
    {
        let (bucket, prefix): (String, String) = parse_gs_uri(uri)?;
        let left: Option<usize> = match limit {
            Some(l) => if l == 0 {
                Some(1)
            } else {
                Some(l)
            },
            None => None,
        };
        Ok(Listing { bucket, prefix, delimiter: copy_of(delimiter), page_size, token: None, left })
    }

    /// The request for the page that comes next.
    pub fn request(&self) -> (r: Request)
        ensures
            r@ == page_call(self@),
    {
        let sized: Request = Request::new(
            Method::Get,
            Draft::new("https://storage.googleapis.com/storage/v1/b/").enc(
                self.bucket.as_str(),
            ).lit("/o"),
        ).param("maxResults", decimal_text(self.page_size as u64).as_str());
        let under: Request = if self.prefix.as_str().is_empty() {
            sized
        } else {
            sized.param("prefix", self.prefix.as_str())
        };
        let cut: Request = match &self.delimiter {
            Some(d) => under.param("delimiter", d.as_str()),
            None => under,
        };
        match &self.token {
            Some(t) => cut.param("pageToken", t.as_str()),
            None => cut,
        }
    }

    fn full(&self, written: usize) -> (r: bool)
        ensures
            r == (self.left matches Some(n) && written >= n),
    {
        match self.left {
            Some(n) => written >= n,
            None => false,
        }
    }

    fn lines(&self, page: &Json) -> (r: Vec<Json>)
        ensures
            items_view(r@) == allowed(page_lines(page@), self.left),
    {
        let ghost all = page_lines(page@);
        let ghost model = |p: JsonView| prefix_line(p);
        let ghost heads = kept(page@.list("prefixes"@), model);
        let mut out: Vec<Json> = Vec::new();
        assert(items_view(out@) =~= allowed(Seq::empty(), self.left));
        if let Some(prefixes) = page.array_at("prefixes") {
            let ghost given = items_view(prefixes@);
            let mut i: usize = 0;
            assert(given.take(0) =~= Seq::empty());
            while i < prefixes.len()
                invariant
                    i <= prefixes.len(),
                    given == items_view(prefixes@),
                    model == |p: JsonView| prefix_line(p),
                    items_view(out@) == kept(given.take(i as int), model),
                    self.left matches Some(n) ==> out@.len() <= n,
                    page@.list("prefixes"@) == given,
                    heads == kept(given, model),
                    all == heads + page@.list("items"@).map_values(|o: JsonView| object_line(o)),
                decreases prefixes.len() - i,
            {
                if self.full(out.len()) {
                    proof {
                        lemma_kept_prefix(given, model, i as int);
                        assert(items_view(out@) =~= allowed(all, self.left));
                    }
                    return out;
                }
                proof {
                    let next = given.take(i + 1);
                    assert(next.drop_last() =~= given.take(i as int));
                    assert(next.last() == prefixes@[i as int]@);
                }
                let ghost before = out@;
                if let Some(line) = prefix_line_json(&prefixes[i]) {
                    out.push(line);
                    assert(items_view(out@) =~= items_view(before).push(line@));
                }
                i += 1;
            }
            assert(given.take(i as int) =~= given);
        } else {
            assert(page@.list("prefixes"@) =~= Seq::empty());
        }
        assert(items_view(out@) == heads);
        let ghost tail = page@.list("items"@).map_values(|o: JsonView| object_line(o));
        if let Some(items) = page.array_at("items") {
            let mut i: usize = 0;
            assert(items_view(out@) =~= heads + tail.take(0));
            while i < items.len()
                invariant
                    i <= items.len(),
                    all == heads + tail,
                    all == page_lines(page@),
                    tail == items_view(items@).map_values(|o: JsonView| object_line(o)),
                    items_view(out@) == heads + tail.take(i as int),
                    self.left matches Some(n) ==> out@.len() <= n,
                decreases items.len() - i,
            {
                if self.full(out.len()) {
                    assert(items_view(out@).len() == out@.len());
                    assert(items_view(out@) =~= allowed(all, self.left));
                    return out;
                }
                let ghost before = out@;
                out.push(object_line_json(&items[i]));
                proof {
                    assert(items_view(out@) =~= items_view(before).push(tail[i as int]));
                    assert(tail.take(i + 1) =~= tail.take(i as int).push(tail[i as int]));
                    assert(items_view(out@) =~= heads + tail.take(i + 1));
                }
                i += 1;
            }
            assert(tail.take(i as int) =~= tail);
        } else {
            assert(tail =~= Seq::empty());
            assert(all =~= heads);
        }
        assert(items_view(out@).len() == out@.len());
        assert(items_view(out@) =~= all);
        out
    }

    /// Takes a page in: the listing behind it, the lines that are written of it, and whether a
    /// further page is to be asked for.
    pub fn take(self, page: &Json) -> (r: (Listing, Vec<Json>, bool))
        ensures
            r.0@ == advanced(self@, page@),
            items_view(r.1@) == allowed(page_lines(page@), self@.left),
            r.2 == goes_on(advanced(self@, page@)),
    {
        let lines: Vec<Json> = self.lines(page);
        assert(items_view(lines@).len() == lines@.len());
        let left: Option<usize> = match self.left {
            Some(n) => Some(n - lines.len()),
            None => None,
        };
        let token: Option<String> = match page.str_at("nextPageToken") {
            Some(t) => Some(t.to_owned()),
            None => None,
        };
        let more: bool = token.is_some() && match left {
            Some(n) => n != 0,
            None => true,
        };
        let next: Listing = Listing {
            bucket: self.bucket,
            prefix: self.prefix,
            delimiter: self.delimiter,
            page_size: self.page_size,
            token,
            left,
        };
        (next, lines, more)
    }
}

/// What is made of the first items is the beginning of what is made of all.
proof fn lemma_kept_prefix(
    s: Seq<JsonView>,
    model: spec_fn(JsonView) -> Option<JsonView>,
    k: int,
)
    requires
        0 <= k <= s.len(),
    ensures
        kept(s.take(k), model).len() <= kept(s, model).len(),
        kept(s.take(k), model) == kept(s, model).take(kept(s.take(k), model).len() as int),
    decreases s.len() - k,
{
    if k < s.len() {
        lemma_kept_prefix(s, model, k + 1);
        let next = s.take(k + 1);
        assert(next.drop_last() =~= s.take(k));
        assert(kept(s.take(k), model) =~= kept(s, model).take(
            kept(s.take(k), model).len() as int,
        ));
    } else {
        assert(s.take(k) =~= s);
        assert(kept(s, model).take(kept(s, model).len() as int) =~= kept(s, model));
    }
}

/// The lines of all pages.
pub open spec fn all_lines(pages: Seq<JsonView>) -> Seq<JsonView>
    decreases pages.len(),
{
    if pages.len() == 0 {
        Seq::empty()
    } else {
        page_lines(pages[0]) + all_lines(pages.drop_first())
    }
}

/// A listing writes the lines of its pages in their order, the first of them where there is a
/// limit. Each page but the last leads to the next.
pub proof fn listing_writes_the_first_lines(l: ListingView, pages: Seq<JsonView>)
    requires
        forall|i: int|
            0 <= i < pages.len() - 1 ==> (#[trigger] pages[i]).str_at("nextPageToken"@) is Some,
    ensures
        listed(l, pages) == allowed(all_lines(pages), l.left),
    decreases pages.len(),
{
    if pages.len() > 0 {
        let first = page_lines(pages[0]);
        let rest = pages.drop_first();
        let next = advanced(l, pages[0]);
        assert forall|i: int| 0 <= i < rest.len() - 1 implies (#[trigger] rest[i]).str_at(
            "nextPageToken"@,
        ) is Some by {
            assert(rest[i] == pages[i + 1]);
        }
        listing_writes_the_first_lines(next, rest);
        if pages.len() > 1 {
            assert(pages[0].str_at("nextPageToken"@) is Some);
        } else {
            assert(all_lines(rest) =~= Seq::empty());
        }
        assert(listed(l, pages) =~= allowed(first + all_lines(rest), l.left));
    } else {
        assert(listed(l, pages) =~= allowed(all_lines(pages), l.left));
    }
}

/// A listing writes no more lines than its limit lets through.
pub proof fn listing_stays_within_its_limit(l: ListingView, pages: Seq<JsonView>)
    requires
        l.left is Some,
    ensures
        listed(l, pages).len() <= l.left->0,
    decreases pages.len(),
{
    if pages.len() > 0 {
        listing_stays_within_its_limit(advanced(l, pages[0]), pages.drop_first());
    }
}

// Objects and buckets

/// An upload, without its bytes.
#[derive(Debug)]
pub struct Upload {
    pub bucket: String,
    pub key: String,
    pub content_type: String,
    pub cache_control: Option<String>,
}

/// The request that uploads the bytes.
pub open spec fn upload_call(
    bucket: Seq<char>,
    key: Seq<char>,
    content_type: Seq<char>,
    cache_control: Option<Seq<char>>,
    bytes: Seq<u8>,
) -> RequestView {
    let plain = bare(
        Method::Post,
        "https://storage.googleapis.com/upload/storage/v1/b/"@ + url_encoded(bucket)
            + "/o?uploadType=media&name="@ + url_encoded(key),
    ).header("Content-Type"@, content_type).bytes(bytes);
    match cache_control {
        Some(c) => plain.header("Cache-Control"@, c),
        None => plain,
    }
}

impl Upload {
    /// The request that uploads the bytes.
    pub fn request(&self, bytes: Vec<u8>) -> (r: Request)
        ensures
            r@ == upload_call(
                self.bucket@,
                self.key@,
                self.content_type@,
                opt_text(self.cache_control),
                bytes@,
            ),
    {
        let plain: Request = Request::new(
            Method::Post,
            Draft::new("https://storage.googleapis.com/upload/storage/v1/b/").enc(
                self.bucket.as_str(),
            ).lit("/o?uploadType=media&name=").enc(self.key.as_str()),
        ).header("Content-Type", self.content_type.as_str()).bytes(bytes);
        match &self.cache_control {
            Some(c) => plain.header("Cache-Control", c.as_str()),
            None => plain,
        }
    }
}

/// What is said of an uploaded object.
pub open spec fn uploaded(v: JsonView) -> JsonView {
    JsonView::Obj(
        map![
            "bucket"@ => v.at("bucket"@),
            "key"@ => v.at("name"@),
            "size"@ => size(v),
            "md5"@ => v.at("md5Hash"@),
            "etag"@ => v.at("etag"@),
            "generation"@ => v.at("generation"@),
        ],
    )
}

/// What is said of an uploaded object, where the service answers `v`.
pub fn put(v: &Json) -> (r: Json)
    ensures
        r@ == uploaded(v@),
{
    Json::Object(
        Members::new()
            .with("bucket", v.at("bucket"))
            .with("key", v.at("name"))
            .with("size", size_json(v))
            .with("md5", v.at("md5Hash"))
            .with("etag", v.at("etag"))
            .with("generation", v.at("generation")),
    )
}

/// What is shown of an object.
pub open spec fn shown(v: JsonView) -> JsonView {
    JsonView::Obj(
        map![
            "bucket"@ => v.at("bucket"@),
            "key"@ => v.at("name"@),
            "size"@ => size(v),
            "content_type"@ => v.at("contentType"@),
            "cache_control"@ => v.at("cacheControl"@),
            "md5"@ => v.at("md5Hash"@),
            "etag"@ => v.at("etag"@),
            "updated"@ => v.at("updated"@),
            "storage_class"@ => v.at("storageClass"@),
            "generation"@ => v.at("generation"@),
        ],
    )
}

/// What is shown of an object, where the service answers `v`.
pub fn head(v: &Json) -> (r: Json)
    ensures
        r@ == shown(v@),
{
    Json::Object(
        Members::new()
            .with("bucket", v.at("bucket"))
            .with("key", v.at("name"))
            .with("size", size_json(v))
            .with("content_type", v.at("contentType"))
            .with("cache_control", v.at("cacheControl"))
            .with("md5", v.at("md5Hash"))
            .with("etag", v.at("etag"))
            .with("updated", v.at("updated"))
            .with("storage_class", v.at("storageClass"))
            .with("generation", v.at("generation")),
    )
}

/// What is said of a deleted object.
pub fn rm(bucket: &str, key: &str) -> (r: Json)
    ensures
        r@ == JsonView::Obj(
            map![
                "bucket"@ => JsonView::Str(bucket@),
                "key"@ => JsonView::Str(key@),
                "deleted"@ => JsonView::Bool(true),
            ],
        ),
{
    Json::Object(
        Members::new()
            .with("bucket", Json::text(bucket))
            .with("key", Json::text(key))
            .with("deleted", Json::Bool(true)),
    )
}

/// A bucket in a listing.
pub open spec fn bucket_line(b: JsonView) -> JsonView {
    JsonView::Obj(
        map![
            "name"@ => b.at("name"@),
            "location"@ => b.at("location"@),
            "storage_class"@ => b.at("storageClass"@),
            "created"@ => b.at("timeCreated"@),
        ],
    )
}

fn bucket_line_json(b: &Json) -> (r: Json)
    ensures
        r@ == bucket_line(b@),
{
    Json::Object(
        Members::new()
            .with("name", b.at("name"))
            .with("location", b.at("location"))
            .with("storage_class", b.at("storageClass"))
            .with("created", b.at("timeCreated")),
    )
}

/// The lines of a listing of buckets, where the service answers `v`.
pub fn buckets(v: &Json) -> (r: Vec<Json>)
    ensures
        items_view(r@) == v@.list("items"@).map_values(|b: JsonView| bucket_line(b)),
{
    each(v, "items", bucket_line_json, Ghost(|b: JsonView| bucket_line(b)))
}

// Commands

/// Whether a command does this first.
pub open spec fn fits(
    project: Option<Seq<char>>,
    env: EnvView,
    cmd: GcsCmd,
    r: Result<Step, Error>,
) -> bool {
    match cmd {
        GcsCmd::Ls { uri, delimiter, page_size, limit } => match started(
            uri@,
            opt_text(delimiter),
            page_size,
            limit,
        ) {
            Err(e) => r matches Err(x) && x@ == e,
            Ok(l) => r matches Ok(Step::List(x)) && x@ == l,
        },
        GcsCmd::Get { uri, output } => match object_target("get"@, uri@) {
            Err(e) => r matches Err(x) && x@ == e,
            Ok((bucket, key)) => r matches Ok(Step::Download { request, output: to })
                && request@ == bare(Method::Get, object_url(bucket, key) + "?alt=media"@)
                && to@ == output@,
        },
        GcsCmd::Put { uri, input, content_type, cache_control } => match object_target(
            "put"@,
            uri@,
        ) {
            Err(e) => r matches Err(x) && x@ == e,
            Ok((bucket, key)) => r matches Ok(Step::Upload { upload, input: from })
                && upload.bucket@ == bucket && upload.key@ == key && upload.content_type@
                == content_type@ && opt_text(upload.cache_control) == opt_text(cache_control)
                && from@ == input@,
        },
        GcsCmd::Head { uri } => match object_target("head"@, uri@) {
            Err(e) => r matches Err(x) && x@ == e,
            Ok((bucket, key)) => r matches Ok(Step::Show { request }) && request@ == bare(
                Method::Get,
                object_url(bucket, key),
            ),
        },
        GcsCmd::Rm { uri } => match object_target("rm"@, uri@) {
            Err(e) => r matches Err(x) && x@ == e,
            Ok((bucket, key)) => r matches Ok(Step::Remove { request, bucket: b, key: k })
                && request@ == bare(Method::Delete, object_url(bucket, key)) && b@ == bucket && k@
                == key,
        },
        GcsCmd::Buckets => match chosen_project(project, env) {
            Err(e) => r matches Err(x) && x@ == e,
            Ok(p) => r matches Ok(Step::ListBuckets { request }) && request@ == bare(
                Method::Get,
                "https://storage.googleapis.com/storage/v1/b?project="@ + url_encoded(p),
            ),
        },
    }
}

/// What a command does first.
pub fn dispatch(project: Option<&str>, env: &Env, cmd: GcsCmd) -> (r: Result<Step, Error>)
    ensures
        fits(opt_str(project), env@, cmd, r),
{
    match cmd {
        GcsCmd::Ls { uri, delimiter, page_size, limit } => {
            let listing: Listing = Listing::start(uri.as_str(), &delimiter, page_size, limit)?;
            Ok(Step::List(listing))
        },
        GcsCmd::Get { uri, output } => {
            let (bucket, key): (String, String) = object_uri("get", uri.as_str())?;
            let url: Draft = object_url_draft(bucket.as_str(), key.as_str()).lit("?alt=media");
            Ok(Step::Download { request: Request::new(Method::Get, url), output })
        },
        GcsCmd::Put { uri, input, content_type, cache_control } => {
            let (bucket, key): (String, String) = object_uri("put", uri.as_str())?;
            Ok(Step::Upload { upload: Upload { bucket, key, content_type, cache_control }, input })
        },
        GcsCmd::Head { uri } => {
            let (bucket, key): (String, String) = object_uri("head", uri.as_str())?;
            let url: Draft = object_url_draft(bucket.as_str(), key.as_str());
            Ok(Step::Show { request: Request::new(Method::Get, url) })
        },
        GcsCmd::Rm { uri } => {
            let (bucket, key): (String, String) = object_uri("rm", uri.as_str())?;
            let url: Draft = object_url_draft(bucket.as_str(), key.as_str());
            Ok(Step::Remove { request: Request::new(Method::Delete, url), bucket, key })
        },
        GcsCmd::Buckets => {
            let p: String = resolve_project(project, env)?;
            let url: Draft = Draft::new("https://storage.googleapis.com/storage/v1/b?project=").enc(
                p.as_str(),
            );
            Ok(Step::ListBuckets { request: Request::new(Method::Get, url) })
        },
    }
}

} // verus!
