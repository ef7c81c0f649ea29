//! The options of an operation, and the environment it runs in.

use vstd::prelude::*;
use vstd::string::*;

use crate::json::{items_view, Json, JsonView};
use crate::request::Error;

verus! {

/// The environment variables that operations look at; `None` where one is not set.
#[derive(Debug)]
pub struct Env {
    /// `GOOGLE_CLOUD_PROJECT`
    pub google_cloud_project: Option<String>,
    /// `GCLOUD_PROJECT`
    pub gcloud_project: Option<String>,
    /// `GCP_PROJECT`
    pub gcp_project: Option<String>,
    /// `GOOGLE_APPLICATION_CREDENTIALS`
    pub application_credentials: Option<String>,
}

pub struct EnvView {
    pub google_cloud_project: Option<Seq<char>>,
    pub gcloud_project: Option<Seq<char>>,
    pub gcp_project: Option<Seq<char>>,
    pub application_credentials: Option<Seq<char>>,
}

pub open spec fn opt_text(s: Option<String>) -> Option<Seq<char>> {
    match s {
        Some(t) => Some(t@),
        None => None,
    }
}

pub open spec fn opt_str(s: Option<&str>) -> Option<Seq<char>> {
    match s {
        Some(t) => Some(t@),
        None => None,
    }
}

impl View for Env {
    type V = EnvView;

    open spec fn view(&self) -> EnvView {
        EnvView {
            google_cloud_project: opt_text(self.google_cloud_project),
            gcloud_project: opt_text(self.gcloud_project),
            gcp_project: opt_text(self.gcp_project),
            application_credentials: opt_text(self.application_credentials),
        }
    }
}

/// The project of an operation: the `project` option where it is a text, else
/// `GOOGLE_CLOUD_PROJECT`, else `GCLOUD_PROJECT`. An empty text counts as set.
pub open spec fn project_of(opts: JsonView, env: EnvView) -> Option<Seq<char>> {
    match opts.str_at("project"@) {
        Some(p) => Some(p),
        None => match env.google_cloud_project {
            Some(p) => Some(p),
            None => env.gcloud_project,
        },
    }
}

/// The project of an operation, or what its absence is answered.
pub open spec fn need_project(opts: JsonView, env: EnvView) -> Result<Seq<char>, Seq<char>> {
    match project_of(opts, env) {
        Some(p) => Ok(p),
        None => Err("missing project"@),
    }
}

/// The text option of that name, or what its absence is answered.
pub open spec fn need(opts: JsonView, key: Seq<char>, complaint: Seq<char>) -> Result<
    Seq<char>,
    Seq<char>,
> {
    match opts.str_at(key) {
        Some(s) => Ok(s),
        None => Err(complaint),
    }
}

/// The elements of the array option of that name, or what its absence is answered.
pub open spec fn need_array(opts: JsonView, key: Seq<char>, complaint: Seq<char>) -> Result<
    Seq<JsonView>,
    Seq<char>,
> {
    match opts.at(key).as_array() {
        Some(a) => Ok(a),
        None => Err(complaint),
    }
}

/// The object option of that name, or what its absence is answered.
pub open spec fn need_object(opts: JsonView, key: Seq<char>, complaint: Seq<char>) -> Result<
    JsonView,
    Seq<char>,
> {
    if opts.at(key) is Obj {
        Ok(opts.at(key))
    } else {
        Err(complaint)
    }
}

/// The first of the members that is there, where it is a text.
pub open spec fn either(opts: JsonView, first: Seq<char>, second: Seq<char>) -> Option<Seq<char>> {
    match opts.get(first) {
        Some(v) => v.as_str(),
        None => opts.str_at(second),
    }
}

/// The first of the four members that is there, where it is a text.
pub open spec fn first_of_four(
    opts: JsonView,
    first: Seq<char>,
    second: Seq<char>,
    third: Seq<char>,
    fourth: Seq<char>,
) -> Option<Seq<char>> {
    match opts.get(first) {
        Some(v) => v.as_str(),
        None => match opts.get(second) {
            Some(v) => v.as_str(),
            None => either(opts, third, fourth),
        },
    }
}

/// What a text option denotes, or the message of the error.
pub open spec fn text_view(r: Result<&str, Error>) -> Result<Seq<char>, Seq<char>> {
    match r {
        Ok(s) => Ok(s@),
        Err(e) => Err(e@),
    }
}

/// Resolves the project of an operation.
pub fn resolve_project(opts: &Json, env: &Env) -> (r: Option<String>)
    ensures
        opt_text(r) == project_of(opts@, env@),
{
    match opts.str_at("project") {
        Some(p) => Some(p.to_owned()),
        None => match &env.google_cloud_project {
            Some(p) => Some(p.as_str().to_owned()),
            None => match &env.gcloud_project {
                Some(p) => Some(p.as_str().to_owned()),
                None => None,
            },
        },
    }
}

/// The project of an operation.
pub fn require_project(opts: &Json, env: &Env) -> (r: Result<String, Error>)
    ensures
        match r {
            Ok(p) => need_project(opts@, env@) == Ok::<Seq<char>, Seq<char>>(p@),
            Err(e) => need_project(opts@, env@) == Err::<Seq<char>, Seq<char>>(e@),
        },
{
    match resolve_project(opts, env) {
        Some(p) => Ok(p),
        None => Err(Error::new("missing project")),
    }
}

/// The text option of that name.
pub fn require<'a>(opts: &'a Json, key: &str, complaint: &str) -> (r: Result<&'a str, Error>)
    ensures
        text_view(r) == need(opts@, key@, complaint@),
{
    match opts.str_at(key) {
        Some(s) => Ok(s),
        None => Err(Error::new(complaint)),
    }
}

/// The array option of that name.
pub fn require_array<'a>(opts: &'a Json, key: &str, complaint: &str) -> (r: Result<
    &'a Vec<Json>,
    Error,
>)
    ensures
        match r {
            Ok(a) => need_array(opts@, key@, complaint@) == Ok::<Seq<JsonView>, Seq<char>>(
                items_view(a@),
            ),
            Err(e) => need_array(opts@, key@, complaint@) == Err::<Seq<JsonView>, Seq<char>>(e@),
        },
{
    match opts.array_at(key) {
        Some(a) => Ok(a),
        None => Err(Error::new(complaint)),
    }
}

/// The object option of that name.
pub fn require_object<'a>(opts: &'a Json, key: &str, complaint: &str) -> (r: Result<&'a Json, Error>)
    ensures
        match r {
            Ok(v) => need_object(opts@, key@, complaint@) == Ok::<JsonView, Seq<char>>(v@),
            Err(e) => need_object(opts@, key@, complaint@) == Err::<JsonView, Seq<char>>(e@),
        },
{
    match opts.get(key) {
        Some(v) => if v.is_object() {
            Ok(v)
        } else {
            Err(Error::new(complaint))
        },
        None => Err(Error::new(complaint)),
    }
}

/// The first of the members that is there, where it is a text.
pub fn either_str<'a>(opts: &'a Json, first: &str, second: &str) -> (r: Option<&'a str>)
    ensures
        opt_str(r) == either(opts@, first@, second@),
{
    match opts.get(first) {
        Some(v) => v.as_str(),
        None => opts.str_at(second),
    }
}

/// The first of the four members that is there, where it is a text.
pub fn first_str_of_four<'a>(
    opts: &'a Json,
    first: &str,
    second: &str,
    third: &str,
    fourth: &str,
) -> (r: Option<&'a str>)
    ensures
        opt_str(r) == first_of_four(opts@, first@, second@, third@, fourth@),
{
    match opts.get(first) {
        Some(v) => v.as_str(),
        None => match opts.get(second) {
            Some(v) => v.as_str(),
            None => either_str(opts, third, fourth),
        },
    }
}

/// `v` as a flag: true, an integer other than zero, or the text `1` or `true` in any case.
pub open spec fn is_truthy(v: JsonView) -> bool {
    match v {
        JsonView::Bool(b) => b,
        JsonView::Int(_) => v.as_i64() is Some && v.as_i64() != Some(0int),
        JsonView::Str(s) => s == "1"@ || crate::text::same_ignoring_case(s, "true"@),
        _ => false,
    }
}

/// Reads a value as a flag.
pub fn truthy(v: &Json) -> (r: bool)
    ensures
        r == is_truthy(v@),
{
    match v {
        Json::Bool(b) => *b,
        Json::Number(_) => match v.as_i64() {
            Some(i) => i != 0,
            None => false,
        },
        Json::String(s) => crate::text::same(s.as_str(), "1") || crate::text::same_no_case(
            s.as_str(),
            "true",
        ),
        _ => false,
    }
}

} // verus!
