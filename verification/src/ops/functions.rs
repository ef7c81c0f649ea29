//! Cloud Functions.

use vstd::prelude::*;
use vstd::string::*;

use crate::codec::url_encoded;
use crate::json::{rows, Json, JsonView, Members};
use crate::options::{need, need_project, require, require_project, Env, EnvView};
use crate::request::{bare, outcome, prepared, Draft, Error, Method, Request, RequestView};
use crate::resource_name::{leaf, leaf_name};

verus! {

/// A function in a listing.
pub open spec fn function_row(o: JsonView) -> JsonView {
    JsonView::Obj(
        map![
            "name"@ => JsonView::Str(leaf(o.str_or("name"@, ""@))),
            "state"@ => o.at("state"@),
            "url"@ => o.at("serviceConfig"@).at("uri"@),
        ],
    )
}

fn function_row_json(o: &Json) -> (r: Json)
    ensures
        r@ == function_row(o@),
{
    Json::Object(
        Members::new()
            .with("name", Json::text(leaf_name(o.str_or("name", ""))))
            .with("state", o.at("state"))
            .with("url", o.at("serviceConfig").at("uri")),
    )
}

/// The request of `functions_list`, or what is answered where it cannot be made.
pub open spec fn functions_list_call(opts: JsonView, env: EnvView) -> Result<
    RequestView,
    Seq<char>,
> {
    match need_project(opts, env) {
        Err(e) => Err(e),
        Ok(project) => {
            let region = opts.str_or("region"@, "-"@);
            Ok(
                bare(
                    Method::Get,
                    "https://cloudfunctions.googleapis.com/v2/projects/"@
                        + url_encoded(project) + "/locations/"@ + url_encoded(region)
                        + "/functions"@,
                ),
            )
        },
    }
}

/// Lists the functions in `region`, in all regions where none is given.
pub fn functions_list_request(opts: &Json, env: &Env) -> (r: Result<Request, Error>)
    ensures
        prepared(r) == functions_list_call(opts@, env@),
{
    let project: String = require_project(opts, env)?;
    let region: &str = opts.str_or("region", "-");
    Ok(
        Request::new(
            Method::Get,
            Draft::new("https://cloudfunctions.googleapis.com/v2/projects/")
                .enc(project.as_str()).lit("/locations/").enc(region)
                .lit("/functions"),
        ),
    )
}

/// The result of `functions_list`, where the service answers `body`.
pub open spec fn functions_list_result(opts: JsonView, env: EnvView, body: JsonView) -> Result<
    JsonView,
    Seq<char>,
> {
    match need_project(opts, env) {
        Err(e) => Err(e),
        Ok(project) => {
            let region = opts.str_or("region"@, "-"@);
            Ok(
                JsonView::Obj(
                    map![
                        "region"@ => JsonView::Str(region),
                        "functions"@ => JsonView::Arr(body.list("functions"@).map_values(|o: JsonView| function_row(o))),
                    ],
                ),
            )
        },
    }
}

/// The result of the operation, where the service answers `body`.
pub fn op_functions_list(opts: &Json, env: &Env, body: &Json) -> (r: Result<Json, Error>)
    ensures
        outcome(r) == functions_list_result(opts@, env@, body@),
{
    require_project(opts, env)?;
    let region: &str = opts.str_or("region", "-");
    Ok(
        Json::Object(
            Members::new()
                .with("region", Json::text(region))
                .with("functions", rows(body, "functions", function_row_json, Ghost(|o: JsonView| function_row(o)))),
        ),
    )
}

/// The request of `functions_describe`, or what is answered where it cannot be made.
pub open spec fn functions_describe_call(opts: JsonView, env: EnvView) -> Result<
    RequestView,
    Seq<char>,
> {
    match need_project(opts, env) {
        Err(e) => Err(e),
        Ok(project) => match need(opts, "region"@, "missing region"@) {
            Err(e) => Err(e),
            Ok(region) => match need(opts, "function"@, "missing function"@) {
                Err(e) => Err(e),
                Ok(function) => Ok(
                    bare(
                        Method::Get,
                        "https://cloudfunctions.googleapis.com/v2/projects/"@
                            + url_encoded(project) + "/locations/"@ + url_encoded(region)
                            + "/functions/"@ + url_encoded(function),
                    ),
                ),
            },
        },
    }
}

/// Asks for `function` in `region`.
pub fn functions_describe_request(opts: &Json, env: &Env) -> (r: Result<Request, Error>)
    ensures
        prepared(r) == functions_describe_call(opts@, env@),
{
    let project: String = require_project(opts, env)?;
    let region: &str = require(opts, "region", "missing region")?;
    let function: &str = require(opts, "function", "missing function")?;
    Ok(
        Request::new(
            Method::Get,
            Draft::new("https://cloudfunctions.googleapis.com/v2/projects/")
                .enc(project.as_str()).lit("/locations/").enc(region)
                .lit("/functions/").enc(function),
        ),
    )
}

/// The result of `functions_describe`, where the service answers `body`.
pub open spec fn functions_describe_result(opts: JsonView, env: EnvView, body: JsonView) -> Result<
    JsonView,
    Seq<char>,
> {
    match need_project(opts, env) {
        Err(e) => Err(e),
        Ok(project) => match need(opts, "region"@, "missing region"@) {
            Err(e) => Err(e),
            Ok(region) => match need(opts, "function"@, "missing function"@) {
                Err(e) => Err(e),
                Ok(function) => Ok(
                    JsonView::Obj(
                        map![
                            "region"@ => JsonView::Str(region),
                            "function"@ => JsonView::Str(function),
                            "resource"@ => body,
                        ],
                    ),
                ),
            },
        },
    }
}

/// The result of the operation, where the service answers `body`.
pub fn op_functions_describe(opts: &Json, env: &Env, body: &Json) -> (r: Result<Json, Error>)
    ensures
        outcome(r) == functions_describe_result(opts@, env@, body@),
{
    require_project(opts, env)?;
    let region: &str = require(opts, "region", "missing region")?;
    let function: &str = require(opts, "function", "missing function")?;
    Ok(
        Json::Object(
            Members::new()
                .with("region", Json::text(region))
                .with("function", Json::text(function))
                .with("resource", body.copy()),
        ),
    )
}

} // verus!
