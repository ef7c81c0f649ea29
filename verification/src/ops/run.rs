//! Cloud Run.

use vstd::prelude::*;
use vstd::string::*;

use crate::codec::url_encoded;
use crate::json::{rows, Json, JsonView, Members};
use crate::options::{need, need_project, require, require_project, Env, EnvView};
use crate::request::{bare, outcome, prepared, Draft, Error, Method, Request, RequestView};
use crate::resource_name::{leaf, leaf_name};

verus! {

/// A service in a listing.
pub open spec fn service_row(o: JsonView) -> JsonView {
    JsonView::Obj(
        map![
            "name"@ => JsonView::Str(leaf(o.str_or("name"@, ""@))),
            "uri"@ => o.at("uri"@),
            "latest_revision"@ => JsonView::Str(leaf(o.str_or("latestReadyRevision"@, ""@))),
        ],
    )
}

fn service_row_json(o: &Json) -> (r: Json)
    ensures
        r@ == service_row(o@),
{
    Json::Object(
        Members::new()
            .with("name", Json::text(leaf_name(o.str_or("name", ""))))
            .with("uri", o.at("uri"))
            .with("latest_revision", Json::text(leaf_name(o.str_or("latestReadyRevision", "")))),
    )
}

/// The request of `run_list_services`, or what is answered where it cannot be made.
pub open spec fn run_list_services_call(opts: JsonView, env: EnvView) -> Result<
    RequestView,
    Seq<char>,
> {
    match need_project(opts, env) {
        Err(e) => Err(e),
        Ok(project) => match need(opts, "region"@, "missing region"@) {
            Err(e) => Err(e),
            Ok(region) => Ok(
                bare(
                    Method::Get,
                    "https://run.googleapis.com/v2/projects/"@ + url_encoded(project)
                        + "/locations/"@ + url_encoded(region) + "/services"@,
                ),
            ),
        },
    }
}

/// Lists the services in `region`.
pub fn run_list_services_request(opts: &Json, env: &Env) -> (r: Result<Request, Error>)
    ensures
        prepared(r) == run_list_services_call(opts@, env@),
{
    let project: String = require_project(opts, env)?;
    let region: &str = require(opts, "region", "missing region")?;
    Ok(
        Request::new(
            Method::Get,
            Draft::new("https://run.googleapis.com/v2/projects/")
                .enc(project.as_str()).lit("/locations/").enc(region)
                .lit("/services"),
        ),
    )
}

/// The result of `run_list_services`, where the service answers `body`.
pub open spec fn run_list_services_result(opts: JsonView, env: EnvView, body: JsonView) -> Result<
    JsonView,
    Seq<char>,
> {
    match need_project(opts, env) {
        Err(e) => Err(e),
        Ok(project) => match need(opts, "region"@, "missing region"@) {
            Err(e) => Err(e),
            Ok(region) => Ok(
                JsonView::Obj(
                    map![
                        "region"@ => JsonView::Str(region),
                        "services"@ => JsonView::Arr(body.list("services"@).map_values(|o: JsonView| service_row(o))),
                    ],
                ),
            ),
        },
    }
}

/// The result of the operation, where the service answers `body`.
pub fn op_run_list_services(opts: &Json, env: &Env, body: &Json) -> (r: Result<Json, Error>)
    ensures
        outcome(r) == run_list_services_result(opts@, env@, body@),
{
    require_project(opts, env)?;
    let region: &str = require(opts, "region", "missing region")?;
    Ok(
        Json::Object(
            Members::new()
                .with("region", Json::text(region))
                .with("services", rows(body, "services", service_row_json, Ghost(|o: JsonView| service_row(o)))),
        ),
    )
}

/// The request of `run_get_service`, or what is answered where it cannot be made.
pub open spec fn run_get_service_call(opts: JsonView, env: EnvView) -> Result<
    RequestView,
    Seq<char>,
> {
    match need_project(opts, env) {
        Err(e) => Err(e),
        Ok(project) => match need(opts, "region"@, "missing region"@) {
            Err(e) => Err(e),
            Ok(region) => match need(opts, "service"@, "missing service"@) {
                Err(e) => Err(e),
                Ok(service) => Ok(
                    bare(
                        Method::Get,
                        "https://run.googleapis.com/v2/projects/"@ + url_encoded(project)
                            + "/locations/"@ + url_encoded(region) + "/services/"@
                            + url_encoded(service),
                    ),
                ),
            },
        },
    }
}

/// Asks for `service` in `region`.
pub fn run_get_service_request(opts: &Json, env: &Env) -> (r: Result<Request, Error>)
    ensures
        prepared(r) == run_get_service_call(opts@, env@),
{
    let project: String = require_project(opts, env)?;
    let region: &str = require(opts, "region", "missing region")?;
    let service: &str = require(opts, "service", "missing service")?;
    Ok(
        Request::new(
            Method::Get,
            Draft::new("https://run.googleapis.com/v2/projects/")
                .enc(project.as_str()).lit("/locations/").enc(region)
                .lit("/services/").enc(service),
        ),
    )
}

/// The result of `run_get_service`, where the service answers `body`.
pub open spec fn run_get_service_result(opts: JsonView, env: EnvView, body: JsonView) -> Result<
    JsonView,
    Seq<char>,
> {
    match need_project(opts, env) {
        Err(e) => Err(e),
        Ok(project) => match need(opts, "region"@, "missing region"@) {
            Err(e) => Err(e),
            Ok(region) => match need(opts, "service"@, "missing service"@) {
                Err(e) => Err(e),
                Ok(service) => Ok(
                    JsonView::Obj(
                        map![
                            "region"@ => JsonView::Str(region),
                            "service"@ => JsonView::Str(service),
                            "resource"@ => body,
                        ],
                    ),
                ),
            },
        },
    }
}

/// The result of the operation, where the service answers `body`.
pub fn op_run_get_service(opts: &Json, env: &Env, body: &Json) -> (r: Result<Json, Error>)
    ensures
        outcome(r) == run_get_service_result(opts@, env@, body@),
{
    require_project(opts, env)?;
    let region: &str = require(opts, "region", "missing region")?;
    let service: &str = require(opts, "service", "missing service")?;
    Ok(
        Json::Object(
            Members::new()
                .with("region", Json::text(region))
                .with("service", Json::text(service))
                .with("resource", body.copy()),
        ),
    )
}

/// A revision in a listing.
pub open spec fn revision_row(o: JsonView) -> JsonView {
    JsonView::Obj(
        map![
            "name"@ => JsonView::Str(leaf(o.str_or("name"@, ""@))),
            "create_time"@ => o.at("createTime"@),
        ],
    )
}

fn revision_row_json(o: &Json) -> (r: Json)
    ensures
        r@ == revision_row(o@),
{
    Json::Object(
        Members::new()
            .with("name", Json::text(leaf_name(o.str_or("name", ""))))
            .with("create_time", o.at("createTime")),
    )
}

/// The request of `run_list_revisions`, or what is answered where it cannot be made.
pub open spec fn run_list_revisions_call(opts: JsonView, env: EnvView) -> Result<
    RequestView,
    Seq<char>,
> {
    match need_project(opts, env) {
        Err(e) => Err(e),
        Ok(project) => match need(opts, "region"@, "missing region"@) {
            Err(e) => Err(e),
            Ok(region) => match need(opts, "service"@, "missing service"@) {
                Err(e) => Err(e),
                Ok(service) => Ok(
                    bare(
                        Method::Get,
                        "https://run.googleapis.com/v2/projects/"@ + url_encoded(project)
                            + "/locations/"@ + url_encoded(region) + "/services/"@
                            + url_encoded(service) + "/revisions"@,
                    ),
                ),
            },
        },
    }
}

/// Lists the revisions of `service` in `region`.
pub fn run_list_revisions_request(opts: &Json, env: &Env) -> (r: Result<Request, Error>)
    ensures
        prepared(r) == run_list_revisions_call(opts@, env@),
{
    let project: String = require_project(opts, env)?;
    let region: &str = require(opts, "region", "missing region")?;
    let service: &str = require(opts, "service", "missing service")?;
    Ok(
        Request::new(
            Method::Get,
            Draft::new("https://run.googleapis.com/v2/projects/")
                .enc(project.as_str()).lit("/locations/").enc(region)
                .lit("/services/").enc(service).lit("/revisions"),
        ),
    )
}

/// The result of `run_list_revisions`, where the service answers `body`.
pub open spec fn run_list_revisions_result(opts: JsonView, env: EnvView, body: JsonView) -> Result<
    JsonView,
    Seq<char>,
> {
    match need_project(opts, env) {
        Err(e) => Err(e),
        Ok(project) => match need(opts, "region"@, "missing region"@) {
            Err(e) => Err(e),
            Ok(region) => match need(opts, "service"@, "missing service"@) {
                Err(e) => Err(e),
                Ok(service) => Ok(
                    JsonView::Obj(
                        map![
                            "region"@ => JsonView::Str(region),
                            "service"@ => JsonView::Str(service),
                            "revisions"@ => JsonView::Arr(body.list("revisions"@).map_values(|o: JsonView| revision_row(o))),
                        ],
                    ),
                ),
            },
        },
    }
}

/// The result of the operation, where the service answers `body`.
pub fn op_run_list_revisions(opts: &Json, env: &Env, body: &Json) -> (r: Result<Json, Error>)
    ensures
        outcome(r) == run_list_revisions_result(opts@, env@, body@),
{
    require_project(opts, env)?;
    let region: &str = require(opts, "region", "missing region")?;
    let service: &str = require(opts, "service", "missing service")?;
    Ok(
        Json::Object(
            Members::new()
                .with("region", Json::text(region))
                .with("service", Json::text(service))
                .with("revisions", rows(body, "revisions", revision_row_json, Ghost(|o: JsonView| revision_row(o)))),
        ),
    )
}

} // verus!
