//! Cloud Monitoring.

use vstd::prelude::*;
use vstd::string::*;

use crate::codec::url_encoded;
use crate::json::{rows, Json, JsonView, Members};
use crate::options::{need, need_project, require, require_project, Env, EnvView};
use crate::request::{bare, outcome, prepared, Draft, Error, Method, Request, RequestView};
use super::list_json;

verus! {

/// The request of `monitoring_list_time_series`, or what is answered where it cannot be made.
pub open spec fn monitoring_list_time_series_call(opts: JsonView, env: EnvView) -> Result<
    RequestView,
    Seq<char>,
> {
    match need_project(opts, env) {
        Err(e) => Err(e),
        Ok(project) => match need(opts, "filter"@, "missing filter"@) {
            Err(e) => Err(e),
            Ok(filter) => match need(opts, "start"@, "missing start (RFC3339 interval start)"@) {
                Err(e) => Err(e),
                Ok(start) => match need(opts, "end"@, "missing end (RFC3339 interval end)"@) {
                    Err(e) => Err(e),
                    Ok(end) => Ok(
                        bare(
                            Method::Get,
                            "https://monitoring.googleapis.com/v3/projects/"@ + url_encoded(project)
                                + "/timeSeries?filter="@ + url_encoded(filter)
                                + "&interval.startTime="@ + url_encoded(start)
                                + "&interval.endTime="@ + url_encoded(end),
                        ),
                    ),
                },
            },
        },
    }
}

/// Lists the time series that match `filter` between `start` and `end`.
pub fn monitoring_list_time_series_request(opts: &Json, env: &Env) -> (r: Result<Request, Error>)
    ensures
        prepared(r) == monitoring_list_time_series_call(opts@, env@),
{
    let project: String = require_project(opts, env)?;
    let filter: &str = require(opts, "filter", "missing filter")?;
    let start: &str = require(opts, "start", "missing start (RFC3339 interval start)")?;
    let end: &str = require(opts, "end", "missing end (RFC3339 interval end)")?;
    Ok(
        Request::new(
            Method::Get,
            Draft::new("https://monitoring.googleapis.com/v3/projects/")
                .enc(project.as_str()).lit("/timeSeries?filter=").enc(filter)
                .lit("&interval.startTime=").enc(start).lit("&interval.endTime=")
                .enc(end),
        ),
    )
}

/// The result of `monitoring_list_time_series`, where the service answers `body`.
pub open spec fn monitoring_list_time_series_result(
    opts: JsonView,
    env: EnvView,
    body: JsonView,
) -> Result<
    JsonView,
    Seq<char>,
> {
    match need_project(opts, env) {
        Err(e) => Err(e),
        Ok(project) => match need(opts, "filter"@, "missing filter"@) {
            Err(e) => Err(e),
            Ok(filter) => match need(opts, "start"@, "missing start (RFC3339 interval start)"@) {
                Err(e) => Err(e),
                Ok(start) => match need(opts, "end"@, "missing end (RFC3339 interval end)"@) {
                    Err(e) => Err(e),
                    Ok(end) => Ok(
                        JsonView::Obj(
                            map![
                                "project"@ => JsonView::Str(project),
                                "time_series"@ => JsonView::Arr(body.list("timeSeries"@)),
                            ],
                        ),
                    ),
                },
            },
        },
    }
}

/// The result of the operation, where the service answers `body`.
pub fn op_monitoring_list_time_series(
    opts: &Json,
    env: &Env,
    body: &Json,
) -> (r: Result<Json, Error>)
    ensures
        outcome(r) == monitoring_list_time_series_result(opts@, env@, body@),
{
    let project: String = require_project(opts, env)?;
    require(opts, "filter", "missing filter")?;
    require(opts, "start", "missing start (RFC3339 interval start)")?;
    require(opts, "end", "missing end (RFC3339 interval end)")?;
    Ok(
        Json::Object(
            Members::new()
                .with("project", Json::text(project.as_str()))
                .with("time_series", list_json(body, "timeSeries")),
        ),
    )
}

/// A metric descriptor in a listing.
pub open spec fn descriptor_row(o: JsonView) -> JsonView {
    JsonView::Obj(
        map![
            "type"@ => o.at("type"@),
            "display_name"@ => o.at("displayName"@),
            "kind"@ => o.at("metricKind"@),
            "value_type"@ => o.at("valueType"@),
        ],
    )
}

fn descriptor_row_json(o: &Json) -> (r: Json)
    ensures
        r@ == descriptor_row(o@),
{
    Json::Object(
        Members::new()
            .with("type", o.at("type"))
            .with("display_name", o.at("displayName"))
            .with("kind", o.at("metricKind"))
            .with("value_type", o.at("valueType")),
    )
}

pub open spec fn descriptors_url(project: Seq<char>, filter: Option<Seq<char>>) -> Seq<char> {
    let all = "https://monitoring.googleapis.com/v3/projects/"@ + url_encoded(project)
        + "/metricDescriptors"@;
    match filter {
        Some(f) => all + "?filter="@ + url_encoded(f),
        None => all,
    }
}

/// The request of `monitoring_list_metric_descriptors`, or what is answered where it cannot be made.
pub open spec fn monitoring_list_metric_descriptors_call(opts: JsonView, env: EnvView) -> Result<
    RequestView,
    Seq<char>,
> {
    match need_project(opts, env) {
        Err(e) => Err(e),
        Ok(project) => Ok(
            bare(
                Method::Get,
                descriptors_url(project, opts.str_at("filter"@)),
            ),
        ),
    }
}

/// Lists the metric descriptors of the project, those that match `filter` where it is given.
pub fn monitoring_list_metric_descriptors_request(
    opts: &Json,
    env: &Env,
) -> (r: Result<Request, Error>)
    ensures
        prepared(r) == monitoring_list_metric_descriptors_call(opts@, env@),
{
    let project: String = require_project(opts, env)?;
    let all: Draft = Draft::new("https://monitoring.googleapis.com/v3/projects/").enc(
        project.as_str(),
    ).lit("/metricDescriptors");
    let url: Draft = match opts.str_at("filter") {
        Some(filter) => all.lit("?filter=").enc(filter),
        None => all,
    };
    Ok(
        Request::new(
            Method::Get,
            url,
        ),
    )
}

/// The result of `monitoring_list_metric_descriptors`, where the service answers `body`.
pub open spec fn monitoring_list_metric_descriptors_result(
    opts: JsonView,
    env: EnvView,
    body: JsonView,
) -> Result<
    JsonView,
    Seq<char>,
> {
    match need_project(opts, env) {
        Err(e) => Err(e),
        Ok(project) => Ok(
            JsonView::Obj(
                map![
                    "project"@ => JsonView::Str(project),
                    "descriptors"@ => JsonView::Arr(body.list("metricDescriptors"@).map_values(|o: JsonView| descriptor_row(o))),
                ],
            ),
        ),
    }
}

/// The result of the operation, where the service answers `body`.
pub fn op_monitoring_list_metric_descriptors(
    opts: &Json,
    env: &Env,
    body: &Json,
) -> (r: Result<Json, Error>)
    ensures
        outcome(r) == monitoring_list_metric_descriptors_result(opts@, env@, body@),
{
    let project: String = require_project(opts, env)?;
    Ok(
        Json::Object(
            Members::new()
                .with("project", Json::text(project.as_str()))
                .with("descriptors", rows(body, "metricDescriptors", descriptor_row_json, Ghost(|o: JsonView| descriptor_row(o)))),
        ),
    )
}

} // verus!
