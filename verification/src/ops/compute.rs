//! Compute Engine.

use vstd::prelude::*;
use vstd::string::*;

use crate::codec::url_encoded;
use crate::json::{rows, Json, JsonView, Members};
use crate::options::{need, need_project, require, require_project, Env, EnvView};
use crate::request::{bare, outcome, prepared, Draft, Error, Method, Request, RequestView};
use crate::resource_name::{leaf, leaf_name};

verus! {

/// An instance in a listing.
pub open spec fn instance_row(o: JsonView) -> JsonView {
    JsonView::Obj(
        map![
            "name"@ => JsonView::Str(o.str_or("name"@, ""@)),
            "status"@ => JsonView::Str(o.str_or("status"@, ""@)),
            "machine_type"@ => JsonView::Str(leaf(o.str_or("machineType"@, ""@))),
            "zone"@ => JsonView::Str(leaf(o.str_or("zone"@, ""@))),
        ],
    )
}

fn instance_row_json(o: &Json) -> (r: Json)
    ensures
        r@ == instance_row(o@),
{
    Json::Object(
        Members::new()
            .with("name", Json::text(o.str_or("name", "")))
            .with("status", Json::text(o.str_or("status", "")))
            .with("machine_type", Json::text(leaf_name(o.str_or("machineType", ""))))
            .with("zone", Json::text(leaf_name(o.str_or("zone", "")))),
    )
}

/// The request of `compute_list_instances`, or what is answered where it cannot be made.
pub open spec fn compute_list_instances_call(opts: JsonView, env: EnvView) -> Result<
    RequestView,
    Seq<char>,
> {
    match need_project(opts, env) {
        Err(e) => Err(e),
        Ok(project) => match need(opts, "zone"@, "missing zone"@) {
            Err(e) => Err(e),
            Ok(zone) => Ok(
                bare(
                    Method::Get,
                    "https://compute.googleapis.com/compute/v1/projects/"@
                        + url_encoded(project) + "/zones/"@ + url_encoded(zone)
                        + "/instances"@,
                ),
            ),
        },
    }
}

/// Lists the instances in `zone`.
pub fn compute_list_instances_request(opts: &Json, env: &Env) -> (r: Result<Request, Error>)
    ensures
        prepared(r) == compute_list_instances_call(opts@, env@),
{
    let project: String = require_project(opts, env)?;
    let zone: &str = require(opts, "zone", "missing zone")?;
    Ok(
        Request::new(
            Method::Get,
            Draft::new("https://compute.googleapis.com/compute/v1/projects/")
                .enc(project.as_str()).lit("/zones/").enc(zone).lit("/instances"),
        ),
    )
}

/// The result of `compute_list_instances`, where the service answers `body`.
pub open spec fn compute_list_instances_result(
    opts: JsonView,
    env: EnvView,
    body: JsonView,
) -> Result<
    JsonView,
    Seq<char>,
> {
    match need_project(opts, env) {
        Err(e) => Err(e),
        Ok(project) => match need(opts, "zone"@, "missing zone"@) {
            Err(e) => Err(e),
            Ok(zone) => Ok(
                JsonView::Obj(
                    map![
                        "zone"@ => JsonView::Str(zone),
                        "instances"@ => JsonView::Arr(body.list("items"@).map_values(|o: JsonView| instance_row(o))),
                    ],
                ),
            ),
        },
    }
}

/// The result of the operation, where the service answers `body`.
pub fn op_compute_list_instances(opts: &Json, env: &Env, body: &Json) -> (r: Result<Json, Error>)
    ensures
        outcome(r) == compute_list_instances_result(opts@, env@, body@),
{
    require_project(opts, env)?;
    let zone: &str = require(opts, "zone", "missing zone")?;
    Ok(
        Json::Object(
            Members::new()
                .with("zone", Json::text(zone))
                .with("instances", rows(body, "items", instance_row_json, Ghost(|o: JsonView| instance_row(o)))),
        ),
    )
}

/// The request of `compute_get_instance`, or what is answered where it cannot be made.
pub open spec fn compute_get_instance_call(opts: JsonView, env: EnvView) -> Result<
    RequestView,
    Seq<char>,
> {
    match need_project(opts, env) {
        Err(e) => Err(e),
        Ok(project) => match need(opts, "zone"@, "missing zone"@) {
            Err(e) => Err(e),
            Ok(zone) => match need(opts, "instance"@, "missing instance"@) {
                Err(e) => Err(e),
                Ok(instance) => Ok(
                    bare(
                        Method::Get,
                        "https://compute.googleapis.com/compute/v1/projects/"@
                            + url_encoded(project) + "/zones/"@ + url_encoded(zone)
                            + "/instances/"@ + url_encoded(instance),
                    ),
                ),
            },
        },
    }
}

/// Asks for `instance` in `zone`.
pub fn compute_get_instance_request(opts: &Json, env: &Env) -> (r: Result<Request, Error>)
    ensures
        prepared(r) == compute_get_instance_call(opts@, env@),
{
    let project: String = require_project(opts, env)?;
    let zone: &str = require(opts, "zone", "missing zone")?;
    let instance: &str = require(opts, "instance", "missing instance")?;
    Ok(
        Request::new(
            Method::Get,
            Draft::new("https://compute.googleapis.com/compute/v1/projects/")
                .enc(project.as_str()).lit("/zones/").enc(zone).lit("/instances/")
                .enc(instance),
        ),
    )
}

/// The result of `compute_get_instance`, where the service answers `body`.
pub open spec fn compute_get_instance_result(
    opts: JsonView,
    env: EnvView,
    body: JsonView,
) -> Result<
    JsonView,
    Seq<char>,
> {
    match need_project(opts, env) {
        Err(e) => Err(e),
        Ok(project) => match need(opts, "zone"@, "missing zone"@) {
            Err(e) => Err(e),
            Ok(zone) => match need(opts, "instance"@, "missing instance"@) {
                Err(e) => Err(e),
                Ok(instance) => Ok(
                    JsonView::Obj(
                        map![
                            "zone"@ => JsonView::Str(zone),
                            "instance"@ => JsonView::Str(instance),
                            "resource"@ => body,
                        ],
                    ),
                ),
            },
        },
    }
}

/// The result of the operation, where the service answers `body`.
pub fn op_compute_get_instance(opts: &Json, env: &Env, body: &Json) -> (r: Result<Json, Error>)
    ensures
        outcome(r) == compute_get_instance_result(opts@, env@, body@),
{
    require_project(opts, env)?;
    let zone: &str = require(opts, "zone", "missing zone")?;
    let instance: &str = require(opts, "instance", "missing instance")?;
    Ok(
        Json::Object(
            Members::new()
                .with("zone", Json::text(zone))
                .with("instance", Json::text(instance))
                .with("resource", body.copy()),
        ),
    )
}

/// The request of `compute_instance_action`, or what is answered where it cannot be made.
pub open spec fn compute_instance_action_call(
    opts: JsonView,
    env: EnvView,
    action: Seq<char>,
) -> Result<RequestView, Seq<char>> {
    match need_project(opts, env) {
        Err(e) => Err(e),
        Ok(project) => match need(opts, "zone"@, "missing zone"@) {
            Err(e) => Err(e),
            Ok(zone) => match need(opts, "instance"@, "missing instance"@) {
                Err(e) => Err(e),
                Ok(instance) => Ok(
                    bare(
                        Method::Post,
                        "https://compute.googleapis.com/compute/v1/projects/"@
                            + url_encoded(project) + "/zones/"@ + url_encoded(zone)
                            + "/instances/"@ + url_encoded(instance) + "/"@ + action,
                    ).header("Content-Length"@, "0"@),
                ),
            },
        },
    }
}

/// Does `action` to `instance` in `zone`.
pub fn compute_instance_action_request(
    opts: &Json,
    env: &Env,
    action: &str,
) -> (r: Result<Request, Error>)
    ensures
        prepared(r) == compute_instance_action_call(opts@, env@, action@),
{
    let project: String = require_project(opts, env)?;
    let zone: &str = require(opts, "zone", "missing zone")?;
    let instance: &str = require(opts, "instance", "missing instance")?;
    Ok(
        Request::new(
            Method::Post,
            Draft::new("https://compute.googleapis.com/compute/v1/projects/")
                .enc(project.as_str()).lit("/zones/").enc(zone).lit("/instances/")
                .enc(instance).lit("/").lit(action),
        ).header("Content-Length", "0"),
    )
}

/// The result of `compute_instance_action`, where the service answers `body`.
pub open spec fn compute_instance_action_result(
    opts: JsonView,
    env: EnvView,
    action: Seq<char>,
    body: JsonView,
) -> Result<JsonView, Seq<char>> {
    match need_project(opts, env) {
        Err(e) => Err(e),
        Ok(project) => match need(opts, "zone"@, "missing zone"@) {
            Err(e) => Err(e),
            Ok(zone) => match need(opts, "instance"@, "missing instance"@) {
                Err(e) => Err(e),
                Ok(instance) => Ok(
                    JsonView::Obj(
                        map![
                            "instance"@ => JsonView::Str(instance),
                            "action"@ => JsonView::Str(action),
                            "operation"@ => body.at("name"@),
                            "status"@ => body.at("status"@),
                        ],
                    ),
                ),
            },
        },
    }
}

/// The result of the operation, where the service answers `body`.
pub fn compute_instance_action(opts: &Json, env: &Env, action: &str, body: &Json) -> (r: Result<
    Json,
    Error,
>)
    ensures
        outcome(r) == compute_instance_action_result(opts@, env@, action@, body@),
{
    require_project(opts, env)?;
    require(opts, "zone", "missing zone")?;
    let instance: &str = require(opts, "instance", "missing instance")?;
    Ok(
        Json::Object(
            Members::new()
                .with("instance", Json::text(instance))
                .with("action", Json::text(action))
                .with("operation", body.at("name"))
                .with("status", body.at("status")),
        ),
    )
}

/// Starts `instance` in `zone`.
pub fn compute_start_instance_request(opts: &Json, env: &Env) -> (r: Result<Request, Error>)
    ensures
        prepared(r) == compute_instance_action_call(opts@, env@, "start"@),
{
    compute_instance_action_request(opts, env, "start")
}

/// The result of the operation, where the service answers `body`.
pub fn op_compute_start_instance(opts: &Json, env: &Env, body: &Json) -> (r: Result<Json, Error>)
    ensures
        outcome(r) == compute_instance_action_result(opts@, env@, "start"@, body@),
{
    compute_instance_action(opts, env, "start", body)
}

/// Stops `instance` in `zone`.
pub fn compute_stop_instance_request(opts: &Json, env: &Env) -> (r: Result<Request, Error>)
    ensures
        prepared(r) == compute_instance_action_call(opts@, env@, "stop"@),
{
    compute_instance_action_request(opts, env, "stop")
}

/// The result of the operation, where the service answers `body`.
pub fn op_compute_stop_instance(opts: &Json, env: &Env, body: &Json) -> (r: Result<Json, Error>)
    ensures
        outcome(r) == compute_instance_action_result(opts@, env@, "stop"@, body@),
{
    compute_instance_action(opts, env, "stop", body)
}

/// Resets `instance` in `zone`.
pub fn compute_reset_instance_request(opts: &Json, env: &Env) -> (r: Result<Request, Error>)
    ensures
        prepared(r) == compute_instance_action_call(opts@, env@, "reset"@),
{
    compute_instance_action_request(opts, env, "reset")
}

/// The result of the operation, where the service answers `body`.
pub fn op_compute_reset_instance(opts: &Json, env: &Env, body: &Json) -> (r: Result<Json, Error>)
    ensures
        outcome(r) == compute_instance_action_result(opts@, env@, "reset"@, body@),
{
    compute_instance_action(opts, env, "reset", body)
}

/// A zone in a listing.
pub open spec fn zone_row(o: JsonView) -> JsonView {
    JsonView::Obj(
        map![
            "name"@ => JsonView::Str(o.str_or("name"@, ""@)),
            "region"@ => JsonView::Str(leaf(o.str_or("region"@, ""@))),
            "status"@ => JsonView::Str(o.str_or("status"@, ""@)),
        ],
    )
}

fn zone_row_json(o: &Json) -> (r: Json)
    ensures
        r@ == zone_row(o@),
{
    Json::Object(
        Members::new()
            .with("name", Json::text(o.str_or("name", "")))
            .with("region", Json::text(leaf_name(o.str_or("region", ""))))
            .with("status", Json::text(o.str_or("status", ""))),
    )
}

/// The request of `compute_list_zones`, or what is answered where it cannot be made.
pub open spec fn compute_list_zones_call(opts: JsonView, env: EnvView) -> Result<
    RequestView,
    Seq<char>,
> {
    match need_project(opts, env) {
        Err(e) => Err(e),
        Ok(project) => Ok(
            bare(
                Method::Get,
                "https://compute.googleapis.com/compute/v1/projects/"@
                    + url_encoded(project) + "/zones"@,
            ),
        ),
    }
}

/// Lists the zones of the project.
pub fn compute_list_zones_request(opts: &Json, env: &Env) -> (r: Result<Request, Error>)
    ensures
        prepared(r) == compute_list_zones_call(opts@, env@),
{
    let project: String = require_project(opts, env)?;
    Ok(
        Request::new(
            Method::Get,
            Draft::new("https://compute.googleapis.com/compute/v1/projects/")
                .enc(project.as_str()).lit("/zones"),
        ),
    )
}

/// The result of `compute_list_zones`, where the service answers `body`.
pub open spec fn compute_list_zones_result(opts: JsonView, env: EnvView, body: JsonView) -> Result<
    JsonView,
    Seq<char>,
> {
    match need_project(opts, env) {
        Err(e) => Err(e),
        Ok(project) => Ok(
            JsonView::Obj(
                map![
                    "project"@ => JsonView::Str(project),
                    "zones"@ => JsonView::Arr(body.list("items"@).map_values(|o: JsonView| zone_row(o))),
                ],
            ),
        ),
    }
}

/// The result of the operation, where the service answers `body`.
pub fn op_compute_list_zones(opts: &Json, env: &Env, body: &Json) -> (r: Result<Json, Error>)
    ensures
        outcome(r) == compute_list_zones_result(opts@, env@, body@),
{
    let project: String = require_project(opts, env)?;
    Ok(
        Json::Object(
            Members::new()
                .with("project", Json::text(project.as_str()))
                .with("zones", rows(body, "items", zone_row_json, Ghost(|o: JsonView| zone_row(o)))),
        ),
    )
}

/// A region in a listing.
pub open spec fn region_row(o: JsonView) -> JsonView {
    JsonView::Obj(
        map![
            "name"@ => JsonView::Str(o.str_or("name"@, ""@)),
            "status"@ => JsonView::Str(o.str_or("status"@, ""@)),
        ],
    )
}

fn region_row_json(o: &Json) -> (r: Json)
    ensures
        r@ == region_row(o@),
{
    Json::Object(
        Members::new()
            .with("name", Json::text(o.str_or("name", "")))
            .with("status", Json::text(o.str_or("status", ""))),
    )
}

/// The request of `compute_list_regions`, or what is answered where it cannot be made.
pub open spec fn compute_list_regions_call(opts: JsonView, env: EnvView) -> Result<
    RequestView,
    Seq<char>,
> {
    match need_project(opts, env) {
        Err(e) => Err(e),
        Ok(project) => Ok(
            bare(
                Method::Get,
                "https://compute.googleapis.com/compute/v1/projects/"@
                    + url_encoded(project) + "/regions"@,
            ),
        ),
    }
}

/// Lists the regions of the project.
pub fn compute_list_regions_request(opts: &Json, env: &Env) -> (r: Result<Request, Error>)
    ensures
        prepared(r) == compute_list_regions_call(opts@, env@),
{
    let project: String = require_project(opts, env)?;
    Ok(
        Request::new(
            Method::Get,
            Draft::new("https://compute.googleapis.com/compute/v1/projects/")
                .enc(project.as_str()).lit("/regions"),
        ),
    )
}

/// The result of `compute_list_regions`, where the service answers `body`.
pub open spec fn compute_list_regions_result(
    opts: JsonView,
    env: EnvView,
    body: JsonView,
) -> Result<
    JsonView,
    Seq<char>,
> {
    match need_project(opts, env) {
        Err(e) => Err(e),
        Ok(project) => Ok(
            JsonView::Obj(
                map![
                    "project"@ => JsonView::Str(project),
                    "regions"@ => JsonView::Arr(body.list("items"@).map_values(|o: JsonView| region_row(o))),
                ],
            ),
        ),
    }
}

/// The result of the operation, where the service answers `body`.
pub fn op_compute_list_regions(opts: &Json, env: &Env, body: &Json) -> (r: Result<Json, Error>)
    ensures
        outcome(r) == compute_list_regions_result(opts@, env@, body@),
{
    let project: String = require_project(opts, env)?;
    Ok(
        Json::Object(
            Members::new()
                .with("project", Json::text(project.as_str()))
                .with("regions", rows(body, "items", region_row_json, Ghost(|o: JsonView| region_row(o)))),
        ),
    )
}

/// A machine type in a listing.
pub open spec fn machine_type_row(o: JsonView) -> JsonView {
    JsonView::Obj(
        map![
            "name"@ => JsonView::Str(o.str_or("name"@, ""@)),
            "guest_cpus"@ => o.at("guestCpus"@),
            "memory_mb"@ => o.at("memoryMb"@),
            "description"@ => JsonView::Str(o.str_or("description"@, ""@)),
        ],
    )
}

fn machine_type_row_json(o: &Json) -> (r: Json)
    ensures
        r@ == machine_type_row(o@),
{
    Json::Object(
        Members::new()
            .with("name", Json::text(o.str_or("name", "")))
            .with("guest_cpus", o.at("guestCpus"))
            .with("memory_mb", o.at("memoryMb"))
            .with("description", Json::text(o.str_or("description", ""))),
    )
}

/// The request of `compute_list_machine_types`, or what is answered where it cannot be made.
pub open spec fn compute_list_machine_types_call(opts: JsonView, env: EnvView) -> Result<
    RequestView,
    Seq<char>,
> {
    match need_project(opts, env) {
        Err(e) => Err(e),
        Ok(project) => match need(opts, "zone"@, "missing zone"@) {
            Err(e) => Err(e),
            Ok(zone) => Ok(
                bare(
                    Method::Get,
                    "https://compute.googleapis.com/compute/v1/projects/"@
                        + url_encoded(project) + "/zones/"@ + url_encoded(zone)
                        + "/machineTypes"@,
                ),
            ),
        },
    }
}

/// Lists the machine types in `zone`.
pub fn compute_list_machine_types_request(opts: &Json, env: &Env) -> (r: Result<Request, Error>)
    ensures
        prepared(r) == compute_list_machine_types_call(opts@, env@),
{
    let project: String = require_project(opts, env)?;
    let zone: &str = require(opts, "zone", "missing zone")?;
    Ok(
        Request::new(
            Method::Get,
            Draft::new("https://compute.googleapis.com/compute/v1/projects/")
                .enc(project.as_str()).lit("/zones/").enc(zone).lit("/machineTypes"),
        ),
    )
}

/// The result of `compute_list_machine_types`, where the service answers `body`.
pub open spec fn compute_list_machine_types_result(
    opts: JsonView,
    env: EnvView,
    body: JsonView,
) -> Result<
    JsonView,
    Seq<char>,
> {
    match need_project(opts, env) {
        Err(e) => Err(e),
        Ok(project) => match need(opts, "zone"@, "missing zone"@) {
            Err(e) => Err(e),
            Ok(zone) => Ok(
                JsonView::Obj(
                    map![
                        "zone"@ => JsonView::Str(zone),
                        "machine_types"@ => JsonView::Arr(body.list("items"@).map_values(|o: JsonView| machine_type_row(o))),
                    ],
                ),
            ),
        },
    }
}

/// The result of the operation, where the service answers `body`.
pub fn op_compute_list_machine_types(
    opts: &Json,
    env: &Env,
    body: &Json,
) -> (r: Result<Json, Error>)
    ensures
        outcome(r) == compute_list_machine_types_result(opts@, env@, body@),
{
    require_project(opts, env)?;
    let zone: &str = require(opts, "zone", "missing zone")?;
    Ok(
        Json::Object(
            Members::new()
                .with("zone", Json::text(zone))
                .with("machine_types", rows(body, "items", machine_type_row_json, Ghost(|o: JsonView| machine_type_row(o)))),
        ),
    )
}

/// A disk in a listing.
pub open spec fn disk_row(o: JsonView) -> JsonView {
    JsonView::Obj(
        map![
            "name"@ => JsonView::Str(o.str_or("name"@, ""@)),
            "size_gb"@ => JsonView::Str(o.str_or("sizeGb"@, "0"@)),
            "type"@ => JsonView::Str(leaf(o.str_or("type"@, ""@))),
            "status"@ => JsonView::Str(o.str_or("status"@, ""@)),
            "zone"@ => JsonView::Str(leaf(o.str_or("zone"@, ""@))),
        ],
    )
}

fn disk_row_json(o: &Json) -> (r: Json)
    ensures
        r@ == disk_row(o@),
{
    Json::Object(
        Members::new()
            .with("name", Json::text(o.str_or("name", "")))
            .with("size_gb", Json::text(o.str_or("sizeGb", "0")))
            .with("type", Json::text(leaf_name(o.str_or("type", ""))))
            .with("status", Json::text(o.str_or("status", "")))
            .with("zone", Json::text(leaf_name(o.str_or("zone", "")))),
    )
}

/// The request of `compute_list_disks`, or what is answered where it cannot be made.
pub open spec fn compute_list_disks_call(opts: JsonView, env: EnvView) -> Result<
    RequestView,
    Seq<char>,
> {
    match need_project(opts, env) {
        Err(e) => Err(e),
        Ok(project) => match need(opts, "zone"@, "missing zone"@) {
            Err(e) => Err(e),
            Ok(zone) => Ok(
                bare(
                    Method::Get,
                    "https://compute.googleapis.com/compute/v1/projects/"@
                        + url_encoded(project) + "/zones/"@ + url_encoded(zone) + "/disks"@,
                ),
            ),
        },
    }
}

/// Lists the disks in `zone`.
pub fn compute_list_disks_request(opts: &Json, env: &Env) -> (r: Result<Request, Error>)
    ensures
        prepared(r) == compute_list_disks_call(opts@, env@),
{
    let project: String = require_project(opts, env)?;
    let zone: &str = require(opts, "zone", "missing zone")?;
    Ok(
        Request::new(
            Method::Get,
            Draft::new("https://compute.googleapis.com/compute/v1/projects/")
                .enc(project.as_str()).lit("/zones/").enc(zone).lit("/disks"),
        ),
    )
}

/// The result of `compute_list_disks`, where the service answers `body`.
pub open spec fn compute_list_disks_result(opts: JsonView, env: EnvView, body: JsonView) -> Result<
    JsonView,
    Seq<char>,
> {
    match need_project(opts, env) {
        Err(e) => Err(e),
        Ok(project) => match need(opts, "zone"@, "missing zone"@) {
            Err(e) => Err(e),
            Ok(zone) => Ok(
                JsonView::Obj(
                    map![
                        "zone"@ => JsonView::Str(zone),
                        "disks"@ => JsonView::Arr(body.list("items"@).map_values(|o: JsonView| disk_row(o))),
                    ],
                ),
            ),
        },
    }
}

/// The result of the operation, where the service answers `body`.
pub fn op_compute_list_disks(opts: &Json, env: &Env, body: &Json) -> (r: Result<Json, Error>)
    ensures
        outcome(r) == compute_list_disks_result(opts@, env@, body@),
{
    require_project(opts, env)?;
    let zone: &str = require(opts, "zone", "missing zone")?;
    Ok(
        Json::Object(
            Members::new()
                .with("zone", Json::text(zone))
                .with("disks", rows(body, "items", disk_row_json, Ghost(|o: JsonView| disk_row(o)))),
        ),
    )
}

} // verus!
