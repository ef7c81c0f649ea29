//! Compute Engine: how the requests are read, and what the results hold.

use vstd::prelude::*;
use vstd::string::*;

use crate::bridge::{call_of, result_of, Op, ReplyView};
use crate::json::JsonView;
use crate::options::{project_of, EnvView};
use crate::request::{BodyView, Method};
use crate::resource_name::leaf;
use crate::url::asks_for;
use super::{has_members, refuses};
use super::urls::{
    lemma_compute_regions, lemma_compute_zones, lemma_compute_zones_disks,
    lemma_compute_zones_instances, lemma_compute_zones_instances_instance,
    lemma_compute_zones_instances_reset, lemma_compute_zones_instances_start,
    lemma_compute_zones_instances_stop, lemma_compute_zones_machine_types,
};

verus! {

/// The names of members differ.
proof fn lemma_names()
    ensures
        "action"@.len() == 6,
        "description"@.len() == 11,
        "disks"@.len() == 5,
        "guest_cpus"@.len() == 10,
        "instance"@.len() == 8,
        "instances"@.len() == 9,
        "machine_type"@.len() == 12,
        "machine_types"@.len() == 13,
        "memory_mb"@.len() == 9,
        "name"@.len() == 4,
        "operation"@.len() == 9,
        "project"@.len() == 7,
        "region"@.len() == 6,
        "regions"@.len() == 7,
        "resource"@.len() == 8,
        "size_gb"@.len() == 7,
        "status"@.len() == 6,
        "type"@.len() == 4,
        "zone"@.len() == 4,
        "zones"@.len() == 5,
        "action"@ != "status"@,
        "instance"@ != "resource"@,
        "name"@ != "type"@,
        "name"@ != "zone"@,
        "project"@ != "regions"@,
        "region"@ != "status"@,
        "type"@ != "zone"@,
{
    reveal_strlit("action");
    reveal_strlit("description");
    reveal_strlit("disks");
    reveal_strlit("guest_cpus");
    reveal_strlit("instance");
    reveal_strlit("instances");
    reveal_strlit("machine_type");
    reveal_strlit("machine_types");
    reveal_strlit("memory_mb");
    reveal_strlit("name");
    reveal_strlit("operation");
    reveal_strlit("project");
    reveal_strlit("region");
    reveal_strlit("regions");
    reveal_strlit("resource");
    reveal_strlit("size_gb");
    reveal_strlit("status");
    reveal_strlit("type");
    reveal_strlit("zone");
    reveal_strlit("zones");
    assert("action"@[0] != "status"@[0]);
    assert("instance"@[0] != "resource"@[0]);
    assert("name"@[0] != "type"@[0]);
    assert("name"@[0] != "zone"@[0]);
    assert("project"@[0] != "regions"@[0]);
    assert("region"@[0] != "status"@[0]);
    assert("type"@[0] != "zone"@[0]);
}

/// Listing instances asks for those of the zone.
pub proof fn compute_list_instances_asks(opts: JsonView, env: EnvView)
    ensures
        project_of(opts, env) is None
            ==> refuses(Op::ComputeListInstances, opts, env, "missing project"@),
        project_of(opts, env) is Some && opts.str_at("zone"@) is None
            ==> refuses(Op::ComputeListInstances, opts, env, "missing zone"@),
        project_of(opts, env) is Some && opts.str_at("zone"@) is Some ==> ({
            let project = project_of(opts, env)->0;
            let zone = opts.str_at("zone"@)->0;
            &&& call_of(Op::ComputeListInstances, opts, env) is Ok
            &&& ({
                let sent = call_of(Op::ComputeListInstances, opts, env)->Ok_0;
                &&& sent.method == Method::Get
                &&& asks_for(
                        sent.url,
                        "https://compute.googleapis.com/compute/v1/"@,
                        seq!["projects"@, project, "zones"@, zone, "instances"@],
                        None,
                        Seq::empty(),
                    )
                &&& sent.query == Seq::<(Seq<char>, Seq<char>)>::empty()
                &&& sent.headers == Seq::<(Seq<char>, Seq<char>)>::empty()
                &&& sent.body == BodyView::Empty
            })
        }),
{
    lemma_names();
    if project_of(opts, env) is Some && opts.str_at("zone"@) is Some {
        let project = project_of(opts, env)->0;
        let zone = opts.str_at("zone"@)->0;
        lemma_compute_zones_instances(project, zone);
    }
}

/// Each item of the answer stands in its place.
pub proof fn compute_list_instances_gives(opts: JsonView, env: EnvView, body: JsonView)
    requires
        call_of(Op::ComputeListInstances, opts, env) is Ok,
    ensures
        result_of(Op::ComputeListInstances, opts, env, ReplyView::Document(body)) is Ok,
        ({
            let zone = opts.str_at("zone"@)->0;
            let given = result_of(Op::ComputeListInstances, opts, env,
                ReplyView::Document(body))->Ok_0;
            &&& has_members(given, set!["zone"@, "instances"@])
            &&& given.at("zone"@) == JsonView::Str(zone)
            &&& given.at("instances"@) is Arr
            &&& given.at("instances"@)->Arr_0.len() == body.list("items"@).len()
            &&& forall|i: int| 0 <= i < body.list("items"@).len() ==> {
                    let row = #[trigger] given.at("instances"@)->Arr_0[i];
                    let o = body.list("items"@)[i];
                    &&& has_members(row, set!["name"@, "status"@, "machine_type"@, "zone"@])
                    &&& row.at("name"@) == JsonView::Str(o.str_or("name"@, ""@))
                    &&& row.at("status"@) == JsonView::Str(o.str_or("status"@, ""@))
                    &&& row.at("machine_type"@)
                        == JsonView::Str(leaf(o.str_or("machineType"@, ""@)))
                    &&& row.at("zone"@) == JsonView::Str(leaf(o.str_or("zone"@, ""@)))
                }
        }),
{
    lemma_names();
}

/// Asking for an instance asks for it in the zone.
pub proof fn compute_get_instance_asks(opts: JsonView, env: EnvView)
    ensures
        project_of(opts, env) is None
            ==> refuses(Op::ComputeGetInstance, opts, env, "missing project"@),
        project_of(opts, env) is Some && opts.str_at("zone"@) is None
            ==> refuses(Op::ComputeGetInstance, opts, env, "missing zone"@),
        project_of(opts, env) is Some && opts.str_at("zone"@) is Some
            && opts.str_at("instance"@) is None
            ==> refuses(Op::ComputeGetInstance, opts, env, "missing instance"@),
        project_of(opts, env) is Some && opts.str_at("zone"@) is Some
            && opts.str_at("instance"@) is Some ==> ({
            let project = project_of(opts, env)->0;
            let zone = opts.str_at("zone"@)->0;
            let instance = opts.str_at("instance"@)->0;
            &&& call_of(Op::ComputeGetInstance, opts, env) is Ok
            &&& ({
                let sent = call_of(Op::ComputeGetInstance, opts, env)->Ok_0;
                &&& sent.method == Method::Get
                &&& asks_for(
                        sent.url,
                        "https://compute.googleapis.com/compute/v1/"@,
                        seq!["projects"@, project, "zones"@, zone, "instances"@, instance],
                        None,
                        Seq::empty(),
                    )
                &&& sent.query == Seq::<(Seq<char>, Seq<char>)>::empty()
                &&& sent.headers == Seq::<(Seq<char>, Seq<char>)>::empty()
                &&& sent.body == BodyView::Empty
            })
        }),
{
    lemma_names();
    if project_of(opts, env) is Some && opts.str_at("zone"@) is Some
        && opts.str_at("instance"@) is Some {
        let project = project_of(opts, env)->0;
        let zone = opts.str_at("zone"@)->0;
        let instance = opts.str_at("instance"@)->0;
        lemma_compute_zones_instances_instance(project, zone, instance);
    }
}

/// The resource is the answer.
pub proof fn compute_get_instance_gives(opts: JsonView, env: EnvView, body: JsonView)
    requires
        call_of(Op::ComputeGetInstance, opts, env) is Ok,
    ensures
        result_of(Op::ComputeGetInstance, opts, env, ReplyView::Document(body)) is Ok,
        ({
            let zone = opts.str_at("zone"@)->0;
            let instance = opts.str_at("instance"@)->0;
            let given = result_of(Op::ComputeGetInstance, opts, env,
                ReplyView::Document(body))->Ok_0;
            &&& has_members(given, set!["zone"@, "instance"@, "resource"@])
            &&& given.at("zone"@) == JsonView::Str(zone)
            &&& given.at("instance"@) == JsonView::Str(instance)
            &&& given.at("resource"@) == body
        }),
{
    lemma_names();
}

/// Starting an instance asks the instance for that.
pub proof fn compute_start_instance_asks(opts: JsonView, env: EnvView)
    ensures
        project_of(opts, env) is None
            ==> refuses(Op::ComputeStartInstance, opts, env, "missing project"@),
        project_of(opts, env) is Some && opts.str_at("zone"@) is None
            ==> refuses(Op::ComputeStartInstance, opts, env, "missing zone"@),
        project_of(opts, env) is Some && opts.str_at("zone"@) is Some
            && opts.str_at("instance"@) is None
            ==> refuses(Op::ComputeStartInstance, opts, env, "missing instance"@),
        project_of(opts, env) is Some && opts.str_at("zone"@) is Some
            && opts.str_at("instance"@) is Some ==> ({
            let project = project_of(opts, env)->0;
            let zone = opts.str_at("zone"@)->0;
            let instance = opts.str_at("instance"@)->0;
            &&& call_of(Op::ComputeStartInstance, opts, env) is Ok
            &&& ({
                let sent = call_of(Op::ComputeStartInstance, opts, env)->Ok_0;
                &&& sent.method == Method::Post
                &&& asks_for(
                        sent.url,
                        "https://compute.googleapis.com/compute/v1/"@,
                        seq!["projects"@, project, "zones"@, zone, "instances"@, instance,
                            "start"@],
                        None,
                        Seq::empty(),
                    )
                &&& sent.query == Seq::<(Seq<char>, Seq<char>)>::empty()
                &&& sent.headers == seq![("Content-Length"@, "0"@)]
                &&& sent.body == BodyView::Empty
            })
        }),
{
    lemma_names();
    if project_of(opts, env) is Some && opts.str_at("zone"@) is Some
        && opts.str_at("instance"@) is Some {
        let project = project_of(opts, env)->0;
        let zone = opts.str_at("zone"@)->0;
        let instance = opts.str_at("instance"@)->0;
        lemma_compute_zones_instances_start(project, zone, instance);
    }
}

/// The result names the instance, what is done to it, and the operation that does it.
pub proof fn compute_start_instance_gives(opts: JsonView, env: EnvView, body: JsonView)
    requires
        call_of(Op::ComputeStartInstance, opts, env) is Ok,
    ensures
        result_of(Op::ComputeStartInstance, opts, env, ReplyView::Document(body)) is Ok,
        ({
            let instance = opts.str_at("instance"@)->0;
            let given = result_of(Op::ComputeStartInstance, opts, env,
                ReplyView::Document(body))->Ok_0;
            &&& has_members(given, set!["instance"@, "action"@, "operation"@, "status"@])
            &&& given.at("instance"@) == JsonView::Str(instance)
            &&& given.at("action"@) == JsonView::Str("start"@)
            &&& given.at("operation"@) == body.at("name"@)
            &&& given.at("status"@) == body.at("status"@)
        }),
{
    lemma_names();
}

/// Stopping an instance asks the instance for that.
pub proof fn compute_stop_instance_asks(opts: JsonView, env: EnvView)
    ensures
        project_of(opts, env) is None
            ==> refuses(Op::ComputeStopInstance, opts, env, "missing project"@),
        project_of(opts, env) is Some && opts.str_at("zone"@) is None
            ==> refuses(Op::ComputeStopInstance, opts, env, "missing zone"@),
        project_of(opts, env) is Some && opts.str_at("zone"@) is Some
            && opts.str_at("instance"@) is None
            ==> refuses(Op::ComputeStopInstance, opts, env, "missing instance"@),
        project_of(opts, env) is Some && opts.str_at("zone"@) is Some
            && opts.str_at("instance"@) is Some ==> ({
            let project = project_of(opts, env)->0;
            let zone = opts.str_at("zone"@)->0;
            let instance = opts.str_at("instance"@)->0;
            &&& call_of(Op::ComputeStopInstance, opts, env) is Ok
            &&& ({
                let sent = call_of(Op::ComputeStopInstance, opts, env)->Ok_0;
                &&& sent.method == Method::Post
                &&& asks_for(
                        sent.url,
                        "https://compute.googleapis.com/compute/v1/"@,
                        seq!["projects"@, project, "zones"@, zone, "instances"@, instance, "stop"@],
                        None,
                        Seq::empty(),
                    )
                &&& sent.query == Seq::<(Seq<char>, Seq<char>)>::empty()
                &&& sent.headers == seq![("Content-Length"@, "0"@)]
                &&& sent.body == BodyView::Empty
            })
        }),
{
    lemma_names();
    if project_of(opts, env) is Some && opts.str_at("zone"@) is Some
        && opts.str_at("instance"@) is Some {
        let project = project_of(opts, env)->0;
        let zone = opts.str_at("zone"@)->0;
        let instance = opts.str_at("instance"@)->0;
        lemma_compute_zones_instances_stop(project, zone, instance);
    }
}

/// The result names the instance, what is done to it, and the operation that does it.
pub proof fn compute_stop_instance_gives(opts: JsonView, env: EnvView, body: JsonView)
    requires
        call_of(Op::ComputeStopInstance, opts, env) is Ok,
    ensures
        result_of(Op::ComputeStopInstance, opts, env, ReplyView::Document(body)) is Ok,
        ({
            let instance = opts.str_at("instance"@)->0;
            let given = result_of(Op::ComputeStopInstance, opts, env,
                ReplyView::Document(body))->Ok_0;
            &&& has_members(given, set!["instance"@, "action"@, "operation"@, "status"@])
            &&& given.at("instance"@) == JsonView::Str(instance)
            &&& given.at("action"@) == JsonView::Str("stop"@)
            &&& given.at("operation"@) == body.at("name"@)
            &&& given.at("status"@) == body.at("status"@)
        }),
{
    lemma_names();
}

/// Resetting an instance asks the instance for that.
pub proof fn compute_reset_instance_asks(opts: JsonView, env: EnvView)
    ensures
        project_of(opts, env) is None
            ==> refuses(Op::ComputeResetInstance, opts, env, "missing project"@),
        project_of(opts, env) is Some && opts.str_at("zone"@) is None
            ==> refuses(Op::ComputeResetInstance, opts, env, "missing zone"@),
        project_of(opts, env) is Some && opts.str_at("zone"@) is Some
            && opts.str_at("instance"@) is None
            ==> refuses(Op::ComputeResetInstance, opts, env, "missing instance"@),
        project_of(opts, env) is Some && opts.str_at("zone"@) is Some
            && opts.str_at("instance"@) is Some ==> ({
            let project = project_of(opts, env)->0;
            let zone = opts.str_at("zone"@)->0;
            let instance = opts.str_at("instance"@)->0;
            &&& call_of(Op::ComputeResetInstance, opts, env) is Ok
            &&& ({
                let sent = call_of(Op::ComputeResetInstance, opts, env)->Ok_0;
                &&& sent.method == Method::Post
                &&& asks_for(
                        sent.url,
                        "https://compute.googleapis.com/compute/v1/"@,
                        seq!["projects"@, project, "zones"@, zone, "instances"@, instance,
                            "reset"@],
                        None,
                        Seq::empty(),
                    )
                &&& sent.query == Seq::<(Seq<char>, Seq<char>)>::empty()
                &&& sent.headers == seq![("Content-Length"@, "0"@)]
                &&& sent.body == BodyView::Empty
            })
        }),
{
    lemma_names();
    if project_of(opts, env) is Some && opts.str_at("zone"@) is Some
        && opts.str_at("instance"@) is Some {
        let project = project_of(opts, env)->0;
        let zone = opts.str_at("zone"@)->0;
        let instance = opts.str_at("instance"@)->0;
        lemma_compute_zones_instances_reset(project, zone, instance);
    }
}

/// The result names the instance, what is done to it, and the operation that does it.
pub proof fn compute_reset_instance_gives(opts: JsonView, env: EnvView, body: JsonView)
    requires
        call_of(Op::ComputeResetInstance, opts, env) is Ok,
    ensures
        result_of(Op::ComputeResetInstance, opts, env, ReplyView::Document(body)) is Ok,
        ({
            let instance = opts.str_at("instance"@)->0;
            let given = result_of(Op::ComputeResetInstance, opts, env,
                ReplyView::Document(body))->Ok_0;
            &&& has_members(given, set!["instance"@, "action"@, "operation"@, "status"@])
            &&& given.at("instance"@) == JsonView::Str(instance)
            &&& given.at("action"@) == JsonView::Str("reset"@)
            &&& given.at("operation"@) == body.at("name"@)
            &&& given.at("status"@) == body.at("status"@)
        }),
{
    lemma_names();
}

/// Listing zones asks for those of the project.
pub proof fn compute_list_zones_asks(opts: JsonView, env: EnvView)
    ensures
        project_of(opts, env) is None
            ==> refuses(Op::ComputeListZones, opts, env, "missing project"@),
        project_of(opts, env) is Some ==> ({
            let project = project_of(opts, env)->0;
            &&& call_of(Op::ComputeListZones, opts, env) is Ok
            &&& ({
                let sent = call_of(Op::ComputeListZones, opts, env)->Ok_0;
                &&& sent.method == Method::Get
                &&& asks_for(
                        sent.url,
                        "https://compute.googleapis.com/compute/v1/"@,
                        seq!["projects"@, project, "zones"@],
                        None,
                        Seq::empty(),
                    )
                &&& sent.query == Seq::<(Seq<char>, Seq<char>)>::empty()
                &&& sent.headers == Seq::<(Seq<char>, Seq<char>)>::empty()
                &&& sent.body == BodyView::Empty
            })
        }),
{
    lemma_names();
    if project_of(opts, env) is Some {
        let project = project_of(opts, env)->0;
        lemma_compute_zones(project);
    }
}

/// Each item of the answer stands in its place.
pub proof fn compute_list_zones_gives(opts: JsonView, env: EnvView, body: JsonView)
    requires
        call_of(Op::ComputeListZones, opts, env) is Ok,
    ensures
        result_of(Op::ComputeListZones, opts, env, ReplyView::Document(body)) is Ok,
        ({
            let project = project_of(opts, env)->0;
            let given = result_of(Op::ComputeListZones, opts, env, ReplyView::Document(body))->Ok_0;
            &&& has_members(given, set!["project"@, "zones"@])
            &&& given.at("project"@) == JsonView::Str(project)
            &&& given.at("zones"@) is Arr
            &&& given.at("zones"@)->Arr_0.len() == body.list("items"@).len()
            &&& forall|i: int| 0 <= i < body.list("items"@).len() ==> {
                    let row = #[trigger] given.at("zones"@)->Arr_0[i];
                    let o = body.list("items"@)[i];
                    &&& has_members(row, set!["name"@, "region"@, "status"@])
                    &&& row.at("name"@) == JsonView::Str(o.str_or("name"@, ""@))
                    &&& row.at("region"@) == JsonView::Str(leaf(o.str_or("region"@, ""@)))
                    &&& row.at("status"@) == JsonView::Str(o.str_or("status"@, ""@))
                }
        }),
{
    lemma_names();
}

/// Listing regions asks for those of the project.
pub proof fn compute_list_regions_asks(opts: JsonView, env: EnvView)
    ensures
        project_of(opts, env) is None
            ==> refuses(Op::ComputeListRegions, opts, env, "missing project"@),
        project_of(opts, env) is Some ==> ({
            let project = project_of(opts, env)->0;
            &&& call_of(Op::ComputeListRegions, opts, env) is Ok
            &&& ({
                let sent = call_of(Op::ComputeListRegions, opts, env)->Ok_0;
                &&& sent.method == Method::Get
                &&& asks_for(
                        sent.url,
                        "https://compute.googleapis.com/compute/v1/"@,
                        seq!["projects"@, project, "regions"@],
                        None,
                        Seq::empty(),
                    )
                &&& sent.query == Seq::<(Seq<char>, Seq<char>)>::empty()
                &&& sent.headers == Seq::<(Seq<char>, Seq<char>)>::empty()
                &&& sent.body == BodyView::Empty
            })
        }),
{
    lemma_names();
    if project_of(opts, env) is Some {
        let project = project_of(opts, env)->0;
        lemma_compute_regions(project);
    }
}

/// Each item of the answer stands in its place.
pub proof fn compute_list_regions_gives(opts: JsonView, env: EnvView, body: JsonView)
    requires
        call_of(Op::ComputeListRegions, opts, env) is Ok,
    ensures
        result_of(Op::ComputeListRegions, opts, env, ReplyView::Document(body)) is Ok,
        ({
            let project = project_of(opts, env)->0;
            let given = result_of(Op::ComputeListRegions, opts, env,
                ReplyView::Document(body))->Ok_0;
            &&& has_members(given, set!["project"@, "regions"@])
            &&& given.at("project"@) == JsonView::Str(project)
            &&& given.at("regions"@) is Arr
            &&& given.at("regions"@)->Arr_0.len() == body.list("items"@).len()
            &&& forall|i: int| 0 <= i < body.list("items"@).len() ==> {
                    let row = #[trigger] given.at("regions"@)->Arr_0[i];
                    let o = body.list("items"@)[i];
                    &&& has_members(row, set!["name"@, "status"@])
                    &&& row.at("name"@) == JsonView::Str(o.str_or("name"@, ""@))
                    &&& row.at("status"@) == JsonView::Str(o.str_or("status"@, ""@))
                }
        }),
{
    lemma_names();
}

/// Listing machine types asks for those of the zone.
pub proof fn compute_list_machine_types_asks(opts: JsonView, env: EnvView)
    ensures
        project_of(opts, env) is None
            ==> refuses(Op::ComputeListMachineTypes, opts, env, "missing project"@),
        project_of(opts, env) is Some && opts.str_at("zone"@) is None
            ==> refuses(Op::ComputeListMachineTypes, opts, env, "missing zone"@),
        project_of(opts, env) is Some && opts.str_at("zone"@) is Some ==> ({
            let project = project_of(opts, env)->0;
            let zone = opts.str_at("zone"@)->0;
            &&& call_of(Op::ComputeListMachineTypes, opts, env) is Ok
            &&& ({
                let sent = call_of(Op::ComputeListMachineTypes, opts, env)->Ok_0;
                &&& sent.method == Method::Get
                &&& asks_for(
                        sent.url,
                        "https://compute.googleapis.com/compute/v1/"@,
                        seq!["projects"@, project, "zones"@, zone, "machineTypes"@],
                        None,
                        Seq::empty(),
                    )
                &&& sent.query == Seq::<(Seq<char>, Seq<char>)>::empty()
                &&& sent.headers == Seq::<(Seq<char>, Seq<char>)>::empty()
                &&& sent.body == BodyView::Empty
            })
        }),
{
    lemma_names();
    if project_of(opts, env) is Some && opts.str_at("zone"@) is Some {
        let project = project_of(opts, env)->0;
        let zone = opts.str_at("zone"@)->0;
        lemma_compute_zones_machine_types(project, zone);
    }
}

/// Each item of the answer stands in its place.
pub proof fn compute_list_machine_types_gives(opts: JsonView, env: EnvView, body: JsonView)
    requires
        call_of(Op::ComputeListMachineTypes, opts, env) is Ok,
    ensures
        result_of(Op::ComputeListMachineTypes, opts, env, ReplyView::Document(body)) is Ok,
        ({
            let zone = opts.str_at("zone"@)->0;
            let given = result_of(Op::ComputeListMachineTypes, opts, env,
                ReplyView::Document(body))->Ok_0;
            &&& has_members(given, set!["zone"@, "machine_types"@])
            &&& given.at("zone"@) == JsonView::Str(zone)
            &&& given.at("machine_types"@) is Arr
            &&& given.at("machine_types"@)->Arr_0.len() == body.list("items"@).len()
            &&& forall|i: int| 0 <= i < body.list("items"@).len() ==> {
                    let row = #[trigger] given.at("machine_types"@)->Arr_0[i];
                    let o = body.list("items"@)[i];
                    &&& has_members(row, set!["name"@, "guest_cpus"@, "memory_mb"@, "description"@])
                    &&& row.at("name"@) == JsonView::Str(o.str_or("name"@, ""@))
                    &&& row.at("guest_cpus"@) == o.at("guestCpus"@)
                    &&& row.at("memory_mb"@) == o.at("memoryMb"@)
                    &&& row.at("description"@) == JsonView::Str(o.str_or("description"@, ""@))
                }
        }),
{
    lemma_names();
}

/// Listing disks asks for those of the zone.
pub proof fn compute_list_disks_asks(opts: JsonView, env: EnvView)
    ensures
        project_of(opts, env) is None
            ==> refuses(Op::ComputeListDisks, opts, env, "missing project"@),
        project_of(opts, env) is Some && opts.str_at("zone"@) is None
            ==> refuses(Op::ComputeListDisks, opts, env, "missing zone"@),
        project_of(opts, env) is Some && opts.str_at("zone"@) is Some ==> ({
            let project = project_of(opts, env)->0;
            let zone = opts.str_at("zone"@)->0;
            &&& call_of(Op::ComputeListDisks, opts, env) is Ok
            &&& ({
                let sent = call_of(Op::ComputeListDisks, opts, env)->Ok_0;
                &&& sent.method == Method::Get
                &&& asks_for(
                        sent.url,
                        "https://compute.googleapis.com/compute/v1/"@,
                        seq!["projects"@, project, "zones"@, zone, "disks"@],
                        None,
                        Seq::empty(),
                    )
                &&& sent.query == Seq::<(Seq<char>, Seq<char>)>::empty()
                &&& sent.headers == Seq::<(Seq<char>, Seq<char>)>::empty()
                &&& sent.body == BodyView::Empty
            })
        }),
{
    lemma_names();
    if project_of(opts, env) is Some && opts.str_at("zone"@) is Some {
        let project = project_of(opts, env)->0;
        let zone = opts.str_at("zone"@)->0;
        lemma_compute_zones_disks(project, zone);
    }
}

/// Each item of the answer stands in its place.
pub proof fn compute_list_disks_gives(opts: JsonView, env: EnvView, body: JsonView)
    requires
        call_of(Op::ComputeListDisks, opts, env) is Ok,
    ensures
        result_of(Op::ComputeListDisks, opts, env, ReplyView::Document(body)) is Ok,
        ({
            let zone = opts.str_at("zone"@)->0;
            let given = result_of(Op::ComputeListDisks, opts, env, ReplyView::Document(body))->Ok_0;
            &&& has_members(given, set!["zone"@, "disks"@])
            &&& given.at("zone"@) == JsonView::Str(zone)
            &&& given.at("disks"@) is Arr
            &&& given.at("disks"@)->Arr_0.len() == body.list("items"@).len()
            &&& forall|i: int| 0 <= i < body.list("items"@).len() ==> {
                    let row = #[trigger] given.at("disks"@)->Arr_0[i];
                    let o = body.list("items"@)[i];
                    &&& has_members(row, set!["name"@, "size_gb"@, "type"@, "status"@, "zone"@])
                    &&& row.at("name"@) == JsonView::Str(o.str_or("name"@, ""@))
                    &&& row.at("size_gb"@) == JsonView::Str(o.str_or("sizeGb"@, "0"@))
                    &&& row.at("type"@) == JsonView::Str(leaf(o.str_or("type"@, ""@)))
                    &&& row.at("status"@) == JsonView::Str(o.str_or("status"@, ""@))
                    &&& row.at("zone"@) == JsonView::Str(leaf(o.str_or("zone"@, ""@)))
                }
        }),
{
    lemma_names();
}

} // verus!
