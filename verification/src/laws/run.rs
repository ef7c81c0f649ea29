//! Cloud Run: how the requests are read, and what the results hold.

use vstd::prelude::*;
use vstd::string::*;

use crate::bridge::{call_of, result_of, Op, ReplyView};
use crate::json::JsonView;
use crate::options::{project_of, EnvView};
use crate::request::{BodyView, Method};
use crate::resource_name::leaf;
use crate::url::asks_for;
use super::{has_members, refuses};
use super::urls::{lemma_run_services, lemma_run_services_revisions, lemma_run_services_service};

verus! {

/// The names of members differ.
proof fn lemma_names()
    ensures
        "create_time"@.len() == 11,
        "latest_revision"@.len() == 15,
        "name"@.len() == 4,
        "region"@.len() == 6,
        "resource"@.len() == 8,
        "revisions"@.len() == 9,
        "service"@.len() == 7,
        "services"@.len() == 8,
        "uri"@.len() == 3,
{
    reveal_strlit("create_time");
    reveal_strlit("latest_revision");
    reveal_strlit("name");
    reveal_strlit("region");
    reveal_strlit("resource");
    reveal_strlit("revisions");
    reveal_strlit("service");
    reveal_strlit("services");
    reveal_strlit("uri");
}

/// Listing services asks for those of the region.
pub proof fn run_list_services_asks(opts: JsonView, env: EnvView)
    ensures
        project_of(opts, env) is None
            ==> refuses(Op::RunListServices, opts, env, "missing project"@),
        project_of(opts, env) is Some && opts.str_at("region"@) is None
            ==> refuses(Op::RunListServices, opts, env, "missing region"@),
        project_of(opts, env) is Some && opts.str_at("region"@) is Some ==> ({
            let project = project_of(opts, env)->0;
            let region = opts.str_at("region"@)->0;
            &&& call_of(Op::RunListServices, opts, env) is Ok
            &&& ({
                let sent = call_of(Op::RunListServices, opts, env)->Ok_0;
                &&& sent.method == Method::Get
                &&& asks_for(
                        sent.url,
                        "https://run.googleapis.com/v2/"@,
                        seq!["projects"@, project, "locations"@, region, "services"@],
                        None,
                        Seq::empty(),
                    )
                &&& sent.query == Seq::<(Seq<char>, Seq<char>)>::empty()
                &&& sent.headers == Seq::<(Seq<char>, Seq<char>)>::empty()
                &&& sent.body == BodyView::Empty
            })
        }),
{
    lemma_names();
    if project_of(opts, env) is Some && opts.str_at("region"@) is Some {
        let project = project_of(opts, env)->0;
        let region = opts.str_at("region"@)->0;
        lemma_run_services(project, region);
    }
}

/// Each item of the answer stands in its place.
pub proof fn run_list_services_gives(opts: JsonView, env: EnvView, body: JsonView)
    requires
        call_of(Op::RunListServices, opts, env) is Ok,
    ensures
        result_of(Op::RunListServices, opts, env, ReplyView::Document(body)) is Ok,
        ({
            let region = opts.str_at("region"@)->0;
            let given = result_of(Op::RunListServices, opts, env, ReplyView::Document(body))->Ok_0;
            &&& has_members(given, set!["region"@, "services"@])
            &&& given.at("region"@) == JsonView::Str(region)
            &&& given.at("services"@) is Arr
            &&& given.at("services"@)->Arr_0.len() == body.list("services"@).len()
            &&& forall|i: int| 0 <= i < body.list("services"@).len() ==> {
                    let row = #[trigger] given.at("services"@)->Arr_0[i];
                    let o = body.list("services"@)[i];
                    &&& has_members(row, set!["name"@, "uri"@, "latest_revision"@])
                    &&& row.at("name"@) == JsonView::Str(leaf(o.str_or("name"@, ""@)))
                    &&& row.at("uri"@) == o.at("uri"@)
                    &&& row.at("latest_revision"@)
                        == JsonView::Str(leaf(o.str_or("latestReadyRevision"@, ""@)))
                }
        }),
{
    lemma_names();
}

/// Asking for a service asks for it in the region.
pub proof fn run_get_service_asks(opts: JsonView, env: EnvView)
    ensures
        project_of(opts, env) is None ==> refuses(Op::RunGetService, opts, env, "missing project"@),
        project_of(opts, env) is Some && opts.str_at("region"@) is None
            ==> refuses(Op::RunGetService, opts, env, "missing region"@),
        project_of(opts, env) is Some && opts.str_at("region"@) is Some
            && opts.str_at("service"@) is None
            ==> refuses(Op::RunGetService, opts, env, "missing service"@),
        project_of(opts, env) is Some && opts.str_at("region"@) is Some
            && opts.str_at("service"@) is Some ==> ({
            let project = project_of(opts, env)->0;
            let region = opts.str_at("region"@)->0;
            let service = opts.str_at("service"@)->0;
            &&& call_of(Op::RunGetService, opts, env) is Ok
            &&& ({
                let sent = call_of(Op::RunGetService, opts, env)->Ok_0;
                &&& sent.method == Method::Get
                &&& asks_for(
                        sent.url,
                        "https://run.googleapis.com/v2/"@,
                        seq!["projects"@, project, "locations"@, region, "services"@, service],
                        None,
                        Seq::empty(),
                    )
                &&& sent.query == Seq::<(Seq<char>, Seq<char>)>::empty()
                &&& sent.headers == Seq::<(Seq<char>, Seq<char>)>::empty()
                &&& sent.body == BodyView::Empty
            })
        }),
{
    lemma_names();
    if project_of(opts, env) is Some && opts.str_at("region"@) is Some
        && opts.str_at("service"@) is Some {
        let project = project_of(opts, env)->0;
        let region = opts.str_at("region"@)->0;
        let service = opts.str_at("service"@)->0;
        lemma_run_services_service(project, region, service);
    }
}

/// The resource is the answer.
pub proof fn run_get_service_gives(opts: JsonView, env: EnvView, body: JsonView)
    requires
        call_of(Op::RunGetService, opts, env) is Ok,
    ensures
        result_of(Op::RunGetService, opts, env, ReplyView::Document(body)) is Ok,
        ({
            let region = opts.str_at("region"@)->0;
            let service = opts.str_at("service"@)->0;
            let given = result_of(Op::RunGetService, opts, env, ReplyView::Document(body))->Ok_0;
            &&& has_members(given, set!["region"@, "service"@, "resource"@])
            &&& given.at("region"@) == JsonView::Str(region)
            &&& given.at("service"@) == JsonView::Str(service)
            &&& given.at("resource"@) == body
        }),
{
    lemma_names();
}

/// Listing revisions asks for those of the service.
pub proof fn run_list_revisions_asks(opts: JsonView, env: EnvView)
    ensures
        project_of(opts, env) is None
            ==> refuses(Op::RunListRevisions, opts, env, "missing project"@),
        project_of(opts, env) is Some && opts.str_at("region"@) is None
            ==> refuses(Op::RunListRevisions, opts, env, "missing region"@),
        project_of(opts, env) is Some && opts.str_at("region"@) is Some
            && opts.str_at("service"@) is None
            ==> refuses(Op::RunListRevisions, opts, env, "missing service"@),
        project_of(opts, env) is Some && opts.str_at("region"@) is Some
            && opts.str_at("service"@) is Some ==> ({
            let project = project_of(opts, env)->0;
            let region = opts.str_at("region"@)->0;
            let service = opts.str_at("service"@)->0;
            &&& call_of(Op::RunListRevisions, opts, env) is Ok
            &&& ({
                let sent = call_of(Op::RunListRevisions, opts, env)->Ok_0;
                &&& sent.method == Method::Get
                &&& asks_for(
                        sent.url,
                        "https://run.googleapis.com/v2/"@,
                        seq!["projects"@, project, "locations"@, region, "services"@, service,
                            "revisions"@],
                        None,
                        Seq::empty(),
                    )
                &&& sent.query == Seq::<(Seq<char>, Seq<char>)>::empty()
                &&& sent.headers == Seq::<(Seq<char>, Seq<char>)>::empty()
                &&& sent.body == BodyView::Empty
            })
        }),
{
    lemma_names();
    if project_of(opts, env) is Some && opts.str_at("region"@) is Some
        && opts.str_at("service"@) is Some {
        let project = project_of(opts, env)->0;
        let region = opts.str_at("region"@)->0;
        let service = opts.str_at("service"@)->0;
        lemma_run_services_revisions(project, region, service);
    }
}

/// Each item of the answer stands in its place.
pub proof fn run_list_revisions_gives(opts: JsonView, env: EnvView, body: JsonView)
    requires
        call_of(Op::RunListRevisions, opts, env) is Ok,
    ensures
        result_of(Op::RunListRevisions, opts, env, ReplyView::Document(body)) is Ok,
        ({
            let region = opts.str_at("region"@)->0;
            let service = opts.str_at("service"@)->0;
            let given = result_of(Op::RunListRevisions, opts, env, ReplyView::Document(body))->Ok_0;
            &&& has_members(given, set!["region"@, "service"@, "revisions"@])
            &&& given.at("region"@) == JsonView::Str(region)
            &&& given.at("service"@) == JsonView::Str(service)
            &&& given.at("revisions"@) is Arr
            &&& given.at("revisions"@)->Arr_0.len() == body.list("revisions"@).len()
            &&& forall|i: int| 0 <= i < body.list("revisions"@).len() ==> {
                    let row = #[trigger] given.at("revisions"@)->Arr_0[i];
                    let o = body.list("revisions"@)[i];
                    &&& has_members(row, set!["name"@, "create_time"@])
                    &&& row.at("name"@) == JsonView::Str(leaf(o.str_or("name"@, ""@)))
                    &&& row.at("create_time"@) == o.at("createTime"@)
                }
        }),
{
    lemma_names();
}

} // verus!
