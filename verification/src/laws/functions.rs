//! Cloud Functions: how the requests are read, and what the results hold.

use vstd::prelude::*;
use vstd::string::*;

use crate::bridge::{call_of, result_of, Op, ReplyView};
use crate::json::JsonView;
use crate::options::{project_of, EnvView};
use crate::request::{BodyView, Method};
use crate::resource_name::leaf;
use crate::url::asks_for;
use super::{has_members, refuses};
use super::urls::{lemma_cloudfunctions_functions, lemma_cloudfunctions_functions_function};

verus! {

/// The names of members differ.
proof fn lemma_names()
    ensures
        "function"@.len() == 8,
        "functions"@.len() == 9,
        "name"@.len() == 4,
        "region"@.len() == 6,
        "resource"@.len() == 8,
        "state"@.len() == 5,
        "url"@.len() == 3,
        "function"@ != "resource"@,
{
    reveal_strlit("function");
    reveal_strlit("functions");
    reveal_strlit("name");
    reveal_strlit("region");
    reveal_strlit("resource");
    reveal_strlit("state");
    reveal_strlit("url");
    assert("function"@[0] != "resource"@[0]);
}

/// Listing functions asks for those of the region, for those of all regions where none is given.
pub proof fn functions_list_asks(opts: JsonView, env: EnvView)
    ensures
        project_of(opts, env) is None ==> refuses(Op::FunctionsList, opts, env, "missing project"@),
        project_of(opts, env) is Some ==> ({
            let project = project_of(opts, env)->0;
            let region = opts.str_or("region"@, "-"@);
            &&& call_of(Op::FunctionsList, opts, env) is Ok
            &&& ({
                let sent = call_of(Op::FunctionsList, opts, env)->Ok_0;
                &&& sent.method == Method::Get
                &&& asks_for(
                        sent.url,
                        "https://cloudfunctions.googleapis.com/v2/"@,
                        seq!["projects"@, project, "locations"@, region, "functions"@],
                        None,
                        Seq::empty(),
                    )
                &&& sent.query == Seq::<(Seq<char>, Seq<char>)>::empty()
                &&& sent.headers == Seq::<(Seq<char>, Seq<char>)>::empty()
                &&& sent.body == BodyView::Empty
            })
        }),
{
    lemma_names();
    if project_of(opts, env) is Some {
        let project = project_of(opts, env)->0;
        let region = opts.str_or("region"@, "-"@);
        lemma_cloudfunctions_functions(project, region);
    }
}

/// Each item of the answer stands in its place.
pub proof fn functions_list_gives(opts: JsonView, env: EnvView, body: JsonView)
    requires
        call_of(Op::FunctionsList, opts, env) is Ok,
    ensures
        result_of(Op::FunctionsList, opts, env, ReplyView::Document(body)) is Ok,
        ({
            let region = opts.str_or("region"@, "-"@);
            let given = result_of(Op::FunctionsList, opts, env, ReplyView::Document(body))->Ok_0;
            &&& has_members(given, set!["region"@, "functions"@])
            &&& given.at("region"@) == JsonView::Str(region)
            &&& given.at("functions"@) is Arr
            &&& given.at("functions"@)->Arr_0.len() == body.list("functions"@).len()
            &&& forall|i: int| 0 <= i < body.list("functions"@).len() ==> {
                    let row = #[trigger] given.at("functions"@)->Arr_0[i];
                    let o = body.list("functions"@)[i];
                    &&& has_members(row, set!["name"@, "state"@, "url"@])
                    &&& row.at("name"@) == JsonView::Str(leaf(o.str_or("name"@, ""@)))
                    &&& row.at("state"@) == o.at("state"@)
                    &&& row.at("url"@) == o.at("serviceConfig"@).at("uri"@)
                }
        }),
{
    lemma_names();
}

/// Asking for a function asks for it in the region.
pub proof fn functions_describe_asks(opts: JsonView, env: EnvView)
    ensures
        project_of(opts, env) is None
            ==> refuses(Op::FunctionsDescribe, opts, env, "missing project"@),
        project_of(opts, env) is Some && opts.str_at("region"@) is None
            ==> refuses(Op::FunctionsDescribe, opts, env, "missing region"@),
        project_of(opts, env) is Some && opts.str_at("region"@) is Some
            && opts.str_at("function"@) is None
            ==> refuses(Op::FunctionsDescribe, opts, env, "missing function"@),
        project_of(opts, env) is Some && opts.str_at("region"@) is Some
            && opts.str_at("function"@) is Some ==> ({
            let project = project_of(opts, env)->0;
            let region = opts.str_at("region"@)->0;
            let function = opts.str_at("function"@)->0;
            &&& call_of(Op::FunctionsDescribe, opts, env) is Ok
            &&& ({
                let sent = call_of(Op::FunctionsDescribe, opts, env)->Ok_0;
                &&& sent.method == Method::Get
                &&& asks_for(
                        sent.url,
                        "https://cloudfunctions.googleapis.com/v2/"@,
                        seq!["projects"@, project, "locations"@, region, "functions"@, function],
                        None,
                        Seq::empty(),
                    )
                &&& sent.query == Seq::<(Seq<char>, Seq<char>)>::empty()
                &&& sent.headers == Seq::<(Seq<char>, Seq<char>)>::empty()
                &&& sent.body == BodyView::Empty
            })
        }),
{
    lemma_names();
    if project_of(opts, env) is Some && opts.str_at("region"@) is Some
        && opts.str_at("function"@) is Some {
        let project = project_of(opts, env)->0;
        let region = opts.str_at("region"@)->0;
        let function = opts.str_at("function"@)->0;
        lemma_cloudfunctions_functions_function(project, region, function);
    }
}

/// The resource is the answer.
pub proof fn functions_describe_gives(opts: JsonView, env: EnvView, body: JsonView)
    requires
        call_of(Op::FunctionsDescribe, opts, env) is Ok,
    ensures
        result_of(Op::FunctionsDescribe, opts, env, ReplyView::Document(body)) is Ok,
        ({
            let region = opts.str_at("region"@)->0;
            let function = opts.str_at("function"@)->0;
            let given = result_of(Op::FunctionsDescribe, opts, env,
                ReplyView::Document(body))->Ok_0;
            &&& has_members(given, set!["region"@, "function"@, "resource"@])
            &&& given.at("region"@) == JsonView::Str(region)
            &&& given.at("function"@) == JsonView::Str(function)
            &&& given.at("resource"@) == body
        }),
{
    lemma_names();
}

} // verus!
