//! IAM: how the requests are read, and what the results hold.

use vstd::prelude::*;
use vstd::string::*;

use crate::bridge::{call_of, result_of, Op, ReplyView};
use crate::json::JsonView;
use crate::options::{project_of, EnvView};
use crate::request::{BodyView, Method};
use crate::url::asks_for;
use super::{has_members, refuses};
use super::urls::{lemma_iam_service_accounts, lemma_iam_service_accounts_email};

verus! {

/// The names of members differ.
proof fn lemma_names()
    ensures
        "display_name"@.len() == 12,
        "email"@.len() == 5,
        "permissions"@.len() == 11,
        "policy"@.len() == 6,
        "project"@.len() == 7,
        "resource"@.len() == 8,
        "service_accounts"@.len() == 16,
        "unique_id"@.len() == 9,
{
    reveal_strlit("display_name");
    reveal_strlit("email");
    reveal_strlit("permissions");
    reveal_strlit("policy");
    reveal_strlit("project");
    reveal_strlit("resource");
    reveal_strlit("service_accounts");
    reveal_strlit("unique_id");
}

/// Reading a policy asks at the URL that is given.
pub proof fn iam_get_policy_asks(opts: JsonView, env: EnvView)
    ensures
        opts.str_at("url"@) is None
            ==> refuses(Op::IamGetPolicy, opts, env, "missing url (full :getIamPolicy endpoint)"@),
        opts.str_at("url"@) is Some ==> ({
            let url = opts.str_at("url"@)->0;
            &&& call_of(Op::IamGetPolicy, opts, env) is Ok
            &&& ({
                let sent = call_of(Op::IamGetPolicy, opts, env)->Ok_0;
                &&& sent.method == Method::Get
                &&& sent.url == opts.str_at("url"@)->0
                &&& sent.query == Seq::<(Seq<char>, Seq<char>)>::empty()
                &&& sent.headers == Seq::<(Seq<char>, Seq<char>)>::empty()
                &&& sent.body == BodyView::Empty
            })
        }),
{
    lemma_names();
    if opts.str_at("url"@) is Some {
    }
}

/// The policy is the answer.
pub proof fn iam_get_policy_gives(opts: JsonView, env: EnvView, body: JsonView)
    requires
        call_of(Op::IamGetPolicy, opts, env) is Ok,
    ensures
        result_of(Op::IamGetPolicy, opts, env, ReplyView::Document(body)) is Ok,
        ({
            let given = result_of(Op::IamGetPolicy, opts, env, ReplyView::Document(body))->Ok_0;
            &&& has_members(given, set!["policy"@])
            &&& given.at("policy"@) == body
        }),
{
    lemma_names();
}

/// Testing permissions sends them to the URL that is given.
pub proof fn iam_test_permissions_asks(opts: JsonView, env: EnvView)
    ensures
        opts.str_at("url"@) is None
            ==> refuses(Op::IamTestPermissions, opts, env,
            "missing url (full :testIamPermissions endpoint)"@),
        opts.str_at("url"@) is Some && !(opts.at("permissions"@) is Arr)
            ==> refuses(Op::IamTestPermissions, opts, env, "missing permissions (array)"@),
        opts.str_at("url"@) is Some && opts.at("permissions"@) is Arr ==> ({
            let url = opts.str_at("url"@)->0;
            let permissions = opts.at("permissions"@)->Arr_0;
            &&& call_of(Op::IamTestPermissions, opts, env) is Ok
            &&& ({
                let sent = call_of(Op::IamTestPermissions, opts, env)->Ok_0;
                let content = sent.body->Json_0;
                &&& sent.method == Method::Post
                &&& sent.url == opts.str_at("url"@)->0
                &&& sent.query == Seq::<(Seq<char>, Seq<char>)>::empty()
                &&& sent.headers == Seq::<(Seq<char>, Seq<char>)>::empty()
                &&& sent.body is Json
                &&& has_members(content, set!["permissions"@])
                &&& content.at("permissions"@) == JsonView::Arr(permissions)
            })
        }),
{
    lemma_names();
    if opts.str_at("url"@) is Some && opts.at("permissions"@) is Arr {
    }
}

/// The permissions are those of the answer.
pub proof fn iam_test_permissions_gives(opts: JsonView, env: EnvView, body: JsonView)
    requires
        call_of(Op::IamTestPermissions, opts, env) is Ok,
    ensures
        result_of(Op::IamTestPermissions, opts, env, ReplyView::Document(body)) is Ok,
        ({
            let given = result_of(Op::IamTestPermissions, opts, env,
                ReplyView::Document(body))->Ok_0;
            &&& has_members(given, set!["permissions"@])
            &&& given.at("permissions"@) == JsonView::Arr(body.list("permissions"@))
        }),
{
    lemma_names();
}

/// Listing service accounts asks for those of the project.
pub proof fn iam_list_service_accounts_asks(opts: JsonView, env: EnvView)
    ensures
        project_of(opts, env) is None
            ==> refuses(Op::IamListServiceAccounts, opts, env, "missing project"@),
        project_of(opts, env) is Some ==> ({
            let project = project_of(opts, env)->0;
            &&& call_of(Op::IamListServiceAccounts, opts, env) is Ok
            &&& ({
                let sent = call_of(Op::IamListServiceAccounts, opts, env)->Ok_0;
                &&& sent.method == Method::Get
                &&& asks_for(
                        sent.url,
                        "https://iam.googleapis.com/v1/"@,
                        seq!["projects"@, project, "serviceAccounts"@],
                        None,
                        Seq::empty(),
                    )
                &&& sent.query == Seq::<(Seq<char>, Seq<char>)>::empty()
                &&& sent.headers == Seq::<(Seq<char>, Seq<char>)>::empty()
                &&& sent.body == BodyView::Empty
            })
        }),
{
    lemma_names();
    if project_of(opts, env) is Some {
        let project = project_of(opts, env)->0;
        lemma_iam_service_accounts(project);
    }
}

/// Each item of the answer stands in its place.
pub proof fn iam_list_service_accounts_gives(opts: JsonView, env: EnvView, body: JsonView)
    requires
        call_of(Op::IamListServiceAccounts, opts, env) is Ok,
    ensures
        result_of(Op::IamListServiceAccounts, opts, env, ReplyView::Document(body)) is Ok,
        ({
            let project = project_of(opts, env)->0;
            let given = result_of(Op::IamListServiceAccounts, opts, env,
                ReplyView::Document(body))->Ok_0;
            &&& has_members(given, set!["project"@, "service_accounts"@])
            &&& given.at("project"@) == JsonView::Str(project)
            &&& given.at("service_accounts"@) is Arr
            &&& given.at("service_accounts"@)->Arr_0.len() == body.list("accounts"@).len()
            &&& forall|i: int| 0 <= i < body.list("accounts"@).len() ==> {
                    let row = #[trigger] given.at("service_accounts"@)->Arr_0[i];
                    let o = body.list("accounts"@)[i];
                    &&& has_members(row, set!["email"@, "display_name"@, "unique_id"@])
                    &&& row.at("email"@) == o.at("email"@)
                    &&& row.at("display_name"@) == o.at("displayName"@)
                    &&& row.at("unique_id"@) == o.at("uniqueId"@)
                }
        }),
{
    lemma_names();
}

/// Asking for a service account asks for its address under the project.
pub proof fn iam_get_service_account_asks(opts: JsonView, env: EnvView)
    ensures
        project_of(opts, env) is None
            ==> refuses(Op::IamGetServiceAccount, opts, env, "missing project"@),
        project_of(opts, env) is Some && opts.str_at("email"@) is None
            ==> refuses(Op::IamGetServiceAccount, opts, env, "missing email"@),
        project_of(opts, env) is Some && opts.str_at("email"@) is Some ==> ({
            let project = project_of(opts, env)->0;
            let email = opts.str_at("email"@)->0;
            &&& call_of(Op::IamGetServiceAccount, opts, env) is Ok
            &&& ({
                let sent = call_of(Op::IamGetServiceAccount, opts, env)->Ok_0;
                &&& sent.method == Method::Get
                &&& asks_for(
                        sent.url,
                        "https://iam.googleapis.com/v1/"@,
                        seq!["projects"@, project, "serviceAccounts"@, email],
                        None,
                        Seq::empty(),
                    )
                &&& sent.query == Seq::<(Seq<char>, Seq<char>)>::empty()
                &&& sent.headers == Seq::<(Seq<char>, Seq<char>)>::empty()
                &&& sent.body == BodyView::Empty
            })
        }),
{
    lemma_names();
    if project_of(opts, env) is Some && opts.str_at("email"@) is Some {
        let project = project_of(opts, env)->0;
        let email = opts.str_at("email"@)->0;
        lemma_iam_service_accounts_email(project, email);
    }
}

/// The resource is the answer.
pub proof fn iam_get_service_account_gives(opts: JsonView, env: EnvView, body: JsonView)
    requires
        call_of(Op::IamGetServiceAccount, opts, env) is Ok,
    ensures
        result_of(Op::IamGetServiceAccount, opts, env, ReplyView::Document(body)) is Ok,
        ({
            let email = opts.str_at("email"@)->0;
            let given = result_of(Op::IamGetServiceAccount, opts, env,
                ReplyView::Document(body))->Ok_0;
            &&& has_members(given, set!["email"@, "resource"@])
            &&& given.at("email"@) == JsonView::Str(email)
            &&& given.at("resource"@) == body
        }),
{
    lemma_names();
}

} // verus!
