//! IAM.

use vstd::prelude::*;
use vstd::string::*;

use crate::codec::url_encoded;
use crate::json::{rows, Json, JsonView, Members};
use crate::options::{
    need, need_array, need_project, require, require_array, require_project, Env, EnvView,
};
use crate::request::{bare, outcome, prepared, Draft, Error, Method, Request, RequestView};
use super::{copied, list_json};

verus! {

/// The request of `iam_get_policy`, or what is answered where it cannot be made.
pub open spec fn iam_get_policy_call(opts: JsonView, env: EnvView) -> Result<
    RequestView,
    Seq<char>,
> {
    match need(opts, "url"@, "missing url (full :getIamPolicy endpoint)"@) {
        Err(e) => Err(e),
        Ok(url) => Ok(
            bare(
                Method::Get,
                url,
            ),
        ),
    }
}

/// Asks for the policy at `url`, a `:getIamPolicy` endpoint.
pub fn iam_get_policy_request(opts: &Json, env: &Env) -> (r: Result<Request, Error>)
    ensures
        prepared(r) == iam_get_policy_call(opts@, env@),
{
    let url: &str = require(opts, "url", "missing url (full :getIamPolicy endpoint)")?;
    Ok(
        Request::new(
            Method::Get,
            Draft::new(url),
        ),
    )
}

/// The result of `iam_get_policy`, where the service answers `body`.
pub open spec fn iam_get_policy_result(opts: JsonView, env: EnvView, body: JsonView) -> Result<
    JsonView,
    Seq<char>,
> {
    match need(opts, "url"@, "missing url (full :getIamPolicy endpoint)"@) {
        Err(e) => Err(e),
        Ok(url) => Ok(
            JsonView::Obj(
                map![
                    "policy"@ => body,
                ],
            ),
        ),
    }
}

/// The result of the operation, where the service answers `body`.
pub fn op_iam_get_policy(opts: &Json, env: &Env, body: &Json) -> (r: Result<Json, Error>)
    ensures
        outcome(r) == iam_get_policy_result(opts@, env@, body@),
{
    require(opts, "url", "missing url (full :getIamPolicy endpoint)")?;
    Ok(
        Json::Object(
            Members::new()
                .with("policy", body.copy()),
        ),
    )
}

/// The request of `iam_test_permissions`, or what is answered where it cannot be made.
pub open spec fn iam_test_permissions_call(opts: JsonView, env: EnvView) -> Result<
    RequestView,
    Seq<char>,
> {
    match need(opts, "url"@, "missing url (full :testIamPermissions endpoint)"@) {
        Err(e) => Err(e),
        Ok(url) => match need_array(opts, "permissions"@, "missing permissions (array)"@) {
            Err(e) => Err(e),
            Ok(permissions) => Ok(
                bare(
                    Method::Post,
                    url,
                ).json(
                    JsonView::Obj(
                        map![
                            "permissions"@ => JsonView::Arr(permissions),
                        ],
                    ),
                ),
            ),
        },
    }
}

/// Asks which of `permissions` the caller has at `url`, a `:testIamPermissions` endpoint.
pub fn iam_test_permissions_request(opts: &Json, env: &Env) -> (r: Result<Request, Error>)
    ensures
        prepared(r) == iam_test_permissions_call(opts@, env@),
{
    let url: &str = require(opts, "url", "missing url (full :testIamPermissions endpoint)")?;
    let permissions: &Vec<Json> = require_array(opts, "permissions", "missing permissions (array)")?;
    Ok(
        Request::new(
            Method::Post,
            Draft::new(url),
        ).json(
            Json::Object(
                Members::new()
                    .with("permissions", copied(permissions)),
            ),
        ),
    )
}

/// The result of `iam_test_permissions`, where the service answers `body`.
pub open spec fn iam_test_permissions_result(
    opts: JsonView,
    env: EnvView,
    body: JsonView,
) -> Result<
    JsonView,
    Seq<char>,
> {
    match need(opts, "url"@, "missing url (full :testIamPermissions endpoint)"@) {
        Err(e) => Err(e),
        Ok(url) => match need_array(opts, "permissions"@, "missing permissions (array)"@) {
            Err(e) => Err(e),
            Ok(permissions) => Ok(
                JsonView::Obj(
                    map![
                        "permissions"@ => JsonView::Arr(body.list("permissions"@)),
                    ],
                ),
            ),
        },
    }
}

/// The result of the operation, where the service answers `body`.
pub fn op_iam_test_permissions(opts: &Json, env: &Env, body: &Json) -> (r: Result<Json, Error>)
    ensures
        outcome(r) == iam_test_permissions_result(opts@, env@, body@),
{
    require(opts, "url", "missing url (full :testIamPermissions endpoint)")?;
    let permissions: &Vec<Json> = require_array(opts, "permissions", "missing permissions (array)")?;
    Ok(
        Json::Object(
            Members::new()
                .with("permissions", list_json(body, "permissions")),
        ),
    )
}

/// A service account in a listing.
pub open spec fn account_row(o: JsonView) -> JsonView {
    JsonView::Obj(
        map![
            "email"@ => o.at("email"@),
            "display_name"@ => o.at("displayName"@),
            "unique_id"@ => o.at("uniqueId"@),
        ],
    )
}

fn account_row_json(o: &Json) -> (r: Json)
    ensures
        r@ == account_row(o@),
{
    Json::Object(
        Members::new()
            .with("email", o.at("email"))
            .with("display_name", o.at("displayName"))
            .with("unique_id", o.at("uniqueId")),
    )
}

/// The request of `iam_list_service_accounts`, or what is answered where it cannot be made.
pub open spec fn iam_list_service_accounts_call(opts: JsonView, env: EnvView) -> Result<
    RequestView,
    Seq<char>,
> {
    match need_project(opts, env) {
        Err(e) => Err(e),
        Ok(project) => Ok(
            bare(
                Method::Get,
                "https://iam.googleapis.com/v1/projects/"@ + url_encoded(project)
                    + "/serviceAccounts"@,
            ),
        ),
    }
}

/// Lists the service accounts of the project.
pub fn iam_list_service_accounts_request(opts: &Json, env: &Env) -> (r: Result<Request, Error>)
    ensures
        prepared(r) == iam_list_service_accounts_call(opts@, env@),
{
    let project: String = require_project(opts, env)?;
    Ok(
        Request::new(
            Method::Get,
            Draft::new("https://iam.googleapis.com/v1/projects/")
                .enc(project.as_str()).lit("/serviceAccounts"),
        ),
    )
}

/// The result of `iam_list_service_accounts`, where the service answers `body`.
pub open spec fn iam_list_service_accounts_result(
    opts: JsonView,
    env: EnvView,
    body: JsonView,
) -> Result<
    JsonView,
    Seq<char>,
> {
    match need_project(opts, env) {
        Err(e) => Err(e),
        Ok(project) => Ok(
            JsonView::Obj(
                map![
                    "project"@ => JsonView::Str(project),
                    "service_accounts"@ => JsonView::Arr(body.list("accounts"@).map_values(|o: JsonView| account_row(o))),
                ],
            ),
        ),
    }
}

/// The result of the operation, where the service answers `body`.
pub fn op_iam_list_service_accounts(opts: &Json, env: &Env, body: &Json) -> (r: Result<Json, Error>)
    ensures
        outcome(r) == iam_list_service_accounts_result(opts@, env@, body@),
{
    let project: String = require_project(opts, env)?;
    Ok(
        Json::Object(
            Members::new()
                .with("project", Json::text(project.as_str()))
                .with("service_accounts", rows(body, "accounts", account_row_json, Ghost(|o: JsonView| account_row(o)))),
        ),
    )
}

/// The request of `iam_get_service_account`, or what is answered where it cannot be made.
pub open spec fn iam_get_service_account_call(opts: JsonView, env: EnvView) -> Result<
    RequestView,
    Seq<char>,
> {
    match need_project(opts, env) {
        Err(e) => Err(e),
        Ok(project) => match need(opts, "email"@, "missing email"@) {
            Err(e) => Err(e),
            Ok(email) => Ok(
                bare(
                    Method::Get,
                    "https://iam.googleapis.com/v1/projects/"@ + url_encoded(project)
                        + "/serviceAccounts/"@ + url_encoded(email),
                ),
            ),
        },
    }
}

/// Asks for the service account with `email`.
pub fn iam_get_service_account_request(opts: &Json, env: &Env) -> (r: Result<Request, Error>)
    ensures
        prepared(r) == iam_get_service_account_call(opts@, env@),
{
    let project: String = require_project(opts, env)?;
    let email: &str = require(opts, "email", "missing email")?;
    Ok(
        Request::new(
            Method::Get,
            Draft::new("https://iam.googleapis.com/v1/projects/")
                .enc(project.as_str()).lit("/serviceAccounts/").enc(email),
        ),
    )
}

/// The result of `iam_get_service_account`, where the service answers `body`.
pub open spec fn iam_get_service_account_result(
    opts: JsonView,
    env: EnvView,
    body: JsonView,
) -> Result<
    JsonView,
    Seq<char>,
> {
    match need_project(opts, env) {
        Err(e) => Err(e),
        Ok(project) => match need(opts, "email"@, "missing email"@) {
            Err(e) => Err(e),
            Ok(email) => Ok(
                JsonView::Obj(
                    map![
                        "email"@ => JsonView::Str(email),
                        "resource"@ => body,
                    ],
                ),
            ),
        },
    }
}

/// The result of the operation, where the service answers `body`.
pub fn op_iam_get_service_account(opts: &Json, env: &Env, body: &Json) -> (r: Result<Json, Error>)
    ensures
        outcome(r) == iam_get_service_account_result(opts@, env@, body@),
{
    require_project(opts, env)?;
    let email: &str = require(opts, "email", "missing email")?;
    Ok(
        Json::Object(
            Members::new()
                .with("email", Json::text(email))
                .with("resource", body.copy()),
        ),
    )
}

} // verus!
