//! Who is calling: the project, and where the credentials come from.

use vstd::prelude::*;
use vstd::string::*;

use crate::common::chosen_project;
use crate::json::{str_or_null, Json, JsonView, Members};
use crate::options::{opt_str, project_of, resolve_project, Env, EnvView};

verus! {

/// The source of the credentials: the file that `GOOGLE_APPLICATION_CREDENTIALS` names, where it
/// is set, else the default chain.
pub open spec fn credentials_source(env: EnvView) -> Seq<char> {
    match env.application_credentials {
        Some(_) => "GOOGLE_APPLICATION_CREDENTIALS file"@,
        None => "Application Default Credentials chain"@,
    }
}

/// What is said of a caller whose credentials work.
pub open spec fn identity_object(project: Option<Seq<char>>, env: EnvView) -> JsonView {
    JsonView::Obj(
        map![
            "ok"@ => JsonView::Bool(true),
            "project"@ => str_or_null(project),
            "credentials_source"@ => JsonView::Str(credentials_source(env)),
            "credentials_path"@ => str_or_null(env.application_credentials),
        ],
    )
}

fn identity_json(project: Option<&str>, env: &Env) -> (r: Json)
    ensures
        r@ == identity_object(opt_str(project), env@),
{
    let path: Option<&str> = match &env.application_credentials {
        Some(p) => Some(p.as_str()),
        None => None,
    };
    let source: &str = match path {
        Some(_) => "GOOGLE_APPLICATION_CREDENTIALS file",
        None => "Application Default Credentials chain",
    };
    Json::Object(
        Members::new()
            .with("ok", Json::Bool(true))
            .with("project", Json::text_or_null(project))
            .with("credentials_source", Json::text(source))
            .with("credentials_path", Json::text_or_null(path)),
    )
}

/// The result of the operation, where the credentials work.
pub fn op_identity(opts: &Json, env: &Env) -> (r: Json)
    ensures
        r@ == identity_object(project_of(opts@, env@), env@),
{
    let project: Option<String> = resolve_project(opts, env);
    match project {
        Some(p) => identity_json(Some(p.as_str()), env),
        None => identity_json(None, env),
    }
}

/// The project of a command, none where it has none.
pub open spec fn known_project(explicit: Option<Seq<char>>, env: EnvView) -> Option<Seq<char>> {
    match chosen_project(explicit, env) {
        Ok(p) => Some(p),
        Err(_) => None,
    }
}

/// What the command says, where the credentials work.
pub fn identity(project: Option<&str>, env: &Env) -> (r: Json)
    ensures
        r@ == identity_object(known_project(opt_str(project), env@), env@),
{
    match crate::common::resolve_project(project, env) {
        Ok(p) => identity_json(Some(p.as_str()), env),
        Err(_) => identity_json(None, env),
    }
}

} // verus!
