//! Secret Manager: how the requests are read, and what the results hold.

use vstd::prelude::*;
use vstd::string::*;
use vstd::utf8::{decode_utf8, encode_utf8, valid_utf8};

use crate::bridge::{call_of, result_of, Op, ReplyView};
use crate::codec::{base64_decoding, base64_encoding, url_encoded};
use crate::json::JsonView;
use crate::ops::named_leaf;
use crate::options::{project_of, EnvView};
use crate::request::{BodyView, Method};
use crate::resource_name::leaf;
use crate::url::{asks_for, lemma_ends_in, lemma_same_target, target};
use super::{has_members, lemma_kept, refuses};
use super::urls::{
    lemma_secretmanager_secrets, lemma_secretmanager_secrets_secret,
    lemma_secretmanager_secrets_secret_add_version, lemma_secretmanager_secrets_secret_id,
    lemma_secretmanager_secrets_versions, lemma_secretmanager_secrets_versions_version_access,
};

verus! {

/// The names of members differ.
proof fn lemma_names()
    ensures
        "added"@.len() == 5,
        "automatic"@.len() == 9,
        "create_time"@.len() == 11,
        "created"@.len() == 7,
        "data"@.len() == 4,
        "deleted"@.len() == 7,
        "name"@.len() == 4,
        "payload"@.len() == 7,
        "project"@.len() == 7,
        "replication"@.len() == 11,
        "secret"@.len() == 6,
        "secrets"@.len() == 7,
        "state"@.len() == 5,
        "value"@.len() == 5,
        "version"@.len() == 7,
        "versions"@.len() == 8,
        "project"@ != "secrets"@,
{
    reveal_strlit("added");
    reveal_strlit("automatic");
    reveal_strlit("create_time");
    reveal_strlit("created");
    reveal_strlit("data");
    reveal_strlit("deleted");
    reveal_strlit("name");
    reveal_strlit("payload");
    reveal_strlit("project");
    reveal_strlit("replication");
    reveal_strlit("secret");
    reveal_strlit("secrets");
    reveal_strlit("state");
    reveal_strlit("value");
    reveal_strlit("version");
    reveal_strlit("versions");
    assert("project"@[0] != "secrets"@[0]);
}

/// Accessing a secret asks for the version that is given, for the latest where none is.
pub proof fn secret_access_asks(opts: JsonView, env: EnvView)
    ensures
        project_of(opts, env) is None ==> refuses(Op::SecretAccess, opts, env, "missing project"@),
        project_of(opts, env) is Some && opts.str_at("secret"@) is None
            ==> refuses(Op::SecretAccess, opts, env, "missing secret"@),
        project_of(opts, env) is Some && opts.str_at("secret"@) is Some ==> ({
            let project = project_of(opts, env)->0;
            let secret = opts.str_at("secret"@)->0;
            let version = opts.str_or("version"@, "latest"@);
            &&& call_of(Op::SecretAccess, opts, env) is Ok
            &&& ({
                let sent = call_of(Op::SecretAccess, opts, env)->Ok_0;
                &&& sent.method == Method::Get
                &&& asks_for(
                        sent.url,
                        "https://secretmanager.googleapis.com/v1/"@,
                        seq!["projects"@, project, "secrets"@, secret, "versions"@, version],
                        Some("access"@),
                        Seq::empty(),
                    )
                &&& sent.query == Seq::<(Seq<char>, Seq<char>)>::empty()
                &&& sent.headers == Seq::<(Seq<char>, Seq<char>)>::empty()
                &&& sent.body == BodyView::Empty
            })
        }),
{
    lemma_names();
    if project_of(opts, env) is Some && opts.str_at("secret"@) is Some {
        let project = project_of(opts, env)->0;
        let secret = opts.str_at("secret"@)->0;
        let version = opts.str_or("version"@, "latest"@);
        lemma_secretmanager_secrets_versions_version_access(project, secret, version);
    }
}

/// Creating a secret asks the project for it under its id, replicated automatically.
pub proof fn secret_create_asks(opts: JsonView, env: EnvView)
    ensures
        project_of(opts, env) is None ==> refuses(Op::SecretCreate, opts, env, "missing project"@),
        project_of(opts, env) is Some && opts.str_at("secret"@) is None
            ==> refuses(Op::SecretCreate, opts, env, "missing secret"@),
        project_of(opts, env) is Some && opts.str_at("secret"@) is Some ==> ({
            let project = project_of(opts, env)->0;
            let secret = opts.str_at("secret"@)->0;
            &&& call_of(Op::SecretCreate, opts, env) is Ok
            &&& ({
                let sent = call_of(Op::SecretCreate, opts, env)->Ok_0;
                let content = sent.body->Json_0;
                &&& sent.method == Method::Post
                &&& asks_for(
                        sent.url,
                        "https://secretmanager.googleapis.com/v1/"@,
                        seq!["projects"@, project, "secrets"@],
                        None,
                        seq![("secretId"@, secret)],
                    )
                &&& sent.query == Seq::<(Seq<char>, Seq<char>)>::empty()
                &&& sent.headers == Seq::<(Seq<char>, Seq<char>)>::empty()
                &&& sent.body is Json
                &&& has_members(content, set!["replication"@])
                &&& has_members(content.at("replication"@), set!["automatic"@])
                &&& content.at("replication"@).at("automatic"@) == JsonView::Obj(Map::empty())
            })
        }),
{
    lemma_names();
    if project_of(opts, env) is Some && opts.str_at("secret"@) is Some {
        let project = project_of(opts, env)->0;
        let secret = opts.str_at("secret"@)->0;
        lemma_secretmanager_secrets_secret_id(project, secret);
    }
}

/// The result names the secret that was created.
pub proof fn secret_create_gives(opts: JsonView, env: EnvView, body: JsonView)
    requires
        call_of(Op::SecretCreate, opts, env) is Ok,
    ensures
        result_of(Op::SecretCreate, opts, env, ReplyView::Document(body)) is Ok,
        ({
            let secret = opts.str_at("secret"@)->0;
            let given = result_of(Op::SecretCreate, opts, env, ReplyView::Document(body))->Ok_0;
            &&& has_members(given, set!["secret"@, "created"@])
            &&& given.at("secret"@) == JsonView::Str(leaf(body.str_or("name"@, secret)))
            &&& given.at("created"@) == JsonView::Bool(true)
        }),
{
    lemma_names();
}

/// Adding a version sends the value in base64 to the secret.
pub proof fn secret_add_version_asks(opts: JsonView, env: EnvView)
    ensures
        project_of(opts, env) is None
            ==> refuses(Op::SecretAddVersion, opts, env, "missing project"@),
        project_of(opts, env) is Some && opts.str_at("secret"@) is None
            ==> refuses(Op::SecretAddVersion, opts, env, "missing secret"@),
        project_of(opts, env) is Some && opts.str_at("secret"@) is Some
            && opts.str_at("value"@) is None
            ==> refuses(Op::SecretAddVersion, opts, env, "missing value"@),
        project_of(opts, env) is Some && opts.str_at("secret"@) is Some
            && opts.str_at("value"@) is Some ==> ({
            let project = project_of(opts, env)->0;
            let secret = opts.str_at("secret"@)->0;
            let value = opts.str_at("value"@)->0;
            &&& call_of(Op::SecretAddVersion, opts, env) is Ok
            &&& ({
                let sent = call_of(Op::SecretAddVersion, opts, env)->Ok_0;
                let content = sent.body->Json_0;
                &&& sent.method == Method::Post
                &&& asks_for(
                        sent.url,
                        "https://secretmanager.googleapis.com/v1/"@,
                        seq!["projects"@, project, "secrets"@, secret],
                        Some("addVersion"@),
                        Seq::empty(),
                    )
                &&& sent.query == Seq::<(Seq<char>, Seq<char>)>::empty()
                &&& sent.headers == Seq::<(Seq<char>, Seq<char>)>::empty()
                &&& sent.body is Json
                &&& has_members(content, set!["payload"@])
                &&& has_members(content.at("payload"@), set!["data"@])
                &&& content.at("payload"@).at("data"@)
                    == JsonView::Str(base64_encoding(encode_utf8(value)))
            })
        }),
{
    lemma_names();
    if project_of(opts, env) is Some && opts.str_at("secret"@) is Some
        && opts.str_at("value"@) is Some {
        let project = project_of(opts, env)->0;
        let secret = opts.str_at("secret"@)->0;
        lemma_secretmanager_secrets_secret_add_version(project, secret);
    }
}

/// The result names the version that was added.
pub proof fn secret_add_version_gives(opts: JsonView, env: EnvView, body: JsonView)
    requires
        call_of(Op::SecretAddVersion, opts, env) is Ok,
    ensures
        result_of(Op::SecretAddVersion, opts, env, ReplyView::Document(body)) is Ok,
        ({
            let given = result_of(Op::SecretAddVersion, opts, env, ReplyView::Document(body))->Ok_0;
            &&& has_members(given, set!["version"@, "added"@])
            &&& given.at("version"@) == JsonView::Str(leaf(body.str_or("name"@, ""@)))
            &&& given.at("added"@) == JsonView::Bool(true)
        }),
{
    lemma_names();
}

/// Listing versions asks for those of the secret.
pub proof fn secret_list_versions_asks(opts: JsonView, env: EnvView)
    ensures
        project_of(opts, env) is None
            ==> refuses(Op::SecretListVersions, opts, env, "missing project"@),
        project_of(opts, env) is Some && opts.str_at("secret"@) is None
            ==> refuses(Op::SecretListVersions, opts, env, "missing secret"@),
        project_of(opts, env) is Some && opts.str_at("secret"@) is Some ==> ({
            let project = project_of(opts, env)->0;
            let secret = opts.str_at("secret"@)->0;
            &&& call_of(Op::SecretListVersions, opts, env) is Ok
            &&& ({
                let sent = call_of(Op::SecretListVersions, opts, env)->Ok_0;
                &&& sent.method == Method::Get
                &&& asks_for(
                        sent.url,
                        "https://secretmanager.googleapis.com/v1/"@,
                        seq!["projects"@, project, "secrets"@, secret, "versions"@],
                        None,
                        Seq::empty(),
                    )
                &&& sent.query == Seq::<(Seq<char>, Seq<char>)>::empty()
                &&& sent.headers == Seq::<(Seq<char>, Seq<char>)>::empty()
                &&& sent.body == BodyView::Empty
            })
        }),
{
    lemma_names();
    if project_of(opts, env) is Some && opts.str_at("secret"@) is Some {
        let project = project_of(opts, env)->0;
        let secret = opts.str_at("secret"@)->0;
        lemma_secretmanager_secrets_versions(project, secret);
    }
}

/// Each version of the answer stands in its place.
pub proof fn secret_list_versions_gives(opts: JsonView, env: EnvView, body: JsonView)
    requires
        call_of(Op::SecretListVersions, opts, env) is Ok,
    ensures
        result_of(Op::SecretListVersions, opts, env, ReplyView::Document(body)) is Ok,
        ({
            let secret = opts.str_at("secret"@)->0;
            let given = result_of(Op::SecretListVersions, opts, env,
                ReplyView::Document(body))->Ok_0;
            &&& has_members(given, set!["secret"@, "versions"@])
            &&& given.at("secret"@) == JsonView::Str(secret)
            &&& given.at("versions"@) is Arr
            &&& given.at("versions"@)->Arr_0.len() == body.list("versions"@).len()
            &&& forall|i: int| 0 <= i < body.list("versions"@).len() ==> {
                    let row = #[trigger] given.at("versions"@)->Arr_0[i];
                    let o = body.list("versions"@)[i];
                    &&& has_members(row, set!["name"@, "state"@, "create_time"@])
                    &&& row.at("name"@) == JsonView::Str(leaf(o.str_or("name"@, ""@)))
                    &&& row.at("state"@) == JsonView::Str(o.str_or("state"@, ""@))
                    &&& row.at("create_time"@) == JsonView::Str(o.str_or("createTime"@, ""@))
                }
        }),
{
    lemma_names();
}

/// Deleting a secret asks for it under the project.
pub proof fn secret_delete_asks(opts: JsonView, env: EnvView)
    ensures
        project_of(opts, env) is None ==> refuses(Op::SecretDelete, opts, env, "missing project"@),
        project_of(opts, env) is Some && opts.str_at("secret"@) is None
            ==> refuses(Op::SecretDelete, opts, env, "missing secret"@),
        project_of(opts, env) is Some && opts.str_at("secret"@) is Some ==> ({
            let project = project_of(opts, env)->0;
            let secret = opts.str_at("secret"@)->0;
            &&& call_of(Op::SecretDelete, opts, env) is Ok
            &&& ({
                let sent = call_of(Op::SecretDelete, opts, env)->Ok_0;
                &&& sent.method == Method::Delete
                &&& asks_for(
                        sent.url,
                        "https://secretmanager.googleapis.com/v1/"@,
                        seq!["projects"@, project, "secrets"@, secret],
                        None,
                        Seq::empty(),
                    )
                &&& sent.query == Seq::<(Seq<char>, Seq<char>)>::empty()
                &&& sent.headers == Seq::<(Seq<char>, Seq<char>)>::empty()
                &&& sent.body == BodyView::Empty
            })
        }),
{
    lemma_names();
    if project_of(opts, env) is Some && opts.str_at("secret"@) is Some {
        let project = project_of(opts, env)->0;
        let secret = opts.str_at("secret"@)->0;
        lemma_secretmanager_secrets_secret(project, secret);
    }
}

/// The result names the secret that was deleted.
pub proof fn secret_delete_gives(opts: JsonView, env: EnvView, reply: ReplyView)
    requires
        call_of(Op::SecretDelete, opts, env) is Ok,
    ensures
        result_of(Op::SecretDelete, opts, env, reply) is Ok,
        ({
            let secret = opts.str_at("secret"@)->0;
            let given = result_of(Op::SecretDelete, opts, env, reply)->Ok_0;
            &&& has_members(given, set!["secret"@, "deleted"@])
            &&& given.at("secret"@) == JsonView::Str(secret)
            &&& given.at("deleted"@) == JsonView::Bool(true)
        }),
{
    lemma_names();
}

/// Listing secrets asks for those of the project.
pub proof fn secret_list_asks(opts: JsonView, env: EnvView)
    ensures
        project_of(opts, env) is None ==> refuses(Op::SecretList, opts, env, "missing project"@),
        project_of(opts, env) is Some ==> ({
            let project = project_of(opts, env)->0;
            &&& call_of(Op::SecretList, opts, env) is Ok
            &&& ({
                let sent = call_of(Op::SecretList, opts, env)->Ok_0;
                &&& sent.method == Method::Get
                &&& asks_for(
                        sent.url,
                        "https://secretmanager.googleapis.com/v1/"@,
                        seq!["projects"@, project, "secrets"@],
                        None,
                        Seq::empty(),
                    )
                &&& sent.query == Seq::<(Seq<char>, Seq<char>)>::empty()
                &&& sent.headers == Seq::<(Seq<char>, Seq<char>)>::empty()
                &&& sent.body == BodyView::Empty
            })
        }),
{
    lemma_names();
    if project_of(opts, env) is Some {
        let project = project_of(opts, env)->0;
        lemma_secretmanager_secrets(project);
    }
}

/// The secrets are the last parts of the names in the answer, in their order.
pub proof fn secret_list_gives(opts: JsonView, env: EnvView, body: JsonView)
    requires
        call_of(Op::SecretList, opts, env) is Ok,
    ensures
        result_of(Op::SecretList, opts, env, ReplyView::Document(body)) is Ok,
        ({
            let project = project_of(opts, env)->0;
            let given = result_of(Op::SecretList, opts, env, ReplyView::Document(body))->Ok_0;
            &&& has_members(given, set!["project"@, "secrets"@])
            &&& given.at("project"@) == JsonView::Str(project)
            &&& given.at("secrets"@) == JsonView::Arr(
                    body.list("secrets"@).filter(|o: JsonView| o.at("name"@) is Str).map_values(
                        |o: JsonView| JsonView::Str(leaf(o.at("name"@)->Str_0)),
                    ),
                )
        }),
{
    lemma_names();
    lemma_kept(
        body.list("secrets"@),
        |o: JsonView| named_leaf(o),
        |o: JsonView| o.at("name"@) is Str,
        |o: JsonView| JsonView::Str(leaf(o.at("name"@)->Str_0)),
    );
}

/// The result of accessing a secret: its value is what the payload of the answer encodes in base64,
/// marked where that is no text; where the payload is no base64, that is complained of.
pub proof fn secret_access_gives(opts: JsonView, env: EnvView, body: JsonView)
    requires
        call_of(Op::SecretAccess, opts, env) is Ok,
    ensures
        ({
            let given = result_of(Op::SecretAccess, opts, env, ReplyView::Document(body));
            let data = base64_decoding(body.at("payload"@).str_or("data"@, ""@));
            &&& data matches Err(message) ==> given == Err::<JsonView, Seq<char>>(
                "decoding secret payload: "@ + message,
            )
            &&& data matches Ok(b) ==> given is Ok && ({
                &&& has_members(given->Ok_0, set!["secret"@, "version"@, "value"@])
                &&& given->Ok_0.at("secret"@) == JsonView::Str(opts.str_at("secret"@)->0)
                &&& given->Ok_0.at("version"@) == JsonView::Str(opts.str_or("version"@, "latest"@))
                &&& valid_utf8(b) ==> given->Ok_0.at("value"@) == JsonView::Str(decode_utf8(b))
                &&& !valid_utf8(b) ==> given->Ok_0.at("value"@) == JsonView::Str(
                    "base64:"@ + base64_encoding(b),
                )
            })
        }),
{
    lemma_names();
}

/// The access request names the version that the result names: its URL ends in that version.
pub proof fn accessed_version_is_the_one_named(opts: JsonView, env: EnvView, body: JsonView)
    requires
        result_of(Op::SecretAccess, opts, env, ReplyView::Document(body)) is Ok,
    ensures
        ({
            let asked = call_of(Op::SecretAccess, opts, env);
            let given = result_of(Op::SecretAccess, opts, env, ReplyView::Document(body))->Ok_0;
            &&& asked is Ok
            &&& given.at("version"@) matches JsonView::Str(v) && ("/versions/"@ + url_encoded(v)
                + ":access"@).is_suffix_of(asked->Ok_0.url)
        }),
{
    lemma_names();
    let v = opts.str_or("version"@, "latest"@);
    let front = "https://secretmanager.googleapis.com/v1/projects/"@ + url_encoded(
        project_of(opts, env)->0,
    ) + "/secrets/"@ + url_encoded(opts.str_at("secret"@)->0);
    lemma_ends_in(front, "/versions/"@, url_encoded(v), ":access"@);
}

/// Requests for two different versions of a secret go to different URLs.
pub proof fn different_versions_are_asked_for_apart(one: JsonView, other: JsonView, env: EnvView)
    requires
        call_of(Op::SecretAccess, one, env) is Ok,
        call_of(Op::SecretAccess, other, env) is Ok,
        one.str_or("version"@, "latest"@) != other.str_or("version"@, "latest"@),
    ensures
        call_of(Op::SecretAccess, one, env)->Ok_0.url != call_of(
            Op::SecretAccess,
            other,
            env,
        )->Ok_0.url,
{
    secret_access_asks(one, env);
    secret_access_asks(other, env);
    let a = call_of(Op::SecretAccess, one, env)->Ok_0.url;
    let b = call_of(Op::SecretAccess, other, env)->Ok_0.url;
    lemma_same_target(a, b, "https://secretmanager.googleapis.com/v1/"@);
    assert(target(a, "https://secretmanager.googleapis.com/v1/"@)->0.steps[5] == one.str_or(
        "version"@,
        "latest"@,
    ));
    assert(target(b, "https://secretmanager.googleapis.com/v1/"@)->0.steps[5] == other.str_or(
        "version"@,
        "latest"@,
    ));
}

} // verus!
