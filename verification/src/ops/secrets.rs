//! Secret Manager.

use vstd::prelude::*;
use vstd::string::*;
use vstd::utf8::{encode_utf8, encode_utf8_decode_utf8, encode_utf8_valid_utf8};

use crate::codec::{
    base64_decode, base64_decoding, base64_encode, base64_encoding, decoded_view, url_encoded,
};
use crate::common::string_view;
use crate::json::{kept, picks, rows, Json, JsonView, Members};
use crate::options::{need, need_project, require, require_project, Env, EnvView};
use crate::request::{bare, outcome, prepared, Draft, Error, Method, Request, RequestView};
use crate::resource_name::{leaf, leaf_name};
use super::storage::{readable, readable_text};
use super::{named_leaf, named_leaf_json};

verus! {

/// The payload that decoded data holds, or what is answered where it could not be decoded.
pub open spec fn decoded_payload(decoded: Result<Seq<u8>, Seq<char>>) -> Result<
    Seq<char>,
    Seq<char>,
> {
    match decoded {
        Ok(bytes) => Ok(readable(bytes)),
        Err(message) => Err("decoding secret payload: "@ + message),
    }
}

/// The payload of a secret that is read from its encoding, or what is answered where it is none.
pub open spec fn payload(data: Seq<char>) -> Result<Seq<char>, Seq<char>> {
    decoded_payload(base64_decoding(data))
}

/// The payload that decoded data holds.
pub fn payload_of_decoded(decoded: Result<Vec<u8>, String>) -> (r: Result<String, Error>)
    ensures
        string_view(r) == decoded_payload(decoded_view(decoded)),
{
    match decoded {
        Ok(bytes) => Ok(readable_text(&bytes)),
        Err(message) => Err(
            Draft::new("decoding secret payload: ").lit(message.as_str()).error(),
        ),
    }
}

/// The request of `secret_access`, or what is answered where it cannot be made.
pub open spec fn secret_access_call(opts: JsonView, env: EnvView) -> Result<
    RequestView,
    Seq<char>,
> {
    match need_project(opts, env) {
        Err(e) => Err(e),
        Ok(project) => match need(opts, "secret"@, "missing secret"@) {
            Err(e) => Err(e),
            Ok(secret) => {
                let version = opts.str_or("version"@, "latest"@);
                Ok(
                    bare(
                        Method::Get,
                        "https://secretmanager.googleapis.com/v1/projects/"@
                            + url_encoded(project) + "/secrets/"@ + url_encoded(secret)
                            + "/versions/"@ + url_encoded(version) + ":access"@,
                    ),
                )
            },
        },
    }
}

/// Asks for the payload of `version` of `secret`, the latest where none is given.
pub fn secret_access_request(opts: &Json, env: &Env) -> (r: Result<Request, Error>)
    ensures
        prepared(r) == secret_access_call(opts@, env@),
{
    let project: String = require_project(opts, env)?;
    let secret: &str = require(opts, "secret", "missing secret")?;
    let version: &str = opts.str_or("version", "latest");
    Ok(
        Request::new(
            Method::Get,
            Draft::new("https://secretmanager.googleapis.com/v1/projects/")
                .enc(project.as_str()).lit("/secrets/").enc(secret)
                .lit("/versions/").enc(version).lit(":access"),
        ),
    )
}

/// The result of `secret_access`, where the data of the payload is decoded to that.
pub open spec fn secret_access_result_of(
    opts: JsonView,
    env: EnvView,
    decoded: Result<Seq<u8>, Seq<char>>,
) -> Result<JsonView, Seq<char>> {
    match need_project(opts, env) {
        Err(e) => Err(e),
        Ok(project) => match need(opts, "secret"@, "missing secret"@) {
            Err(e) => Err(e),
            Ok(secret) => match decoded_payload(decoded) {
                Err(e) => Err(e),
                Ok(value) => Ok(
                    JsonView::Obj(
                        map![
                            "secret"@ => JsonView::Str(secret),
                            "version"@ => JsonView::Str(opts.str_or("version"@, "latest"@)),
                            "value"@ => JsonView::Str(value),
                        ],
                    ),
                ),
            },
        },
    }
}

/// The data of the payload in an answer.
pub open spec fn payload_data(body: JsonView) -> Seq<char> {
    body.at("payload"@).str_or("data"@, ""@)
}

/// The result of `secret_access`, where the service answers `body`.
pub open spec fn secret_access_result(opts: JsonView, env: EnvView, body: JsonView) -> Result<
    JsonView,
    Seq<char>,
> {
    secret_access_result_of(opts, env, base64_decoding(payload_data(body)))
}

/// The result of the operation, where the data of the payload is decoded to that.
pub fn secret_accessed(opts: &Json, env: &Env, decoded: Result<Vec<u8>, String>) -> (r: Result<
    Json,
    Error,
>)
    ensures
        outcome(r) == secret_access_result_of(opts@, env@, decoded_view(decoded)),
{
    require_project(opts, env)?;
    let secret: &str = require(opts, "secret", "missing secret")?;
    let value: String = payload_of_decoded(decoded)?;
    Ok(
        Json::Object(
            Members::new()
                .with("secret", Json::text(secret))
                .with("version", Json::text(opts.str_or("version", "latest")))
                .with("value", Json::String(value)),
        ),
    )
}

/// The result of the operation, where the service answers `body`.
pub fn op_secret_access(opts: &Json, env: &Env, body: &Json) -> (r: Result<Json, Error>)
    ensures
        outcome(r) == secret_access_result(opts@, env@, body@),
{
    let decoded: Result<Vec<u8>, String> = base64_decode(body.at("payload").str_or("data", ""));
    secret_accessed(opts, env, decoded)
}

/// The request of `secret_create`, or what is answered where it cannot be made.
pub open spec fn secret_create_call(opts: JsonView, env: EnvView) -> Result<
    RequestView,
    Seq<char>,
> {
    match need_project(opts, env) {
        Err(e) => Err(e),
        Ok(project) => match need(opts, "secret"@, "missing secret"@) {
            Err(e) => Err(e),
            Ok(secret) => Ok(
                bare(
                    Method::Post,
                    "https://secretmanager.googleapis.com/v1/projects/"@
                        + url_encoded(project) + "/secrets?secretId="@ + url_encoded(secret),
                ).json(
                    JsonView::Obj(
                        map![
                            "replication"@ => JsonView::Obj(
                                map![
                                    "automatic"@ => JsonView::Obj(Map::empty()),
                                ],
                            ),
                        ],
                    ),
                ),
            ),
        },
    }
}

/// Creates `secret`, replicated automatically and without a version.
pub fn secret_create_request(opts: &Json, env: &Env) -> (r: Result<Request, Error>)
    ensures
        prepared(r) == secret_create_call(opts@, env@),
{
    let project: String = require_project(opts, env)?;
    let secret: &str = require(opts, "secret", "missing secret")?;
    Ok(
        Request::new(
            Method::Post,
            Draft::new("https://secretmanager.googleapis.com/v1/projects/")
                .enc(project.as_str()).lit("/secrets?secretId=").enc(secret),
        ).json(
            Json::Object(
                Members::new()
                    .with(
                        "replication",
                        Json::Object(
                            Members::new()
                                .with("automatic", Json::Object(Members::new())),
                        ),
                    ),
            ),
        ),
    )
}

/// The result of `secret_create`, where the service answers `body`.
pub open spec fn secret_create_result(opts: JsonView, env: EnvView, body: JsonView) -> Result<
    JsonView,
    Seq<char>,
> {
    match need_project(opts, env) {
        Err(e) => Err(e),
        Ok(project) => match need(opts, "secret"@, "missing secret"@) {
            Err(e) => Err(e),
            Ok(secret) => Ok(
                JsonView::Obj(
                    map![
                        "secret"@ => JsonView::Str(leaf(body.str_or("name"@, secret))),
                        "created"@ => JsonView::Bool(true),
                    ],
                ),
            ),
        },
    }
}

/// The result of the operation, where the service answers `body`.
pub fn op_secret_create(opts: &Json, env: &Env, body: &Json) -> (r: Result<Json, Error>)
    ensures
        outcome(r) == secret_create_result(opts@, env@, body@),
{
    require_project(opts, env)?;
    let secret: &str = require(opts, "secret", "missing secret")?;
    Ok(
        Json::Object(
            Members::new()
                .with("secret", Json::text(leaf_name(body.str_or("name", secret))))
                .with("created", Json::Bool(true)),
        ),
    )
}

/// The body of a request that adds a version with that data.
pub open spec fn version_body(sealed: Seq<char>) -> JsonView {
    JsonView::Obj(
        map!["payload"@ => JsonView::Obj(map!["data"@ => JsonView::Str(sealed)])],
    )
}

/// The body of a request that adds a version, whose data is the text `sealed`.
pub fn version_body_json(sealed: &str) -> (r: Json)
    ensures
        r@ == version_body(sealed@),
{
    Json::Object(
        Members::new()
            .with("payload", Json::Object(Members::new().with("data", Json::text(sealed)))),
    )
}

/// The request of `secret_add_version`, or what is answered where it cannot be made.
pub open spec fn secret_add_version_call(opts: JsonView, env: EnvView) -> Result<
    RequestView,
    Seq<char>,
> {
    match need_project(opts, env) {
        Err(e) => Err(e),
        Ok(project) => match need(opts, "secret"@, "missing secret"@) {
            Err(e) => Err(e),
            Ok(secret) => match need(opts, "value"@, "missing value"@) {
                Err(e) => Err(e),
                Ok(value) => Ok(
                    bare(
                        Method::Post,
                        "https://secretmanager.googleapis.com/v1/projects/"@
                            + url_encoded(project) + "/secrets/"@ + url_encoded(secret)
                            + ":addVersion"@,
                    ).json(version_body(base64_encoding(encode_utf8(value)))),
                ),
            },
        },
    }
}

/// Adds a version that holds `value` to `secret`. The value is what accessing the version gives
/// back.
pub fn secret_add_version_request(opts: &Json, env: &Env) -> (r: Result<Request, Error>)
    ensures
        prepared(r) == secret_add_version_call(opts@, env@),
        r is Ok ==> payload(base64_encoding(encode_utf8(opts@.str_at("value"@)->0))) == Ok::<
            Seq<char>,
            Seq<char>,
        >(opts@.str_at("value"@)->0),
{
    let project: String = require_project(opts, env)?;
    let secret: &str = require(opts, "secret", "missing secret")?;
    let value: &str = require(opts, "value", "missing value")?;
    let sealed: String = base64_encode(value.as_bytes());
    proof {
        encode_utf8_valid_utf8(value@);
        encode_utf8_decode_utf8(value@);
    }
    Ok(
        Request::new(
            Method::Post,
            Draft::new("https://secretmanager.googleapis.com/v1/projects/")
                .enc(project.as_str()).lit("/secrets/").enc(secret)
                .lit(":addVersion"),
        ).json(version_body_json(sealed.as_str())),
    )
}

/// The result of `secret_add_version`, where the service answers `body`.
pub open spec fn secret_add_version_result(opts: JsonView, env: EnvView, body: JsonView) -> Result<
    JsonView,
    Seq<char>,
> {
    match need_project(opts, env) {
        Err(e) => Err(e),
        Ok(project) => match need(opts, "secret"@, "missing secret"@) {
            Err(e) => Err(e),
            Ok(secret) => match need(opts, "value"@, "missing value"@) {
                Err(e) => Err(e),
                Ok(value) => Ok(
                    JsonView::Obj(
                        map![
                            "version"@ => JsonView::Str(leaf(body.str_or("name"@, ""@))),
                            "added"@ => JsonView::Bool(true),
                        ],
                    ),
                ),
            },
        },
    }
}

/// The result of the operation, where the service answers `body`.
pub fn op_secret_add_version(opts: &Json, env: &Env, body: &Json) -> (r: Result<Json, Error>)
    ensures
        outcome(r) == secret_add_version_result(opts@, env@, body@),
{
    require_project(opts, env)?;
    require(opts, "secret", "missing secret")?;
    require(opts, "value", "missing value")?;
    Ok(
        Json::Object(
            Members::new()
                .with("version", Json::text(leaf_name(body.str_or("name", ""))))
                .with("added", Json::Bool(true)),
        ),
    )
}

/// A version of a secret in a listing.
pub open spec fn version_row(o: JsonView) -> JsonView {
    JsonView::Obj(
        map![
            "name"@ => JsonView::Str(leaf(o.str_or("name"@, ""@))),
            "state"@ => JsonView::Str(o.str_or("state"@, ""@)),
            "create_time"@ => JsonView::Str(o.str_or("createTime"@, ""@)),
        ],
    )
}

fn version_row_json(o: &Json) -> (r: Json)
    ensures
        r@ == version_row(o@),
{
    Json::Object(
        Members::new()
            .with("name", Json::text(leaf_name(o.str_or("name", ""))))
            .with("state", Json::text(o.str_or("state", "")))
            .with("create_time", Json::text(o.str_or("createTime", ""))),
    )
}

/// The request of `secret_list_versions`, or what is answered where it cannot be made.
pub open spec fn secret_list_versions_call(opts: JsonView, env: EnvView) -> Result<
    RequestView,
    Seq<char>,
> {
    match need_project(opts, env) {
        Err(e) => Err(e),
        Ok(project) => match need(opts, "secret"@, "missing secret"@) {
            Err(e) => Err(e),
            Ok(secret) => Ok(
                bare(
                    Method::Get,
                    "https://secretmanager.googleapis.com/v1/projects/"@
                        + url_encoded(project) + "/secrets/"@ + url_encoded(secret)
                        + "/versions"@,
                ),
            ),
        },
    }
}

/// Lists the versions of `secret`.
pub fn secret_list_versions_request(opts: &Json, env: &Env) -> (r: Result<Request, Error>)
    ensures
        prepared(r) == secret_list_versions_call(opts@, env@),
{
    let project: String = require_project(opts, env)?;
    let secret: &str = require(opts, "secret", "missing secret")?;
    Ok(
        Request::new(
            Method::Get,
            Draft::new("https://secretmanager.googleapis.com/v1/projects/")
                .enc(project.as_str()).lit("/secrets/").enc(secret).lit("/versions"),
        ),
    )
}

/// The result of `secret_list_versions`, where the service answers `body`.
pub open spec fn secret_list_versions_result(
    opts: JsonView,
    env: EnvView,
    body: JsonView,
) -> Result<
    JsonView,
    Seq<char>,
> {
    match need_project(opts, env) {
        Err(e) => Err(e),
        Ok(project) => match need(opts, "secret"@, "missing secret"@) {
            Err(e) => Err(e),
            Ok(secret) => Ok(
                JsonView::Obj(
                    map![
                        "secret"@ => JsonView::Str(secret),
                        "versions"@ => JsonView::Arr(body.list("versions"@).map_values(|o: JsonView| version_row(o))),
                    ],
                ),
            ),
        },
    }
}

/// The result of the operation, where the service answers `body`.
pub fn op_secret_list_versions(opts: &Json, env: &Env, body: &Json) -> (r: Result<Json, Error>)
    ensures
        outcome(r) == secret_list_versions_result(opts@, env@, body@),
{
    require_project(opts, env)?;
    let secret: &str = require(opts, "secret", "missing secret")?;
    Ok(
        Json::Object(
            Members::new()
                .with("secret", Json::text(secret))
                .with("versions", rows(body, "versions", version_row_json, Ghost(|o: JsonView| version_row(o)))),
        ),
    )
}

/// The request of `secret_delete`, or what is answered where it cannot be made.
pub open spec fn secret_delete_call(opts: JsonView, env: EnvView) -> Result<
    RequestView,
    Seq<char>,
> {
    match need_project(opts, env) {
        Err(e) => Err(e),
        Ok(project) => match need(opts, "secret"@, "missing secret"@) {
            Err(e) => Err(e),
            Ok(secret) => Ok(
                bare(
                    Method::Delete,
                    "https://secretmanager.googleapis.com/v1/projects/"@
                        + url_encoded(project) + "/secrets/"@ + url_encoded(secret),
                ),
            ),
        },
    }
}

/// Deletes `secret` and all its versions.
pub fn secret_delete_request(opts: &Json, env: &Env) -> (r: Result<Request, Error>)
    ensures
        prepared(r) == secret_delete_call(opts@, env@),
{
    let project: String = require_project(opts, env)?;
    let secret: &str = require(opts, "secret", "missing secret")?;
    Ok(
        Request::new(
            Method::Delete,
            Draft::new("https://secretmanager.googleapis.com/v1/projects/")
                .enc(project.as_str()).lit("/secrets/").enc(secret),
        ),
    )
}

/// The result of `secret_delete`, where the service agrees.
pub open spec fn secret_delete_result(opts: JsonView, env: EnvView) -> Result<JsonView, Seq<char>> {
    match need_project(opts, env) {
        Err(e) => Err(e),
        Ok(project) => match need(opts, "secret"@, "missing secret"@) {
            Err(e) => Err(e),
            Ok(secret) => Ok(
                JsonView::Obj(
                    map![
                        "secret"@ => JsonView::Str(secret),
                        "deleted"@ => JsonView::Bool(true),
                    ],
                ),
            ),
        },
    }
}

/// The result of the operation, where the service agrees.
pub fn op_secret_delete(opts: &Json, env: &Env) -> (r: Result<Json, Error>)
    ensures
        outcome(r) == secret_delete_result(opts@, env@),
{
    require_project(opts, env)?;
    let secret: &str = require(opts, "secret", "missing secret")?;
    Ok(
        Json::Object(
            Members::new()
                .with("secret", Json::text(secret))
                .with("deleted", Json::Bool(true)),
        ),
    )
}

/// The request of `secret_list`, or what is answered where it cannot be made.
pub open spec fn secret_list_call(opts: JsonView, env: EnvView) -> Result<RequestView, Seq<char>> {
    match need_project(opts, env) {
        Err(e) => Err(e),
        Ok(project) => Ok(
            bare(
                Method::Get,
                "https://secretmanager.googleapis.com/v1/projects/"@
                    + url_encoded(project) + "/secrets"@,
            ),
        ),
    }
}

/// Lists the secrets of the project.
pub fn secret_list_request(opts: &Json, env: &Env) -> (r: Result<Request, Error>)
    ensures
        prepared(r) == secret_list_call(opts@, env@),
{
    let project: String = require_project(opts, env)?;
    Ok(
        Request::new(
            Method::Get,
            Draft::new("https://secretmanager.googleapis.com/v1/projects/")
                .enc(project.as_str()).lit("/secrets"),
        ),
    )
}

/// The result of `secret_list`, where the service answers `body`.
pub open spec fn secret_list_result(opts: JsonView, env: EnvView, body: JsonView) -> Result<
    JsonView,
    Seq<char>,
> {
    match need_project(opts, env) {
        Err(e) => Err(e),
        Ok(project) => Ok(
            JsonView::Obj(
                map![
                    "project"@ => JsonView::Str(project),
                    "secrets"@ => JsonView::Arr(kept(body.list("secrets"@), |o: JsonView| named_leaf(o))),
                ],
            ),
        ),
    }
}

/// The result of the operation, where the service answers `body`.
pub fn op_secret_list(opts: &Json, env: &Env, body: &Json) -> (r: Result<Json, Error>)
    ensures
        outcome(r) == secret_list_result(opts@, env@, body@),
{
    let project: String = require_project(opts, env)?;
    Ok(
        Json::Object(
            Members::new()
                .with("project", Json::text(project.as_str()))
                .with("secrets", picks(body, "secrets", named_leaf_json, Ghost(|o: JsonView| named_leaf(o)))),
        ),
    )
}

} // verus!
