//! The naming rules of Google Cloud resources. An operation of this module answers whether a name
//! is valid and, where it is not, the first rule that it breaks.

use vstd::prelude::*;
use vstd::string::*;
use vstd::utf8::encode_utf8;

use crate::decimal::{all_digits, digits_value, parse_i64};
use crate::json::{str_or_null, Json, JsonView, Members};
use crate::options::{either, either_str, first_of_four, first_str_of_four, opt_str};
use crate::request::{outcome, Draft, Error};
use crate::text::{
    all_chars, all_of, ascii_alnum, ascii_alpha, ascii_digit, ascii_lower, chars_of, contains,
    contains_text, cut_last, is_alnum, is_alpha, is_digit, is_lower, lemma_cut_last_parts,
    occurs_in, rsplit_once, same, split, split_all, starts_with, texts, without_prefix,
};

verus! {

/// The answer on a subject: it is valid where there is no reason against it.
pub open spec fn verdict(field: Seq<char>, subject: Seq<char>, reason: Option<Seq<char>>) -> JsonView {
    JsonView::Obj(
        map![
            field => JsonView::Str(subject),
            "valid"@ => JsonView::Bool(reason is None),
            "reason"@ => str_or_null(reason),
        ],
    )
}

fn judge(field: &str, subject: &str, reason: Option<&str>) -> (r: Json)
    ensures
        r@ == verdict(field@, subject@, opt_str(reason)),
{
    Json::Object(
        Members::new().with(field, Json::text(subject)).with(
            "valid",
            Json::Bool(reason.is_none()),
        ).with("reason", Json::text_or_null(reason)),
    )
}

/// The number of bytes in UTF-8.
pub open spec fn utf8_len(s: Seq<char>) -> nat {
    encode_utf8(s).len()
}

fn byte_len(s: &str) -> (r: usize)
    ensures
        r == utf8_len(s@),
        r > 0 ==> s@.len() > 0,
{
    s.as_bytes().len()
}

/// A prefix of the text.
pub open spec fn begins_with(s: Seq<char>, prefix: Seq<char>) -> bool {
    without_prefix(s, prefix) is Some
}

// Buckets

pub open spec fn bucket_char(c: char) -> bool {
    ascii_lower(c) || ascii_digit(c) || c == '-' || c == '_' || c == '.'
}

fn is_bucket_char(c: char) -> (r: bool)
    ensures
        r == bucket_char(c),
{
    is_lower(c) || is_digit(c) || c == '-' || c == '_' || c == '.'
}

/// A number from 0 to 255 in decimal, without leading zeros.
pub open spec fn octet(s: Seq<char>) -> bool {
    all_digits(s) && s.len() <= 3 && (s.len() > 1 ==> s[0] != '0') && digits_value(s) <= 255
}

/// Four octets with dots between them.
pub open spec fn ipv4(s: Seq<char>) -> bool {
    let parts = split(s, '.');
    parts.len() == 4 && octet(parts[0]) && octet(parts[1]) && octet(parts[2]) && octet(parts[3])
}

pub open spec fn bucket_name_reason(name: Seq<char>) -> Option<Seq<char>> {
    if utf8_len(name) < 3 || utf8_len(name) > 63 {
        Some("must be 3-63 characters"@)
    } else if !all_of(name, |c: char| bucket_char(c)) {
        Some("only lowercase letters, numbers, hyphens, underscores, and dots"@)
    } else if !ascii_alnum(name[0]) || !ascii_alnum(name.last()) {
        Some("must start and end with a letter or number"@)
    } else if ipv4(name) {
        Some("must not be formatted as an IP address"@)
    } else if begins_with(name, "goog"@) {
        Some("must not begin with the `goog` prefix"@)
    } else if occurs_in(name, "google"@) {
        Some("must not contain `google`"@)
    } else {
        None
    }
}

/// The result of `valid_bucket_name`.
pub open spec fn valid_bucket_name_result(opts: JsonView) -> Result<JsonView, Seq<char>> {
    match opts.str_at("name"@) {
        None => Err("missing name"@),
        Some(name) => Ok(verdict("name"@, name, bucket_name_reason(name))),
    }
}

fn is_octet(s: &str) -> (r: bool)
    ensures
        r == octet(s@),
{
    let chars: Vec<char> = chars_of(s);
    let n: usize = chars.len();
    if n == 0 || n > 3 || (n > 1 && chars[0] == '0') {
        return false;
    }
    if !all_chars(s, is_digit, Ghost(|c: char| ascii_digit(c))) {
        proof {
            let class = |c: char| ascii_digit(c);
            let i = choose|i: int| 0 <= i < s@.len() && !(#[trigger] class(s@[i]));
            assert(!ascii_digit(s@[i]));
        }
        return false;
    }
    proof {
        let class = |c: char| ascii_digit(c);
        assert forall|i: int| 0 <= i < s@.len() implies '0' <= #[trigger] s@[i] <= '9' by {
            assert(class(s@[i]));
        }
        assert(all_digits(s@));
        lemma_three_digits(s@);
    }
    match parse_i64(s) {
        Some(v) => v <= 255,
        None => false,
    }
}

proof fn lemma_three_digits(s: Seq<char>)
    requires
        all_digits(s),
        s.len() <= 3,
    ensures
        digits_value(s) < 1000,
{
    reveal_with_fuel(digits_value, 4);
}

fn is_ipv4(s: &str) -> (r: bool)
    ensures
        r == ipv4(s@),
{
    let parts: Vec<&str> = split_all(s, '.');
    assert(texts(parts@) == split(s@, '.'));
    assert(texts(parts@).len() == parts@.len());
    assert(forall|i: int| 0 <= i < parts@.len() ==> texts(parts@)[i] == (#[trigger] parts@[i])@);
    parts.len() == 4 && is_octet(parts[0]) && is_octet(parts[1]) && is_octet(parts[2]) && is_octet(
        parts[3],
    )
}

fn bucket_name_fault(name: &str) -> (r: Option<&'static str>)
    ensures
        opt_str(r) == bucket_name_reason(name@),
{
    let len: usize = byte_len(name);
    if len < 3 || len > 63 {
        return Some("must be 3-63 characters");
    }
    let chars: Vec<char> = chars_of(name);
    if !all_chars(name, is_bucket_char, Ghost(|c: char| bucket_char(c))) {
        Some("only lowercase letters, numbers, hyphens, underscores, and dots")
    } else if !is_alnum(chars[0]) || !is_alnum(chars[chars.len() - 1]) {
        Some("must start and end with a letter or number")
    } else if is_ipv4(name) {
        Some("must not be formatted as an IP address")
    } else if starts_with(name, "goog") {
        Some("must not begin with the `goog` prefix")
    } else if contains_text(name, "google") {
        Some("must not contain `google`")
    } else {
        None
    }
}

/// Tells whether the option `name` is a valid name of a bucket: 3-63 lowercase letters, digits,
/// hyphens, underscores and dots, with a letter or digit at both ends, no IPv4 address, without
/// the prefix `goog` and without `google`.
pub fn op_valid_bucket_name(opts: Json) -> (r: Result<Json, Error>)
    ensures
        outcome(r) == valid_bucket_name_result(opts@),
{
    match opts.str_at("name") {
        None => Err(Error::new("missing name")),
        Some(name) => Ok(judge("name", name, bucket_name_fault(name))),
    }
}

// Projects and service accounts

pub open spec fn dns_char(c: char) -> bool {
    ascii_lower(c) || ascii_digit(c) || c == '-'
}

fn is_dns_char(c: char) -> (r: bool)
    ensures
        r == dns_char(c),
{
    is_lower(c) || is_digit(c) || c == '-'
}

pub open spec fn project_id_reason(id: Seq<char>) -> Option<Seq<char>> {
    if utf8_len(id) < 6 || utf8_len(id) > 30 {
        Some("must be 6-30 characters"@)
    } else if !ascii_lower(id[0]) {
        Some("must start with a lowercase letter"@)
    } else if id.last() == '-' {
        Some("must not end with a hyphen"@)
    } else if !all_of(id, |c: char| dns_char(c)) {
        Some("only lowercase letters, digits, and hyphens"@)
    } else {
        None
    }
}

/// The result of `valid_project_id`.
pub open spec fn valid_project_id_result(opts: JsonView) -> Result<JsonView, Seq<char>> {
    match either(opts, "id"@, "project_id"@) {
        None => Err("missing id"@),
        Some(id) => Ok(verdict("id"@, id, project_id_reason(id))),
    }
}

fn project_id_fault(id: &str) -> (r: Option<&'static str>)
    ensures
        opt_str(r) == project_id_reason(id@),
{
    let len: usize = byte_len(id);
    if len < 6 || len > 30 {
        return Some("must be 6-30 characters");
    }
    let chars: Vec<char> = chars_of(id);
    if !is_lower(chars[0]) {
        Some("must start with a lowercase letter")
    } else if chars[chars.len() - 1] == '-' {
        Some("must not end with a hyphen")
    } else if !all_chars(id, is_dns_char, Ghost(|c: char| dns_char(c))) {
        Some("only lowercase letters, digits, and hyphens")
    } else {
        None
    }
}

/// Tells whether the option `id` (or `project_id`) is a valid id of a project: 6-30 lowercase
/// letters, digits and hyphens, with a letter at the start and no hyphen at the end.
pub fn op_valid_project_id(opts: Json) -> (r: Result<Json, Error>)
    ensures
        outcome(r) == valid_project_id_result(opts@),
{
    match either_str(&opts, "id", "project_id") {
        None => Err(Error::new("missing id")),
        Some(id) => Ok(judge("id", id, project_id_fault(id))),
    }
}

pub open spec fn service_account_id_reason(id: Seq<char>) -> Option<Seq<char>> {
    if utf8_len(id) < 6 || utf8_len(id) > 30 {
        Some("must be 6-30 characters"@)
    } else if !all_of(id, |c: char| dns_char(c)) {
        Some("only lowercase letters, digits, and hyphens"@)
    } else if !ascii_lower(id[0]) {
        Some("must start with a lowercase letter"@)
    } else if id.last() == '-' {
        Some("must not end with a hyphen"@)
    } else {
        None
    }
}

/// The result of `valid_service_account_id`.
pub open spec fn valid_service_account_id_result(opts: JsonView) -> Result<JsonView, Seq<char>> {
    match first_of_four(opts, "id"@, "account_id"@, "name"@, "value"@) {
        None => Err("missing id"@),
        Some(id) => Ok(verdict("id"@, id, service_account_id_reason(id))),
    }
}

fn service_account_id_fault(id: &str) -> (r: Option<&'static str>)
    ensures
        opt_str(r) == service_account_id_reason(id@),
{
    let len: usize = byte_len(id);
    if len < 6 || len > 30 {
        return Some("must be 6-30 characters");
    }
    let chars: Vec<char> = chars_of(id);
    if !all_chars(id, is_dns_char, Ghost(|c: char| dns_char(c))) {
        Some("only lowercase letters, digits, and hyphens")
    } else if !is_lower(chars[0]) {
        Some("must start with a lowercase letter")
    } else if chars[chars.len() - 1] == '-' {
        Some("must not end with a hyphen")
    } else {
        None
    }
}

/// Tells whether the option `id` (or `account_id`, `name`, `value`) is a valid id of a service
/// account: 6-30 lowercase letters, digits and hyphens, with a letter at the start and no hyphen
/// at the end.
pub fn op_valid_service_account_id(opts: Json) -> (r: Result<Json, Error>)
    ensures
        outcome(r) == valid_service_account_id_result(opts@),
{
    match first_str_of_four(&opts, "id", "account_id", "name", "value") {
        None => Err(Error::new("missing id")),
        Some(id) => Ok(judge("id", id, service_account_id_fault(id))),
    }
}

// Secrets

pub open spec fn secret_char(c: char) -> bool {
    ascii_alnum(c) || c == '-' || c == '_'
}

fn is_secret_char(c: char) -> (r: bool)
    ensures
        r == secret_char(c),
{
    is_alnum(c) || c == '-' || c == '_'
}

pub open spec fn secret_id_reason(id: Seq<char>) -> Option<Seq<char>> {
    if id.len() == 0 {
        Some("must not be empty"@)
    } else if id.len() > 255 {
        Some("must be at most 255 characters"@)
    } else if !all_of(id, |c: char| secret_char(c)) {
        Some("only letters, numerals, hyphens, and underscores"@)
    } else {
        None
    }
}

/// The result of `valid_secret_id`.
pub open spec fn valid_secret_id_result(opts: JsonView) -> Result<JsonView, Seq<char>> {
    match first_of_four(opts, "id"@, "secret_id"@, "name"@, "value"@) {
        None => Err("missing id"@),
        Some(id) => Ok(verdict("id"@, id, secret_id_reason(id))),
    }
}

fn secret_id_fault(id: &str) -> (r: Option<&'static str>)
    ensures
        opt_str(r) == secret_id_reason(id@),
{
    let len: usize = id.unicode_len();
    if len == 0 {
        Some("must not be empty")
    } else if len > 255 {
        Some("must be at most 255 characters")
    } else if !all_chars(id, is_secret_char, Ghost(|c: char| secret_char(c))) {
        Some("only letters, numerals, hyphens, and underscores")
    } else {
        None
    }
}

/// Tells whether the option `id` (or `secret_id`, `name`, `value`) is a valid id of a secret:
/// 1-255 letters, digits, hyphens and underscores.
pub fn op_valid_secret_id(opts: Json) -> (r: Result<Json, Error>)
    ensures
        outcome(r) == valid_secret_id_result(opts@),
{
    match first_str_of_four(&opts, "id", "secret_id", "name", "value") {
        None => Err(Error::new("missing id")),
        Some(id) => Ok(judge("id", id, secret_id_fault(id))),
    }
}

// Objects

pub open spec fn object_name_reason(name: Seq<char>) -> Option<Seq<char>> {
    if name.len() == 0 {
        Some("must be at least 1 byte"@)
    } else if utf8_len(name) > 1024 {
        Some("must be at most 1024 bytes when UTF-8 encoded"@)
    } else if name.contains('\r') || name.contains('\n') {
        Some("must not contain a carriage return or line feed"@)
    } else if name == "."@ || name == ".."@ {
        Some("must not be `.` or `..`"@)
    } else if begins_with(name, ".well-known/acme-challenge/"@) {
        Some("must not start with `.well-known/acme-challenge/`"@)
    } else {
        None
    }
}

/// The result of `valid_object_name`.
pub open spec fn valid_object_name_result(opts: JsonView) -> Result<JsonView, Seq<char>> {
    match opts.str_at("name"@) {
        None => Err("missing name"@),
        Some(name) => Ok(verdict("name"@, name, object_name_reason(name))),
    }
}

fn object_name_fault(name: &str) -> (r: Option<&'static str>)
    ensures
        opt_str(r) == object_name_reason(name@),
{
    if name.is_empty() {
        Some("must be at least 1 byte")
    } else if byte_len(name) > 1024 {
        Some("must be at most 1024 bytes when UTF-8 encoded")
    } else if contains(name, '\r') || contains(name, '\n') {
        Some("must not contain a carriage return or line feed")
    } else if same(name, ".") || same(name, "..") {
        Some("must not be `.` or `..`")
    } else if starts_with(name, ".well-known/acme-challenge/") {
        Some("must not start with `.well-known/acme-challenge/`")
    } else {
        None
    }
}

/// Tells whether the option `name` is a valid name of an object: 1-1024 bytes, no line breaks,
/// neither `.` nor `..`, and without the prefix `.well-known/acme-challenge/`.
pub fn op_valid_object_name(opts: Json) -> (r: Result<Json, Error>)
    ensures
        outcome(r) == valid_object_name_result(opts@),
{
    match opts.str_at("name") {
        None => Err(Error::new("missing name")),
        Some(name) => Ok(judge("name", name, object_name_fault(name))),
    }
}

// Labels

/// A character of a label; all that are not ASCII are.
pub open spec fn label_char(c: char) -> bool {
    ascii_lower(c) || ascii_digit(c) || c == '_' || c == '-' || c as u32 >= 128
}

pub open spec fn label_start(c: char) -> bool {
    ascii_lower(c) || c as u32 >= 128
}

fn is_label_char(c: char) -> (r: bool)
    ensures
        r == label_char(c),
{
    is_lower(c) || is_digit(c) || c == '_' || c == '-' || c as u32 >= 128
}

pub open spec fn label_reason(key: Seq<char>, value: Seq<char>) -> Option<Seq<char>> {
    if key.len() == 0 {
        Some("key must not be empty"@)
    } else if key.len() > 63 {
        Some("key must be at most 63 characters"@)
    } else if !label_start(key[0]) {
        Some("key must start with a lowercase letter"@)
    } else if !all_of(key, |c: char| label_char(c)) {
        Some("key may contain only lowercase letters, digits, '_', and '-'"@)
    } else if value.len() > 63 {
        Some("value must be at most 63 characters"@)
    } else if !all_of(value, |c: char| label_char(c)) {
        Some("value may contain only lowercase letters, digits, '_', and '-'"@)
    } else {
        None
    }
}

/// The result of `valid_label`.
pub open spec fn valid_label_result(opts: JsonView) -> Result<JsonView, Seq<char>> {
    match opts.str_at("key"@) {
        None => Err("missing key"@),
        Some(key) => {
            let value = opts.str_or("value"@, ""@);
            let reason = label_reason(key, value);
            Ok(
                JsonView::Obj(
                    map![
                        "key"@ => JsonView::Str(key),
                        "value"@ => JsonView::Str(value),
                        "valid"@ => JsonView::Bool(reason is None),
                        "reason"@ => str_or_null(reason),
                    ],
                ),
            )
        },
    }
}

fn label_fault(key: &str, value: &str) -> (r: Option<&'static str>)
    ensures
        opt_str(r) == label_reason(key@, value@),
{
    let len: usize = key.unicode_len();
    if len == 0 {
        return Some("key must not be empty");
    }
    let first: char = key.get_char(0);
    if len > 63 {
        Some("key must be at most 63 characters")
    } else if !(is_lower(first) || first as u32 >= 128) {
        Some("key must start with a lowercase letter")
    } else if !all_chars(key, is_label_char, Ghost(|c: char| label_char(c))) {
        Some("key may contain only lowercase letters, digits, '_', and '-'")
    } else if value.unicode_len() > 63 {
        Some("value must be at most 63 characters")
    } else if !all_chars(value, is_label_char, Ghost(|c: char| label_char(c))) {
        Some("value may contain only lowercase letters, digits, '_', and '-'")
    } else {
        None
    }
}

/// Tells whether the options `key` and `value` are a valid label: at most 63 lowercase letters,
/// digits, underscores, hyphens and characters outside ASCII each, the key not empty and with a
/// lowercase letter or a character outside ASCII at the start.
pub fn op_valid_label(opts: Json) -> (r: Result<Json, Error>)
    ensures
        outcome(r) == valid_label_result(opts@),
{
    match opts.str_at("key") {
        None => Err(Error::new("missing key")),
        Some(key) => {
            let value: &str = opts.str_or("value", "");
            let reason: Option<&str> = label_fault(key, value);
            Ok(
                Json::Object(
                    Members::new().with("key", Json::text(key)).with(
                        "value",
                        Json::text(value),
                    ).with("valid", Json::Bool(reason.is_none())).with(
                        "reason",
                        Json::text_or_null(reason),
                    ),
                ),
            )
        },
    }
}

// Pub/Sub resources

pub open spec fn pubsub_char(c: char) -> bool {
    ascii_alnum(c) || c == '-' || c == '_' || c == '.' || c == '~' || c == '+' || c == '%'
}

fn is_pubsub_char(c: char) -> (r: bool)
    ensures
        r == pubsub_char(c),
{
    is_alnum(c) || c == '-' || c == '_' || c == '.' || c == '~' || c == '+' || c == '%'
}

pub open spec fn pubsub_id_reason(id: Seq<char>) -> Option<Seq<char>> {
    if id.len() < 3 || id.len() > 255 {
        Some("must be 3-255 characters"@)
    } else if !ascii_alpha(id[0]) {
        Some("must start with a letter"@)
    } else if begins_with(id, "goog"@) {
        Some("must not begin with `goog`"@)
    } else if !all_of(id, |c: char| pubsub_char(c)) {
        Some("only letters, digits, and '-', '_', '.', '~', '+', '%'"@)
    } else {
        None
    }
}

/// The result of `valid_pubsub_id`.
pub open spec fn valid_pubsub_id_result(opts: JsonView) -> Result<JsonView, Seq<char>> {
    match either(opts, "id"@, "name"@) {
        None => Err("missing id"@),
        Some(id) => Ok(verdict("id"@, id, pubsub_id_reason(id))),
    }
}

fn pubsub_id_fault(id: &str) -> (r: Option<&'static str>)
    ensures
        opt_str(r) == pubsub_id_reason(id@),
{
    let len: usize = id.unicode_len();
    if len < 3 || len > 255 {
        Some("must be 3-255 characters")
    } else if !is_alpha(id.get_char(0)) {
        Some("must start with a letter")
    } else if starts_with(id, "goog") {
        Some("must not begin with `goog`")
    } else if !all_chars(id, is_pubsub_char, Ghost(|c: char| pubsub_char(c))) {
        Some("only letters, digits, and '-', '_', '.', '~', '+', '%'")
    } else {
        None
    }
}

/// Tells whether the option `id` (or `name`) is a valid id of a topic, subscription, schema or
/// snapshot: 3-255 letters, digits and `-_.~+%`, with a letter at the start and without the
/// prefix `goog`.
pub fn op_valid_pubsub_id(opts: Json) -> (r: Result<Json, Error>)
    ensures
        outcome(r) == valid_pubsub_id_result(opts@),
{
    match either_str(&opts, "id", "name") {
        None => Err(Error::new("missing id")),
        Some(id) => Ok(judge("id", id, pubsub_id_fault(id))),
    }
}

// BigQuery datasets and tables

pub open spec fn dataset_char(c: char) -> bool {
    ascii_alnum(c) || c == '_'
}

fn is_dataset_char(c: char) -> (r: bool)
    ensures
        r == dataset_char(c),
{
    is_alnum(c) || c == '_'
}

pub open spec fn dataset_id_reason(id: Seq<char>) -> Option<Seq<char>> {
    if id.len() == 0 {
        Some("must not be empty"@)
    } else if id.len() > 1024 {
        Some("must be at most 1024 characters"@)
    } else if !all_of(id, |c: char| dataset_char(c)) {
        Some("only letters, digits, and underscores"@)
    } else {
        None
    }
}

/// The result of `valid_dataset_id`.
pub open spec fn valid_dataset_id_result(opts: JsonView) -> Result<JsonView, Seq<char>> {
    match either(opts, "id"@, "name"@) {
        None => Err("missing id"@),
        Some(id) => Ok(verdict("id"@, id, dataset_id_reason(id))),
    }
}

fn dataset_id_fault(id: &str) -> (r: Option<&'static str>)
    ensures
        opt_str(r) == dataset_id_reason(id@),
{
    let len: usize = id.unicode_len();
    if len == 0 {
        Some("must not be empty")
    } else if len > 1024 {
        Some("must be at most 1024 characters")
    } else if !all_chars(id, is_dataset_char, Ghost(|c: char| dataset_char(c))) {
        Some("only letters, digits, and underscores")
    } else {
        None
    }
}

/// Tells whether the option `id` (or `name`) is a valid id of a dataset: 1-1024 letters, digits
/// and underscores.
pub fn op_valid_dataset_id(opts: Json) -> (r: Result<Json, Error>)
    ensures
        outcome(r) == valid_dataset_id_result(opts@),
{
    match either_str(&opts, "id", "name") {
        None => Err(Error::new("missing id")),
        Some(id) => Ok(judge("id", id, dataset_id_fault(id))),
    }
}

/// The character is alphanumeric in Unicode, as `char::is_alphanumeric` has it.
pub uninterp spec fn unicode_alphanumeric(c: char) -> bool;

/// Calls `char::is_alphanumeric`. Its result is a function of the character alone, by the tables
/// of Unicode, and is named after them.
#[verifier::external_body]
fn is_unicode_alphanumeric(c: char) -> (r: bool)
    ensures
        r == unicode_alphanumeric(c),
{
    c.is_alphanumeric()
}

/// A letter or a number: in ASCII `A-Z`, `a-z` and `0-9`, outside it by the tables of Unicode.
pub open spec fn letter_or_number(c: char) -> bool {
    if (c as u32) < 128 {
        ascii_alnum(c)
    } else {
        unicode_alphanumeric(c)
    }
}

pub open spec fn table_char(c: char) -> bool {
    letter_or_number(c) || c == '_' || c == '-' || c == ' '
}

fn is_table_char(c: char) -> (r: bool)
    ensures
        r == table_char(c),
{
    if (c as u32) < 128 {
        is_alnum(c) || c == '_' || c == '-' || c == ' '
    } else {
        is_unicode_alphanumeric(c)
    }
}

pub open spec fn table_id_reason(id: Seq<char>) -> Option<Seq<char>> {
    if id.len() == 0 {
        Some("must not be empty"@)
    } else if utf8_len(id) > 1024 {
        Some("UTF-8 encoding must be at most 1024 bytes"@)
    } else if !all_of(id, |c: char| table_char(c)) {
        Some("only letters, numbers, underscores, dashes, and spaces"@)
    } else {
        None
    }
}

/// The result of `valid_table_id`.
pub open spec fn valid_table_id_result(opts: JsonView) -> Result<JsonView, Seq<char>> {
    match either(opts, "id"@, "name"@) {
        None => Err("missing id"@),
        Some(id) => Ok(
            JsonView::Obj(
                map![
                    "id"@ => JsonView::Str(id),
                    "valid"@ => JsonView::Bool(table_id_reason(id) is None),
                    "reason"@ => str_or_null(table_id_reason(id)),
                    "bytes"@ => JsonView::Int(utf8_len(id) as int),
                ],
            ),
        ),
    }
}

fn table_id_fault(id: &str) -> (r: Option<&'static str>)
    ensures
        opt_str(r) == table_id_reason(id@),
{
    if id.is_empty() {
        Some("must not be empty")
    } else if byte_len(id) > 1024 {
        Some("UTF-8 encoding must be at most 1024 bytes")
    } else if !all_chars(id, is_table_char, Ghost(|c: char| table_char(c))) {
        Some("only letters, numbers, underscores, dashes, and spaces")
    } else {
        None
    }
}

/// Tells whether the option `id` (or `name`) is a valid id of a table: 1-1024 bytes of letters and
/// numbers of any script, underscores, dashes and spaces. The answer gives the number of `bytes`.
pub fn op_valid_table_id(opts: Json) -> (r: Result<Json, Error>)
    ensures
        outcome(r) == valid_table_id_result(opts@),
{
    match either_str(&opts, "id", "name") {
        None => Err(Error::new("missing id")),
        Some(id) => {
            let reason: Option<&str> = table_id_fault(id);
            Ok(
                Json::Object(
                    Members::new().with("id", Json::text(id)).with(
                        "valid",
                        Json::Bool(reason.is_none()),
                    ).with("reason", Json::text_or_null(reason)).with(
                        "bytes",
                        Json::natural(byte_len(id) as u64),
                    ),
                ),
            )
        },
    }
}

// Zones

/// The result of `region_for_zone`.
pub open spec fn region_for_zone_result(opts: JsonView) -> Result<JsonView, Seq<char>> {
    match opts.str_at("zone"@) {
        None => Err("missing zone"@),
        Some(zone) => match cut_last(zone, '-') {
            None => Err("not a GCP zone (want <region>-<letter>): "@ + zone),
            Some((region, letter)) => if region.len() == 0 {
                Err("zone `"@ + zone + "` has an empty region part"@)
            } else if letter.len() != 1 || !ascii_alpha(letter[0]) {
                Err("zone `"@ + zone + "` must end with a single-letter zone suffix"@)
            } else {
                Ok(
                    JsonView::Obj(
                        map![
                            "zone"@ => JsonView::Str(zone),
                            "region"@ => JsonView::Str(region),
                            "zone_letter"@ => JsonView::Str(letter),
                        ],
                    ),
                )
            },
        },
    }
}

/// The region that the zone of the option `zone` lies in: the zone without its letter.
pub fn op_region_for_zone(opts: Json) -> (r: Result<Json, Error>)
    ensures
        outcome(r) == region_for_zone_result(opts@),
{
    match opts.str_at("zone") {
        None => Err(Error::new("missing zone")),
        Some(zone) => match rsplit_once(zone, '-') {
            None => Err(
                Draft::new("not a GCP zone (want <region>-<letter>): ").lit(zone).error(),
            ),
            Some((region, letter)) => {
                if region.is_empty() {
                    return Err(
                        Draft::new("zone `").lit(zone).lit("` has an empty region part").error(),
                    );
                }
                if letter.unicode_len() != 1 || !is_alpha(letter.get_char(0)) {
                    return Err(
                        Draft::new("zone `").lit(zone).lit(
                            "` must end with a single-letter zone suffix",
                        ).error(),
                    );
                }
                Ok(
                    Json::Object(
                        Members::new().with("zone", Json::text(zone)).with(
                            "region",
                            Json::text(region),
                        ).with("zone_letter", Json::text(letter)),
                    ),
                )
            },
        },
    }
}

/// The answer to a question on a name says that it is valid exactly where it gives no reason.
pub open spec fn consistent(answer: Result<JsonView, Seq<char>>) -> bool {
    answer is Ok ==> answer->Ok_0.at("valid"@) == JsonView::Bool(
        answer->Ok_0.at("reason"@) == JsonView::Null,
    )
}

/// Every answer of this module says that a name is valid exactly where it gives no reason
/// against it.
pub proof fn valid_means_without_reason(opts: JsonView)
    ensures
        consistent(valid_bucket_name_result(opts)),
        consistent(valid_project_id_result(opts)),
        consistent(valid_service_account_id_result(opts)),
        consistent(valid_secret_id_result(opts)),
        consistent(valid_object_name_result(opts)),
        consistent(valid_label_result(opts)),
        consistent(valid_pubsub_id_result(opts)),
        consistent(valid_dataset_id_result(opts)),
        consistent(valid_table_id_result(opts)),
{
    reveal_strlit("valid");
    reveal_strlit("reason");
    reveal_strlit("bytes");
    assert("valid"@.len() == 5 && "reason"@.len() == 6);
    assert("valid"@[0] == 'v' && "bytes"@[0] == 'b' && "bytes"@.len() == 5);
}

/// A text of ASCII characters has one byte for each.
proof fn lemma_ascii_len(s: Seq<char>)
    requires
        forall|i: int| 0 <= i < s.len() ==> (#[trigger] s[i] as u32) < 128,
    ensures
        utf8_len(s) == s.len(),
    decreases s.len(),
{
    if s.len() > 0 {
        let rest = s.drop_first();
        assert forall|i: int| 0 <= i < rest.len() implies (#[trigger] rest[i] as u32) < 128 by {
            assert(rest[i] == s[i + 1]);
        }
        lemma_ascii_len(rest);
        assert((s[0] as u32) < 128);
    }
}

/// An id of a dataset is an id of a table too.
pub proof fn dataset_ids_are_table_ids(id: Seq<char>)
    requires
        dataset_id_reason(id) is None,
    ensures
        table_id_reason(id) is None,
{
    let class = |c: char| dataset_char(c);
    assert forall|i: int| 0 <= i < id.len() implies (#[trigger] id[i] as u32) < 128 by {
        assert(class(id[i]));
    }
    lemma_ascii_len(id);
    let wider = |c: char| table_char(c);
    assert forall|i: int| 0 <= i < id.len() implies #[trigger] wider(id[i]) by {
        assert(class(id[i]));
    }
}

/// The ids of projects and of service accounts are the same texts, and each is an id of a secret
/// too.
pub proof fn project_ids_are_service_account_ids(id: Seq<char>)
    ensures
        project_id_reason(id) is None <==> service_account_id_reason(id) is None,
        project_id_reason(id) is None ==> secret_id_reason(id) is None,
{
    if project_id_reason(id) is None {
        let class = |c: char| dns_char(c);
        assert forall|i: int| 0 <= i < id.len() implies (#[trigger] id[i] as u32) < 128 by {
            assert(class(id[i]));
        }
        lemma_ascii_len(id);
        let wider = |c: char| secret_char(c);
        assert forall|i: int| 0 <= i < id.len() implies #[trigger] wider(id[i]) by {
            assert(class(id[i]));
        }
    }
}

/// A zone is its region, a hyphen and its letter.
pub proof fn zone_is_region_and_letter(opts: JsonView)
    requires
        region_for_zone_result(opts) is Ok,
    ensures
        ({
            let found = region_for_zone_result(opts)->Ok_0;
            found.str_at("zone"@)->0 == found.str_at("region"@)->0 + "-"@ + found.str_at(
                "zone_letter"@,
            )->0
        }),
{
    reveal_strlit("zone");
    reveal_strlit("region");
    reveal_strlit("zone_letter");
    reveal_strlit("-");
    assert("zone"@.len() == 4 && "region"@.len() == 6 && "zone_letter"@.len() == 11);
    assert("-"@ =~= seq!['-']);
    lemma_cut_last_parts(opts.str_at("zone"@)->0, '-');
}

/// Every region with a hyphen and a letter behind it is a zone of that region.
pub proof fn region_with_letter_is_a_zone(region: Seq<char>, letter: char, opts: JsonView)
    requires
        region.len() > 0,
        ascii_alpha(letter),
        opts.str_at("zone"@) == Some(region + "-"@ + seq![letter]),
    ensures
        region_for_zone_result(opts) is Ok,
        region_for_zone_result(opts)->Ok_0.str_at("region"@) == Some(region),
{
    reveal_strlit("region");
    reveal_strlit("zone_letter");
    reveal_strlit("-");
    assert("region"@.len() == 6 && "zone_letter"@.len() == 11);
    let zone = region + "-"@ + seq![letter];
    zone.index_of_last_ensures('-');
    assert(zone[region.len() as int] == '-');
    assert(zone[region.len() as int + 1] == letter);
    assert(zone.index_of_last('-') == Some(region.len() as int));
    assert(zone.take(region.len() as int) =~= region);
    assert(zone.skip(region.len() as int + 1) =~= seq![letter]);
    assert(cut_last(zone, '-') == Some((region, seq![letter])));
}

} // verus!
