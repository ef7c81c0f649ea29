//! Names: which are valid, and why the others are not.

use vstd::prelude::*;
use vstd::string::*;
use vstd::utf8::encode_utf8;

use crate::decimal::{decimal, digits_value, lemma_decimal_reads_back};
use crate::json::JsonView;
use crate::naming::{
    begins_with, bucket_char, dataset_char, dns_char, ipv4, label_char, octet, pubsub_char,
    region_for_zone_result, secret_char, table_char, unicode_alphanumeric,
    valid_bucket_name_result, valid_dataset_id_result, valid_label_result,
    valid_object_name_result, valid_project_id_result, valid_pubsub_id_result,
    valid_secret_id_result, valid_service_account_id_result, valid_table_id_result,
};
use crate::options::{either, first_of_four};
use crate::text::{
    all_of, cut_last, join, lemma_cut_last_parts, lemma_join_split, lemma_split_join,
    lemma_without_prefix, occurs_at, occurs_in, split,
};
use super::has_members;

verus! {

/// The names of members differ.
proof fn lemma_names()
    ensures
        "bytes"@.len() == 5,
        "id"@.len() == 2,
        "key"@.len() == 3,
        "name"@.len() == 4,
        "reason"@.len() == 6,
        "region"@.len() == 6,
        "valid"@.len() == 5,
        "value"@.len() == 5,
        "zone"@.len() == 4,
        "zone_letter"@.len() == 11,
        "bytes"@ != "valid"@,
        "value"@ != "valid"@,
{
    reveal_strlit("bytes");
    reveal_strlit("id");
    reveal_strlit("key");
    reveal_strlit("name");
    reveal_strlit("reason");
    reveal_strlit("region");
    reveal_strlit("valid");
    reveal_strlit("value");
    reveal_strlit("zone");
    reveal_strlit("zone_letter");
    assert("bytes"@[0] != "valid"@[0]);
    assert("value"@[3] != "valid"@[3]);
}

/// Each character of the text is of the class.
pub open spec fn each(s: Seq<char>, class: spec_fn(char) -> bool) -> bool {
    forall|i: int| 0 <= i < s.len() ==> class(#[trigger] s[i])
}

proof fn lemma_each(s: Seq<char>, class: spec_fn(char) -> bool, plain: spec_fn(char) -> bool)
    requires
        forall|c: char| #[trigger] class(c) == plain(c),
    ensures
        all_of(s, class) == each(s, plain),
{
    if all_of(s, class) {
        assert forall|i: int| 0 <= i < s.len() implies plain(#[trigger] s[i]) by {
            assert(class(s[i]));
        }
    }
}

proof fn lemma_prefix(s: Seq<char>, prefix: Seq<char>)
    ensures
        begins_with(s, prefix) == prefix.is_prefix_of(s),
{
    if prefix.is_prefix_of(s) {
        let rest = s.skip(prefix.len() as int);
        assert(s =~= prefix + rest);
        lemma_without_prefix(prefix, rest);
    }
}

/// A bucket name is valid where it has three to sixty-three bytes, of lowercase letters, digits,
/// hyphens, underscores and dots, begins and ends with a letter or digit, is no IP address, and
/// neither begins with `goog` nor has `google` in it.
pub proof fn bucket_names_are_judged(opts: JsonView, name: Seq<char>)
    requires
        opts.str_at("name"@) == Some(name),
    ensures
        ({
            let given = valid_bucket_name_result(opts);
            &&& given is Ok
            &&& has_members(given->Ok_0, set!["name"@, "valid"@, "reason"@])
            &&& given->Ok_0.at("name"@) == JsonView::Str(name)
            &&& (encode_utf8(name).len() < 3 || encode_utf8(name).len() > 63)
                ==> given->Ok_0.at("reason"@) == JsonView::Str("must be 3-63 characters"@)
            &&& !(encode_utf8(name).len() < 3 || encode_utf8(name).len() > 63)
                && (!each(name, |c: char| 'a' <= c <= 'z' || '0' <= c <= '9' || c
                == '-' || c == '_' || c == '.'))
                ==> given->Ok_0.at("reason"@)
                == JsonView::Str("only lowercase letters, numbers, hyphens, underscores, and dots"@)
            &&& !(encode_utf8(name).len() < 3 || encode_utf8(name).len() > 63)
                && !(!each(name, |c: char| 'a' <= c <= 'z' || '0' <= c <= '9' || c
                == '-' || c == '_' || c == '.'))
                && (!(
                'a' <= name[0] <= 'z' || 'A' <= name[0] <= 'Z' || '0' <= name[0] <= '9') || !(
                'a' <= name.last() <= 'z' || 'A' <= name.last() <= 'Z' || '0' <= name.last(
                ) <= '9'))
                ==> given->Ok_0.at("reason"@)
                == JsonView::Str("must start and end with a letter or number"@)
            &&& !(encode_utf8(name).len() < 3 || encode_utf8(name).len() > 63)
                && !(!each(name, |c: char| 'a' <= c <= 'z' || '0' <= c <= '9' || c
                == '-' || c == '_' || c == '.'))
                && !(!(
                'a' <= name[0] <= 'z' || 'A' <= name[0] <= 'Z' || '0' <= name[0] <= '9') || !(
                'a' <= name.last() <= 'z' || 'A' <= name.last() <= 'Z' || '0' <= name.last(
                ) <= '9')) && (ipv4(name))
                ==> given->Ok_0.at("reason"@)
                == JsonView::Str("must not be formatted as an IP address"@)
            &&& !(encode_utf8(name).len() < 3 || encode_utf8(name).len() > 63)
                && !(!each(name, |c: char| 'a' <= c <= 'z' || '0' <= c <= '9' || c
                == '-' || c == '_' || c == '.'))
                && !(!(
                'a' <= name[0] <= 'z' || 'A' <= name[0] <= 'Z' || '0' <= name[0] <= '9') || !(
                'a' <= name.last() <= 'z' || 'A' <= name.last() <= 'Z' || '0' <= name.last(
                ) <= '9')) && !(ipv4(name)) && ("goog"@.is_prefix_of(name))
                ==> given->Ok_0.at("reason"@)
                == JsonView::Str("must not begin with the `goog` prefix"@)
            &&& !(encode_utf8(name).len() < 3 || encode_utf8(name).len() > 63)
                && !(!each(name, |c: char| 'a' <= c <= 'z' || '0' <= c <= '9' || c
                == '-' || c == '_' || c == '.'))
                && !(!(
                'a' <= name[0] <= 'z' || 'A' <= name[0] <= 'Z' || '0' <= name[0] <= '9') || !(
                'a' <= name.last() <= 'z' || 'A' <= name.last() <= 'Z' || '0' <= name.last(
                ) <= '9')) && !(ipv4(name)) && !("goog"@.is_prefix_of(name))
                && (exists|i: int| 0 <= i <= name.len() - "google"@.len()
                && #[trigger] name.subrange(i, i + "google"@.len()) == "google"@)
                ==> given->Ok_0.at("reason"@) == JsonView::Str("must not contain `google`"@)
            &&& given->Ok_0.at("valid"@)
                == JsonView::Bool(!(encode_utf8(name).len() < 3 || encode_utf8(name).len(
                ) > 63)
                && !(!each(name, |c: char| 'a' <= c <= 'z' || '0' <= c <= '9' || c
                == '-' || c == '_' || c == '.'))
                && !(!(
                'a' <= name[0] <= 'z' || 'A' <= name[0] <= 'Z' || '0' <= name[0] <= '9') || !(
                'a' <= name.last() <= 'z' || 'A' <= name.last() <= 'Z' || '0' <= name.last(
                ) <= '9')) && !(ipv4(name)) && !("goog"@.is_prefix_of(name))
                && !(exists|i: int| 0 <= i <= name.len() - "google"@.len()
                && #[trigger] name.subrange(i, i + "google"@.len()) == "google"@))
            &&& given->Ok_0.at("valid"@) == JsonView::Bool(true)
                ==> given->Ok_0.at("reason"@) == JsonView::Null
        }),
{
    lemma_names();
    lemma_each(name, |c: char| bucket_char(c),
        |c: char| 'a' <= c <= 'z' || '0' <= c <= '9' || c == '-' || c == '_' || c == '.');
    lemma_prefix(name, "goog"@);
    lemma_occurs(name, "google"@);
}

/// Without a text to judge, that is what is answered.
pub proof fn bucket_names_are_judged_or_missing(opts: JsonView)
    requires
        opts.str_at("name"@) is None,
    ensures
        valid_bucket_name_result(opts) == Err::<JsonView, Seq<char>>("missing name"@),
{
}

/// A project id is valid where it has six to thirty bytes, of lowercase letters, digits and
/// hyphens, begins with a letter and does not end with a hyphen.
pub proof fn project_ids_are_judged(opts: JsonView, id: Seq<char>)
    requires
        either(opts, "id"@, "project_id"@) == Some(id),
    ensures
        ({
            let given = valid_project_id_result(opts);
            &&& given is Ok
            &&& has_members(given->Ok_0, set!["id"@, "valid"@, "reason"@])
            &&& given->Ok_0.at("id"@) == JsonView::Str(id)
            &&& (encode_utf8(id).len() < 6 || encode_utf8(id).len() > 30)
                ==> given->Ok_0.at("reason"@) == JsonView::Str("must be 6-30 characters"@)
            &&& !(encode_utf8(id).len() < 6 || encode_utf8(id).len() > 30)
                && (!('a' <= id[0] <= 'z'))
                ==> given->Ok_0.at("reason"@)
                == JsonView::Str("must start with a lowercase letter"@)
            &&& !(encode_utf8(id).len() < 6 || encode_utf8(id).len() > 30)
                && !(!('a' <= id[0] <= 'z')) && (id.last() == '-')
                ==> given->Ok_0.at("reason"@) == JsonView::Str("must not end with a hyphen"@)
            &&& !(encode_utf8(id).len() < 6 || encode_utf8(id).len() > 30)
                && !(!('a' <= id[0] <= 'z')) && !(id.last() == '-')
                && (!each(id, |c: char| 'a' <= c <= 'z' || '0' <= c <= '9' || c == '-'))
                ==> given->Ok_0.at("reason"@)
                == JsonView::Str("only lowercase letters, digits, and hyphens"@)
            &&& given->Ok_0.at("valid"@)
                == JsonView::Bool(!(encode_utf8(id).len() < 6 || encode_utf8(id).len() > 30)
                && !(!('a' <= id[0] <= 'z')) && !(id.last() == '-')
                && !(!each(id, |c: char| 'a' <= c <= 'z' || '0' <= c <= '9' || c == '-')))
            &&& given->Ok_0.at("valid"@) == JsonView::Bool(true)
                ==> given->Ok_0.at("reason"@) == JsonView::Null
        }),
{
    lemma_names();
    lemma_each(id, |c: char| dns_char(c), |c: char| 'a' <= c <= 'z' || '0' <= c <= '9' || c == '-');
}

/// Without a text to judge, that is what is answered.
pub proof fn project_ids_are_judged_or_missing(opts: JsonView)
    requires
        either(opts, "id"@, "project_id"@) is None,
    ensures
        valid_project_id_result(opts) == Err::<JsonView, Seq<char>>("missing id"@),
{
}

/// A service account id is valid where it has six to thirty bytes, of lowercase letters, digits and
/// hyphens, begins with a letter and does not end with a hyphen.
pub proof fn service_account_ids_are_judged(opts: JsonView, id: Seq<char>)
    requires
        first_of_four(opts, "id"@, "account_id"@, "name"@, "value"@) == Some(id),
    ensures
        ({
            let given = valid_service_account_id_result(opts);
            &&& given is Ok
            &&& has_members(given->Ok_0, set!["id"@, "valid"@, "reason"@])
            &&& given->Ok_0.at("id"@) == JsonView::Str(id)
            &&& (encode_utf8(id).len() < 6 || encode_utf8(id).len() > 30)
                ==> given->Ok_0.at("reason"@) == JsonView::Str("must be 6-30 characters"@)
            &&& !(encode_utf8(id).len() < 6 || encode_utf8(id).len() > 30)
                && (!each(id, |c: char| 'a' <= c <= 'z' || '0' <= c <= '9' || c == '-'))
                ==> given->Ok_0.at("reason"@)
                == JsonView::Str("only lowercase letters, digits, and hyphens"@)
            &&& !(encode_utf8(id).len() < 6 || encode_utf8(id).len() > 30)
                && !(!each(id, |c: char| 'a' <= c <= 'z' || '0' <= c <= '9' || c == '-'))
                && (!('a' <= id[0] <= 'z'))
                ==> given->Ok_0.at("reason"@)
                == JsonView::Str("must start with a lowercase letter"@)
            &&& !(encode_utf8(id).len() < 6 || encode_utf8(id).len() > 30)
                && !(!each(id, |c: char| 'a' <= c <= 'z' || '0' <= c <= '9' || c == '-'))
                && !(!('a' <= id[0] <= 'z')) && (id.last() == '-')
                ==> given->Ok_0.at("reason"@) == JsonView::Str("must not end with a hyphen"@)
            &&& given->Ok_0.at("valid"@)
                == JsonView::Bool(!(encode_utf8(id).len() < 6 || encode_utf8(id).len() > 30)
                && !(!each(id, |c: char| 'a' <= c <= 'z' || '0' <= c <= '9' || c == '-'))
                && !(!('a' <= id[0] <= 'z')) && !(id.last() == '-'))
            &&& given->Ok_0.at("valid"@) == JsonView::Bool(true)
                ==> given->Ok_0.at("reason"@) == JsonView::Null
        }),
{
    lemma_names();
    lemma_each(id, |c: char| dns_char(c), |c: char| 'a' <= c <= 'z' || '0' <= c <= '9' || c == '-');
}

/// Without a text to judge, that is what is answered.
pub proof fn service_account_ids_are_judged_or_missing(opts: JsonView)
    requires
        first_of_four(opts, "id"@, "account_id"@, "name"@, "value"@) is None,
    ensures
        valid_service_account_id_result(opts) == Err::<JsonView, Seq<char>>("missing id"@),
{
}

/// A secret id is valid where it has one to two hundred and fifty-five characters, of letters,
/// digits, hyphens and underscores.
pub proof fn secret_ids_are_judged(opts: JsonView, id: Seq<char>)
    requires
        first_of_four(opts, "id"@, "secret_id"@, "name"@, "value"@) == Some(id),
    ensures
        ({
            let given = valid_secret_id_result(opts);
            &&& given is Ok
            &&& has_members(given->Ok_0, set!["id"@, "valid"@, "reason"@])
            &&& given->Ok_0.at("id"@) == JsonView::Str(id)
            &&& (id.len() == 0) ==> given->Ok_0.at("reason"@) == JsonView::Str("must not be empty"@)
            &&& !(id.len() == 0) && (id.len() > 255)
                ==> given->Ok_0.at("reason"@) == JsonView::Str("must be at most 255 characters"@)
            &&& !(id.len() == 0) && !(id.len() > 255)
                && (!each(id,
                |c: char| 'a' <= c <= 'z' || 'A' <= c <= 'Z' || '0' <= c <= '9' || c
                == '-' || c == '_'))
                ==> given->Ok_0.at("reason"@)
                == JsonView::Str("only letters, numerals, hyphens, and underscores"@)
            &&& given->Ok_0.at("valid"@) == JsonView::Bool(!(id.len() == 0)
                && !(id.len() > 255)
                && !(!each(id,
                |c: char| 'a' <= c <= 'z' || 'A' <= c <= 'Z' || '0' <= c <= '9' || c
                == '-' || c == '_')))
            &&& given->Ok_0.at("valid"@) == JsonView::Bool(true)
                ==> given->Ok_0.at("reason"@) == JsonView::Null
        }),
{
    lemma_names();
    lemma_each(id, |c: char| secret_char(c),
        |c: char| 'a' <= c <= 'z' || 'A' <= c <= 'Z' || '0' <= c <= '9' || c == '-' || c == '_');
}

/// Without a text to judge, that is what is answered.
pub proof fn secret_ids_are_judged_or_missing(opts: JsonView)
    requires
        first_of_four(opts, "id"@, "secret_id"@, "name"@, "value"@) is None,
    ensures
        valid_secret_id_result(opts) == Err::<JsonView, Seq<char>>("missing id"@),
{
}

/// An object name is valid where it has one to a thousand and twenty-four bytes, no line break, is
/// neither `.` nor `..` and no challenge of a certificate.
pub proof fn object_names_are_judged(opts: JsonView, name: Seq<char>)
    requires
        opts.str_at("name"@) == Some(name),
    ensures
        ({
            let given = valid_object_name_result(opts);
            &&& given is Ok
            &&& has_members(given->Ok_0, set!["name"@, "valid"@, "reason"@])
            &&& given->Ok_0.at("name"@) == JsonView::Str(name)
            &&& (name.len() == 0)
                ==> given->Ok_0.at("reason"@) == JsonView::Str("must be at least 1 byte"@)
            &&& !(name.len() == 0) && (encode_utf8(name).len() > 1024)
                ==> given->Ok_0.at("reason"@)
                == JsonView::Str("must be at most 1024 bytes when UTF-8 encoded"@)
            &&& !(name.len() == 0) && !(encode_utf8(name).len() > 1024)
                && (name.contains('\r') || name.contains('\n'))
                ==> given->Ok_0.at("reason"@)
                == JsonView::Str("must not contain a carriage return or line feed"@)
            &&& !(name.len() == 0) && !(encode_utf8(name).len() > 1024)
                && !(name.contains('\r') || name.contains('\n'))
                && (name == seq!['.'] || name == seq!['.', '.'])
                ==> given->Ok_0.at("reason"@) == JsonView::Str("must not be `.` or `..`"@)
            &&& !(name.len() == 0) && !(encode_utf8(name).len() > 1024)
                && !(name.contains('\r') || name.contains('\n'))
                && !(name == seq!['.'] || name == seq!['.', '.'])
                && (".well-known/acme-challenge/"@.is_prefix_of(name))
                ==> given->Ok_0.at("reason"@)
                == JsonView::Str("must not start with `.well-known/acme-challenge/`"@)
            &&& given->Ok_0.at("valid"@) == JsonView::Bool(!(name.len() == 0)
                && !(encode_utf8(name).len() > 1024)
                && !(name.contains('\r') || name.contains('\n'))
                && !(name == seq!['.'] || name == seq!['.', '.'])
                && !(".well-known/acme-challenge/"@.is_prefix_of(name)))
            &&& given->Ok_0.at("valid"@) == JsonView::Bool(true)
                ==> given->Ok_0.at("reason"@) == JsonView::Null
        }),
{
    lemma_names();
    lemma_prefix(name, ".well-known/acme-challenge/"@);
    reveal_strlit(".");
    reveal_strlit("..");
    assert("."@ =~= seq!['.']);
    assert(".."@ =~= seq!['.', '.']);
}

/// Without a text to judge, that is what is answered.
pub proof fn object_names_are_judged_or_missing(opts: JsonView)
    requires
        opts.str_at("name"@) is None,
    ensures
        valid_object_name_result(opts) == Err::<JsonView, Seq<char>>("missing name"@),
{
}

/// A label is valid where its key has one to sixty-three characters and its value at most
/// sixty-three, of lowercase letters, digits, underscores, hyphens and what is beyond ASCII, and
/// the key begins with a letter.
pub proof fn labels_are_judged(opts: JsonView, key: Seq<char>)
    requires
        opts.str_at("key"@) == Some(key),
    ensures
        ({
            let given = valid_label_result(opts);
            &&& given is Ok
            &&& has_members(given->Ok_0, set!["key"@, "value"@, "valid"@, "reason"@])
            &&& given->Ok_0.at("key"@) == JsonView::Str(key)
            &&& given->Ok_0.at("value"@) == JsonView::Str(opts.str_or("value"@, ""@))
            &&& (key.len() == 0)
                ==> given->Ok_0.at("reason"@) == JsonView::Str("key must not be empty"@)
            &&& !(key.len() == 0) && (key.len() > 63)
                ==> given->Ok_0.at("reason"@) == JsonView::Str("key must be at most 63 characters"@)
            &&& !(key.len() == 0) && !(key.len() > 63)
                && (!('a' <= key[0] <= 'z' || key[0] as u32 >= 128))
                ==> given->Ok_0.at("reason"@)
                == JsonView::Str("key must start with a lowercase letter"@)
            &&& !(key.len() == 0) && !(key.len() > 63)
                && !(!('a' <= key[0] <= 'z' || key[0] as u32 >= 128))
                && (!each(key, |c: char| 'a' <= c <= 'z' || '0' <= c <= '9' || c == '_' || c
                == '-' || c as u32 >= 128))
                ==> given->Ok_0.at("reason"@)
                == JsonView::Str("key may contain only lowercase letters, digits, '_', and '-'"@)
            &&& !(key.len() == 0) && !(key.len() > 63)
                && !(!('a' <= key[0] <= 'z' || key[0] as u32 >= 128))
                && !(!each(key, |c: char| 'a' <= c <= 'z' || '0' <= c <= '9' || c
                == '_' || c == '-' || c as u32 >= 128))
                && (opts.str_or("value"@, ""@).len() > 63)
                ==> given->Ok_0.at("reason"@)
                == JsonView::Str("value must be at most 63 characters"@)
            &&& !(key.len() == 0) && !(key.len() > 63)
                && !(!('a' <= key[0] <= 'z' || key[0] as u32 >= 128))
                && !(!each(key, |c: char| 'a' <= c <= 'z' || '0' <= c <= '9' || c
                == '_' || c == '-' || c as u32 >= 128))
                && !(opts.str_or("value"@, ""@).len() > 63)
                && (!each(opts.str_or("value"@, ""@),
                |c: char| 'a' <= c <= 'z' || '0' <= c <= '9' || c == '_' || c
                == '-' || c as u32 >= 128))
                ==> given->Ok_0.at("reason"@)
                == JsonView::Str("value may contain only lowercase letters, digits, '_', and '-'"@)
            &&& given->Ok_0.at("valid"@) == JsonView::Bool(!(key.len() == 0)
                && !(key.len() > 63) && !(!('a' <= key[0] <= 'z' || key[0] as u32 >= 128))
                && !(!each(key, |c: char| 'a' <= c <= 'z' || '0' <= c <= '9' || c
                == '_' || c == '-' || c as u32 >= 128))
                && !(opts.str_or("value"@, ""@).len() > 63)
                && !(!each(opts.str_or("value"@, ""@),
                |c: char| 'a' <= c <= 'z' || '0' <= c <= '9' || c == '_' || c
                == '-' || c as u32 >= 128)))
            &&& given->Ok_0.at("valid"@) == JsonView::Bool(true)
                ==> given->Ok_0.at("reason"@) == JsonView::Null
        }),
{
    lemma_names();
    lemma_each(key, |c: char| label_char(c),
        |c: char| 'a' <= c <= 'z' || '0' <= c <= '9' || c == '_' || c == '-' || c as u32 >= 128);
    lemma_each(opts.str_or("value"@, ""@), |c: char| label_char(c),
        |c: char| 'a' <= c <= 'z' || '0' <= c <= '9' || c == '_' || c == '-' || c as u32 >= 128);
}

/// Without a text to judge, that is what is answered.
pub proof fn labels_are_judged_or_missing(opts: JsonView)
    requires
        opts.str_at("key"@) is None,
    ensures
        valid_label_result(opts) == Err::<JsonView, Seq<char>>("missing key"@),
{
}

/// A Pub/Sub id is valid where it has three to two hundred and fifty-five characters, of letters,
/// digits and a few signs, begins with a letter and not with `goog`.
pub proof fn pubsub_ids_are_judged(opts: JsonView, id: Seq<char>)
    requires
        either(opts, "id"@, "name"@) == Some(id),
    ensures
        ({
            let given = valid_pubsub_id_result(opts);
            &&& given is Ok
            &&& has_members(given->Ok_0, set!["id"@, "valid"@, "reason"@])
            &&& given->Ok_0.at("id"@) == JsonView::Str(id)
            &&& (id.len() < 3 || id.len() > 255)
                ==> given->Ok_0.at("reason"@) == JsonView::Str("must be 3-255 characters"@)
            &&& !(id.len() < 3 || id.len() > 255)
                && (!('a' <= id[0] <= 'z' || 'A' <= id[0] <= 'Z'))
                ==> given->Ok_0.at("reason"@) == JsonView::Str("must start with a letter"@)
            &&& !(id.len() < 3 || id.len() > 255)
                && !(!('a' <= id[0] <= 'z' || 'A' <= id[0] <= 'Z'))
                && ("goog"@.is_prefix_of(id))
                ==> given->Ok_0.at("reason"@) == JsonView::Str("must not begin with `goog`"@)
            &&& !(id.len() < 3 || id.len() > 255)
                && !(!('a' <= id[0] <= 'z' || 'A' <= id[0] <= 'Z'))
                && !("goog"@.is_prefix_of(id))
                && (!each(id,
                |c: char| 'a' <= c <= 'z' || 'A' <= c <= 'Z' || '0' <= c <= '9' || c
                == '-' || c == '_' || c == '.' || c == '~' || c == '+' || c == '%'))
                ==> given->Ok_0.at("reason"@)
                == JsonView::Str("only letters, digits, and '-', '_', '.', '~', '+', '%'"@)
            &&& given->Ok_0.at("valid"@) == JsonView::Bool(!(id.len() < 3 || id.len() > 255)
                && !(!('a' <= id[0] <= 'z' || 'A' <= id[0] <= 'Z'))
                && !("goog"@.is_prefix_of(id))
                && !(!each(id,
                |c: char| 'a' <= c <= 'z' || 'A' <= c <= 'Z' || '0' <= c <= '9' || c
                == '-' || c == '_' || c == '.' || c == '~' || c == '+' || c == '%')))
            &&& given->Ok_0.at("valid"@) == JsonView::Bool(true)
                ==> given->Ok_0.at("reason"@) == JsonView::Null
        }),
{
    lemma_names();
    lemma_each(id, |c: char| pubsub_char(c),
        |c: char| 'a' <= c <= 'z' || 'A' <= c <= 'Z' || '0' <= c <= '9' || c == '-' || c
        == '_' || c == '.' || c == '~' || c == '+' || c == '%');
    lemma_prefix(id, "goog"@);
}

/// Without a text to judge, that is what is answered.
pub proof fn pubsub_ids_are_judged_or_missing(opts: JsonView)
    requires
        either(opts, "id"@, "name"@) is None,
    ensures
        valid_pubsub_id_result(opts) == Err::<JsonView, Seq<char>>("missing id"@),
{
}

/// A dataset id is valid where it has one to a thousand and twenty-four characters, of letters,
/// digits and underscores.
pub proof fn dataset_ids_are_judged(opts: JsonView, id: Seq<char>)
    requires
        either(opts, "id"@, "name"@) == Some(id),
    ensures
        ({
            let given = valid_dataset_id_result(opts);
            &&& given is Ok
            &&& has_members(given->Ok_0, set!["id"@, "valid"@, "reason"@])
            &&& given->Ok_0.at("id"@) == JsonView::Str(id)
            &&& (id.len() == 0) ==> given->Ok_0.at("reason"@) == JsonView::Str("must not be empty"@)
            &&& !(id.len() == 0) && (id.len() > 1024)
                ==> given->Ok_0.at("reason"@) == JsonView::Str("must be at most 1024 characters"@)
            &&& !(id.len() == 0) && !(id.len() > 1024)
                && (!each(id,
                |c: char| 'a' <= c <= 'z' || 'A' <= c <= 'Z' || '0' <= c <= '9' || c
                == '_'))
                ==> given->Ok_0.at("reason"@)
                == JsonView::Str("only letters, digits, and underscores"@)
            &&& given->Ok_0.at("valid"@) == JsonView::Bool(!(id.len() == 0)
                && !(id.len() > 1024)
                && !(!each(id,
                |c: char| 'a' <= c <= 'z' || 'A' <= c <= 'Z' || '0' <= c <= '9' || c == '_')))
            &&& given->Ok_0.at("valid"@) == JsonView::Bool(true)
                ==> given->Ok_0.at("reason"@) == JsonView::Null
        }),
{
    lemma_names();
    lemma_each(id, |c: char| dataset_char(c),
        |c: char| 'a' <= c <= 'z' || 'A' <= c <= 'Z' || '0' <= c <= '9' || c == '_');
}

/// Without a text to judge, that is what is answered.
pub proof fn dataset_ids_are_judged_or_missing(opts: JsonView)
    requires
        either(opts, "id"@, "name"@) is None,
    ensures
        valid_dataset_id_result(opts) == Err::<JsonView, Seq<char>>("missing id"@),
{
}

/// A table id is valid where it has one to a thousand and twenty-four bytes, of letters and digits
/// of any script, underscores, dashes and spaces.
pub proof fn table_ids_are_judged(opts: JsonView, id: Seq<char>)
    requires
        either(opts, "id"@, "name"@) == Some(id),
    ensures
        ({
            let given = valid_table_id_result(opts);
            &&& given is Ok
            &&& has_members(given->Ok_0, set!["id"@, "bytes"@, "valid"@, "reason"@])
            &&& given->Ok_0.at("id"@) == JsonView::Str(id)
            &&& given->Ok_0.at("bytes"@) == JsonView::Int(encode_utf8(id).len() as int)
            &&& (id.len() == 0) ==> given->Ok_0.at("reason"@) == JsonView::Str("must not be empty"@)
            &&& !(id.len() == 0) && (encode_utf8(id).len() > 1024)
                ==> given->Ok_0.at("reason"@)
                == JsonView::Str("UTF-8 encoding must be at most 1024 bytes"@)
            &&& !(id.len() == 0) && !(encode_utf8(id).len() > 1024)
                && (!each(id,
                |c: char| 'a' <= c <= 'z' || 'A' <= c <= 'Z' || '0' <= c <= '9' || c
                == '_' || c == '-' || c == ' ' || (c as u32 >= 128
                && unicode_alphanumeric(c))))
                ==> given->Ok_0.at("reason"@)
                == JsonView::Str("only letters, numbers, underscores, dashes, and spaces"@)
            &&& given->Ok_0.at("valid"@) == JsonView::Bool(!(id.len() == 0)
                && !(encode_utf8(id).len() > 1024)
                && !(!each(id,
                |c: char| 'a' <= c <= 'z' || 'A' <= c <= 'Z' || '0' <= c <= '9' || c
                == '_' || c == '-' || c == ' ' || (c as u32 >= 128 && unicode_alphanumeric(c)))))
            &&& given->Ok_0.at("valid"@) == JsonView::Bool(true)
                ==> given->Ok_0.at("reason"@) == JsonView::Null
        }),
{
    lemma_names();
    lemma_each(id, |c: char| table_char(c),
        |c: char| 'a' <= c <= 'z' || 'A' <= c <= 'Z' || '0' <= c <= '9' || c == '_' || c
        == '-' || c == ' ' || (c as u32 >= 128 && unicode_alphanumeric(c)));
}

/// Without a text to judge, that is what is answered.
pub proof fn table_ids_are_judged_or_missing(opts: JsonView)
    requires
        either(opts, "id"@, "name"@) is None,
    ensures
        valid_table_id_result(opts) == Err::<JsonView, Seq<char>>("missing id"@),
{
}

proof fn lemma_occurs(s: Seq<char>, needle: Seq<char>)
    ensures
        occurs_in(s, needle) == exists|i: int|
            0 <= i <= s.len() - needle.len()
                && #[trigger] s.subrange(i, i + needle.len()) == needle,
{
    if occurs_in(s, needle) {
        let i = choose|i: int| occurs_at(s, needle, i);
        assert(s.subrange(i, i + needle.len()) =~= needle);
    }
    if exists|i: int|
        0 <= i <= s.len() - needle.len() && #[trigger] s.subrange(i, i + needle.len()) == needle {
        let i = choose|i: int|
            0 <= i <= s.len() - needle.len()
                && #[trigger] s.subrange(i, i + needle.len()) == needle;
        assert forall|k: int| 0 <= k < needle.len() implies s[i + k] == needle[k] by {
            assert(s.subrange(i, i + needle.len())[k] == s[i + k]);
        }
        assert(occurs_at(s, needle, i));
    }
}

/// A zone is its region and a letter behind the last hyphen; what has no hyphen, no region or no
/// single letter is refused.
pub proof fn zones_have_a_region(opts: JsonView, region: Seq<char>, letter: Seq<char>)
    requires
        opts.str_at("zone"@) == Some(region + seq!['-'] + letter),
        !letter.contains('-'),
    ensures
        ({
            let zone = region + seq!['-'] + letter;
            let given = region_for_zone_result(opts);
            let fine = letter.len() == 1 && ('a' <= letter[0] <= 'z' || 'A' <= letter[0] <= 'Z');
            &&& region.len() == 0
                ==> given
                == Err::<JsonView, Seq<char>>("zone `"@ + zone + "` has an empty region part"@)
            &&& region.len() > 0 && !fine
                ==> given
                == Err::<JsonView, Seq<char>>("zone `"@ + zone
                + "` must end with a single-letter zone suffix"@)
            &&& region.len() > 0 && fine
                ==> given is Ok
                && has_members(given->Ok_0, set!["zone"@, "region"@, "zone_letter"@])
                && given->Ok_0.at("zone"@) == JsonView::Str(zone)
                && given->Ok_0.at("region"@) == JsonView::Str(region)
                && given->Ok_0.at("zone_letter"@) == JsonView::Str(letter)
        }),
{
    lemma_names();
    let zone = region + seq!['-'] + letter;
    zone.index_of_last_ensures('-');
    let n = region.len() as int;
    assert(zone[n] == '-');
    assert forall|i: int| n < i < zone.len() implies zone[i] != '-' by {
        assert(zone[i] == letter[i - n - 1]);
    }
    lemma_cut_last_parts(zone, '-');
    assert(zone.take(n) =~= region);
    assert(zone.skip(n + 1) =~= letter);
}

/// What has no hyphen is no zone.
pub proof fn zones_have_a_hyphen(opts: JsonView, zone: Seq<char>)
    requires
        opts.str_at("zone"@) == Some(zone),
        !zone.contains('-'),
    ensures
        region_for_zone_result(opts) == Err::<JsonView, Seq<char>>(
            "not a GCP zone (want <region>-<letter>): "@ + zone,
        ),
{
    lemma_cut_last_parts(zone, '-');
    if let Some((a, b)) = cut_last(zone, '-') {
        assert((a + seq!['-'] + b)[a.len() as int] == '-');
    }
}

/// Without a zone to read, that is what is answered.
pub proof fn zones_are_needed(opts: JsonView)
    requires
        opts.str_at("zone"@) is None,
    ensures
        region_for_zone_result(opts) == Err::<JsonView, Seq<char>>("missing zone"@),
{
}

/// Four numbers up to 255 with dots between them are an IP address.
pub proof fn dotted_numbers_are_addresses(a: nat, b: nat, c: nat, d: nat)
    requires
        a <= 255,
        b <= 255,
        c <= 255,
        d <= 255,
    ensures
        ipv4(join(seq![decimal(a), decimal(b), decimal(c), decimal(d)], seq!['.'])),
{
    let parts = seq![decimal(a), decimal(b), decimal(c), decimal(d)];
    lemma_octet(a);
    lemma_octet(b);
    lemma_octet(c);
    lemma_octet(d);
    lemma_split_join(parts, '.');
}

proof fn lemma_octet(n: nat)
    requires
        n <= 255,
    ensures
        octet(decimal(n)),
        !decimal(n).contains('.'),
{
    lemma_decimal_reads_back(n);
    reveal_with_fuel(decimal, 3);
}

/// An IP address is four runs of at most three digits with dots between them, none above 255 and
/// none with a needless zero in front.
pub proof fn addresses_are_dotted_numbers(s: Seq<char>)
    requires
        ipv4(s),
    ensures
        exists|a: nat, b: nat, c: nat, d: nat|
            a <= 255 && b <= 255 && c <= 255 && d <= 255 && s == #[trigger] dotted(a, b, c, d),
{
    let parts = split(s, '.');
    lemma_octet_read(parts[0]);
    lemma_octet_read(parts[1]);
    lemma_octet_read(parts[2]);
    lemma_octet_read(parts[3]);
    let (a, b, c, d) = (
        digits_value(parts[0]),
        digits_value(parts[1]),
        digits_value(parts[2]),
        digits_value(parts[3]),
    );
    assert(parts =~= seq![decimal(a), decimal(b), decimal(c), decimal(d)]);
    lemma_join_split(s, '.');
    assert(s == dotted(a, b, c, d));
}

/// The four numbers with dots between them.
pub open spec fn dotted(a: nat, b: nat, c: nat, d: nat) -> Seq<char> {
    join(seq![decimal(a), decimal(b), decimal(c), decimal(d)], seq!['.'])
}

proof fn lemma_octet_read(s: Seq<char>)
    requires
        octet(s),
    ensures
        decimal(digits_value(s)) == s,
{
    reveal_with_fuel(decimal, 4);
    reveal_with_fuel(digits_value, 4);
    let n = digits_value(s);
    if s.len() == 1 {
        assert(s.drop_last() =~= Seq::empty());
        assert(n == s[0] as nat - 48);
        assert(decimal(n) =~= s);
    } else if s.len() == 2 {
        assert(s.drop_last().drop_last() =~= Seq::empty());
        assert(s.drop_last().last() == s[0]);
        assert(n == (s[0] as nat - 48) * 10 + (s[1] as nat - 48));
        assert(decimal(n) =~= s);
    } else {
        assert(s.drop_last().drop_last().drop_last() =~= Seq::empty());
        assert(s.drop_last().last() == s[1]);
        assert(s.drop_last().drop_last().last() == s[0]);
        assert(n == (s[0] as nat - 48) * 100 + (s[1] as nat - 48) * 10 + (s[2] as nat - 48));
        assert(decimal(n) =~= s);
    }
}

} // verus!
