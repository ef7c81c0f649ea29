//! Options, environment, replies and encodings: what every operation rests on.

use vstd::prelude::*;
use vstd::string::*;

use crate::auth::{identity_object, known_project};
use crate::bridge::{
    answered, disposition, document, expected_of, result_of, Disposition, Expected, Op, ReplyView,
};
use crate::codec::{hex_digit, percent_byte, unreserved};
use crate::common::{chosen_project, json_in_reply};
use crate::decimal::{
    all_digits, decimal, denoted, denoted_i64, digits_value, lemma_decimal_reads_back,
};
use crate::json::JsonView;
use crate::options::{either, first_of_four, is_truthy, project_of, EnvView};
use super::has_members;

verus! {

/// A member is found in an object that has it, and null stands for any other.
pub proof fn members_are_found(m: Map<Seq<char>, JsonView>, key: Seq<char>, other: JsonView)
    ensures
        m.dom().contains(key) ==> JsonView::Obj(m).get(key) == Some(m[key]),
        m.dom().contains(key) ==> JsonView::Obj(m).at(key) == m[key],
        !m.dom().contains(key) ==> JsonView::Obj(m).get(key) is None,
        !m.dom().contains(key) ==> JsonView::Obj(m).at(key) == JsonView::Null,
        !(other is Obj) ==> other.get(key) is None && other.at(key) == JsonView::Null,
{
}

/// A text is read as itself, and where a member is no text its default is.
pub proof fn texts_are_read(j: JsonView, key: Seq<char>, default: Seq<char>)
    ensures
        j.at(key) matches JsonView::Str(s) ==> j.str_at(key) == Some(s) && j.str_or(key, default)
            == s,
        !(j.at(key) is Str) ==> j.str_at(key) is None && j.str_or(key, default) == default,
{
}

/// The elements of an array are read as they are, and none where a member is no array.
pub proof fn lists_are_read(j: JsonView, key: Seq<char>)
    ensures
        j.at(key) matches JsonView::Arr(a) ==> j.list(key) == a,
        !(j.at(key) is Arr) ==> j.list(key).len() == 0,
{
}

/// An integer is read where it fits, and nothing else is.
pub proof fn integers_are_read(j: JsonView)
    ensures
        j matches JsonView::Int(i) ==> (j.as_i64() == Some(i) <==> -0x8000_0000_0000_0000 <= i
            <= 0x7fff_ffff_ffff_ffff),
        j matches JsonView::Int(i) ==> (j.as_u64() == Some(i) <==> 0 <= i
            <= 0xffff_ffff_ffff_ffff),
        j.as_i64() is Some ==> j == JsonView::Int(j.as_i64()->0),
        j.as_u64() is Some ==> j == JsonView::Int(j.as_u64()->0),
{
}

/// A flag is set by `true`, by an integer other than zero, by the text `1` and by the text `true`
/// in any case.
pub proof fn flags_are_read(v: JsonView)
    ensures
        v matches JsonView::Bool(b) ==> is_truthy(v) == b,
        v is Int ==> is_truthy(v) == (v.as_i64() is Some && v != JsonView::Int(0)),
        v matches JsonView::Str(s) ==> is_truthy(v) == (s == seq!['1'] || (s.len() == 4 && (s[0]
            == 't' || s[0] == 'T') && (s[1] == 'r' || s[1] == 'R') && (s[2] == 'u' || s[2] == 'U')
            && (s[3] == 'e' || s[3] == 'E'))),
        v is Null || v is Float || v is Arr || v is Obj ==> !is_truthy(v),
{
    reveal_strlit("1");
    reveal_strlit("true");
    assert("1"@ =~= seq!['1']);
    if let JsonView::Str(s) = v {
        if s.len() == 4 {
            lemma_lower(s[0], 't');
            lemma_lower(s[1], 'r');
            lemma_lower(s[2], 'u');
            lemma_lower(s[3], 'e');
            assert("true"@[0] == 't' && "true"@[1] == 'r');
            assert("true"@[2] == 'u' && "true"@[3] == 'e');
            if crate::text::same_ignoring_case(s, "true"@) {
                assert(crate::text::lower(s[0]) == crate::text::lower("true"@[0]));
                assert(crate::text::lower(s[1]) == crate::text::lower("true"@[1]));
                assert(crate::text::lower(s[2]) == crate::text::lower("true"@[2]));
                assert(crate::text::lower(s[3]) == crate::text::lower("true"@[3]));
            }
        }
    }
}

proof fn lemma_lower(c: char, small: char)
    requires
        'a' <= small <= 'z',
    ensures
        crate::text::lower(c) == crate::text::lower(small) <==> c == small || (c as u32) + 32
            == small as u32,
{
}

/// The project of an operation is the option, or else what the environment names, and the first of
/// the two variables goes before the second.
pub proof fn projects_are_resolved(opts: JsonView, env: EnvView)
    ensures
        opts.at("project"@) matches JsonView::Str(p) ==> project_of(opts, env) == Some(p),
        !(opts.at("project"@) is Str) && env.google_cloud_project is Some ==> project_of(opts, env)
            == env.google_cloud_project,
        !(opts.at("project"@) is Str) && env.google_cloud_project is None ==> project_of(opts, env)
            == env.gcloud_project,
{
}

/// The project of a command is the one that is named, or else the first of the three variables that
/// is set and not empty; where none is, that is said.
pub proof fn projects_are_chosen(explicit: Option<Seq<char>>, env: EnvView)
    ensures
        ({
            let chosen = chosen_project(explicit, env);
            let unset = |v: Option<Seq<char>>| v matches Some(t) ==> t.len() == 0;
            &&& explicit is Some ==> chosen == Ok::<Seq<char>, Seq<char>>(explicit->0)
            &&& explicit is None && !unset(env.google_cloud_project) ==> chosen == Ok::<
                Seq<char>,
                Seq<char>,
            >(env.google_cloud_project->0)
            &&& explicit is None && unset(env.google_cloud_project) && !unset(env.gcloud_project)
                ==> chosen == Ok::<Seq<char>, Seq<char>>(env.gcloud_project->0)
            &&& explicit is None && unset(env.google_cloud_project) && unset(env.gcloud_project)
                && !unset(env.gcp_project) ==> chosen == Ok::<Seq<char>, Seq<char>>(
                env.gcp_project->0,
            )
            &&& explicit is None && unset(env.google_cloud_project) && unset(env.gcloud_project)
                && unset(env.gcp_project) ==> chosen == Err::<Seq<char>, Seq<char>>(
                "no GCP project specified — pass --project or set $GOOGLE_CLOUD_PROJECT"@,
            )
            &&& known_project(explicit, env) == match chosen {
                Ok(p) => Some(p),
                Err(_) => None::<Seq<char>>,
            }
        }),
{
}

/// Of two names of an option the first goes before the second, even where it is no text.
pub proof fn first_names_go_first(opts: JsonView, first: Seq<char>, second: Seq<char>)
    ensures
        opts.get(first) is Some ==> either(opts, first, second) == opts.str_at(first),
        opts.get(first) is None ==> either(opts, first, second) == opts.str_at(second),
{
}

/// Of four names of an option each goes before those behind it.
pub proof fn first_of_four_names_goes_first(
    opts: JsonView,
    first: Seq<char>,
    second: Seq<char>,
    third: Seq<char>,
    fourth: Seq<char>,
)
    ensures
        opts.get(first) is Some ==> first_of_four(opts, first, second, third, fourth)
            == opts.str_at(first),
        opts.get(first) is None && opts.get(second) is Some ==> first_of_four(
            opts,
            first,
            second,
            third,
            fourth,
        ) == opts.str_at(second),
        opts.get(first) is None && opts.get(second) is None && opts.get(third) is Some
            ==> first_of_four(opts, first, second, third, fourth) == opts.str_at(third),
        opts.get(first) is None && opts.get(second) is None && opts.get(third) is None
            ==> first_of_four(opts, first, second, third, fourth) == opts.str_at(fourth),
{
}

/// Who is acting: the project where one is known, and the credentials that the environment points
/// to, or the default ones.
pub proof fn identities_name_their_credentials(project: Option<Seq<char>>, env: EnvView)
    ensures
        ({
            let given = identity_object(project, env);
            &&& has_members(
                given,
                set!["ok"@, "project"@, "credentials_source"@, "credentials_path"@],
            )
            &&& given.at("ok"@) == JsonView::Bool(true)
            &&& project is Some ==> given.at("project"@) == JsonView::Str(project->0)
            &&& project is None ==> given.at("project"@) == JsonView::Null
            &&& env.application_credentials is Some ==> given.at("credentials_source"@)
                == JsonView::Str("GOOGLE_APPLICATION_CREDENTIALS file"@) && given.at(
                "credentials_path"@,
            ) == JsonView::Str(env.application_credentials->0)
            &&& env.application_credentials is None ==> given.at("credentials_source"@)
                == JsonView::Str("Application Default Credentials chain"@) && given.at(
                "credentials_path"@,
            ) == JsonView::Null
        }),
{
    reveal_strlit("ok");
    reveal_strlit("project");
    reveal_strlit("credentials_source");
    reveal_strlit("credentials_path");
    assert("ok"@.len() == 2 && "project"@.len() == 7);
    assert("credentials_source"@.len() == 18 && "credentials_path"@.len() == 16);
}

/// A reply with a status of success is its document, its text where it is none, and null where it
/// is empty. Any other is an error that names the status and the text.
pub proof fn replies_are_read_by_status(
    code: u16,
    status: Seq<char>,
    text: Seq<char>,
    parsed: Option<JsonView>,
)
    ensures
        ({
            let read = json_in_reply(code, status, text, parsed);
            let good = code / 100 == 2;
            &&& !good ==> read == Err::<JsonView, Seq<char>>("HTTP "@ + status + ": "@ + text)
            &&& good && text.len() == 0 ==> read == Ok::<JsonView, Seq<char>>(JsonView::Null)
            &&& good && text.len() > 0 && parsed is Some ==> read == Ok::<JsonView, Seq<char>>(
                parsed->0,
            )
            &&& good && text.len() > 0 && parsed is None ==> read == Ok::<JsonView, Seq<char>>(
                JsonView::Str(text),
            )
        }),
{
}

/// An answer is the result, or an object with the message of the error.
pub proof fn answers_carry_the_message(r: Result<JsonView, Seq<char>>)
    ensures
        r is Ok ==> answered(r) == r->Ok_0,
        r is Err ==> has_members(answered(r), set!["error"@]) && answered(r).at("error"@)
            == JsonView::Str(r->Err_0),
{
}

/// A status from 400 on and below 600 is a failure, but for a document that is not found.
pub proof fn statuses_tell_failures(op: Op, status: u16)
    ensures
        disposition(op, status) is Absent <==> op == Op::FirestoreGet && status == 404,
        disposition(op, status) is Failed <==> (status / 100 == 4 || status / 100 == 5) && !(op
            == Op::FirestoreGet && status == 404),
        disposition(op, status) is Read <==> status < 400 || status >= 600,
{
}

/// The operations that delete, acknowledge or write an entry expect no reply, reading an object
/// expects bytes, and all others expect a document.
pub proof fn replies_are_expected(op: Op)
    ensures
        expected_of(op) is Bytes <==> op == Op::GcsGetObject,
        expected_of(op) is Nothing <==> op == Op::GcsDeleteObject || op == Op::PubsubAck || op
            == Op::PubsubDeleteTopic || op == Op::PubsubDeleteSubscription || op
            == Op::SecretDelete || op == Op::FirestoreDelete || op == Op::LoggingWriteEntry,
        expected_of(op) is Document || expected_of(op) is Bytes || expected_of(op) is Nothing,
{
}

/// Where no reply is expected, none makes a difference.
pub proof fn unexpected_replies_make_no_difference(
    op: Op,
    opts: JsonView,
    env: EnvView,
    one: ReplyView,
    other: ReplyView,
)
    requires
        expected_of(op) is Nothing,
    ensures
        result_of(op, opts, env, one) == result_of(op, opts, env, other),
{
}

/// What a reply carries is its document; one without a document carries null.
pub proof fn replies_carry_documents(body: JsonView, bytes: Seq<u8>)
    ensures
        document(ReplyView::Document(body)) == body,
        document(ReplyView::Bytes(bytes)) == JsonView::Null,
        document(ReplyView::Nothing) == JsonView::Null,
        document(ReplyView::Absent) == JsonView::Null,
{
}

/// The bytes that stand for themselves in a URL are the ASCII letters and digits and four signs.
/// Any other is a percent sign and its two digits in uppercase.
pub proof fn bytes_are_percent_encoded(b: u8)
    ensures
        unreserved(b) <==> ('a' as u8 <= b <= 'z' as u8 || 'A' as u8 <= b <= 'Z' as u8 || '0' as u8
            <= b <= '9' as u8 || b == '-' as u8 || b == '.' as u8 || b == '_' as u8 || b
            == '~' as u8),
        unreserved(b) ==> percent_byte(b) == seq![b as char],
        !unreserved(b) ==> percent_byte(b) == seq![
            '%',
            "0123456789ABCDEF"@[b as int / 16],
            "0123456789ABCDEF"@[b as int % 16],
        ],
{
    lemma_hex(b as int / 16);
    lemma_hex(b as int % 16);
}

proof fn lemma_hex(d: int)
    requires
        0 <= d < 16,
    ensures
        hex_digit(d) == "0123456789ABCDEF"@[d],
{
    reveal_strlit("0123456789ABCDEF");
}

/// A decimal notation denotes its number, with either sign in front of it and with zeros in front
/// of it.
pub proof fn notations_denote_numbers(n: nat)
    ensures
        denoted(decimal(n)) == Some(n as int),
        denoted(seq!['+'] + decimal(n)) == Some(n as int),
        denoted(seq!['-'] + decimal(n)) == Some(-(n as int)),
        denoted(seq!['0'] + decimal(n)) == Some(n as int),
{
    lemma_decimal_reads_back(n);
    let d = decimal(n);
    assert(d[0] != '-' && d[0] != '+');
    assert((seq!['+'] + d).skip(1) =~= d);
    assert((seq!['-'] + d).skip(1) =~= d);
    lemma_leading_zero(d);
}

proof fn lemma_leading_zero(d: Seq<char>)
    requires
        all_digits(d),
    ensures
        all_digits(seq!['0'] + d),
        digits_value(seq!['0'] + d) == digits_value(d),
    decreases d.len(),
{
    let s = seq!['0'] + d;
    assert(s.drop_last() =~= seq!['0'] + d.drop_last());
    assert(s.last() == d.last());
    if d.len() > 1 {
        lemma_leading_zero(d.drop_last());
    } else {
        assert(d.drop_last() =~= Seq::empty());
        assert(s.drop_last() =~= seq!['0']);
        reveal_with_fuel(digits_value, 3);
        assert(seq!['0'].drop_last() =~= Seq::<char>::empty());
    }
}

/// A number is read where it fits in sixty-four bits.
pub proof fn denoted_numbers_fit(s: Seq<char>)
    ensures
        denoted_i64(s) is Some <==> denoted(s) is Some && -0x8000_0000_0000_0000 <= denoted(s)->0
            <= 0x7fff_ffff_ffff_ffff,
        denoted_i64(s) is Some ==> denoted_i64(s) == denoted(s),
{
}

/// What has anything but digits behind its sign, or nothing, denotes no number.
pub proof fn other_texts_denote_nothing(s: Seq<char>, i: int)
    requires
        s.len() == 0 || s == seq!['-'] || s == seq!['+'] || (0 < i < s.len() && !('0' <= s[i]
            <= '9')) || (i == 0 && s.len() > 0 && !('0' <= s[0] <= '9') && s[0] != '-' && s[0]
            != '+'),
    ensures
        denoted(s) is None,
{
    if s.len() > 0 && (s[0] == '-' || s[0] == '+') {
        let rest = s.skip(1);
        if 0 < i < s.len() {
            assert(rest[i - 1] == s[i]);
        }
    }
}

} // verus!
