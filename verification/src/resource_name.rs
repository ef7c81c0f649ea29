//! Relative resource names: `collection/id/collection/id…`.

use vstd::prelude::*;
use vstd::string::*;

use crate::json::{items_view, str_array, Json, JsonView, Members};
use crate::options::{either, either_str};
use crate::request::{outcome, Draft, Error};
use crate::text::{
    contains, cut_last, join, join_all, lemma_cut_last_parts, lemma_join_split, lemma_nonempty_all, lemma_nonempty_members,
    lemma_split_join, nonempty, rsplit_once, split, split_nonempty, texts,
};

verus! {

/// The segments of a resource name: what stands between slashes, without the empty ones.
pub open spec fn segments(name: Seq<char>) -> Seq<Seq<char>> {
    nonempty(split(name, '/'))
}

/// What stands behind the last slash; the whole text where there is none.
pub open spec fn leaf(full: Seq<char>) -> Seq<char> {
    match cut_last(full, '/') {
        Some((_, last)) => last,
        None => full,
    }
}

/// The name that ends a resource path, such as `t` of `projects/p/topics/t`.
pub fn leaf_name<'a>(full: &'a str) -> (r: &'a str)
    ensures
        r@ == leaf(full@),
{
    match rsplit_once(full, '/') {
        Some((_, last)) => last,
        None => full,
    }
}

/// The id of each collection: of every two segments the second under the name of the first. A
/// later pair replaces an earlier one of the same collection.
pub open spec fn ids_by_collection(parts: Seq<Seq<char>>) -> Map<Seq<char>, JsonView>
    decreases parts.len(),
{
    if parts.len() < 2 {
        Map::empty()
    } else if parts.len() % 2 == 1 {
        ids_by_collection(parts.drop_last())
    } else {
        ids_by_collection(parts.take(parts.len() - 2)).insert(
            parts[parts.len() - 2],
            JsonView::Str(parts[parts.len() - 1]),
        )
    }
}

/// The result of `parse_resource_name`.
pub open spec fn parse_resource_name_result(opts: JsonView) -> Result<JsonView, Seq<char>> {
    match either(opts, "name"@, "resource"@) {
        None => Err("missing name"@),
        Some(name) => {
            let parts = segments(name);
            if parts.len() == 0 {
                Err("empty resource name"@)
            } else {
                Ok(
                    JsonView::Obj(
                        map![
                            "parts"@ => str_array(parts),
                            "pairs"@ => JsonView::Obj(ids_by_collection(parts)),
                            "trailing"@ => if parts.len() % 2 == 1 {
                                JsonView::Str(parts.last())
                            } else {
                                JsonView::Null
                            },
                        ],
                    ),
                )
            }
        },
    }
}

/// The result of `resource_name_parent`.
pub open spec fn resource_name_parent_result(opts: JsonView) -> Result<JsonView, Seq<char>> {
    match either(opts, "name"@, "resource"@) {
        None => Err("missing name"@),
        Some(name) => {
            let parts = segments(name);
            if parts.len() < 2 || parts.len() % 2 == 1 {
                Err(
                    "not a relative resource name (expected `collection/id` pairs): `"@ + name
                        + "`"@,
                )
            } else {
                Ok(
                    JsonView::Obj(
                        map![
                            "name"@ => JsonView::Str(name),
                            "parent"@ => JsonView::Str(
                                join(parts.take(parts.len() - 2), "/"@),
                            ),
                            "has_parent"@ => JsonView::Bool(parts.len() > 2),
                            "collection"@ => JsonView::Str(parts[parts.len() - 2]),
                            "id"@ => JsonView::Str(parts[parts.len() - 1]),
                        ],
                    ),
                )
            }
        },
    }
}

/// A text can be a segment: it is not empty and has no slash in it.
pub open spec fn is_segment(s: Seq<char>) -> bool {
    s.len() > 0 && !s.contains('/')
}

/// The text as a segment, or what is answered where it cannot be one.
pub open spec fn checked_segment(s: Seq<char>) -> Result<Seq<char>, Seq<char>> {
    if is_segment(s) {
        Ok(s)
    } else {
        Err("invalid segment `"@ + s + "` (non-empty, no `/`)"@)
    }
}

/// The segments that an entry of `parts` gives.
pub open spec fn part_segments(part: JsonView) -> Result<Seq<Seq<char>>, Seq<char>> {
    match part.as_str() {
        None => Err("parts entries must be strings"@),
        Some(s) => match checked_segment(s) {
            Err(e) => Err(e),
            Ok(t) => Ok(seq![t]),
        },
    }
}

/// The collection and the id that an entry of `pairs` gives, as far as they are texts.
pub open spec fn pair_texts(pair: JsonView) -> Option<(Option<Seq<char>>, Option<Seq<char>>)> {
    match pair {
        JsonView::Arr(a) => if a.len() == 2 {
            Some((a[0].as_str(), a[1].as_str()))
        } else {
            None
        },
        JsonView::Obj(_) => Some((pair.str_at("collection"@), pair.str_at("id"@))),
        _ => None,
    }
}

/// The segments that an entry of `pairs` gives.
pub open spec fn pair_segments(pair: JsonView) -> Result<Seq<Seq<char>>, Seq<char>> {
    match pair_texts(pair) {
        None => Err("each pair must be [collection, id] or {collection, id}"@),
        Some((collection, id)) => match collection {
            None => Err("pair missing collection"@),
            Some(c) => match checked_segment(c) {
                Err(e) => Err(e),
                Ok(first) => match id {
                    None => Err("pair missing id"@),
                    Some(i) => match checked_segment(i) {
                        Err(e) => Err(e),
                        Ok(second) => Ok(seq![first, second]),
                    },
                },
            },
        },
    }
}

/// The segments of all entries one behind the other, or the answer to the first entry that gives
/// none.
pub open spec fn gathered(
    entries: Seq<JsonView>,
    give: spec_fn(JsonView) -> Result<Seq<Seq<char>>, Seq<char>>,
) -> Result<Seq<Seq<char>>, Seq<char>>
    decreases entries.len(),
{
    if entries.len() == 0 {
        Ok(Seq::empty())
    } else {
        match gathered(entries.drop_last(), give) {
            Err(e) => Err(e),
            Ok(before) => match give(entries.last()) {
                Err(e) => Err(e),
                Ok(more) => Ok(before + more),
            },
        }
    }
}

/// The segments that the options of `op_build_resource_name` give.
pub open spec fn given_segments(opts: JsonView) -> Result<Seq<Seq<char>>, Seq<char>> {
    match opts.at("parts"@).as_array() {
        Some(parts) => if parts.len() == 0 {
            Err("parts must not be empty"@)
        } else {
            gathered(parts, |p: JsonView| part_segments(p))
        },
        None => match opts.at("pairs"@).as_array() {
            None => Err("missing parts or pairs"@),
            Some(pairs) => match gathered(pairs, |p: JsonView| pair_segments(p)) {
                Err(e) => Err(e),
                Ok(paired) => {
                    let all = match opts.str_at("trailing"@) {
                        None => Ok(paired),
                        Some(t) => match checked_segment(t) {
                            Err(e) => Err(e),
                            Ok(last) => Ok(paired.push(last)),
                        },
                    };
                    match all {
                        Err(e) => Err(e),
                        Ok(segs) => if segs.len() == 0 {
                            Err("no segments to build"@)
                        } else {
                            Ok(segs)
                        },
                    }
                },
            },
        },
    }
}

/// The result of `build_resource_name`.
pub open spec fn build_resource_name_result(opts: JsonView) -> Result<JsonView, Seq<char>> {
    match given_segments(opts) {
        Err(e) => Err(e),
        Ok(segs) => Ok(JsonView::Obj(map!["name"@ => JsonView::Str(join(segs, "/"@))])),
    }
}

/// Parses the resource name of the option `name` (or `resource`) into its `parts`, the `pairs`
/// of collections and ids, and the `trailing` segment of an odd number of them.
pub fn op_parse_resource_name(opts: Json) -> (r: Result<Json, Error>)
    ensures
        outcome(r) == parse_resource_name_result(opts@),
{
    match either_str(&opts, "name", "resource") {
        None => Err(Error::new("missing name")),
        Some(name) => {
            let parts: Vec<&str> = split_nonempty(name, '/');
            if parts.len() == 0 {
                return Err(Error::new("empty resource name"));
            }
            let ghost all = texts(parts@);
            let mut pairs: Members = Members::new();
            let mut i: usize = 0;
            while i + 1 < parts.len()
                invariant
                    all == texts(parts@),
                    i <= parts.len(),
                    i % 2 == 0,
                    pairs@ == ids_by_collection(all.take(i as int)),
                decreases parts.len() - i,
            {
                pairs = pairs.with(parts[i], Json::text(parts[i + 1]));
                proof {
                    let next = all.take(i + 2);
                    assert(next.take(next.len() - 2) =~= all.take(i as int));
                    assert(next[i as int] == parts@[i as int]@);
                    assert(next[i + 1] == parts@[i + 1]@);
                }
                i += 2;
            }
            proof {
                if i < parts.len() {
                    assert(all.drop_last() =~= all.take(i as int));
                } else {
                    assert(all.take(i as int) =~= all);
                }
            }
            let trailing: Json = if parts.len() % 2 == 1 {
                Json::text(parts[parts.len() - 1])
            } else {
                Json::Null
            };
            Ok(
                Json::Object(
                    Members::new().with("parts", Json::text_array(&parts)).with(
                        "pairs",
                        Json::Object(pairs),
                    ).with("trailing", trailing),
                ),
            )
        },
    }
}

/// The parent of the resource name of the option `name` (or `resource`): the name without its
/// last collection and id.
pub fn op_resource_name_parent(opts: Json) -> (r: Result<Json, Error>)
    ensures
        outcome(r) == resource_name_parent_result(opts@),
{
    match either_str(&opts, "name", "resource") {
        None => Err(Error::new("missing name")),
        Some(name) => {
            let mut parts: Vec<&str> = split_nonempty(name, '/');
            let n: usize = parts.len();
            let ghost all = texts(parts@);
            if n < 2 || n % 2 == 1 {
                return Err(
                    Draft::new(
                        "not a relative resource name (expected `collection/id` pairs): `",
                    ).lit(name).lit("`").error(),
                );
            }
            let collection: &str = parts[n - 2];
            let id: &str = parts[n - 1];
            parts.truncate(n - 2);
            assert(texts(parts@) =~= all.take(n - 2));
            let parent: String = join_all(&parts, "/");
            Ok(
                Json::Object(
                    Members::new().with("name", Json::text(name)).with(
                        "parent",
                        Json::String(parent),
                    ).with("has_parent", Json::Bool(n > 2)).with(
                        "collection",
                        Json::text(collection),
                    ).with("id", Json::text(id)),
                ),
            )
        },
    }
}

fn check_segment<'a>(s: &'a str) -> (r: Result<&'a str, Error>)
    ensures
        match r {
            Ok(t) => checked_segment(s@) == Ok::<Seq<char>, Seq<char>>(t@),
            Err(e) => checked_segment(s@) == Err::<Seq<char>, Seq<char>>(e@),
        },
{
    if s.is_empty() || contains(s, '/') {
        Err(Draft::new("invalid segment `").lit(s).lit("` (non-empty, no `/`)").error())
    } else {
        Ok(s)
    }
}

/// What gathered segments denote, or the message of the error.
pub open spec fn gathered_view(r: Result<Vec<&str>, Error>) -> Result<Seq<Seq<char>>, Seq<char>> {
    match r {
        Ok(segs) => Ok(texts(segs@)),
        Err(e) => Err(e@),
    }
}

proof fn lemma_gathered_stops(
    entries: Seq<JsonView>,
    give: spec_fn(JsonView) -> Result<Seq<Seq<char>>, Seq<char>>,
    k: int,
)
    requires
        0 <= k <= entries.len(),
        gathered(entries.take(k), give) is Err,
    ensures
        gathered(entries, give) == gathered(entries.take(k), give),
    decreases entries.len() - k,
{
    if k < entries.len() {
        assert(entries.take(k + 1).drop_last() =~= entries.take(k));
        lemma_gathered_stops(entries, give, k + 1);
    } else {
        assert(entries.take(k) =~= entries);
    }
}

fn gather_parts<'a>(parts: &'a Vec<Json>) -> (r: Result<Vec<&'a str>, Error>)
    ensures
        gathered_view(r) == gathered(items_view(parts@), |p: JsonView| part_segments(p)),
{
    let ghost give = |p: JsonView| part_segments(p);
    let ghost all = items_view(parts@);
    let mut segs: Vec<&'a str> = Vec::new();
    let mut i: usize = 0;
    assert(texts(segs@) =~= Seq::empty());
    while i < parts.len()
        invariant
            i <= parts.len(),
            give == |p: JsonView| part_segments(p),
            all == items_view(parts@),
            gathered(all.take(i as int), give) == Ok::<Seq<Seq<char>>, Seq<char>>(texts(segs@)),
        decreases parts.len() - i,
    {
        proof {
            let next = all.take(i + 1);
            assert(next.drop_last() =~= all.take(i as int));
            assert(next.last() == parts@[i as int]@);
            if gathered(next, give) is Err {
                lemma_gathered_stops(all, give, i + 1);
            }
        }
        let ghost before = texts(segs@);
        match parts[i].as_str() {
            None => {
                return Err(Error::new("parts entries must be strings"));
            },
            Some(s) => {
                let t: &'a str = check_segment(s)?;
                segs.push(t);
                assert(texts(segs@) =~= before + seq![t@]);
            },
        }
        i += 1;
    }
    assert(all.take(parts.len() as int) =~= all);
    Ok(segs)
}

fn pair_of<'a>(pair: &'a Json) -> (r: Option<(Option<&'a str>, Option<&'a str>)>)
    ensures
        match r {
            Some((c, id)) => pair_texts(pair@) == Some(
                (crate::options::opt_str(c), crate::options::opt_str(id)),
            ),
            None => pair_texts(pair@) is None,
        },
{
    match pair.as_array() {
        Some(a) => if a.len() == 2 {
            Some((a[0].as_str(), a[1].as_str()))
        } else {
            None
        },
        None => if pair.is_object() {
            Some((pair.str_at("collection"), pair.str_at("id")))
        } else {
            None
        },
    }
}

fn gather_pairs<'a>(pairs: &'a Vec<Json>) -> (r: Result<Vec<&'a str>, Error>)
    ensures
        gathered_view(r) == gathered(items_view(pairs@), |p: JsonView| pair_segments(p)),
{
    let ghost give = |p: JsonView| pair_segments(p);
    let ghost all = items_view(pairs@);
    let mut segs: Vec<&'a str> = Vec::new();
    let mut i: usize = 0;
    assert(texts(segs@) =~= Seq::empty());
    while i < pairs.len()
        invariant
            i <= pairs.len(),
            give == |p: JsonView| pair_segments(p),
            all == items_view(pairs@),
            gathered(all.take(i as int), give) == Ok::<Seq<Seq<char>>, Seq<char>>(texts(segs@)),
        decreases pairs.len() - i,
    {
        proof {
            let next = all.take(i + 1);
            assert(next.drop_last() =~= all.take(i as int));
            assert(next.last() == pairs@[i as int]@);
            if gathered(next, give) is Err {
                lemma_gathered_stops(all, give, i + 1);
            }
        }
        let ghost before = texts(segs@);
        match pair_of(&pairs[i]) {
            None => {
                return Err(Error::new("each pair must be [collection, id] or {collection, id}"));
            },
            Some((collection, id)) => {
                let first: &'a str = match collection {
                    None => {
                        return Err(Error::new("pair missing collection"));
                    },
                    Some(c) => check_segment(c)?,
                };
                let second: &'a str = match id {
                    None => {
                        return Err(Error::new("pair missing id"));
                    },
                    Some(s) => check_segment(s)?,
                };
                segs.push(first);
                segs.push(second);
                assert(texts(segs@) =~= before + seq![first@, second@]);
            },
        }
        i += 1;
    }
    assert(all.take(pairs.len() as int) =~= all);
    Ok(segs)
}

fn named(segs: &Vec<&str>) -> (r: Json)
    ensures
        r@ == JsonView::Obj(map!["name"@ => JsonView::Str(join(texts(segs@), "/"@))]),
{
    Json::Object(Members::new().with("name", Json::String(join_all(segs, "/"))))
}

/// Assembles a resource name from the option `parts`, or from `pairs` (each `[collection, id]`
/// or `{collection, id}`) and an optional `trailing` segment.
pub fn op_build_resource_name(opts: Json) -> (r: Result<Json, Error>)
    ensures
        outcome(r) == build_resource_name_result(opts@),
{
    if let Some(member) = opts.get("parts") {
        if let Some(parts) = member.as_array() {
            if parts.len() == 0 {
                return Err(Error::new("parts must not be empty"));
            }
            let segs: Vec<&str> = gather_parts(parts)?;
            return Ok(named(&segs));
        }
    }
    if let Some(member) = opts.get("pairs") {
        if let Some(pairs) = member.as_array() {
            let mut segs: Vec<&str> = gather_pairs(pairs)?;
            let ghost paired = texts(segs@);
            if let Some(t) = opts.str_at("trailing") {
                segs.push(check_segment(t)?);
                assert(texts(segs@) =~= paired.push(t@));
            }
            if segs.len() == 0 {
                return Err(Error::new("no segments to build"));
            }
            return Ok(named(&segs));
        }
    }
    Err(Error::new("missing parts or pairs"))
}

/// Every segment of a name can be a segment.
proof fn lemma_segments_are_segments(name: Seq<char>)
    ensures
        forall|i: int| 0 <= i < segments(name).len() ==> is_segment(#[trigger] segments(name)[i]),
{
    let pieces = split(name, '/');
    lemma_join_split(name, '/');
    lemma_nonempty_members(pieces);
    assert forall|i: int| 0 <= i < segments(name).len() implies is_segment(
        #[trigger] segments(name)[i],
    ) by {
        let s = nonempty(pieces)[i];
        assert(pieces.contains(s));
        let j = choose|j: int| 0 <= j < pieces.len() && pieces[j] == s;
        assert(!pieces[j].contains('/'));
    }
}

/// Segments come back from the name that they make.
proof fn lemma_segments_of_joined(segs: Seq<Seq<char>>)
    requires
        segs.len() > 0,
        forall|i: int| 0 <= i < segs.len() ==> is_segment(#[trigger] segs[i]),
    ensures
        segments(join(segs, "/"@)) == segs,
{
    reveal_strlit("/");
    assert("/"@ =~= seq!['/']);
    assert forall|i: int| 0 <= i < segs.len() implies !(#[trigger] segs[i]).contains('/') by {
        assert(is_segment(segs[i]));
    }
    lemma_split_join(segs, '/');
    assert forall|i: int| 0 <= i < segs.len() implies (#[trigger] segs[i]).len() > 0 by {
        assert(is_segment(segs[i]));
    }
    lemma_nonempty_all(segs);
}

/// Where each entry gives segments, so do all of them together.
proof fn lemma_gathered_segments(
    entries: Seq<JsonView>,
    give: spec_fn(JsonView) -> Result<Seq<Seq<char>>, Seq<char>>,
)
    requires
        gathered(entries, give) is Ok,
        forall|e: JsonView, i: int|
            #![trigger give(e)->Ok_0[i]]
            give(e) is Ok && 0 <= i < give(e)->Ok_0.len() ==> is_segment(give(e)->Ok_0[i]),
    ensures
        forall|i: int|
            0 <= i < gathered(entries, give)->Ok_0.len() ==> is_segment(
                #[trigger] gathered(entries, give)->Ok_0[i],
            ),
    decreases entries.len(),
{
    if entries.len() > 0 {
        lemma_gathered_segments(entries.drop_last(), give);
        let before = gathered(entries.drop_last(), give)->Ok_0;
        let more = give(entries.last())->Ok_0;
        assert forall|i: int| 0 <= i < (before + more).len() implies is_segment(
            #[trigger] (before + more)[i],
        ) by {
            if i < before.len() {
                assert(is_segment(before[i]));
            } else {
                assert(is_segment(more[i - before.len()]));
            }
        }
    }
}

/// The given segments can be segments, and there is at least one.
proof fn lemma_given_segments(opts: JsonView)
    requires
        given_segments(opts) is Ok,
    ensures
        given_segments(opts)->Ok_0.len() > 0,
        forall|i: int|
            0 <= i < given_segments(opts)->Ok_0.len() ==> is_segment(
                #[trigger] given_segments(opts)->Ok_0[i],
            ),
{
    let from_parts = |p: JsonView| part_segments(p);
    let from_pairs = |p: JsonView| pair_segments(p);
    match opts.at("parts"@).as_array() {
        Some(parts) => {
            lemma_gathered_segments(parts, from_parts);
            lemma_gathered_some(parts, from_parts);
        },
        None => {
            let pairs = opts.at("pairs"@).as_array()->0;
            lemma_gathered_segments(pairs, from_pairs);
            let paired = gathered(pairs, from_pairs)->Ok_0;
            if let Some(t) = opts.str_at("trailing"@) {
                assert forall|i: int| 0 <= i < paired.push(t).len() implies is_segment(
                    #[trigger] paired.push(t)[i],
                ) by {
                    if i < paired.len() {
                        assert(is_segment(paired[i]));
                    }
                }
            }
        },
    }
}

/// Entries of `parts` give one segment each.
proof fn lemma_gathered_some(
    parts: Seq<JsonView>,
    give: spec_fn(JsonView) -> Result<Seq<Seq<char>>, Seq<char>>,
)
    requires
        give == (|p: JsonView| part_segments(p)),
        gathered(parts, give) is Ok,
    ensures
        gathered(parts, give)->Ok_0.len() == parts.len(),
    decreases parts.len(),
{
    if parts.len() > 0 {
        lemma_gathered_some(parts.drop_last(), give);
    }
}

/// Texts that can be segments are gathered as they are.
proof fn lemma_gathered_texts(
    segs: Seq<Seq<char>>,
    give: spec_fn(JsonView) -> Result<Seq<Seq<char>>, Seq<char>>,
)
    requires
        give == (|p: JsonView| part_segments(p)),
        forall|i: int| 0 <= i < segs.len() ==> is_segment(#[trigger] segs[i]),
    ensures
        gathered(segs.map_values(|t: Seq<char>| JsonView::Str(t)), give) == Ok::<
            Seq<Seq<char>>,
            Seq<char>,
        >(segs),
    decreases segs.len(),
{
    let str = |t: Seq<char>| JsonView::Str(t);
    let entries = segs.map_values(str);
    if segs.len() > 0 {
        let init = segs.drop_last();
        assert forall|i: int| 0 <= i < init.len() implies is_segment(#[trigger] init[i]) by {
            assert(init[i] == segs[i]);
        }
        lemma_gathered_texts(init, give);
        assert(entries.drop_last() =~= init.map_values(str));
        assert(is_segment(segs[segs.len() - 1]));
        assert(init + seq![segs.last()] =~= segs);
    } else {
        assert(segs =~= Seq::empty());
    }
}

/// The names of the members that results of this module have are different names.
proof fn lemma_names()
    ensures
        "parts"@ != "pairs"@,
        "parts"@ != "trailing"@,
        "pairs"@ != "trailing"@,
        "name"@ != "parent"@,
        "name"@ != "has_parent"@,
        "name"@ != "collection"@,
        "name"@ != "id"@,
        "parent"@ != "has_parent"@,
        "parent"@ != "collection"@,
        "parent"@ != "id"@,
        "has_parent"@ != "collection"@,
        "has_parent"@ != "id"@,
        "collection"@ != "id"@,
{
    reveal_strlit("parts");
    reveal_strlit("pairs");
    reveal_strlit("trailing");
    reveal_strlit("name");
    reveal_strlit("parent");
    reveal_strlit("has_parent");
    reveal_strlit("collection");
    reveal_strlit("id");
    assert("parts"@[1] == 'a' && "pairs"@[1] == 'a');
    assert("parts"@[2] == 'r' && "pairs"@[2] == 'i');
    assert("parts"@.len() == 5 && "pairs"@.len() == 5 && "trailing"@.len() == 8);
    assert("name"@.len() == 4 && "parent"@.len() == 6 && "has_parent"@.len() == 10);
    assert("collection"@.len() == 10 && "id"@.len() == 2);
    assert("has_parent"@[0] == 'h' && "collection"@[0] == 'c');
}

/// Parsing a name that was built gives the segments that it was built from.
pub proof fn parsing_undoes_building(opts: JsonView)
    requires
        build_resource_name_result(opts) is Ok,
    ensures
        parse_resource_name_result(build_resource_name_result(opts)->Ok_0) is Ok,
        parse_resource_name_result(build_resource_name_result(opts)->Ok_0)->Ok_0.at("parts"@)
            == str_array(given_segments(opts)->Ok_0),
{
    lemma_names();
    lemma_given_segments(opts);
    lemma_segments_of_joined(given_segments(opts)->Ok_0);
}

/// Building from what a name was parsed into gives its segments with one slash between each two:
/// the name itself, where it has no empty segment.
pub proof fn building_undoes_parsing(opts: JsonView)
    requires
        parse_resource_name_result(opts) is Ok,
    ensures
        ({
            let name = either(opts, "name"@, "resource"@)->0;
            let built = build_resource_name_result(parse_resource_name_result(opts)->Ok_0);
            &&& built == Ok::<JsonView, Seq<char>>(
                JsonView::Obj(map!["name"@ => JsonView::Str(join(segments(name), "/"@))]),
            )
            &&& segments(name) == split(name, '/') ==> join(segments(name), "/"@) == name
        }),
{
    lemma_names();
    reveal_strlit("/");
    assert("/"@ =~= seq!['/']);
    let name = either(opts, "name"@, "resource"@)->0;
    lemma_segments_are_segments(name);
    lemma_gathered_texts(segments(name), |p: JsonView| part_segments(p));
    lemma_join_split(name, '/');
}

/// A name that has a parent is its parent with the collection and the id behind it, and the
/// parent is a resource name too; a name that has none is the collection and the id.
pub proof fn parent_is_the_name_without_its_last_pair(opts: JsonView)
    requires
        resource_name_parent_result(opts) is Ok,
    ensures
        ({
            let found = resource_name_parent_result(opts)->Ok_0;
            let name = join(segments(either(opts, "name"@, "resource"@)->0), "/"@);
            let parent = found.str_at("parent"@)->0;
            let last = found.str_at("collection"@)->0 + "/"@ + found.str_at("id"@)->0;
            if found.at("has_parent"@) == JsonView::Bool(true) {
                &&& name == parent + "/"@ + last
                &&& resource_name_parent_result(
                    JsonView::Obj(map!["name"@ => JsonView::Str(parent)]),
                ) is Ok
            } else {
                &&& name == last
                &&& parent == Seq::<char>::empty()
            }
        }),
{
    lemma_names();
    let raw = either(opts, "name"@, "resource"@)->0;
    let segs = segments(raw);
    lemma_segments_are_segments(raw);
    let n = segs.len() as int;
    let above = segs.take(n - 2);
    assert(segs.drop_last().drop_last() =~= above);
    let sep = "/"@;
    let last = segs[n - 2] + sep + segs[n - 1];
    if n > 2 {
        assert(join(segs.drop_last(), sep) == join(above, sep) + sep + segs[n - 2]);
        assert(join(segs, sep) =~= join(above, sep) + sep + last);
        assert forall|i: int| 0 <= i < above.len() implies is_segment(#[trigger] above[i]) by {
            assert(above[i] == segs[i]);
        }
        lemma_segments_of_joined(above);
        let up = JsonView::Obj(map!["name"@ => JsonView::Str(join(above, sep))]);
        assert(either(up, "name"@, "resource"@) == Some(join(above, sep)));
    } else {
        assert(segs.drop_last() =~= seq![segs[0]]);
        assert(join(seq![segs[0]], sep) == segs[0]);
    }
}

/// Under a collection stands the id of its last pair.
pub proof fn pairs_hold_the_last_id(parts: Seq<Seq<char>>, i: int)
    requires
        0 <= i,
        i + 1 < parts.len(),
        i % 2 == 0,
        forall|j: int|
            i < j && j + 1 < parts.len() && j % 2 == 0 ==> #[trigger] parts[j] != parts[i],
    ensures
        ids_by_collection(parts).contains_key(parts[i]),
        ids_by_collection(parts)[parts[i]] == JsonView::Str(parts[i + 1]),
    decreases parts.len(),
{
    let n = parts.len() as int;
    if n % 2 == 1 {
        let init = parts.drop_last();
        assert forall|j: int|
            i < j && j + 1 < init.len() && j % 2 == 0 implies #[trigger] init[j] != init[i] by {
            assert(init[j] == parts[j]);
        }
        pairs_hold_the_last_id(init, i);
    } else if i < n - 2 {
        let init = parts.take(n - 2);
        assert forall|j: int|
            i < j && j + 1 < init.len() && j % 2 == 0 implies #[trigger] init[j] != init[i] by {
            assert(init[j] == parts[j]);
        }
        pairs_hold_the_last_id(init, i);
        assert(parts[n - 2] != parts[i]);
    }
}

/// A path ends in the leaf behind its last slash, and a leaf is a leaf of itself.
pub proof fn leaf_ends_a_path(above: Seq<char>, last: Seq<char>)
    requires
        !last.contains('/'),
    ensures
        leaf(above + "/"@ + last) == last,
        leaf(last) == last,
{
    reveal_strlit("/");
    let full = above + "/"@ + last;
    full.index_of_last_ensures('/');
    last.index_of_last_ensures('/');
    let n = above.len() as int;
    assert(full[n] == '/');
    assert forall|i: int| n < i < full.len() implies full[i] != '/' by {
        assert(full[i] == last[i - n - 1]);
    }
    assert(full.index_of_last('/') == Some(n));
    assert(full.skip(n + 1) =~= last);
}

/// A name has the same leaf under any path.
pub proof fn leaf_is_the_same_under_any_path(above: Seq<char>, name: Seq<char>)
    ensures
        leaf(above + "/"@ + name) == leaf(name),
{
    lemma_cut_last_parts(name, '/');
    match cut_last(name, '/') {
        Some((front, last)) => {
            reveal_strlit("/");
            assert("/"@ =~= seq!['/']);
            let path = above + "/"@ + front;
            assert(above + "/"@ + name =~= path + "/"@ + last);
            leaf_ends_a_path(path, last);
        },
        None => {
            leaf_ends_a_path(above, name);
        },
    }
}

} // verus!
