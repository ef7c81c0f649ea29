//! JSON values, and the lookups and list transformations that the operations are made of.

use vstd::prelude::*;
use vstd::string::*;

use crate::text::{same, texts};

verus! {

/// A JSON number: an integer, or a floating-point number held by its IEEE 754 bit pattern.
#[derive(Clone, Copy, Debug, PartialEq, Eq)]
pub enum Number {
    PosInt(u64),
    NegInt(i64),
    Float(u64),
}

/// A JSON value.
#[derive(Debug)]
pub enum Json {
    Null,
    Bool(bool),
    Number(Number),
    String(String),
    Array(Vec<Json>),
    Object(Members),
}

/// The members of a JSON object. Where a name occurs more than once, the last one counts.
#[derive(Debug)]
pub struct Members {
    pub entries: Vec<(String, Json)>,
}

/// What a JSON value denotes: integers without a width, objects as maps from names to values.
#[verifier::ext_equal]
pub enum JsonView {
    Null,
    Bool(bool),
    Int(int),
    Float(u64),
    Str(Seq<char>),
    Arr(Seq<JsonView>),
    Obj(Map<Seq<char>, JsonView>),
}

pub open spec fn number_view(n: Number) -> JsonView {
    match n {
        Number::PosInt(u) => JsonView::Int(u as int),
        Number::NegInt(i) => JsonView::Int(i as int),
        Number::Float(bits) => JsonView::Float(bits),
    }
}

pub open spec fn json_view(j: Json) -> JsonView
    decreases j,
{
    match j {
        Json::Null => JsonView::Null,
        Json::Bool(b) => JsonView::Bool(b),
        Json::Number(n) => number_view(n),
        Json::String(s) => JsonView::Str(s@),
        Json::Array(a) => JsonView::Arr(
            Seq::new(
                a@.len(),
                |i: int|
                    if 0 <= i < a@.len() {
                        json_view(a@[i])
                    } else {
                        JsonView::Null
                    },
            ),
        ),
        Json::Object(m) => JsonView::Obj(members_view(m.entries@)),
    }
}

pub open spec fn members_view(entries: Seq<(String, Json)>) -> Map<Seq<char>, JsonView>
    decreases entries,
{
    if entries.len() == 0 {
        Map::empty()
    } else {
        members_view(entries.drop_last()).insert(entries.last().0@, json_view(entries.last().1))
    }
}

/// The values that a sequence of JSON values denotes.
pub open spec fn items_view(items: Seq<Json>) -> Seq<JsonView> {
    items.map_values(|j: Json| j@)
}

impl View for Json {
    type V = JsonView;

    open spec fn view(&self) -> JsonView {
        json_view(*self)
    }
}

impl View for Members {
    type V = Map<Seq<char>, JsonView>;

    open spec fn view(&self) -> Map<Seq<char>, JsonView> {
        members_view(self.entries@)
    }
}

impl JsonView {
    /// The member of that name, where this is an object that has one.
    pub open spec fn get(self, key: Seq<char>) -> Option<JsonView> {
        match self {
            JsonView::Obj(m) => if m.dom().contains(key) {
                Some(m[key])
            } else {
                None
            },
            _ => None,
        }
    }

    /// The member of that name, null where there is none.
    pub open spec fn at(self, key: Seq<char>) -> JsonView {
        match self.get(key) {
            Some(v) => v,
            None => JsonView::Null,
        }
    }

    pub open spec fn as_str(self) -> Option<Seq<char>> {
        match self {
            JsonView::Str(s) => Some(s),
            _ => None,
        }
    }

    pub open spec fn as_array(self) -> Option<Seq<JsonView>> {
        match self {
            JsonView::Arr(a) => Some(a),
            _ => None,
        }
    }

    pub open spec fn as_bool(self) -> Option<bool> {
        match self {
            JsonView::Bool(b) => Some(b),
            _ => None,
        }
    }

    /// The integer, where it fits in an `i64`.
    pub open spec fn as_i64(self) -> Option<int> {
        match self {
            JsonView::Int(i) => if i64::MIN <= i <= i64::MAX {
                Some(i)
            } else {
                None
            },
            _ => None,
        }
    }

    /// The integer, where it fits in a `u64`.
    pub open spec fn as_u64(self) -> Option<int> {
        match self {
            JsonView::Int(i) => if 0 <= i <= u64::MAX {
                Some(i)
            } else {
                None
            },
            _ => None,
        }
    }

    /// The text of the member of that name, where it is a text.
    pub open spec fn str_at(self, key: Seq<char>) -> Option<Seq<char>> {
        self.at(key).as_str()
    }

    /// The text of the member of that name, `default` where it is no text.
    pub open spec fn str_or(self, key: Seq<char>, default: Seq<char>) -> Seq<char> {
        match self.str_at(key) {
            Some(s) => s,
            None => default,
        }
    }

    /// The elements of the member of that name, none where it is no array.
    pub open spec fn list(self, key: Seq<char>) -> Seq<JsonView> {
        match self.at(key).as_array() {
            Some(a) => a,
            None => Seq::empty(),
        }
    }
}

/// `Str` where there is a text, null where there is none.
pub open spec fn str_or_null(s: Option<Seq<char>>) -> JsonView {
    match s {
        Some(t) => JsonView::Str(t),
        None => JsonView::Null,
    }
}

/// The members with one more, where there is a value for it.
pub open spec fn with_some(
    m: Map<Seq<char>, JsonView>,
    key: Seq<char>,
    value: Option<JsonView>,
) -> Map<Seq<char>, JsonView> {
    match value {
        Some(v) => m.insert(key, v),
        None => m,
    }
}

/// An integer as a value, where there is one.
pub open spec fn int_value(i: Option<int>) -> Option<JsonView> {
    match i {
        Some(n) => Some(JsonView::Int(n)),
        None => None,
    }
}

/// A text as a value, where there is one.
pub open spec fn str_value(s: Option<Seq<char>>) -> Option<JsonView> {
    match s {
        Some(t) => Some(JsonView::Str(t)),
        None => None,
    }
}

/// What an optional value denotes.
pub open spec fn opt_json(j: Option<Json>) -> Option<JsonView> {
    match j {
        Some(v) => Some(v@),
        None => None,
    }
}

/// The array of those texts.
pub open spec fn str_array(s: Seq<Seq<char>>) -> JsonView {
    JsonView::Arr(s.map_values(|t: Seq<char>| JsonView::Str(t)))
}

/// What `pick` makes of those elements on which it makes anything, in their order.
pub open spec fn kept<A, B>(s: Seq<A>, pick: spec_fn(A) -> Option<B>) -> Seq<B>
    decreases s.len(),
{
    if s.len() == 0 {
        Seq::empty()
    } else {
        let before = kept(s.drop_last(), pick);
        match pick(s.last()) {
            Some(b) => before.push(b),
            None => before,
        }
    }
}

proof fn lemma_members_found(entries: Seq<(String, Json)>, i: int, key: Seq<char>)
    requires
        0 <= i < entries.len(),
        entries[i].0@ == key,
        forall|k: int| i < k < entries.len() ==> (#[trigger] entries[k]).0@ != key,
    ensures
        members_view(entries).dom().contains(key),
        members_view(entries)[key] == entries[i].1@,
    decreases entries.len(),
{
    if i < entries.len() - 1 {
        assert(entries.last() == entries[entries.len() - 1]);
        lemma_members_found(entries.drop_last(), i, key);
    }
}

proof fn lemma_members_absent(entries: Seq<(String, Json)>, key: Seq<char>)
    requires
        forall|k: int| 0 <= k < entries.len() ==> (#[trigger] entries[k]).0@ != key,
    ensures
        !members_view(entries).dom().contains(key),
    decreases entries.len(),
{
    if entries.len() > 0 {
        assert(entries.last() == entries[entries.len() - 1]);
        lemma_members_absent(entries.drop_last(), key);
    }
}

/// An array denotes the sequence of what its elements denote.
pub proof fn array_view(a: Vec<Json>)
    ensures
        Json::Array(a)@ == JsonView::Arr(items_view(a@)),
{
    assert(Json::Array(a)@->Arr_0 =~= items_view(a@));
}

impl Members {
    /// An object without members.
    pub fn new() -> (r: Members)
        ensures
            r@ == Map::<Seq<char>, JsonView>::empty(),
    {
        Members { entries: Vec::new() }
    }

    /// The object with that member added; it replaces an earlier one of the same name.
    pub fn with(self, key: &str, value: Json) -> (r: Members)
        ensures
            r@ == self@.insert(key@, value@),
    {
        let mut entries: Vec<(String, Json)> = self.entries;
        let ghost before = entries@;
        entries.push((key.to_owned(), value));
        assert(entries@.drop_last() =~= before);
        Members { entries }
    }

    /// The object with that member added, where there is a value for it.
    pub fn with_some(self, key: &str, value: Option<Json>) -> (r: Members)
        ensures
            r@ == with_some(self@, key@, opt_json(value)),
    {
        match value {
            Some(v) => self.with(key, v),
            None => self,
        }
    }

    /// The member of that name.
    pub fn get(&self, key: &str) -> (r: Option<&Json>)
        ensures
            match r {
                Some(v) => self@.dom().contains(key@) && self@[key@] == v@ && decreases_to!(
                    *self => *v
                ),
                None => !self@.dom().contains(key@),
            },
    {
        let mut i: usize = self.entries.len();
        while i > 0
            invariant
                i <= self.entries.len(),
                forall|k: int|
                    i <= k < self.entries@.len() ==> (#[trigger] self.entries@[k]).0@ != key@,
            decreases i,
        {
            i -= 1;
            if same(self.entries[i].0.as_str(), key) {
                proof {
                    lemma_members_found(self.entries@, i as int, key@);
                }
                return Some(&self.entries[i].1);
            }
        }
        proof {
            lemma_members_absent(self.entries@, key@);
        }
        None
    }
}

impl Json {
    /// A text value.
    pub fn text(s: &str) -> (r: Json)
        ensures
            r@ == JsonView::Str(s@),
    {
        Json::String(s.to_owned())
    }

    /// A text value, or null.
    pub fn text_or_null(s: Option<&str>) -> (r: Json)
        ensures
            r@ == match s {
                Some(t) => JsonView::Str(t@),
                None => JsonView::Null,
            },
    {
        match s {
            Some(t) => Json::text(t),
            None => Json::Null,
        }
    }

    /// A natural number.
    pub fn natural(n: u64) -> (r: Json)
        ensures
            r@ == JsonView::Int(n as int),
    {
        Json::Number(Number::PosInt(n))
    }

    /// An integer.
    pub fn integer(i: i64) -> (r: Json)
        ensures
            r@ == JsonView::Int(i as int),
    {
        if i < 0 {
            Json::Number(Number::NegInt(i))
        } else {
            Json::Number(Number::PosInt(i as u64))
        }
    }

    /// An array of those values.
    pub fn array(items: Vec<Json>) -> (r: Json)
        ensures
            r@ == JsonView::Arr(items_view(items@)),
    {
        proof {
            array_view(items);
        }
        Json::Array(items)
    }

    /// An array of those texts.
    pub fn text_array(items: &Vec<&str>) -> (r: Json)
        ensures
            r@ == str_array(texts(items@)),
    {
        let mut out: Vec<Json> = Vec::new();
        let mut i: usize = 0;
        while i < items.len()
            invariant
                i <= items.len(),
                out@.len() == i,
                forall|k: int|
                    0 <= k < i ==> (#[trigger] out@[k])@ == JsonView::Str(texts(items@)[k]),
            decreases items.len() - i,
        {
            out.push(Json::text(items[i]));
            i += 1;
        }
        assert(items_view(out@) =~= texts(items@).map_values(|t: Seq<char>| JsonView::Str(t)));
        Json::array(out)
    }

    /// The member of that name, where this is an object that has one.
    pub fn get(&self, key: &str) -> (r: Option<&Json>)
        ensures
            match r {
                Some(v) => self@.get(key@) == Some(v@) && decreases_to!(*self => *v),
                None => self@.get(key@) is None,
            },
    {
        match self {
            Json::Object(m) => m.get(key),
            _ => None,
        }
    }

    pub fn as_str(&self) -> (r: Option<&str>)
        ensures
            match r {
                Some(s) => self@.as_str() == Some(s@),
                None => self@.as_str() is None,
            },
    {
        match self {
            Json::String(s) => Some(s.as_str()),
            _ => None,
        }
    }

    pub fn as_array(&self) -> (r: Option<&Vec<Json>>)
        ensures
            match r {
                Some(a) => *self == Json::Array(*a) && self@ == JsonView::Arr(items_view(a@)),
                None => self@.as_array() is None,
            },
    {
        match self {
            Json::Array(a) => {
                proof {
                    array_view(*a);
                }
                Some(a)
            },
            _ => None,
        }
    }

    pub fn as_bool(&self) -> (r: Option<bool>)
        ensures
            r == self@.as_bool(),
    {
        match self {
            Json::Bool(b) => Some(*b),
            _ => None,
        }
    }

    pub fn as_i64(&self) -> (r: Option<i64>)
        ensures
            match r {
                Some(i) => self@.as_i64() == Some(i as int),
                None => self@.as_i64() is None,
            },
    {
        match self {
            Json::Number(Number::PosInt(u)) => if *u <= 0x7fff_ffff_ffff_ffff {
                Some(*u as i64)
            } else {
                None
            },
            Json::Number(Number::NegInt(i)) => Some(*i),
            _ => None,
        }
    }

    pub fn as_u64(&self) -> (r: Option<u64>)
        ensures
            match r {
                Some(u) => self@.as_u64() == Some(u as int),
                None => self@.as_u64() is None,
            },
    {
        match self {
            Json::Number(Number::PosInt(u)) => Some(*u),
            Json::Number(Number::NegInt(i)) => if *i >= 0 {
                Some(*i as u64)
            } else {
                None
            },
            _ => None,
        }
    }

    pub fn is_object(&self) -> (r: bool)
        ensures
            r == (self@ is Obj),
    {
        match self {
            Json::Object(_) => true,
            _ => false,
        }
    }

    /// The text of the member of that name, where it is a text.
    pub fn str_at(&self, key: &str) -> (r: Option<&str>)
        ensures
            match r {
                Some(s) => self@.str_at(key@) == Some(s@),
                None => self@.str_at(key@) is None,
            },
    {
        match self.get(key) {
            Some(v) => v.as_str(),
            None => None,
        }
    }

    /// The text of the member of that name, `default` where it is no text.
    pub fn str_or<'a>(&'a self, key: &str, default: &'a str) -> (r: &'a str)
        ensures
            r@ == self@.str_or(key@, default@),
    {
        match self.str_at(key) {
            Some(s) => s,
            None => default,
        }
    }

    /// The array under that name, where the member is one.
    pub fn array_at(&self, key: &str) -> (r: Option<&Vec<Json>>)
        ensures
            match r {
                Some(a) => self@.at(key@) == JsonView::Arr(items_view(a@)),
                None => self@.at(key@).as_array() is None,
            },
    {
        match self.get(key) {
            Some(v) => v.as_array(),
            None => None,
        }
    }

    /// The text of the member of that name as a value, where it is a text.
    pub fn str_value_at(&self, key: &str) -> (r: Option<Json>)
        ensures
            opt_json(r) == str_value(self@.str_at(key@)),
    {
        match self.str_at(key) {
            Some(s) => Some(Json::text(s)),
            None => None,
        }
    }

    /// The integer under that name, where the member is one that fits `u64`.
    pub fn u64_at(&self, key: &str) -> (r: Option<u64>)
        ensures
            match r {
                Some(u) => self@.at(key@).as_u64() == Some(u as int),
                None => self@.at(key@).as_u64() is None,
            },
    {
        match self.get(key) {
            Some(v) => v.as_u64(),
            None => None,
        }
    }

    /// The integer under that name, where the member is one that fits `i64`.
    pub fn i64_at(&self, key: &str) -> (r: Option<i64>)
        ensures
            match r {
                Some(i) => self@.at(key@).as_i64() == Some(i as int),
                None => self@.at(key@).as_i64() is None,
            },
    {
        match self.get(key) {
            Some(v) => v.as_i64(),
            None => None,
        }
    }

    /// A copy of the member of that name, null where there is none.
    pub fn at(&self, key: &str) -> (r: Json)
        ensures
            r@ == self@.at(key@),
    {
        match self.get(key) {
            Some(v) => v.copy(),
            None => Json::Null,
        }
    }

    /// A value that denotes the same.
    pub fn copy(&self) -> (r: Json)
        ensures
            r@ == self@,
        decreases self,
    {
        match self {
            Json::Null => Json::Null,
            Json::Bool(b) => Json::Bool(*b),
            Json::Number(n) => Json::Number(*n),
            Json::String(s) => Json::text(s.as_str()),
            Json::Array(a) => {
                let mut out: Vec<Json> = Vec::new();
                let mut i: usize = 0;
                while i < a.len()
                    invariant
                        *self matches Json::Array(b) && *a == b,
                        i <= a.len(),
                        out@.len() == i,
                        forall|k: int| 0 <= k < i ==> (#[trigger] out@[k])@ == a@[k]@,
                    decreases a.len() - i,
                {
                    out.push(a[i].copy());
                    i += 1;
                }
                assert(items_view(out@) =~= items_view(a@));
                proof {
                    array_view(*a);
                }
                Json::array(out)
            },
            Json::Object(m) => {
                let mut out: Members = Members::new();
                let mut i: usize = 0;
                while i < m.entries.len()
                    invariant
                        *self matches Json::Object(n) && *m == n,
                        i <= m.entries.len(),
                        out@ == members_view(m.entries@.take(i as int)),
                    decreases m.entries.len() - i,
                {
                    proof {
                        let next = m.entries@.take(i + 1);
                        assert(next.drop_last() =~= m.entries@.take(i as int));
                        assert(next.last() == m.entries@[i as int]);
                    }
                    out = out.with(m.entries[i].0.as_str(), m.entries[i].1.copy());
                    i += 1;
                }
                assert(m.entries@.take(m.entries.len() as int) =~= m.entries@);
                Json::Object(out)
            },
        }
    }
}

/// What `row` makes of each element of the array member of that name.
pub(crate) fn each<F: Fn(&Json) -> Json>(
    v: &Json,
    key: &str,
    row: F,
    Ghost(model): Ghost<spec_fn(JsonView) -> JsonView>,
) -> (r: Vec<Json>)
    requires
        forall|x: &Json| #[trigger] row.requires((x,)),
        forall|x: &Json, y: Json| #[trigger] row.ensures((x,), y) ==> y@ == model(x@),
    ensures
        items_view(r@) == v@.list(key@).map_values(model),
{
    let mut out: Vec<Json> = Vec::new();
    match v.array_at(key) {
        Some(a) => {
            let mut i: usize = 0;
            while i < a.len()
                invariant
                    i <= a.len(),
                    forall|x: &Json| #[trigger] row.requires((x,)),
                    forall|x: &Json, y: Json| #[trigger] row.ensures((x,), y) ==> y@ == model(x@),
                    out@.len() == i,
                    forall|k: int| 0 <= k < i ==> (#[trigger] out@[k])@ == model(a@[k]@),
                decreases a.len() - i,
            {
                out.push(row(&a[i]));
                i += 1;
            }
            assert(items_view(out@) =~= items_view(a@).map_values(model));
        },
        None => {},
    }
    assert(items_view(out@) =~= v@.list(key@).map_values(model));
    out
}

/// The array of what `row` makes of each element of the array member of that name.
pub(crate) fn rows<F: Fn(&Json) -> Json>(
    v: &Json,
    key: &str,
    row: F,
    Ghost(model): Ghost<spec_fn(JsonView) -> JsonView>,
) -> (r: Json)
    requires
        forall|x: &Json| #[trigger] row.requires((x,)),
        forall|x: &Json, y: Json| #[trigger] row.ensures((x,), y) ==> y@ == model(x@),
    ensures
        r@ == JsonView::Arr(v@.list(key@).map_values(model)),
{
    Json::array(each(v, key, row, Ghost(model)))
}

/// What `pick` makes of those elements of an array on which it makes anything.
pub(crate) fn keep<F: Fn(&Json) -> Option<Json>>(
    items: &Vec<Json>,
    pick: F,
    Ghost(model): Ghost<spec_fn(JsonView) -> Option<JsonView>>,
) -> (r: Vec<Json>)
    requires
        forall|x: &Json| #[trigger] pick.requires((x,)),
        forall|x: &Json, y: Option<Json>| #[trigger]
            pick.ensures((x,), y) ==> match y {
                Some(j) => model(x@) == Some(j@),
                None => model(x@) is None,
            },
    ensures
        items_view(r@) == kept(items_view(items@), model),
{
    let mut out: Vec<Json> = Vec::new();
    let mut i: usize = 0;
    assert(items_view(out@) =~= Seq::empty());
    while i < items.len()
        invariant
            i <= items.len(),
            forall|x: &Json| #[trigger] pick.requires((x,)),
            forall|x: &Json, y: Option<Json>| #[trigger]
                pick.ensures((x,), y) ==> match y {
                    Some(j) => model(x@) == Some(j@),
                    None => model(x@) is None,
                },
            items_view(out@) == kept(items_view(items@).take(i as int), model),
        decreases items.len() - i,
    {
        proof {
            let next = items_view(items@).take(i + 1);
            assert(next.drop_last() =~= items_view(items@).take(i as int));
            assert(next.last() == items@[i as int]@);
        }
        let ghost before = out@;
        match pick(&items[i]) {
            Some(j) => {
                out.push(j);
                assert(items_view(out@) =~= items_view(before).push(j@));
            },
            None => {},
        }
        i += 1;
    }
    assert(items_view(items@).take(items.len() as int) =~= items_view(items@));
    out
}

/// What `pick` makes of those elements of the array member of that name on which it makes
/// anything.
pub(crate) fn picks<F: Fn(&Json) -> Option<Json>>(
    v: &Json,
    key: &str,
    pick: F,
    Ghost(model): Ghost<spec_fn(JsonView) -> Option<JsonView>>,
) -> (r: Json)
    requires
        forall|x: &Json| #[trigger] pick.requires((x,)),
        forall|x: &Json, y: Option<Json>| #[trigger]
            pick.ensures((x,), y) ==> match y {
                Some(j) => model(x@) == Some(j@),
                None => model(x@) is None,
            },
    ensures
        r@ == JsonView::Arr(kept(v@.list(key@), model)),
{
    match v.get(key) {
        Some(member) => match member.as_array() {
            Some(a) => {
                return Json::array(keep(a, pick, Ghost(model)));
            },
            None => {},
        },
        None => {},
    }
    let none: Vec<Json> = Vec::new();
    assert(items_view(none@) =~= kept(v@.list(key@), model));
    Json::array(none)
}

} // verus!
