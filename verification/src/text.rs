//! Text primitives over `&str`, stated over the characters of the text.

use vstd::prelude::*;
use vstd::string::*;

verus! {

/// The two sides of the first `sep` in `s`, or `None` where there is none.
pub open spec fn cut_first(s: Seq<char>, sep: char) -> Option<(Seq<char>, Seq<char>)> {
    match s.index_of_first(sep) {
        Some(i) => Some((s.take(i), s.skip(i + 1))),
        None => None,
    }
}

/// The two sides of the last `sep` in `s`, or `None` where there is none.
pub open spec fn cut_last(s: Seq<char>, sep: char) -> Option<(Seq<char>, Seq<char>)> {
    match s.index_of_last(sep) {
        Some(i) => Some((s.take(i), s.skip(i + 1))),
        None => None,
    }
}

/// What is left of `s` behind `prefix`, or `None` where `s` does not begin with it.
pub open spec fn without_prefix(s: Seq<char>, prefix: Seq<char>) -> Option<Seq<char>> {
    if prefix.is_prefix_of(s) {
        Some(s.skip(prefix.len() as int))
    } else {
        None
    }
}

/// What is left of `s` before `suffix`, or `None` where `s` does not end with it.
pub open spec fn without_suffix(s: Seq<char>, suffix: Seq<char>) -> Option<Seq<char>> {
    if suffix.is_suffix_of(s) {
        Some(s.take(s.len() - suffix.len()))
    } else {
        None
    }
}

/// The pieces of `s` between the occurrences of `sep`; always at least one.
pub open spec fn split(s: Seq<char>, sep: char) -> Seq<Seq<char>>
    decreases s.len(),
    via split_decreases
{
    match s.index_of_first(sep) {
        Some(i) => seq![s.take(i)] + split(s.skip(i + 1), sep),
        None => seq![s],
    }
}

#[via_fn]
proof fn split_decreases(s: Seq<char>, sep: char) {
    s.index_of_first_ensures(sep);
}

/// The texts of `parts` that are not empty, in their order.
pub open spec fn nonempty(parts: Seq<Seq<char>>) -> Seq<Seq<char>> {
    parts.filter(|p: Seq<char>| p.len() > 0)
}

/// `parts` with `sep` between each two of them.
pub open spec fn join(parts: Seq<Seq<char>>, sep: Seq<char>) -> Seq<char>
    decreases parts.len(),
{
    if parts.len() == 0 {
        Seq::empty()
    } else if parts.len() == 1 {
        parts[0]
    } else {
        join(parts.drop_last(), sep) + sep + parts.last()
    }
}

/// The texts that a sequence of string slices holds.
pub open spec fn texts(v: Seq<&str>) -> Seq<Seq<char>> {
    v.map_values(|s: &str| s@)
}

/// `needle` occurs in `s` at position `i`.
pub open spec fn occurs_at(s: Seq<char>, needle: Seq<char>, i: int) -> bool {
    0 <= i && i + needle.len() <= s.len() && s.subrange(i, i + needle.len()) == needle
}

/// `needle` occurs somewhere in `s`.
pub open spec fn occurs_in(s: Seq<char>, needle: Seq<char>) -> bool {
    exists|i: int| occurs_at(s, needle, i)
}

/// `s` without the `c`s it begins with.
pub open spec fn trim_start(s: Seq<char>, c: char) -> Seq<char>
    decreases s.len(),
{
    if s.len() > 0 && s[0] == c {
        trim_start(s.skip(1), c)
    } else {
        s
    }
}

pub open spec fn ascii_digit(c: char) -> bool {
    '0' <= c <= '9'
}

pub open spec fn ascii_lower(c: char) -> bool {
    'a' <= c <= 'z'
}

pub open spec fn ascii_upper(c: char) -> bool {
    'A' <= c <= 'Z'
}

pub open spec fn ascii_alpha(c: char) -> bool {
    ascii_lower(c) || ascii_upper(c)
}

pub open spec fn ascii_alnum(c: char) -> bool {
    ascii_alpha(c) || ascii_digit(c)
}

/// `c`, lower-cased where it is an ASCII letter.
pub open spec fn lower(c: char) -> char {
    if ascii_upper(c) {
        (c as u32 + 32) as char
    } else {
        c
    }
}

/// The two texts are equal but for the case of ASCII letters.
pub open spec fn same_ignoring_case(a: Seq<char>, b: Seq<char>) -> bool {
    a.len() == b.len() && forall|i: int| 0 <= i < a.len() ==> lower(#[trigger] a[i]) == lower(b[i])
}

/// Every character is one of `class`.
pub open spec fn all_of(s: Seq<char>, class: spec_fn(char) -> bool) -> bool {
    forall|i: int| 0 <= i < s.len() ==> #[trigger] class(s[i])
}

pub fn is_digit(c: char) -> (r: bool)
    ensures
        r == ascii_digit(c),
{
    '0' <= c && c <= '9'
}

pub fn is_lower(c: char) -> (r: bool)
    ensures
        r == ascii_lower(c),
{
    'a' <= c && c <= 'z'
}

pub fn is_alpha(c: char) -> (r: bool)
    ensures
        r == ascii_alpha(c),
{
    is_lower(c) || ('A' <= c && c <= 'Z')
}

pub fn is_alnum(c: char) -> (r: bool)
    ensures
        r == ascii_alnum(c),
{
    is_alpha(c) || is_digit(c)
}

/// A separator that does not occur before it is the first one.
pub proof fn lemma_cut_first_found(a: Seq<char>, sep: char, b: Seq<char>)
    requires
        !a.contains(sep),
    ensures
        cut_first(a + seq![sep] + b, sep) == Some((a, b)),
{
    let s = a + seq![sep] + b;
    s.index_of_first_ensures(sep);
    assert(s[a.len() as int] == sep);
    assert(s.contains(sep));
    let i = s.index_of_first(sep)->0;
    if i < a.len() {
        assert(s[i] == a[i]);
    }
    assert(s.take(i) =~= a);
    assert(s.skip(i + 1) =~= b);
}

/// What the first separator cuts apart, it joins; and it does not occur in the first part.
pub proof fn lemma_cut_first_parts(s: Seq<char>, sep: char)
    ensures
        match cut_first(s, sep) {
            Some((a, b)) => s == a + seq![sep] + b && !a.contains(sep),
            None => !s.contains(sep),
        },
{
    s.index_of_first_ensures(sep);
    if let Some((a, b)) = cut_first(s, sep) {
        let i = s.index_of_first(sep)->0;
        assert(s =~= a + seq![sep] + b);
        if a.contains(sep) {
            let j = choose|j: int| 0 <= j < a.len() && a[j] == sep;
            assert(s[j] == sep);
        }
    }
}

/// What the last separator cuts apart, it joins; and it does not occur in the last part.
pub proof fn lemma_cut_last_parts(s: Seq<char>, sep: char)
    ensures
        match cut_last(s, sep) {
            Some((a, b)) => s == a + seq![sep] + b && !b.contains(sep),
            None => !s.contains(sep),
        },
{
    s.index_of_last_ensures(sep);
    if let Some((a, b)) = cut_last(s, sep) {
        let i = s.index_of_last(sep)->0;
        assert(s =~= a + seq![sep] + b);
        if b.contains(sep) {
            let j = choose|j: int| 0 <= j < b.len() && b[j] == sep;
            assert(s[i + 1 + j] == sep);
        }
    }
}

/// A piece without separators behind a last separator is the last piece.
pub proof fn lemma_split_last(a: Seq<char>, sep: char, b: Seq<char>)
    requires
        !b.contains(sep),
    ensures
        split(a + seq![sep] + b, sep) == split(a, sep) + seq![b],
    decreases a.len(),
{
    lemma_cut_first_parts(a, sep);
    lemma_cut_first_parts(b, sep);
    b.index_of_first_ensures(sep);
    a.index_of_first_ensures(sep);
    let s = a + seq![sep] + b;
    s.index_of_first_ensures(sep);
    match cut_first(a, sep) {
        None => {
            lemma_cut_first_found(a, sep, b);
            assert(split(b, sep) =~= seq![b]);
            assert(split(s, sep) =~= seq![a] + seq![b]);
        },
        Some((head, tail)) => {
            assert(s =~= head + seq![sep] + (tail + seq![sep] + b));
            lemma_cut_first_found(head, sep, tail + seq![sep] + b);
            lemma_split_last(tail, sep, b);
            assert(split(s, sep) =~= seq![head] + (split(tail, sep) + seq![b]));
            assert(split(a, sep) =~= seq![head] + split(tail, sep));
        },
    }
}

/// A text without separators is its only piece.
pub proof fn lemma_split_whole(s: Seq<char>, sep: char)
    requires
        !s.contains(sep),
    ensures
        split(s, sep) == seq![s],
{
    s.index_of_first_ensures(sep);
}

/// Texts without separators come back when what joins them is split.
pub proof fn lemma_split_join(parts: Seq<Seq<char>>, sep: char)
    requires
        parts.len() > 0,
        forall|i: int| 0 <= i < parts.len() ==> !(#[trigger] parts[i]).contains(sep),
    ensures
        split(join(parts, seq![sep]), sep) == parts,
    decreases parts.len(),
{
    if parts.len() == 1 {
        lemma_split_whole(parts[0], sep);
        assert(parts =~= seq![parts[0]]);
    } else {
        let init = parts.drop_last();
        assert forall|i: int| 0 <= i < init.len() implies !(#[trigger] init[i]).contains(sep) by {
            assert(init[i] == parts[i]);
        }
        assert(!parts[parts.len() - 1].contains(sep));
        lemma_split_join(init, sep);
        lemma_split_last(join(init, seq![sep]), sep, parts.last());
        assert(init + seq![parts.last()] =~= parts);
    }
}

/// Joining begins with the first text.
pub proof fn lemma_join_first(first: Seq<char>, rest: Seq<Seq<char>>, sep: Seq<char>)
    requires
        rest.len() > 0,
    ensures
        join(seq![first] + rest, sep) == first + sep + join(rest, sep),
    decreases rest.len(),
{
    let all = seq![first] + rest;
    assert(all.last() == rest.last());
    if rest.len() == 1 {
        assert(all.drop_last() =~= seq![first]);
        assert(join(seq![first], sep) == first);
        assert(join(rest, sep) == rest[0]);
    } else {
        assert(all.drop_last() =~= seq![first] + rest.drop_last());
        lemma_join_first(first, rest.drop_last(), sep);
        assert(join(all, sep) =~= first + sep + join(rest, sep));
    }
}

/// The pieces of a text join to the text.
pub proof fn lemma_join_split(s: Seq<char>, sep: char)
    ensures
        join(split(s, sep), seq![sep]) == s,
        split(s, sep).len() > 0,
        forall|i: int| 0 <= i < split(s, sep).len() ==> !(#[trigger] split(s, sep)[i]).contains(sep),
    decreases s.len(),
{
    lemma_cut_first_parts(s, sep);
    s.index_of_first_ensures(sep);
    match cut_first(s, sep) {
        None => {
            assert(split(s, sep) =~= seq![s]);
        },
        Some((head, tail)) => {
            lemma_join_split(tail, sep);
            lemma_join_first(head, split(tail, sep), seq![sep]);
            assert(split(s, sep) == seq![head] + split(tail, sep));
            assert forall|i: int| 0 <= i < split(s, sep).len() implies !(#[trigger] split(
                s,
                sep,
            )[i]).contains(sep) by {
                if i > 0 {
                    assert(split(s, sep)[i] == split(tail, sep)[i - 1]);
                }
            }
        },
    }
}

/// Where no text is empty, all are kept.
pub proof fn lemma_nonempty_all(parts: Seq<Seq<char>>)
    requires
        forall|i: int| 0 <= i < parts.len() ==> (#[trigger] parts[i]).len() > 0,
    ensures
        nonempty(parts) == parts,
    decreases parts.len(),
{
    reveal(Seq::filter);
    if parts.len() > 0 {
        let init = parts.drop_last();
        assert forall|i: int| 0 <= i < init.len() implies (#[trigger] init[i]).len() > 0 by {
            assert(init[i] == parts[i]);
        }
        lemma_nonempty_all(init);
        assert(parts[parts.len() - 1].len() > 0);
        assert(init.push(parts.last()) =~= parts);
    }
}

/// The texts that are kept are not empty, and are among those given.
pub proof fn lemma_nonempty_members(parts: Seq<Seq<char>>)
    ensures
        forall|i: int|
            0 <= i < nonempty(parts).len() ==> (#[trigger] nonempty(parts)[i]).len() > 0
                && parts.contains(nonempty(parts)[i]),
    decreases parts.len(),
{
    reveal(Seq::filter);
    if parts.len() > 0 {
        let init = parts.drop_last();
        lemma_nonempty_members(init);
        assert forall|i: int| 0 <= i < nonempty(parts).len() implies (#[trigger] nonempty(
            parts,
        )[i]).len() > 0 && parts.contains(nonempty(parts)[i]) by {
            if i < nonempty(init).len() {
                assert(nonempty(parts)[i] == nonempty(init)[i]);
                let j = choose|j: int| 0 <= j < init.len() && init[j] == nonempty(init)[i];
                assert(parts[j] == nonempty(parts)[i]);
            } else {
                assert(parts[parts.len() - 1] == nonempty(parts)[i]);
            }
        }
    }
}

/// A prefix is taken off what it stands before.
pub proof fn lemma_without_prefix(prefix: Seq<char>, rest: Seq<char>)
    ensures
        without_prefix(prefix + rest, prefix) == Some(rest),
{
    assert((prefix + rest).subrange(0, prefix.len() as int) =~= prefix);
    assert((prefix + rest).skip(prefix.len() as int) =~= rest);
}

/// The characters of a text.
pub fn chars_of(s: &str) -> (r: Vec<char>)
    ensures
        r@ == s@,
{
    let mut out: Vec<char> = Vec::new();
    for c in it: s.chars()
        invariant
            it.seq() == s@,
            out@ == s@.take(it.index() as int),
    {
        out.push(c);
        assert(out@ =~= s@.take(it.index() as int + 1));
    }
    assert(out@ =~= s@);
    out
}

/// `a` and `b` hold the same characters.
pub fn same(a: &str, b: &str) -> (r: bool)
    ensures
        r == (a@ == b@),
{
    let x: Vec<char> = chars_of(a);
    let y: Vec<char> = chars_of(b);
    if x.len() != y.len() {
        return false;
    }
    let n: usize = x.len();
    let mut i: usize = 0;
    while i < n
        invariant
            i <= n,
            n == x.len(),
            n == y.len(),
            x@ == a@,
            y@ == b@,
            forall|k: int| 0 <= k < i ==> a@[k] == b@[k],
        decreases n - i,
    {
        if x[i] != y[i] {
            return false;
        }
        i += 1;
    }
    assert(a@ =~= b@);
    true
}


/// Whether `s` begins with `prefix`, and what is left of it behind the prefix.
pub fn strip_prefix<'a>(s: &'a str, prefix: &str) -> (r: Option<&'a str>)
    ensures
        match r {
            Some(rest) => without_prefix(s@, prefix@) == Some(rest@),
            None => without_prefix(s@, prefix@) is None,
        },
{
    let n: usize = s.unicode_len();
    let k: usize = prefix.unicode_len();
    if k <= n && same(s.substring_char(0, k), prefix) {
        Some(s.substring_char(k, n))
    } else {
        None
    }
}

/// Whether `s` ends with `suffix`, and what is left of it before the suffix.
pub fn strip_suffix<'a>(s: &'a str, suffix: &str) -> (r: Option<&'a str>)
    ensures
        match r {
            Some(rest) => without_suffix(s@, suffix@) == Some(rest@),
            None => without_suffix(s@, suffix@) is None,
        },
{
    let n: usize = s.unicode_len();
    let k: usize = suffix.unicode_len();
    if k <= n && same(s.substring_char(n - k, n), suffix) {
        Some(s.substring_char(0, n - k))
    } else {
        None
    }
}

/// Whether `s` begins with `prefix`.
pub fn starts_with(s: &str, prefix: &str) -> (r: bool)
    ensures
        r == prefix@.is_prefix_of(s@),
{
    strip_prefix(s, prefix).is_some()
}

/// The position of the first `sep`, counted in characters.
pub fn find(s: &str, sep: char) -> (r: Option<usize>)
    ensures
        match r {
            Some(i) => i < s@.len() && s@.index_of_first(sep) == Some(i as int),
            None => s@.index_of_first(sep) is None,
        },
{
    proof {
        s@.index_of_first_ensures(sep);
    }
    let cs: Vec<char> = chars_of(s);
    let mut i: usize = 0;
    while i < cs.len()
        invariant
            i <= cs.len(),
            cs@ == s@,
            forall|k: int| 0 <= k < i ==> s@[k] != sep,
        decreases cs.len() - i,
    {
        if cs[i] == sep {
            proof {
                s@.index_of_first_ensures(sep);
                assert(s@.contains(sep));
            }
            return Some(i);
        }
        i += 1;
    }
    proof {
        s@.index_of_first_ensures(sep);
    }
    None
}

/// The position of the last `sep`, counted in characters.
pub fn rfind(s: &str, sep: char) -> (r: Option<usize>)
    ensures
        match r {
            Some(i) => i < s@.len() && s@.index_of_last(sep) == Some(i as int),
            None => s@.index_of_last(sep) is None,
        },
{
    let cs: Vec<char> = chars_of(s);
    let mut i: usize = cs.len();
    while i > 0
        invariant
            i <= cs.len(),
            cs@ == s@,
            forall|k: int| i <= k < cs@.len() ==> s@[k] != sep,
        decreases i,
    {
        i -= 1;
        if cs[i] == sep {
            proof {
                s@.index_of_last_ensures(sep);
                assert(s@.contains(sep));
            }
            return Some(i);
        }
    }
    proof {
        s@.index_of_last_ensures(sep);
    }
    None
}

/// Whether `c` occurs in `s`.
pub fn contains(s: &str, c: char) -> (r: bool)
    ensures
        r == s@.contains(c),
{
    proof {
        s@.index_of_first_ensures(c);
    }
    find(s, c).is_some()
}

/// The two sides of the first `sep`.
pub fn split_once<'a>(s: &'a str, sep: char) -> (r: Option<(&'a str, &'a str)>)
    ensures
        match r {
            Some((a, b)) => cut_first(s@, sep) == Some((a@, b@)),
            None => cut_first(s@, sep) is None,
        },
{
    let n: usize = s.unicode_len();
    match find(s, sep) {
        Some(i) => Some((s.substring_char(0, i), s.substring_char(i + 1, n))),
        None => None,
    }
}

/// The two sides of the last `sep`.
pub fn rsplit_once<'a>(s: &'a str, sep: char) -> (r: Option<(&'a str, &'a str)>)
    ensures
        match r {
            Some((a, b)) => cut_last(s@, sep) == Some((a@, b@)),
            None => cut_last(s@, sep) is None,
        },
{
    let n: usize = s.unicode_len();
    match rfind(s, sep) {
        Some(i) => Some((s.substring_char(0, i), s.substring_char(i + 1, n))),
        None => None,
    }
}

/// The pieces of `s` between the occurrences of `sep`.
pub fn split_all<'a>(s: &'a str, sep: char) -> (r: Vec<&'a str>)
    ensures
        texts(r@) == split(s@, sep),
{
    let mut out: Vec<&'a str> = Vec::new();
    let mut rest: &'a str = s;
    assert(texts(out@) + split(rest@, sep) =~= split(s@, sep));
    loop
        invariant
            texts(out@) + split(rest@, sep) == split(s@, sep),
        decreases rest@.len(),
    {
        proof {
            rest@.index_of_first_ensures(sep);
        }
        match split_once(rest, sep) {
            Some((piece, tail)) => {
                let ghost before = out@;
                out.push(piece);
                assert(texts(out@) =~= texts(before) + seq![piece@]);
                assert(texts(out@) + split(tail@, sep) =~= texts(before) + (seq![piece@] + split(
                    tail@,
                    sep,
                )));
                rest = tail;
            },
            None => {
                let ghost before = out@;
                out.push(rest);
                assert(texts(out@) =~= texts(before) + seq![rest@]);
                return out;
            },
        }
    }
}

/// The pieces of `s` between the occurrences of `sep`, without the empty ones.
pub fn split_nonempty<'a>(s: &'a str, sep: char) -> (r: Vec<&'a str>)
    ensures
        texts(r@) == nonempty(split(s@, sep)),
{
    let all: Vec<&'a str> = split_all(s, sep);
    let mut out: Vec<&'a str> = Vec::new();
    let mut i: usize = 0;
    assert(nonempty(texts(all@).take(0)) =~= Seq::empty()) by {
        reveal(Seq::filter);
    }
    assert(texts(out@) =~= Seq::empty());
    while i < all.len()
        invariant
            i <= all.len(),
            texts(out@) == nonempty(texts(all@).take(i as int)),
        decreases all.len() - i,
    {
        let ghost before = out@;
        if !all[i].is_empty() {
            out.push(all[i]);
            assert(texts(out@) =~= texts(before).push(all@[i as int]@));
        }
        proof {
            reveal(Seq::filter);
            let next = texts(all@).take(i + 1);
            assert(next.drop_last() =~= texts(all@).take(i as int));
            assert(next.last() == all@[i as int]@);
        }
        i += 1;
    }
    assert(texts(all@).take(all.len() as int) =~= texts(all@));
    out
}

/// `parts` with `sep` between each two of them.
pub fn join_all(parts: &Vec<&str>, sep: &str) -> (r: String)
    ensures
        r@ == join(texts(parts@), sep@),
{
    let mut out: String = String::new();
    let mut i: usize = 0;
    while i < parts.len()
        invariant
            i <= parts.len(),
            out@ == join(texts(parts@).take(i as int), sep@),
        decreases parts.len() - i,
    {
        if i > 0 {
            out.append(sep);
        }
        out.append(parts[i]);
        proof {
            let next = texts(parts@).take(i + 1);
            assert(next.drop_last() =~= texts(parts@).take(i as int));
            assert(next.last() == parts@[i as int]@);
        }
        i += 1;
    }
    assert(texts(parts@).take(parts.len() as int) =~= texts(parts@));
    out
}

/// Whether `needle` occurs in `s`.
pub fn contains_text(s: &str, needle: &str) -> (r: bool)
    ensures
        r == occurs_in(s@, needle@),
{
    let n: usize = s.unicode_len();
    let k: usize = needle.unicode_len();
    if k > n {
        return false;
    }
    let mut i: usize = 0;
    while i <= n - k
        invariant
            n == s@.len(),
            k == needle@.len(),
            k <= n,
            i <= n - k + 1,
            forall|j: int| 0 <= j < i ==> !occurs_at(s@, needle@, j),
        decreases n + 1 - i,
    {
        if same(s.substring_char(i, i + k), needle) {
            assert(occurs_at(s@, needle@, i as int));
            return true;
        }
        if i == n - k {
            assert forall|j: int| !occurs_at(s@, needle@, j) by {
                if 0 <= j < i {
                    assert(!occurs_at(s@, needle@, j));
                }
            }
            return false;
        }
        i += 1;
    }
    false
}

/// `s` without the `c`s it begins with.
pub fn trim_leading<'a>(s: &'a str, c: char) -> (r: &'a str)
    ensures
        r@ == trim_start(s@, c),
{
    let n: usize = s.unicode_len();
    let cs: Vec<char> = chars_of(s);
    let mut i: usize = 0;
    assert(s@.skip(0) =~= s@);
    while i < n && cs[i] == c
        invariant
            n == s@.len(),
            cs@ == s@,
            i <= n,
            trim_start(s@.skip(i as int), c) == trim_start(s@, c),
        decreases n - i,
    {
        assert(s@.skip(i as int).skip(1) =~= s@.skip(i + 1));
        i += 1;
    }
    s.substring_char(i, n)
}

fn lower_of(c: char) -> (r: char)
    ensures
        r == lower(c),
{
    if 'A' <= c && c <= 'Z' {
        (c as u8 + 32) as char
    } else {
        c
    }
}

/// Whether the two texts are equal but for the case of ASCII letters.
pub fn same_no_case(a: &str, b: &str) -> (r: bool)
    ensures
        r == same_ignoring_case(a@, b@),
{
    let x: Vec<char> = chars_of(a);
    let y: Vec<char> = chars_of(b);
    if x.len() != y.len() {
        return false;
    }
    let n: usize = x.len();
    let mut i: usize = 0;
    while i < n
        invariant
            i <= n,
            n == x.len(),
            n == y.len(),
            x@ == a@,
            y@ == b@,
            forall|k: int| 0 <= k < i ==> lower(#[trigger] a@[k]) == lower(b@[k]),
        decreases n - i,
    {
        if lower_of(x[i]) != lower_of(y[i]) {
            return false;
        }
        i += 1;
    }
    true
}

/// Whether `test` holds of every character, where it tells the characters of `class`.
pub(crate) fn all_chars<F: Fn(char) -> bool>(
    s: &str,
    test: F,
    class: Ghost<spec_fn(char) -> bool>,
) -> (r: bool)
    requires
        forall|c: char| #[trigger] call_requires(test, (c,)),
        forall|c: char, b: bool| #[trigger] call_ensures(test, (c,), b) ==> b == class@(c),
    ensures
        r == all_of(s@, class@),
{
    let chars: Vec<char> = chars_of(s);
    let mut i: usize = 0;
    while i < chars.len()
        invariant
            chars@ == s@,
            i <= chars.len(),
            forall|c: char| #[trigger] call_requires(test, (c,)),
            forall|c: char, b: bool| #[trigger] call_ensures(test, (c,), b) ==> b == class@(c),
            forall|k: int| 0 <= k < i ==> #[trigger] class@(s@[k]),
        decreases chars.len() - i,
    {
        if !test(chars[i]) {
            assert(!class@(s@[i as int]));
            return false;
        }
        i += 1;
    }
    true
}

} // verus!
