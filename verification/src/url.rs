//! How a URL is read: the steps of its path, the verb behind them and the parameters of its query,
//! with percent-encoding undone.

use vstd::prelude::*;
use vstd::string::*;
use vstd::utf8::{
    decode_utf8, encode_scalar, encode_utf8, encode_utf8_decode_utf8,
};

use crate::codec::{
    encoded_texts_are_url_safe, lemma_percent_encoded_first, percent_byte, percent_encoded,
    unreserved, url_encoded,
};
use crate::decimal::{decimal, lemma_decimal_reads_back};
use crate::text::{
    cut_first, join, lemma_cut_first_found, lemma_cut_first_parts, lemma_split_join, split,
};

verus! {

/// The value of a hexadecimal digit.
pub open spec fn hex_value(c: char) -> int {
    if c <= '9' {
        c as int - 48
    } else if c <= 'F' {
        c as int - 55
    } else {
        c as int - 87
    }
}

/// The bytes that a percent-encoded text stands for: those of its characters, and for a percent
/// sign and two hexadecimal digits the byte of that value.
pub open spec fn percent_decoded(s: Seq<char>) -> Seq<u8>
    decreases s.len(),
{
    if s.len() == 0 {
        Seq::empty()
    } else if s[0] == '%' && s.len() >= 3 {
        seq![(hex_value(s[1]) * 16 + hex_value(s[2])) as u8] + percent_decoded(s.skip(3))
    } else {
        encode_utf8(seq![s[0]]) + percent_decoded(s.skip(1))
    }
}

/// The text that a percent-encoded text stands for.
#[verifier::opaque]
pub open spec fn url_decoded(s: Seq<char>) -> Seq<char> {
    decode_utf8(percent_decoded(s))
}

proof fn lemma_byte(b: u8)
    ensures
        percent_byte(b).len() == 1 || percent_byte(b).len() == 3,
        percent_byte(b).len() == 1 ==> percent_byte(b)[0] != '%' && encode_utf8(
            seq![percent_byte(b)[0]],
        ) == seq![b],
        percent_byte(b).len() == 3 ==> percent_byte(b)[0] == '%' && hex_value(percent_byte(b)[1])
            * 16 + hex_value(percent_byte(b)[2]) == b,
{
    if unreserved(b) {
        let c: char = b as char;
        let u: u32 = c as u32;
        assert(u & 0x7F == u) by (bit_vector)
            requires
                u < 128,
        ;
        reveal_with_fuel(encode_utf8, 2);
        let one = seq![c];
        assert(one.drop_first() =~= Seq::empty());
        assert(encode_scalar(u) =~= seq![b]);
        assert(encode_utf8(one) =~= seq![b]);
        assert(percent_byte(b) =~= one);
    }
}

proof fn lemma_percent_decoded(bytes: Seq<u8>)
    ensures
        percent_decoded(percent_encoded(bytes)) == bytes,
    decreases bytes.len(),
{
    if bytes.len() > 0 {
        let rest = bytes.drop_first();
        let first = percent_byte(bytes[0]);
        let s = percent_encoded(bytes);
        lemma_percent_encoded_first(bytes);
        lemma_byte(bytes[0]);
        lemma_percent_decoded(rest);
        assert(s == first + percent_encoded(rest));
        assert(s.skip(first.len() as int) =~= percent_encoded(rest));
        assert(s[0] == first[0]);
        if first.len() == 3 {
            assert(s[1] == first[1] && s[2] == first[2]);
        }
        assert(percent_decoded(s) =~= seq![bytes[0]] + rest);
        assert(seq![bytes[0]] + rest =~= bytes);
    } else {
        assert(percent_decoded(percent_encoded(bytes)) =~= bytes);
    }
}

/// Decoding undoes percent-encoding.
pub proof fn decoding_undoes_percent_encoding(s: Seq<char>)
    ensures
        url_decoded(url_encoded(s)) == s,
{
    reveal(url_decoded);
    lemma_percent_decoded(encode_utf8(s));
    encode_utf8_decode_utf8(s);
}

proof fn lemma_bytes_of_plain(s: Seq<char>)
    requires
        !s.contains('%'),
    ensures
        percent_decoded(s) == encode_utf8(s),
    decreases s.len(),
{
    if s.len() > 0 {
        assert(s[0] != '%');
        let rest = s.drop_first();
        assert(s.skip(1) =~= rest);
        assert(!rest.contains('%')) by {
            if rest.contains('%') {
                let i = choose|i: int| 0 <= i < rest.len() && rest[i] == '%';
                assert(s[i + 1] == '%');
            }
        }
        lemma_bytes_of_plain(rest);
        reveal_with_fuel(encode_utf8, 2);
        let one = seq![s[0]];
        assert(one.drop_first() =~= Seq::empty());
        assert(encode_utf8(one) =~= encode_scalar(one[0] as u32));
    } else {
        assert(percent_decoded(s) =~= encode_utf8(s));
    }
}

/// A text without percent signs stands for itself.
pub proof fn texts_without_percent_signs_stand_for_themselves(s: Seq<char>)
    requires
        !s.contains('%'),
    ensures
        url_decoded(s) == s,
{
    reveal(url_decoded);
    lemma_bytes_of_plain(s);
    encode_utf8_decode_utf8(s);
}

/// What a URL asks for behind the root of an API.
pub struct Target {
    pub steps: Seq<Seq<char>>,
    pub verb: Option<Seq<char>>,
    pub parameters: Seq<(Seq<char>, Seq<char>)>,
}

/// The two sides of the first `sep`; the whole text and nothing where there is none.
pub open spec fn parted(s: Seq<char>, sep: char) -> (Seq<char>, Option<Seq<char>>) {
    match cut_first(s, sep) {
        Some((a, b)) => (a, Some(b)),
        None => (s, None),
    }
}

/// A parameter of a query: its name, and its value with percent-encoding undone.
pub open spec fn parameter(p: Seq<char>) -> (Seq<char>, Seq<char>) {
    match cut_first(p, '=') {
        Some((name, value)) => (name, url_decoded(value)),
        None => (p, Seq::empty()),
    }
}

/// What stands behind `root` in a URL that begins with it: the steps of the path between
/// slashes, the verb behind a colon, and the parameters behind a question mark.
pub open spec fn target(url: Seq<char>, root: Seq<char>) -> Option<Target> {
    if !root.is_prefix_of(url) {
        None
    } else {
        let (front, query) = parted(url.skip(root.len() as int), '?');
        let (path, verb) = parted(front, ':');
        Some(
            Target {
                steps: split(path, '/').map_values(|s: Seq<char>| url_decoded(s)),
                verb,
                parameters: match query {
                    Some(q) => split(q, '&').map_values(|p: Seq<char>| parameter(p)),
                    None => Seq::empty(),
                },
            },
        )
    }
}

/// The URL asks for those steps, with that verb and those parameters.
#[verifier::opaque]
pub open spec fn asks_for(
    url: Seq<char>,
    root: Seq<char>,
    steps: Seq<Seq<char>>,
    verb: Option<Seq<char>>,
    parameters: Seq<(Seq<char>, Seq<char>)>,
) -> bool {
    target(url, root) matches Some(t) && t.steps == steps && t.verb == verb && t.parameters
        == parameters
}

/// A piece of a URL: it has none of the characters that part the pieces.
#[verifier::opaque]
pub open spec fn piece(s: Seq<char>) -> bool {
    !s.contains('/') && !s.contains('?') && !s.contains(':') && !s.contains('&') && !s.contains(
        '=',
    )
}

/// An encoded text is a piece, and stands for the text.
pub proof fn lemma_encoded_piece(s: Seq<char>)
    ensures
        piece(url_encoded(s)),
        url_decoded(url_encoded(s)) == s,
{
    reveal(piece);
    let e = url_encoded(s);
    assert forall|i: int| 0 <= i < e.len() implies (#[trigger] e[i]) != '/' && e[i] != '?' && e[i]
        != ':' && e[i] != '&' && e[i] != '=' by {
        encoded_texts_are_url_safe(s, i);
    }
    decoding_undoes_percent_encoding(s);
}

/// A literal piece stands for itself.
pub proof fn lemma_literal_piece(s: Seq<char>)
    requires
        !s.contains('%'),
    ensures
        url_decoded(s) == s,
{
    texts_without_percent_signs_stand_for_themselves(s);
}

pub open spec fn verb_suffix(verb: Option<Seq<char>>) -> Seq<char> {
    match verb {
        Some(v) => seq![':'] + v,
        None => Seq::empty(),
    }
}

pub open spec fn query_suffix(query: Option<Seq<char>>) -> Seq<char> {
    match query {
        Some(q) => seq!['?'] + q,
        None => Seq::empty(),
    }
}

proof fn lemma_parted(a: Seq<char>, sep: char, b: Option<Seq<char>>)
    requires
        !a.contains(sep),
    ensures
        parted(
            a + match b {
                Some(t) => seq![sep] + t,
                None => Seq::<char>::empty(),
            },
            sep,
        ) == (a, b),
{
    match b {
        Some(t) => {
            assert(a + (seq![sep] + t) =~= a + seq![sep] + t);
            lemma_cut_first_found(a, sep, t);
        },
        None => {
            assert(a + Seq::<char>::empty() =~= a);
            lemma_cut_first_parts(a, sep);
            if let Some((x, y)) = cut_first(a, sep) {
                assert((x + seq![sep] + y)[x.len() as int] == sep);
            }
        },
    }
}

proof fn lemma_join_lacks(pieces: Seq<Seq<char>>, sep: Seq<char>, c: char)
    requires
        forall|i: int| 0 <= i < pieces.len() ==> !(#[trigger] pieces[i]).contains(c),
        !sep.contains(c),
    ensures
        !join(pieces, sep).contains(c),
    decreases pieces.len(),
{
    if pieces.len() > 1 {
        let init = pieces.drop_last();
        assert forall|i: int| 0 <= i < init.len() implies !(#[trigger] init[i]).contains(c) by {
            assert(init[i] == pieces[i]);
        }
        lemma_join_lacks(init, sep, c);
        assert(!pieces[pieces.len() - 1].contains(c));
        let s = join(init, sep) + sep + pieces.last();
        if s.contains(c) {
            let i = choose|i: int| 0 <= i < s.len() && s[i] == c;
            if i < join(init, sep).len() {
                assert(join(init, sep)[i] == c);
            } else if i < join(init, sep).len() + sep.len() {
                assert(sep[i - join(init, sep).len()] == c);
            } else {
                assert(pieces.last()[i - join(init, sep).len() - sep.len()] == c);
            }
        }
    } else if pieces.len() == 1 {
        assert(!pieces[0].contains(c));
    }
}

/// How a URL that is put together from pieces is read.
pub proof fn lemma_target(
    url: Seq<char>,
    root: Seq<char>,
    pieces: Seq<Seq<char>>,
    verb: Option<Seq<char>>,
    query: Option<Seq<char>>,
)
    requires
        pieces.len() > 0,
        forall|i: int| 0 <= i < pieces.len() ==> piece(#[trigger] pieces[i]),
        verb matches Some(v) ==> !v.contains('?'),
        url == root + join(pieces, seq!['/']) + verb_suffix(verb) + query_suffix(query),
    ensures
        target(url, root) matches Some(t) && t.steps == pieces.map_values(
            |s: Seq<char>| url_decoded(s),
        ) && t.verb == verb && t.parameters == match query {
            Some(q) => split(q, '&').map_values(|p: Seq<char>| parameter(p)),
            None => Seq::<(Seq<char>, Seq<char>)>::empty(),
        },
{
    reveal(piece);
    let path = join(pieces, seq!['/']);
    assert forall|i: int| 0 <= i < pieces.len() implies !(#[trigger] pieces[i]).contains('?') by {
        assert(piece(pieces[i]));
    }
    assert forall|i: int| 0 <= i < pieces.len() implies !(#[trigger] pieces[i]).contains(':') by {
        assert(piece(pieces[i]));
    }
    assert forall|i: int| 0 <= i < pieces.len() implies !(#[trigger] pieces[i]).contains('/') by {
        assert(piece(pieces[i]));
    }
    lemma_join_lacks(pieces, seq!['/'], '?');
    lemma_join_lacks(pieces, seq!['/'], ':');
    lemma_split_join(pieces, '/');
    let front = path + verb_suffix(verb);
    assert(!front.contains('?')) by {
        if front.contains('?') {
            let i = choose|i: int| 0 <= i < front.len() && front[i] == '?';
            if i < path.len() {
                assert(path[i] == '?');
            } else if i > path.len() {
                assert(verb->0[i - path.len() - 1] == '?');
            }
        }
    }
    assert(url =~= root + (front + query_suffix(query)));
    assert(root.is_prefix_of(url));
    assert(url.skip(root.len() as int) =~= front + query_suffix(query));
    lemma_parted(front, '?', query);
    lemma_parted(path, ':', verb);
}

/// What up to nine pieces are joined to.
pub proof fn lemma_joined(p: Seq<Seq<char>>, sep: Seq<char>)
    requires
        0 < p.len() <= 9,
    ensures
        p.len() == 1 ==> join(p, sep) == p[0],
        p.len() == 2 ==> join(p, sep) == p[0] + sep + p[1],
        p.len() == 3 ==> join(p, sep) == p[0] + sep + p[1] + sep + p[2],
        p.len() == 4 ==> join(p, sep) == p[0] + sep + p[1] + sep + p[2] + sep + p[3],
        p.len() == 5 ==> join(p, sep) == p[0] + sep + p[1] + sep + p[2] + sep + p[3] + sep + p[4],
        p.len() == 6 ==> join(p, sep) == p[0] + sep + p[1] + sep + p[2] + sep + p[3] + sep + p[4]
            + sep + p[5],
        p.len() == 7 ==> join(p, sep) == p[0] + sep + p[1] + sep + p[2] + sep + p[3] + sep + p[4]
            + sep + p[5] + sep + p[6],
        p.len() == 8 ==> join(p, sep) == p[0] + sep + p[1] + sep + p[2] + sep + p[3] + sep + p[4]
            + sep + p[5] + sep + p[6] + sep + p[7],
        p.len() == 9 ==> join(p, sep) == p[0] + sep + p[1] + sep + p[2] + sep + p[3] + sep + p[4]
            + sep + p[5] + sep + p[6] + sep + p[7] + sep + p[8],
    decreases p.len(),
{
    if p.len() > 1 {
        lemma_joined(p.drop_last(), sep);
    }
}

/// A parameter of a query as it is written.
pub open spec fn written(p: (Seq<char>, Seq<char>)) -> Seq<char> {
    p.0 + seq!['='] + p.1
}

/// How a URL is read that is put together from pieces and parameters.
pub proof fn lemma_read(
    url: Seq<char>,
    root: Seq<char>,
    pieces: Seq<Seq<char>>,
    verb: Option<Seq<char>>,
    parameters: Seq<(Seq<char>, Seq<char>)>,
)
    requires
        pieces.len() > 0,
        forall|i: int| 0 <= i < pieces.len() ==> piece(#[trigger] pieces[i]),
        forall|i: int|
            0 <= i < parameters.len() ==> piece((#[trigger] parameters[i]).0) && piece(
                parameters[i].1,
            ),
        verb matches Some(v) ==> piece(v),
        url == root + join(pieces, seq!['/']) + verb_suffix(verb) + query_suffix(
            if parameters.len() == 0 {
                None
            } else {
                Some(
                    join(
                        parameters.map_values(|p: (Seq<char>, Seq<char>)| written(p)),
                        seq!['&'],
                    ),
                )
            },
        ),
    ensures
        asks_for(
            url,
            root,
            pieces.map_values(|s: Seq<char>| url_decoded(s)),
            verb,
            parameters.map_values(|p: (Seq<char>, Seq<char>)| (p.0, url_decoded(p.1))),
        ),
{
    reveal(piece);
    reveal(asks_for);
    let wrote = parameters.map_values(|p: (Seq<char>, Seq<char>)| written(p));
    let read = parameters.map_values(|p: (Seq<char>, Seq<char>)| (p.0, url_decoded(p.1)));
    if parameters.len() == 0 {
        lemma_target(url, root, pieces, verb, None);
        assert(read =~= Seq::empty());
    } else {
        let query = join(wrote, seq!['&']);
        lemma_target(url, root, pieces, verb, Some(query));
        assert forall|i: int| 0 <= i < wrote.len() implies !(#[trigger] wrote[i]).contains('&')
            && parameter(wrote[i]) == read[i] by {
            let p = parameters[i];
            assert(wrote[i] == written(p));
            assert(piece(p.0) && piece(p.1));
            if written(p).contains('&') {
                let j = choose|j: int| 0 <= j < written(p).len() && written(p)[j] == '&';
                if j < p.0.len() {
                    assert(p.0[j] == '&');
                } else {
                    assert(p.1[j - p.0.len() - 1] == '&');
                }
            }
            lemma_cut_first_found(p.0, '=', p.1);
        }
        lemma_split_join(wrote, '&');
        assert(split(query, '&').map_values(|p: Seq<char>| parameter(p)) =~= read);
    }
}

/// A decimal notation is a piece, and stands for itself.
pub proof fn lemma_decimal_piece(n: nat)
    ensures
        piece(decimal(n)),
        url_decoded(decimal(n)) == decimal(n),
{
    reveal(piece);
    lemma_decimal_reads_back(n);
    lemma_literal_piece(decimal(n));
}

/// How texts are put together makes no difference.
pub proof fn lemma_regroup()
    ensures
        forall|a: Seq<char>, b: Seq<char>, c: Seq<char>| #[trigger] (a + (b + c)) == a + b + c,
        forall|a: Seq<char>| #[trigger] (a + Seq::<char>::empty()) == a,
{
    assert forall|a: Seq<char>, b: Seq<char>, c: Seq<char>| #[trigger] (a + (b + c)) == a + b
        + c by {
        assert(a + (b + c) =~= a + b + c);
    }
    assert forall|a: Seq<char>| #[trigger] (a + Seq::<char>::empty()) == a by {
        assert(a + Seq::<char>::empty() =~= a);
    }
}

/// A text ends in its last three parts.
pub proof fn lemma_ends_in(front: Seq<char>, a: Seq<char>, b: Seq<char>, c: Seq<char>)
    ensures
        (a + b + c).is_suffix_of(front + a + b + c),
{
    assert(front + a + b + c =~= front + (a + b + c));
    assert((front + (a + b + c)).skip(front.len() as int) =~= a + b + c);
}

/// A URL is read in one way.
pub proof fn lemma_same_target(a: Seq<char>, b: Seq<char>, root: Seq<char>)
    ensures
        forall|
            steps: Seq<Seq<char>>,
            verb: Option<Seq<char>>,
            parameters: Seq<(Seq<char>, Seq<char>)>,
        | #[trigger]
            asks_for(a, root, steps, verb, parameters) ==> target(a, root) == Some(
                Target { steps, verb, parameters },
            ),
        forall|
            steps: Seq<Seq<char>>,
            verb: Option<Seq<char>>,
            parameters: Seq<(Seq<char>, Seq<char>)>,
        | #[trigger]
            asks_for(b, root, steps, verb, parameters) ==> target(b, root) == Some(
                Target { steps, verb, parameters },
            ),
{
    reveal(asks_for);
}

} // verus!
