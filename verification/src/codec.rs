//! Percent-encoding, base64 and UTF-8.

use base64::engine::general_purpose::STANDARD;
use base64::Engine;
use vstd::prelude::*;
use vstd::utf8::{
    decode_utf8, encode_scalar, encode_utf8, encode_utf8_decode_utf8, valid_utf8,
};

verus! {

/// The bytes that stand for themselves in a percent-encoded text: ASCII letters, ASCII digits,
/// `-`, `.`, `_` and `~`.
pub open spec fn unreserved(b: u8) -> bool {
    ||| 48 <= b <= 57
    ||| 65 <= b <= 90
    ||| 97 <= b <= 122
    ||| b == 45
    ||| b == 46
    ||| b == 95
    ||| b == 126
}

/// The upper-case hexadecimal digit of value `d`, for `d` below sixteen.
pub open spec fn hex_digit(d: int) -> char {
    if d < 10 {
        (d + 48) as char
    } else {
        (d + 55) as char
    }
}

/// One byte of a percent-encoded text.
pub open spec fn percent_byte(b: u8) -> Seq<char> {
    if unreserved(b) {
        seq![b as char]
    } else {
        seq!['%', hex_digit(b as int / 16), hex_digit(b as int % 16)]
    }
}

/// Bytes in percent-encoded form.
pub open spec fn percent_encoded(bytes: Seq<u8>) -> Seq<char>
    decreases bytes.len(),
{
    if bytes.len() == 0 {
        Seq::empty()
    } else {
        percent_encoded(bytes.drop_last()) + percent_byte(bytes.last())
    }
}

/// A text in percent-encoded form: its UTF-8 bytes, percent-encoded.
pub open spec fn url_encoded(s: Seq<char>) -> Seq<char> {
    percent_encoded(encode_utf8(s))
}

/// What `STANDARD.encode` of the `base64` crate makes of the bytes.
pub uninterp spec fn base64_encoding(bytes: Seq<u8>) -> Seq<char>;

/// What `STANDARD.decode` of the `base64` crate makes of the text: the bytes, or the message of
/// its error.
pub uninterp spec fn base64_decoding(text: Seq<char>) -> Result<Seq<u8>, Seq<char>>;

/// What the result of a decoding denotes.
pub open spec fn decoded_view(r: Result<Vec<u8>, String>) -> Result<Seq<u8>, Seq<char>> {
    match r {
        Ok(bytes) => Ok(bytes@),
        Err(message) => Err(message@),
    }
}

/// The text that the bytes encode, where they are UTF-8.
pub open spec fn utf8_text(bytes: Seq<u8>) -> Option<Seq<char>> {
    if valid_utf8(bytes) {
        Some(decode_utf8(bytes))
    } else {
        None
    }
}

/// Calls `urlencoding::encode`: every byte of the text's UTF-8 encoding stays as it is where it
/// is unreserved, and becomes `%` and two upper-case hexadecimal digits where it is not.
#[verifier::external_body]
pub(crate) fn percent_encode(s: &str) -> (r: String)
    ensures
        r@ == url_encoded(s@),
{
    urlencoding::encode(s).into_owned()
}

/// Calls `STANDARD.encode` of the `base64` crate: the result is a function of the bytes, and
/// decoding it with the same engine gives the bytes back.
#[verifier::external_body]
pub(crate) fn base64_encode(bytes: &[u8]) -> (r: String)
    ensures
        r@ == base64_encoding(bytes@),
        base64_decoding(r@) is Ok,
        base64_decoding(r@)->Ok_0 == bytes@,
{
    STANDARD.encode(bytes)
}

/// Calls `STANDARD.decode` of the `base64` crate, and renders its error as text: the result is a
/// function of the text.
#[verifier::external_body]
pub(crate) fn base64_decode(text: &str) -> (r: Result<Vec<u8>, String>)
    ensures
        decoded_view(r) == base64_decoding(text@),
{
    STANDARD.decode(text).map_err(|e| e.to_string())
}

/// Calls `std::str::from_utf8`: it gives the text that the bytes encode where they are UTF-8, and
/// an error where they are not.
#[verifier::external_body]
pub(crate) fn text_from_utf8(bytes: &[u8]) -> (r: Option<String>)
    ensures
        match r {
            Some(s) => utf8_text(bytes@) == Some(s@),
            None => utf8_text(bytes@) is None,
        },
{
    std::str::from_utf8(bytes).ok().map(String::from)
}

/// A character of a percent-encoded text: an unreserved one, or the percent sign.
pub open spec fn url_safe(c: char) -> bool {
    c == '%' || ((c as u32) < 128 && unreserved(c as u8))
}

proof fn lemma_percent_byte_safe(b: u8)
    ensures
        forall|i: int| 0 <= i < percent_byte(b).len() ==> url_safe(#[trigger] percent_byte(b)[i]),
        percent_byte(b).len() > 0,
        percent_byte(b)[0] == '%' <==> !unreserved(b),
{
}

/// A percent-encoded text has unreserved characters and percent signs only; a slash, a question
/// mark or any other separator of a URL is none of them.
pub proof fn encoded_texts_are_url_safe(s: Seq<char>, i: int)
    requires
        0 <= i < url_encoded(s).len(),
    ensures
        url_safe(url_encoded(s)[i]),
        url_encoded(s)[i] != '/',
        url_encoded(s)[i] != '?',
        url_encoded(s)[i] != '#',
        url_encoded(s)[i] != '&',
        url_encoded(s)[i] != ':',
{
    lemma_percent_encoded_safe(encode_utf8(s), i);
}

proof fn lemma_percent_encoded_safe(bytes: Seq<u8>, i: int)
    requires
        0 <= i < percent_encoded(bytes).len(),
    ensures
        url_safe(percent_encoded(bytes)[i]),
    decreases bytes.len(),
{
    if bytes.len() > 0 {
        let before = percent_encoded(bytes.drop_last());
        if i < before.len() {
            lemma_percent_encoded_safe(bytes.drop_last(), i);
        } else {
            lemma_percent_byte_safe(bytes.last());
            assert(percent_encoded(bytes)[i] == percent_byte(bytes.last())[i - before.len()]);
        }
    }
}

/// A percent-encoded text begins with its first byte.
pub proof fn lemma_percent_encoded_first(bytes: Seq<u8>)
    requires
        bytes.len() > 0,
    ensures
        percent_encoded(bytes) == percent_byte(bytes[0]) + percent_encoded(bytes.drop_first()),
    decreases bytes.len(),
{
    let init = bytes.drop_last();
    let rest = bytes.drop_first();
    if bytes.len() == 1 {
        assert(init =~= Seq::empty());
        assert(rest =~= Seq::empty());
        assert(percent_encoded(bytes) =~= percent_byte(bytes[0]) + percent_encoded(rest));
    } else {
        lemma_percent_encoded_first(init);
        assert(init.drop_first() =~= rest.drop_last());
        assert(percent_encoded(bytes) =~= percent_byte(bytes[0]) + percent_encoded(rest));
    }
}

/// Bytes with one encoding are the same.
proof fn lemma_percent_encoded_injective(a: Seq<u8>, b: Seq<u8>)
    requires
        percent_encoded(a) == percent_encoded(b),
    ensures
        a == b,
    decreases a.len(),
{
    if a.len() > 0 {
        lemma_percent_encoded_first(a);
        lemma_percent_byte_safe(a[0]);
    }
    if b.len() > 0 {
        lemma_percent_encoded_first(b);
        lemma_percent_byte_safe(b[0]);
    }
    if a.len() == 0 || b.len() == 0 {
        assert(a.len() > 0 ==> percent_encoded(a).len() > 0);
        assert(b.len() > 0 ==> percent_encoded(b).len() > 0);
        assert(a =~= b);
    } else {
        let (pa, pb) = (percent_byte(a[0]), percent_byte(b[0]));
        let (ra, rb) = (percent_encoded(a.drop_first()), percent_encoded(b.drop_first()));
        assert((pa + ra)[0] == pa[0] && (pb + rb)[0] == pb[0]);
        assert(pa.len() == pb.len());
        assert forall|i: int| 0 <= i < pa.len() implies pa[i] == pb[i] by {
            assert((pa + ra)[i] == pa[i] && (pb + rb)[i] == pb[i]);
        }
        assert(a[0] == b[0]) by {
            if unreserved(a[0]) {
                assert(pa[0] == pb[0]);
            } else {
                assert(pa[1] == pb[1] && pa[2] == pb[2]);
            }
        }
        assert(ra =~= (pa + ra).skip(pa.len() as int));
        assert(rb =~= (pb + rb).skip(pb.len() as int));
        lemma_percent_encoded_injective(a.drop_first(), b.drop_first());
        assert(a =~= seq![a[0]] + a.drop_first());
        assert(b =~= seq![b[0]] + b.drop_first());
    }
}

proof fn lemma_encode_utf8_joined(a: Seq<char>, b: Seq<char>)
    ensures
        encode_utf8(a + b) == encode_utf8(a) + encode_utf8(b),
    decreases a.len(),
{
    if a.len() == 0 {
        assert(a + b =~= b);
        assert(encode_utf8(a) + encode_utf8(b) =~= encode_utf8(b));
    } else {
        lemma_encode_utf8_joined(a.drop_first(), b);
        assert((a + b).drop_first() =~= a.drop_first() + b);
        assert(encode_utf8(a + b) =~= encode_utf8(a) + encode_utf8(b));
    }
}

proof fn lemma_percent_encoded_joined(a: Seq<u8>, b: Seq<u8>)
    ensures
        percent_encoded(a + b) == percent_encoded(a) + percent_encoded(b),
    decreases b.len(),
{
    if b.len() == 0 {
        assert(a + b =~= a);
        assert(percent_encoded(a) + percent_encoded(b) =~= percent_encoded(a));
    } else {
        lemma_percent_encoded_joined(a, b.drop_last());
        assert((a + b).drop_last() =~= a + b.drop_last());
        assert(percent_encoded(a + b) =~= percent_encoded(a) + percent_encoded(b));
    }
}

/// Two texts, one behind the other, have their percent-encoded forms one behind the other.
pub proof fn joined_texts_are_encoded_apart(a: Seq<char>, b: Seq<char>)
    ensures
        url_encoded(a + b) == url_encoded(a) + url_encoded(b),
{
    lemma_encode_utf8_joined(a, b);
    lemma_percent_encoded_joined(encode_utf8(a), encode_utf8(b));
}

/// Different texts have different percent-encoded forms.
pub proof fn encoded_texts_differ(a: Seq<char>, b: Seq<char>)
    requires
        url_encoded(a) == url_encoded(b),
    ensures
        a == b,
{
    lemma_percent_encoded_injective(encode_utf8(a), encode_utf8(b));
    encode_utf8_decode_utf8(a);
    encode_utf8_decode_utf8(b);
}

/// An unreserved character is one byte, and stands for itself.
proof fn lemma_unreserved_char(c: char)
    requires
        (c as u32) < 128,
        unreserved(c as u8),
    ensures
        encode_scalar(c as u32) == seq![c as u8],
        percent_byte(c as u8) == seq![c],
{
    let u: u32 = c as u32;
    assert(u & 0x7F == u) by (bit_vector)
        requires
            u < 128,
    ;
}

/// A text of unreserved characters is its own percent-encoded form.
pub proof fn unreserved_texts_stay(s: Seq<char>)
    requires
        forall|i: int| 0 <= i < s.len() ==> (#[trigger] s[i] as u32) < 128 && unreserved(s[i] as u8),
    ensures
        url_encoded(s) == s,
    decreases s.len(),
{
    if s.len() > 0 {
        let rest = s.drop_first();
        assert forall|i: int| 0 <= i < rest.len() implies (#[trigger] rest[i] as u32) < 128
            && unreserved(rest[i] as u8) by {
            assert(rest[i] == s[i + 1]);
        }
        unreserved_texts_stay(rest);
        assert((s[0] as u32) < 128 && unreserved(s[0] as u8));
        let bytes = encode_utf8(s);
        lemma_unreserved_char(s[0]);
        assert(bytes.drop_first() =~= encode_utf8(rest));
        lemma_percent_encoded_first(bytes);
        assert(percent_byte(bytes[0]) =~= seq![s[0]]);
        assert(url_encoded(s) =~= seq![s[0]] + rest);
        assert(seq![s[0]] + rest =~= s);
    } else {
        assert(url_encoded(s) =~= s);
    }
}

} // verus!
