//! Decimal notation of integers.

use vstd::prelude::*;
use vstd::string::*;

use crate::text::{chars_of, is_digit};

verus! {

/// The digit of value `d`, for `d` below ten.
pub open spec fn digit(d: nat) -> char {
    (d + 48) as char
}

/// The decimal notation of a natural number, without leading zeros.
pub open spec fn decimal(n: nat) -> Seq<char>
    decreases n,
{
    if n < 10 {
        seq![digit(n)]
    } else {
        decimal(n / 10).push(digit(n % 10))
    }
}

/// The decimal notation of an integer.
pub open spec fn signed_decimal(i: int) -> Seq<char> {
    if i < 0 {
        seq!['-'] + decimal((-i) as nat)
    } else {
        decimal(i as nat)
    }
}

/// `s` is a nonempty run of digits.
pub open spec fn all_digits(s: Seq<char>) -> bool {
    s.len() > 0 && forall|i: int| 0 <= i < s.len() ==> '0' <= #[trigger] s[i] <= '9'
}

/// The number that a run of digits denotes.
pub open spec fn digits_value(s: Seq<char>) -> nat
    decreases s.len(),
{
    if s.len() == 0 {
        0
    } else {
        (digits_value(s.drop_last()) * 10 + (s.last() as nat - 48)) as nat
    }
}

/// The integer that `s` denotes: an optional sign and a run of digits.
pub open spec fn denoted(s: Seq<char>) -> Option<int> {
    let body = if s.len() > 0 && (s[0] == '-' || s[0] == '+') {
        s.skip(1)
    } else {
        s
    };
    if !all_digits(body) {
        None
    } else if s[0] == '-' {
        Some(-(digits_value(body) as int))
    } else {
        Some(digits_value(body) as int)
    }
}

/// The integer that `s` denotes, where it fits in an `i64`.
pub open spec fn denoted_i64(s: Seq<char>) -> Option<int> {
    match denoted(s) {
        Some(i) => if i64::MIN <= i <= i64::MAX {
            Some(i)
        } else {
            None
        },
        None => None,
    }
}

fn digit_text(d: u64) -> (r: &'static str)
    requires
        d < 10,
    ensures
        r@ == seq![digit(d as nat)],
{
    proof {
        reveal_strlit("0");
        reveal_strlit("1");
        reveal_strlit("2");
        reveal_strlit("3");
        reveal_strlit("4");
        reveal_strlit("5");
        reveal_strlit("6");
        reveal_strlit("7");
        reveal_strlit("8");
        reveal_strlit("9");
    }
    let r: &'static str = match d {
        0 => "0",
        1 => "1",
        2 => "2",
        3 => "3",
        4 => "4",
        5 => "5",
        6 => "6",
        7 => "7",
        8 => "8",
        _ => "9",
    };
    assert(r@ =~= seq![digit(d as nat)]);
    r
}

/// Writes a natural number in decimal notation.
pub fn decimal_text(n: u64) -> (r: String)
    ensures
        r@ == decimal(n as nat),
    decreases n,
{
    let mut out: String = if n < 10 {
        String::new()
    } else {
        decimal_text(n / 10)
    };
    out.append(digit_text(n % 10));
    assert(out@ =~= decimal(n as nat));
    out
}

/// Writes an integer in decimal notation.
pub fn signed_decimal_text(i: i64) -> (r: String)
    ensures
        r@ == signed_decimal(i as int),
{
    if i < 0 {
        proof {
            reveal_strlit("-");
        }
        let mut out: String = "-".to_owned();
        let magnitude: u64 = (0i128 - i as i128) as u64;
        out.append(decimal_text(magnitude).as_str());
        assert("-"@ =~= seq!['-']);
        out
    } else {
        decimal_text(i as u64)
    }
}

proof fn lemma_digits_value_grows(s: Seq<char>, k: int)
    requires
        0 <= k <= s.len(),
        forall|i: int| 0 <= i < s.len() ==> '0' <= #[trigger] s[i] <= '9',
    ensures
        digits_value(s.take(k)) <= digits_value(s),
    decreases s.len() - k,
{
    if k < s.len() {
        lemma_digits_value_grows(s, k + 1);
        assert(s.take(k + 1).drop_last() =~= s.take(k));
        assert(s.take(k + 1).last() == s[k]);
    } else {
        assert(s.take(k) =~= s);
    }
}

/// Reads an integer that fits in an `i64`.
pub fn parse_i64(s: &str) -> (r: Option<i64>)
    ensures
        match r {
            Some(i) => denoted_i64(s@) == Some(i as int),
            None => denoted_i64(s@) is None,
        },
{
    let cs: Vec<char> = chars_of(s);
    let signed: bool = cs.len() > 0 && (cs[0] == '-' || cs[0] == '+');
    let negative: bool = cs.len() > 0 && cs[0] == '-';
    let start: usize = if signed {
        1
    } else {
        0
    };
    let ghost body = if signed {
        s@.skip(1)
    } else {
        s@
    };
    if start == cs.len() {
        return None;
    }
    let mut value: i128 = 0;
    let mut i: usize = start;
    assert(body.take(0) =~= Seq::empty());
    while i < cs.len()
        invariant
            start <= i <= cs.len(),
            start <= 1,
            signed == (start == 1),
            cs@ == s@,
            body == if signed {
                s@.skip(1)
            } else {
                s@
            },
            signed == (cs.len() > 0 && (cs[0] == '-' || cs[0] == '+')),
            body.len() == cs.len() - start,
            forall|k: int| start <= k < i ==> '0' <= #[trigger] cs@[k] <= '9',
            value == digits_value(body.take(i - start)),
            value <= 0x8000_0000_0000_0000,
        decreases cs.len() - i,
    {
        let c: char = cs[i];
        assert(body[i - start] == c);
        if !is_digit(c) {
            assert(!all_digits(body));
            return None;
        }
        value = value * 10 + (c as u32 as i128 - 48);
        assert(body.take(i - start + 1).drop_last() =~= body.take(i - start));
        i += 1;
        if value > 0x8000_0000_0000_0000 {
            proof {
                if all_digits(body) {
                    lemma_digits_value_grows(body, i - start);
                }
            }
            return None;
        }
    }
    assert(body.take(cs.len() - start) =~= body);
    assert forall|k: int| 0 <= k < body.len() implies '0' <= #[trigger] body[k] <= '9' by {
        assert(body[k] == cs@[k + start]);
    }
    if negative {
        Some((0 - value) as i64)
    } else if value <= 0x7fff_ffff_ffff_ffff {
        Some(value as i64)
    } else {
        None
    }
}

pub proof fn lemma_decimal_reads_back(n: nat)
    ensures
        all_digits(decimal(n)),
        digits_value(decimal(n)) == n,
    decreases n,
{
    if n < 10 {
        let s = seq![digit(n)];
        assert(s.drop_last() =~= Seq::empty());
        assert(digits_value(s.drop_last()) == 0);
    } else {
        lemma_decimal_reads_back(n / 10);
        let s = decimal(n);
        assert(s.drop_last() =~= decimal(n / 10));
        assert forall|i: int| 0 <= i < s.len() implies '0' <= #[trigger] s[i] <= '9' by {
            if i < s.len() - 1 {
                assert(s[i] == decimal(n / 10)[i]);
            }
        }
    }
}

/// Reading the decimal notation of an integer gives that integer back.
pub proof fn signed_decimal_reads_back(i: int)
    ensures
        denoted(signed_decimal(i)) == Some(i),
{
    if i < 0 {
        let d = decimal((-i) as nat);
        lemma_decimal_reads_back((-i) as nat);
        assert(signed_decimal(i).skip(1) =~= d);
    } else {
        lemma_decimal_reads_back(i as nat);
        assert(decimal(i as nat)[0] != '-');
    }
}

} // verus!
