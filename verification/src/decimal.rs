//! Decimal text for the integers that appear in requests and payloads:
//! rendering `u64`/`i32` values, parsing them back, and the round-trip laws.
use vstd::prelude::*;
use vstd::arithmetic::div_mod::lemma_fundamental_div_mod;
use vstd::string::StrSliceExecFns;
use vstd::string::StringExecFns;

verus! {

pub open spec fn is_digit(c: char) -> bool {
    c == '0' || c == '1' || c == '2' || c == '3' || c == '4' || c == '5' || c == '6' || c == '7'
        || c == '8' || c == '9'
}

pub open spec fn digit_char(d: nat) -> char
    recommends
        d < 10,
{
    if d == 0 {
        '0'
    } else if d == 1 {
        '1'
    } else if d == 2 {
        '2'
    } else if d == 3 {
        '3'
    } else if d == 4 {
        '4'
    } else if d == 5 {
        '5'
    } else if d == 6 {
        '6'
    } else if d == 7 {
        '7'
    } else if d == 8 {
        '8'
    } else {
        '9'
    }
}

pub open spec fn digit_val(c: char) -> nat
    recommends
        is_digit(c),
{
    if c == '0' {
        0
    } else if c == '1' {
        1
    } else if c == '2' {
        2
    } else if c == '3' {
        3
    } else if c == '4' {
        4
    } else if c == '5' {
        5
    } else if c == '6' {
        6
    } else if c == '7' {
        7
    } else if c == '8' {
        8
    } else {
        9
    }
}

/// The decimal rendering of a natural number, most significant digit first.
pub open spec fn dec_rep(n: nat) -> Seq<char>
    decreases n,
{
    if n < 10 {
        seq![digit_char(n)]
    } else {
        dec_rep(n / 10).push(digit_char(n % 10))
    }
}

pub open spec fn all_digits(s: Seq<char>) -> bool {
    forall|i: int| 0 <= i < s.len() ==> is_digit(#[trigger] s[i])
}

/// The value of a digit sequence read as a decimal numeral.
pub open spec fn dec_val(s: Seq<char>) -> nat
    decreases s.len(),
{
    if s.len() == 0 {
        0
    } else {
        dec_val(s.drop_last()) * 10 + digit_val(s.last())
    }
}

/// What parsing a decimal numeral yields: the value of a nonempty
/// all-digit sequence whose value fits in a `u64`, and nothing else.
pub open spec fn spec_parse_u64(s: Seq<char>) -> Option<u64> {
    if s.len() > 0 && all_digits(s) && dec_val(s) <= u64::MAX {
        Some(dec_val(s) as u64)
    } else {
        None
    }
}

/// The decimal rendering of an `i32`, with a leading minus sign when negative.
pub open spec fn i32_dec_rep(p: i32) -> Seq<char> {
    if p < 0 {
        seq!['-'] + dec_rep((-(p as int)) as nat)
    } else {
        dec_rep(p as nat)
    }
}

/// What parsing a signed decimal numeral as an `i32` yields.
pub open spec fn spec_parse_i32(s: Seq<char>) -> Option<i32> {
    if s.len() >= 2 && s[0] == '-' {
        let t = s.subrange(1, s.len() as int);
        if all_digits(t) && dec_val(t) <= 0x8000_0000 {
            Some((-(dec_val(t) as int)) as i32)
        } else {
            None
        }
    } else if s.len() > 0 && all_digits(s) && dec_val(s) <= 0x7fff_ffff {
        Some(dec_val(s) as i32)
    } else {
        None
    }
}

/// The rendering of a natural number is a nonempty digit sequence whose
/// decimal value is the number itself.
pub proof fn lemma_dec_rep_val(n: nat)
    ensures
        dec_rep(n).len() > 0,
        all_digits(dec_rep(n)),
        dec_val(dec_rep(n)) == n,
    decreases n,
{
    if n < 10 {
        let s = dec_rep(n);
        assert(s.len() == 1);
        assert(s.last() == digit_char(n));
        assert(s.drop_last() =~= Seq::<char>::empty());
        assert(dec_val(s.drop_last()) == 0);
        assert(dec_val(s) == 0 * 10 + digit_val(digit_char(n)));
    } else {
        lemma_dec_rep_val(n / 10);
        lemma_fundamental_div_mod(n as int, 10);
        let s = dec_rep(n);
        let prefix = dec_rep(n / 10);
        assert(s == prefix.push(digit_char(n % 10)));
        assert(s.drop_last() =~= prefix);
        assert(s.last() == digit_char(n % 10));
        assert(digit_val(digit_char(n % 10)) == n % 10);
        assert(forall|i: int|
            0 <= i < s.len() ==> is_digit(#[trigger] s[i]) == if i < prefix.len() {
                is_digit(prefix[i])
            } else {
                is_digit(digit_char(n % 10))
            });
    }
}

/// Rendering then parsing an unsigned value gives it back.
pub proof fn lemma_parse_u64_roundtrip(n: u64)
    ensures
        spec_parse_u64(dec_rep(n as nat)) == Some(n),
{
    lemma_dec_rep_val(n as nat);
}

/// Rendering then parsing a signed value gives it back.
pub proof fn lemma_parse_i32_roundtrip(p: i32)
    ensures
        spec_parse_i32(i32_dec_rep(p)) == Some(p),
{
    if p < 0 {
        let m = (-(p as int)) as nat;
        lemma_dec_rep_val(m);
        let s = i32_dec_rep(p);
        let t = s.subrange(1, s.len() as int);
        assert(t =~= dec_rep(m));
        assert(s[0] == '-');
        assert(s.len() >= 2);
    } else {
        lemma_dec_rep_val(p as nat);
    }
}

/// A digit sequence's value only grows as the sequence is extended.
pub proof fn lemma_dec_val_prefix_le(s: Seq<char>, i: int)
    requires
        0 <= i <= s.len(),
    ensures
        dec_val(s.subrange(0, i)) <= dec_val(s),
    decreases s.len() - i,
{
    if i < s.len() {
        let a = s.subrange(0, i);
        let b = s.subrange(0, i + 1);
        assert(b.drop_last() =~= a);
        assert(dec_val(b) == dec_val(a) * 10 + digit_val(b.last()));
        lemma_dec_val_prefix_le(s, i + 1);
        assert(s.subrange(0, s.len() as int) =~= s);
    } else {
        assert(s.subrange(0, i) =~= s);
    }
}

fn digit_string(d: u64) -> (s: &'static str)
    requires
        d < 10,
    ensures
        s@ =~= seq![digit_char(d as nat)],
{
    proof {
        reveal_strlit("0");
        reveal_strlit("1");
        reveal_strlit("2");
        reveal_strlit("3");
        reveal_strlit("4");
        reveal_strlit("5");
        reveal_strlit("6");
        reveal_strlit("7");
        reveal_strlit("8");
        reveal_strlit("9");
    }
    if d == 0 {
        "0"
    } else if d == 1 {
        "1"
    } else if d == 2 {
        "2"
    } else if d == 3 {
        "3"
    } else if d == 4 {
        "4"
    } else if d == 5 {
        "5"
    } else if d == 6 {
        "6"
    } else if d == 7 {
        "7"
    } else if d == 8 {
        "8"
    } else {
        "9"
    }
}

/// Renders an unsigned value in decimal.
pub fn u64_to_dec(n: u64) -> (s: String)
    ensures
        s@ == dec_rep(n as nat),
    decreases n,
{
    if n < 10 {
        digit_string(n).to_owned()
    } else {
        let mut s = u64_to_dec(n / 10);
        s.append(digit_string(n % 10));
        proof {
            assert(s@ =~= dec_rep((n / 10) as nat).push(digit_char((n % 10) as nat)));
        }
        s
    }
}

/// Renders a signed value in decimal, with a minus sign when negative.
pub fn i32_to_dec(p: i32) -> (s: String)
    ensures
        s@ == i32_dec_rep(p),
{
    if p < 0 {
        let m: u64 = (-(p as i64)) as u64;
        let mut s = String::from_str("-");
        let digits = u64_to_dec(m);
        s.append(digits.as_str());
        proof {
            reveal_strlit("-");
            assert(s@ =~= seq!['-'] + dec_rep((-(p as int)) as nat));
        }
        s
    } else {
        u64_to_dec(p as u64)
    }
}

fn digit_of_char(c: char) -> (r: Option<u64>)
    ensures
        match r {
            Some(d) => is_digit(c) && d == digit_val(c) && d < 10,
            None => !is_digit(c),
        },
{
    match c {
        '0' => Some(0),
        '1' => Some(1),
        '2' => Some(2),
        '3' => Some(3),
        '4' => Some(4),
        '5' => Some(5),
        '6' => Some(6),
        '7' => Some(7),
        '8' => Some(8),
        '9' => Some(9),
        _ => None,
    }
}

/// Parses a nonempty all-digit text as a `u64`; rejects anything else,
/// including values past `u64::MAX`.
pub fn parse_u64_str(s: &str) -> (r: Option<u64>)
    ensures
        r == spec_parse_u64(s@),
{
    let len = s.unicode_len();
    if len == 0 {
        return None;
    }
    let mut i: usize = 0;
    let mut acc: u64 = 0;
    while i < len
        invariant
            0 < len == s@.len() <= usize::MAX,
            0 <= i <= len,
            all_digits(s@.subrange(0, i as int)),
            acc == dec_val(s@.subrange(0, i as int)),
        decreases len - i,
    {
        let c = s.get_char(i);
        let ghost prefix = s@.subrange(0, i as int);
        let ghost extended = s@.subrange(0, i as int + 1);
        proof {
            assert(extended.drop_last() =~= prefix);
            assert(extended.last() == s@[i as int]);
        }
        match digit_of_char(c) {
            None => {
                proof {
                    assert(!is_digit(s@[i as int]));
                }
                return None;
            },
            Some(d) => {
                let next = match acc.checked_mul(10) {
                    Some(x) => x.checked_add(d),
                    None => None,
                };
                match next {
                    Some(v) => {
                        acc = v;
                    },
                    None => {
                        proof {
                            assert(dec_val(extended) > u64::MAX);
                            if all_digits(s@) {
                                lemma_dec_val_prefix_le(s@, i as int + 1);
                            }
                        }
                        return None;
                    },
                }
            },
        }
        i = i + 1;
    }
    proof {
        assert(s@.subrange(0, len as int) =~= s@);
    }
    Some(acc)
}

/// Parses an optionally minus-signed all-digit text as an `i32`.
pub fn parse_i32_str(s: &str) -> (r: Option<i32>)
    ensures
        r == spec_parse_i32(s@),
{
    let len = s.unicode_len();
    if len >= 2 && s.get_char(0) == '-' {
        let t = s.substring_char(1, len);
        let ghost tv = s@.subrange(1, s@.len() as int);
        match parse_u64_str(t) {
            Some(n) => {
                if n <= 0x8000_0000 {
                    proof {
                        assert(dec_val(tv) == n);
                    }
                    Some((-(n as i64)) as i32)
                } else {
                    None
                }
            },
            None => {
                proof {
                    if all_digits(tv) && dec_val(tv) <= 0x8000_0000 {
                        assert(dec_val(tv) <= u64::MAX);
                        assert(spec_parse_u64(tv) is Some);
                    }
                }
                None
            },
        }
    } else {
        match parse_u64_str(s) {
            Some(n) => {
                if n <= 0x7fff_ffff {
                    Some(n as i32)
                } else {
                    None
                }
            },
            None => None,
        }
    }
}

} // verus!
