//! Text helpers shared by the configuration loader and the listing parser:
//! moving between strings and character vectors, splitting on a separator,
//! and parsing unsigned decimal numerals exactly as the host's own integer
//! parsing does (an optional leading `+`, then one or more decimal digits,
//! rejecting anything else and rejecting overflow).

use vstd::prelude::*;

verus! {

/// Relies on `str::chars`: the vector holds exactly the string's characters,
/// in order.
#[verifier::external_body]
pub(crate) fn chars_of(s: &str) -> (r: Vec<char>)
    ensures
        r@ == s@,
{
    s.chars().collect()
}

/// Relies on `String::from_iter` over characters: the string holds exactly
/// the given characters, in order.
#[verifier::external_body]
pub(crate) fn string_from_chars(cs: &Vec<char>) -> (r: String)
    ensures
        r@ == cs@,
{
    cs.iter().collect()
}

/// The views of a sequence of character vectors.
pub open spec fn views_of(v: Seq<Vec<char>>) -> Seq<Seq<char>> {
    v.map_values(|f: Vec<char>| f@)
}

pub open spec fn split_rec(s: Seq<char>, sep: char, cur: Seq<char>) -> Seq<Seq<char>>
    decreases s.len(),
{
    if s.len() == 0 {
        seq![cur]
    } else if s.first() == sep {
        seq![cur] + split_rec(s.drop_first(), sep, Seq::empty())
    } else {
        split_rec(s.drop_first(), sep, cur.push(s.first()))
    }
}

/// The fields of `s` between occurrences of the separator, in order; `n`
/// separators yield `n + 1` fields, so even an empty `s` yields one empty
/// field.
pub open spec fn split_by(s: Seq<char>, sep: char) -> Seq<Seq<char>> {
    split_rec(s, sep, Seq::empty())
}

/// Splits `s` at every occurrence of `sep`.
pub fn split_char(s: &Vec<char>, sep: char) -> (fields: Vec<Vec<char>>)
    ensures
        views_of(fields@) == split_by(s@, sep),
{
    let mut fields: Vec<Vec<char>> = Vec::new();
    let mut cur: Vec<char> = Vec::new();
    let mut i: usize = 0;
    proof {
        assert(s@.skip(0) =~= s@);
    }
    while i < s.len()
        invariant
            i <= s.len(),
            views_of(fields@) + split_rec(s@.skip(i as int), sep, cur@) =~= split_by(s@, sep),
        decreases s.len() - i,
    {
        proof {
            assert(s@.skip(i as int).drop_first() =~= s@.skip(i + 1));
            assert(s@.skip(i as int).first() == s@[i as int]);
        }
        if s[i] == sep {
            let ghost before = fields@;
            let ghost finished = cur@;
            fields.push(cur);
            cur = Vec::new();
            proof {
                assert(views_of(fields@) =~= views_of(before).push(finished));
            }
        } else {
            cur.push(s[i]);
        }
        i = i + 1;
    }
    proof {
        assert(s@.skip(s@.len() as int) =~= Seq::<char>::empty());
    }
    let ghost before = fields@;
    let ghost finished = cur@;
    fields.push(cur);
    proof {
        assert(views_of(fields@) =~= views_of(before).push(finished));
    }
    fields
}

/// Whether `c` is a decimal digit.
pub open spec fn is_dec_digit(c: char) -> bool {
    48 <= c as u32 && c as u32 <= 57
}

/// The numeral with an optional single leading `+` stripped.
pub open spec fn uint_digits(s: Seq<char>) -> Seq<char> {
    if s.len() > 0 && s[0] == '+' {
        s.drop_first()
    } else {
        s
    }
}

/// Whether every character of `s` is a decimal digit.
pub open spec fn all_digits(s: Seq<char>) -> bool {
    forall|i: int| 0 <= i < s.len() ==> is_dec_digit(#[trigger] s[i])
}

/// The value of the decimal digit string `s`.
pub open spec fn dec_value(s: Seq<char>) -> int
    decreases s.len(),
{
    if s.len() == 0 {
        0
    } else {
        dec_value(s.drop_last()) * 10 + (s.last() as u32 - 48)
    }
}

/// Whether `s` is a decimal numeral whose value fits below `bound`,
/// written as the host's unsigned integer parsing accepts it.
pub open spec fn is_numeral_below(s: Seq<char>, bound: int) -> bool {
    let d = uint_digits(s);
    d.len() > 0 && all_digits(d) && dec_value(d) <= bound
}

proof fn lemma_dec_value_nonneg(d: Seq<char>)
    requires
        all_digits(d),
    ensures
        dec_value(d) >= 0,
    decreases d.len(),
{
    if d.len() > 0 {
        assert(all_digits(d.drop_last())) by {
            assert(forall|i: int|
                0 <= i < d.len() - 1 ==> #[trigger] d.drop_last()[i] == d[i]);
        }
        lemma_dec_value_nonneg(d.drop_last());
    }
}

proof fn lemma_dec_value_monotone(d: Seq<char>, j: int)
    requires
        all_digits(d),
        0 <= j <= d.len(),
    ensures
        dec_value(d.take(j)) <= dec_value(d),
    decreases d.len() - j,
{
    if j == d.len() {
        assert(d.take(j) =~= d);
    } else {
        assert(all_digits(d.take(j))) by {
            assert(forall|i: int| 0 <= i < j ==> #[trigger] d.take(j)[i] == d[i]);
        }
        lemma_dec_value_nonneg(d.take(j));
        assert(d.take(j + 1).drop_last() =~= d.take(j));
        assert(dec_value(d.take(j + 1)) == dec_value(d.take(j)) * 10 + (d[j] as u32 - 48));
        lemma_dec_value_monotone(d, j + 1);
    }
}

/// Parses a `u64` decimal numeral: `Some` exactly on an optional leading
/// `+` followed by one or more digits whose value fits, and then the value.
pub fn parse_u64(s: &Vec<char>) -> (r: Option<u64>)
    ensures
        r is Some <==> is_numeral_below(s@, u64::MAX as int),
        r is Some ==> r == Some(dec_value(uint_digits(s@)) as u64) && 0 <= dec_value(
            uint_digits(s@),
        ) <= u64::MAX as int,
{
    let ghost d = uint_digits(s@);
    let start: usize = if s.len() > 0 && s[0] == '+' {
        1
    } else {
        0
    };
    proof {
        assert(d =~= s@.skip(start as int));
    }
    if s.len() == start {
        return None;
    }
    let mut acc: u64 = 0;
    let mut i: usize = start;
    proof {
        assert(d.take(0) =~= Seq::<char>::empty());
    }
    while i < s.len()
        invariant
            start <= i <= s.len(),
            s.len() > start,
            d == uint_digits(s@),
            d =~= s@.skip(start as int),
            all_digits(d.take(i - start)),
            acc == dec_value(d.take(i - start)),
        decreases s.len() - i,
    {
        let c = s[i];
        let code = c as u32;
        proof {
            assert(d[i - start] == s@[i as int]);
            assert(d.take(i - start + 1).drop_last() =~= d.take(i - start));
            assert(d.take(i - start + 1).last() == d[i - start]);
        }
        if code < 48 || code > 57 {
            proof {
                assert(!is_dec_digit(d[i - start]));
            }
            return None;
        }
        let digit = (code - 48) as u64;
        let shifted = match acc.checked_mul(10) {
            Some(v) => v,
            None => {
                proof {
                    lemma_overflow_means_no_numeral(d, i - start, acc as int, digit as int);
                }
                return None;
            },
        };
        acc = match shifted.checked_add(digit) {
            Some(v) => v,
            None => {
                proof {
                    lemma_overflow_means_no_numeral(d, i - start, acc as int, digit as int);
                }
                return None;
            },
        };
        i = i + 1;
    }
    proof {
        assert(d.take(d.len() as int) =~= d);
    }
    Some(acc)
}

/// If the digits up to position `j` of `d` together with the next digit
/// already exceed the range, no in-range numeral can have `d` as digits.
proof fn lemma_overflow_means_no_numeral(d: Seq<char>, j: int, acc: int, digit: int)
    requires
        0 <= j < d.len(),
        all_digits(d.take(j)),
        acc == dec_value(d.take(j)),
        is_dec_digit(d[j]),
        digit == d[j] as u32 - 48,
        acc * 10 + digit > u64::MAX as int,
    ensures
        !(all_digits(d) && dec_value(d) <= u64::MAX as int),
{
    if all_digits(d) {
        assert(d.take(j + 1).drop_last() =~= d.take(j));
        assert(dec_value(d.take(j + 1)) == acc * 10 + digit);
        lemma_dec_value_monotone(d, j + 1);
    }
}

/// Parses a `u32` decimal numeral the same way.
pub fn parse_u32(s: &Vec<char>) -> (r: Option<u32>)
    ensures
        r is Some <==> is_numeral_below(s@, u32::MAX as int),
        r is Some ==> r == Some(dec_value(uint_digits(s@)) as u32) && 0 <= dec_value(
            uint_digits(s@),
        ) <= u32::MAX as int,
{
    match parse_u64(s) {
        Some(v) => {
            proof {
                lemma_dec_value_nonneg(uint_digits(s@));
            }
            if v <= 0xffff_ffff {
                Some(v as u32)
            } else {
                None
            }
        },
        None => None,
    }
}

/// Parses a `u16` decimal numeral the same way.
pub fn parse_u16(s: &Vec<char>) -> (r: Option<u16>)
    ensures
        r is Some <==> is_numeral_below(s@, u16::MAX as int),
        r is Some ==> r == Some(dec_value(uint_digits(s@)) as u16) && 0 <= dec_value(
            uint_digits(s@),
        ) <= u16::MAX as int,
{
    match parse_u64(s) {
        Some(v) => {
            proof {
                lemma_dec_value_nonneg(uint_digits(s@));
            }
            if v <= 0xffff {
                Some(v as u16)
            } else {
                None
            }
        },
        None => None,
    }
}

} // verus!
