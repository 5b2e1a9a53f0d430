//! The parser for the host's login-user listing: the text a `query user`
//! style command prints. Carriage returns are dropped, every run of two or
//! more spaces becomes one tab, the first two lines (the code page message
//! and the column header) are skipped, and each remaining line with at least
//! six tab-separated fields yields one session user.

use vstd::prelude::*;
use crate::app_data::{SessionUser, SessionUserView};
use crate::text::{
    chars_of, dec_value, is_numeral_below, parse_u32, split_by, split_char, string_from_chars,
    uint_digits, views_of,
};

verus! {

/// The text with every carriage return removed.
pub open spec fn without_cr(s: Seq<char>) -> Seq<char>
    decreases s.len(),
{
    if s.len() == 0 {
        Seq::empty()
    } else if s.last() == '\r' {
        without_cr(s.drop_last())
    } else {
        without_cr(s.drop_last()).push(s.last())
    }
}

/// What remains of a run of `pending` spaces once its end is reached:
/// nothing, the single space itself, or one tab for a run of two or more.
pub open spec fn flush_spaces(pending: nat) -> Seq<char> {
    if pending == 0 {
        Seq::empty()
    } else if pending == 1 {
        seq![' ']
    } else {
        seq!['\t']
    }
}

/// Walks `s` with `pending` spaces read and not yet settled.
pub open spec fn collapse_rec(s: Seq<char>, pending: nat) -> Seq<char>
    decreases s.len(),
{
    if s.len() == 0 {
        flush_spaces(pending)
    } else if s.first() == ' ' {
        collapse_rec(s.drop_first(), pending + 1)
    } else {
        flush_spaces(pending) + seq![s.first()] + collapse_rec(s.drop_first(), 0)
    }
}

/// The text with every maximal run of two or more spaces replaced by one
/// tab; single spaces and everything else are kept.
pub open spec fn tabbed(s: Seq<char>) -> Seq<char> {
    collapse_rec(s, 0)
}

/// Relies on regex's `Regex::new` and `Regex::replace_all` with the pattern
/// `  +`: every non-overlapping leftmost match — with the greedy repetition,
/// every maximal run of two or more spaces — is replaced by one tab, and the
/// rest of the text is kept.
#[verifier::external_body]
fn collapse_spaces(text: &str) -> (r: String)
    ensures
        r@ == tabbed(text@),
{
    let re = regex::Regex::new(r"  +").expect("regex format err");
    re.replace_all(text, "\t").into_owned()
}

/// The id field's value: the `u32` its text parses to, zero when it does
/// not parse.
pub open spec fn id_of(field: Seq<char>) -> u32 {
    if is_numeral_below(field, u32::MAX as int) {
        dec_value(uint_digits(field)) as u32
    } else {
        0u32
    }
}

/// What one listing line yields: nothing without at least six tab-separated
/// fields, else the session user its first six fields describe.
pub open spec fn user_of_line(line: Seq<char>) -> Option<SessionUserView> {
    let f = split_by(line, '\t');
    if f.len() < 6 {
        Option::None
    } else {
        Option::Some((f[0], f[1], id_of(f[2]), f[3], f[4], f[5]))
    }
}

/// The users a list of lines yields, in line order.
pub open spec fn users_of(lines: Seq<Seq<char>>) -> Seq<SessionUserView>
    decreases lines.len(),
{
    if lines.len() == 0 {
        Seq::empty()
    } else {
        let rest = users_of(lines.drop_last());
        match user_of_line(lines.last()) {
            Option::Some(u) => rest.push(u),
            Option::None => rest,
        }
    }
}

/// The session users the whole listing describes.
pub open spec fn parsed_users(text: Seq<char>) -> Seq<SessionUserView> {
    let lines = split_by(tabbed(without_cr(text)), '\n');
    if lines.len() <= 2 {
        Seq::empty()
    } else {
        users_of(lines.skip(2))
    }
}

/// Parses the login-user listing.
pub fn parse_query_user_output(text: &str) -> (users: Vec<SessionUser>)
    ensures
        users@.map_values(|u: SessionUser| u@) == parsed_users(text@),
{
    let raw = chars_of(text);
    let mut cleaned: Vec<char> = Vec::new();
    let mut i: usize = 0;
    while i < raw.len()
        invariant
            i <= raw.len(),
            raw@ == text@,
            cleaned@ == without_cr(raw@.take(i as int)),
        decreases raw.len() - i,
    {
        proof {
            assert(raw@.take(i + 1).drop_last() =~= raw@.take(i as int));
            assert(raw@.take(i + 1).last() == raw@[i as int]);
        }
        if raw[i] != '\r' {
            cleaned.push(raw[i]);
        }
        i = i + 1;
    }
    proof {
        assert(raw@.take(raw@.len() as int) =~= raw@);
    }
    let cleaned_text = string_from_chars(&cleaned);
    let tsv = collapse_spaces(cleaned_text.as_str());
    let tsv_chars = chars_of(tsv.as_str());
    let lines = split_char(&tsv_chars, '\n');
    let ghost lv = views_of(lines@);
    let mut users: Vec<SessionUser> = Vec::new();
    if lines.len() <= 2 {
        proof {
            assert(users@.map_values(|u: SessionUser| u@) =~= parsed_users(text@));
        }
        return users;
    }
    let mut k: usize = 2;
    proof {
        assert(lv.skip(2).take(0) =~= Seq::<Seq<char>>::empty());
    }
    while k < lines.len()
        invariant
            2 <= k <= lines.len(),
            lines.len() > 2,
            lv == views_of(lines@),
            lv == split_by(tabbed(without_cr(text@)), '\n'),
            users@.map_values(|u: SessionUser| u@) == users_of(lv.skip(2).take(k - 2)),
        decreases lines.len() - k,
    {
        proof {
            assert(lv.skip(2).take(k - 2 + 1).drop_last() =~= lv.skip(2).take(k - 2));
            assert(lv.skip(2).take(k - 2 + 1).last() == lv[k as int]);
            assert(lv[k as int] == lines@[k as int]@);
        }
        let fields = split_char(&lines[k], '\t');
        let ghost fv = views_of(fields@);
        if fields.len() >= 6 {
            let id = match parse_u32(&fields[2]) {
                Option::Some(v) => v,
                Option::None => 0,
            };
            let ghost before = users@;
            users.push(
                SessionUser {
                    user_name: string_from_chars(&fields[0]),
                    session_name: string_from_chars(&fields[1]),
                    id,
                    state: string_from_chars(&fields[3]),
                    idle_time: string_from_chars(&fields[4]),
                    login_time: string_from_chars(&fields[5]),
                },
            );
            proof {
                assert(fv[0] == fields@[0]@ && fv[1] == fields@[1]@ && fv[2] == fields@[2]@
                    && fv[3] == fields@[3]@ && fv[4] == fields@[4]@ && fv[5] == fields@[5]@);
                assert(user_of_line(lv[k as int]) == Option::Some(
                    (fv[0], fv[1], id_of(fv[2]), fv[3], fv[4], fv[5]),
                ));
                assert(users@.map_values(|u: SessionUser| u@) =~= before.map_values(
                    |u: SessionUser| u@,
                ).push((fv[0], fv[1], id_of(fv[2]), fv[3], fv[4], fv[5])));
            }
        }
        k = k + 1;
    }
    proof {
        assert(lv.skip(2).take(lines@.len() - 2) =~= lv.skip(2));
    }
    users
}

} // verus!
