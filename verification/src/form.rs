//! The eight-token groups that form fields flatten into: joining the fields
//! of one entry into a space-separated string, splitting and parsing such a
//! string back, and the proof that parsing recovers what joining wrote.

use vstd::prelude::*;

use crate::num::{all_digits, dec_digits, dec_val, digit_val, is_digit, u8_to_string};

verus! {

/// Whether a sequence of characters can stand as one token of a
/// space-separated group: it contains no space.
pub open spec fn is_token(s: Seq<char>) -> bool {
    forall|i: int| 0 <= i < s.len() ==> #[trigger] s[i] != ' '
}

/// The tokens of a string split on every single space.  Splitting the empty
/// string gives one empty token, and each space separates two tokens, so
/// the result holds one token more than the string holds spaces.
pub open spec fn split_sp(s: Seq<char>) -> Seq<Seq<char>>
    decreases s.len(),
{
    if s.len() == 0 {
        seq![Seq::<char>::empty()]
    } else if s[0] == ' ' {
        seq![Seq::<char>::empty()] + split_sp(s.drop_first())
    } else {
        let rest = split_sp(s.drop_first());
        seq![seq![s[0]] + rest[0]] + rest.drop_first()
    }
}

/// The tokens of a group joined with single spaces.
pub open spec fn join_sp(ts: Seq<Seq<char>>) -> Seq<char>
    decreases ts.len(),
{
    if ts.len() <= 1 {
        if ts.len() == 0 {
            Seq::<char>::empty()
        } else {
            ts[0]
        }
    } else {
        ts[0] + seq![' '] + join_sp(ts.drop_first())
    }
}

/// Splitting a space-free string gives that string as the one token.
pub proof fn lemma_split_token(t: Seq<char>)
    requires
        is_token(t),
    ensures
        split_sp(t) == seq![t],
    decreases t.len(),
{
    if t.len() == 0 {
        assert(split_sp(t) =~~= seq![t]);
    } else {
        assert(t[0] != ' ');
        assert(is_token(t.drop_first())) by {
            assert(forall|i: int|
                0 <= i < t.drop_first().len() ==> #[trigger] t.drop_first()[i] == t[i + 1]);
        }
        lemma_split_token(t.drop_first());
        assert(split_sp(t) =~~= seq![t]);
    }
}

/// Splitting takes a leading space-free token followed by a space off the
/// front, and splits the rest on its own.
pub proof fn lemma_split_step(t: Seq<char>, r: Seq<char>)
    requires
        is_token(t),
    ensures
        split_sp(t + seq![' '] + r) == seq![t] + split_sp(r),
    decreases t.len(),
{
    let s = t + seq![' '] + r;
    if t.len() == 0 {
        assert(s[0] == ' ');
        assert(s.drop_first() =~~= r);
        assert(split_sp(s) =~~= seq![t] + split_sp(r));
    } else {
        assert(s[0] == t[0]);
        assert(t[0] != ' ');
        assert(is_token(t.drop_first())) by {
            assert(forall|i: int|
                0 <= i < t.drop_first().len() ==> #[trigger] t.drop_first()[i] == t[i + 1]);
        }
        assert(s.drop_first() =~~= t.drop_first() + seq![' '] + r);
        lemma_split_step(t.drop_first(), r);
        let rest = split_sp(s.drop_first());
        assert(rest == seq![t.drop_first()] + split_sp(r));
        assert(rest[0] == t.drop_first());
        assert(rest.drop_first() =~~= split_sp(r));
        assert(seq![s[0]] + rest[0] =~~= t);
        assert(split_sp(s) =~~= seq![t] + split_sp(r));
    }
}

/// Splitting inverts joining: a nonempty group of space-free tokens, joined
/// with spaces, splits back into exactly those tokens.
pub proof fn lemma_split_join(ts: Seq<Seq<char>>)
    requires
        ts.len() >= 1,
        forall|i: int| 0 <= i < ts.len() ==> is_token(#[trigger] ts[i]),
    ensures
        split_sp(join_sp(ts)) == ts,
    decreases ts.len(),
{
    if ts.len() == 1 {
        lemma_split_token(ts[0]);
        assert(split_sp(join_sp(ts)) =~~= ts);
    } else {
        let rest = ts.drop_first();
        assert(forall|i: int| 0 <= i < rest.len() ==> is_token(#[trigger] rest[i])) by {
            assert(forall|i: int| 0 <= i < rest.len() ==> #[trigger] rest[i] == ts[i + 1]);
        }
        lemma_split_join(rest);
        lemma_split_step(ts[0], join_sp(rest));
        assert(split_sp(join_sp(ts)) =~~= ts);
    }
}

/// The eight tokens of one form field entry, in positional order: label,
/// label row, label column, initial value, value row, value column, field
/// width, input limit.
pub open spec fn entry_tokens(e: (String, u8, u8, String, u8, u8, u8, u8)) -> Seq<Seq<char>> {
    seq![
        e.0@,
        dec_digits(e.1 as nat),
        dec_digits(e.2 as nat),
        e.3@,
        dec_digits(e.4 as nat),
        dec_digits(e.5 as nat),
        dec_digits(e.6 as nat),
        dec_digits(e.7 as nat),
    ]
}

/// One form field entry flattened into its eight space-joined tokens.
pub open spec fn entry_text(e: (String, u8, u8, String, u8, u8, u8, u8)) -> Seq<char> {
    join_sp(entry_tokens(e))
}

/// The number a token of digit characters stands for, where it fits the
/// type; anything else, including the empty token, parses to nothing.
pub open spec fn parse_u8_spec(s: Seq<char>) -> Option<u8> {
    if s.len() > 0 && all_digits(s) && dec_val(s) < 256 {
        Some(dec_val(s) as u8)
    } else {
        None
    }
}

/// The fields a flattened eight-token group stands for: exactly eight
/// space-separated tokens, of which the six positional numbers must each
/// parse; anything else parses to nothing.
pub open spec fn parse_entry_spec(s: Seq<char>) -> Option<(Seq<char>, u8, u8, Seq<char>, u8, u8, u8, u8)> {
    let ts = split_sp(s);
    if ts.len() == 8 {
        match (
            parse_u8_spec(ts[1]),
            parse_u8_spec(ts[2]),
            parse_u8_spec(ts[4]),
            parse_u8_spec(ts[5]),
            parse_u8_spec(ts[6]),
            parse_u8_spec(ts[7]),
        ) {
            (Some(lr), Some(lc), Some(vr), Some(vc), Some(w), Some(l)) => Some(
                (ts[0], lr, lc, ts[3], vr, vc, w, l),
            ),
            _ => None,
        }
    } else {
        None
    }
}

/// A canonical decimal rendering is a valid token: digits are not spaces.
pub proof fn lemma_digits_token(n: nat)
    ensures
        is_token(dec_digits(n)),
{
    crate::num::lemma_dec_digits_all_digits(n);
    assert(forall|i: int|
        0 <= i < dec_digits(n).len() ==> is_digit(#[trigger] dec_digits(n)[i]));
}

/// A canonical decimal rendering of a value that fits the type parses back
/// to that value.
pub proof fn lemma_parse_u8_digits(n: u8)
    ensures
        parse_u8_spec(dec_digits(n as nat)) == Some(n),
{
    crate::num::lemma_dec_digits_all_digits(n as nat);
    crate::num::lemma_dec_val_digits(n as nat);
}

/// Parsing recovers what serialization wrote: a form field entry whose
/// label and initial value are free of spaces, flattened into its
/// eight-token group, parses back to exactly its fields.
pub proof fn lemma_entry_round_trip(e: (String, u8, u8, String, u8, u8, u8, u8))
    requires
        is_token(e.0@),
        is_token(e.3@),
    ensures
        parse_entry_spec(entry_text(e)) == Some(
            (e.0@, e.1, e.2, e.3@, e.4, e.5, e.6, e.7),
        ),
{
    let ts = entry_tokens(e);
    assert(forall|i: int| 0 <= i < ts.len() ==> is_token(#[trigger] ts[i])) by {
        lemma_digits_token(e.1 as nat);
        lemma_digits_token(e.2 as nat);
        lemma_digits_token(e.4 as nat);
        lemma_digits_token(e.5 as nat);
        lemma_digits_token(e.6 as nat);
        lemma_digits_token(e.7 as nat);
    }
    lemma_split_join(ts);
    lemma_parse_u8_digits(e.1);
    lemma_parse_u8_digits(e.2);
    lemma_parse_u8_digits(e.4);
    lemma_parse_u8_digits(e.5);
    lemma_parse_u8_digits(e.6);
    lemma_parse_u8_digits(e.7);
}

/// A group of eight tokens joins into the eight interleaved with single
/// spaces.
proof fn lemma_join8(ts: Seq<Seq<char>>)
    requires
        ts.len() == 8,
    ensures
        join_sp(ts) == ts[0] + seq![' '] + ts[1] + seq![' '] + ts[2] + seq![' '] + ts[3]
            + seq![' '] + ts[4] + seq![' '] + ts[5] + seq![' '] + ts[6] + seq![' '] + ts[7],
{
    let t1 = ts.drop_first();
    let t2 = t1.drop_first();
    let t3 = t2.drop_first();
    let t4 = t3.drop_first();
    let t5 = t4.drop_first();
    let t6 = t5.drop_first();
    let t7 = t6.drop_first();
    assert(join_sp(t7) == t7[0]);
    assert(join_sp(t6) == t6[0] + seq![' '] + join_sp(t7));
    assert(join_sp(t5) == t5[0] + seq![' '] + join_sp(t6));
    assert(join_sp(t4) == t4[0] + seq![' '] + join_sp(t5));
    assert(join_sp(t3) == t3[0] + seq![' '] + join_sp(t4));
    assert(join_sp(t2) == t2[0] + seq![' '] + join_sp(t3));
    assert(join_sp(t1) == t1[0] + seq![' '] + join_sp(t2));
    assert(join_sp(ts) == ts[0] + seq![' '] + join_sp(t1));
    assert(t1[0] == ts[1] && t2[0] == ts[2] && t3[0] == ts[3] && t4[0] == ts[4] && t5[0] == ts[5]
        && t6[0] == ts[6] && t7[0] == ts[7]);
    assert(join_sp(ts) =~= ts[0] + seq![' '] + ts[1] + seq![' '] + ts[2] + seq![' '] + ts[3]
        + seq![' '] + ts[4] + seq![' '] + ts[5] + seq![' '] + ts[6] + seq![' '] + ts[7]);
}

/// Flattens one form field entry into its eight space-joined tokens.
pub fn entry_string(e: &(String, u8, u8, String, u8, u8, u8, u8)) -> (r: String)
    ensures
        r@ == entry_text(*e),
{
    let mut s = e.0.clone();
    s.append(" ");
    s.append(u8_to_string(e.1).as_str());
    s.append(" ");
    s.append(u8_to_string(e.2).as_str());
    s.append(" ");
    s.append(e.3.as_str());
    s.append(" ");
    s.append(u8_to_string(e.4).as_str());
    s.append(" ");
    s.append(u8_to_string(e.5).as_str());
    s.append(" ");
    s.append(u8_to_string(e.6).as_str());
    s.append(" ");
    s.append(u8_to_string(e.7).as_str());
    proof {
        reveal_strlit(" ");
        assert(" "@ =~= seq![' ']);
        lemma_join8(entry_tokens(*e));
        assert(s@ =~= entry_text(*e));
    }
    s
}

/// The flattened strings of a whole list of form field entries, in order.
pub open spec fn entries_text(l: Seq<(String, u8, u8, String, u8, u8, u8, u8)>) -> Seq<Seq<char>> {
    Seq::new(l.len(), |i: int| entry_text(l[i]))
}

/// Flattens a list of form field entries into one string per entry, order
/// preserved.
pub fn flatten_entries(list: &Vec<(String, u8, u8, String, u8, u8, u8, u8)>) -> (r: Vec<String>)
    ensures
        r.deep_view() == entries_text(list@),
{
    let mut flat: Vec<String> = Vec::new();
    let mut i: usize = 0;
    while i < list.len()
        invariant
            i <= list@.len(),
            flat@.len() == i,
            flat.deep_view() == entries_text(list@).subrange(0, i as int),
        decreases list@.len() - i,
    {
        let entry = entry_string(&list[i]);
        flat.push(entry);
        i = i + 1;
        proof {
            assert(flat.deep_view() =~~= entries_text(list@).subrange(0, i as int));
        }
    }
    proof {
        assert(flat.deep_view() =~~= entries_text(list@));
    }
    flat
}

/// Splits a string on every single space.
pub fn split_spaces(s: &str) -> (ts: Vec<String>)
    ensures
        ts.deep_view() == split_sp(s@),
{
    let n = s.unicode_len();
    let mut out: Vec<String> = Vec::new();
    let mut start: usize = 0;
    let mut i: usize = 0;
    proof {
        assert(s@.skip(0) =~= s@);
        assert(out.deep_view() + split_sp(s@) =~~= split_sp(s@));
    }
    while i < n
        invariant
            n == s@.len(),
            start <= i <= n,
            is_token(s@.subrange(start as int, i as int)),
            split_sp(s@) == out.deep_view() + split_sp(s@.skip(start as int)),
        decreases n - i,
    {
        let c = s.get_char(i);
        if c == ' ' {
            let tok = s.substring_char(start, i).to_owned();
            let ghost pre = out.deep_view();
            out.push(tok);
            proof {
                let t = s@.subrange(start as int, i as int);
                let r = s@.skip(i as int + 1);
                assert(s@.skip(start as int) =~= t + seq![' '] + r);
                lemma_split_step(t, r);
                assert(out.deep_view() =~~= pre + seq![t]);
                assert(out.deep_view() + split_sp(r) =~~= pre + (seq![t] + split_sp(r)));
            }
            start = i + 1;
            proof {
                assert(is_token(s@.subrange(start as int, start as int)));
            }
        } else {
            proof {
                let t = s@.subrange(start as int, i as int + 1);
                assert(t =~= s@.subrange(start as int, i as int).push(s@[i as int]));
                assert(is_token(t));
            }
        }
        i = i + 1;
    }
    let tok = s.substring_char(start, n).to_owned();
    let ghost pre = out.deep_view();
    out.push(tok);
    proof {
        let t = s@.subrange(start as int, n as int);
        assert(s@.skip(start as int) =~= t);
        lemma_split_token(t);
        assert(out.deep_view() =~~= pre + seq![t]);
        assert(out.deep_view() =~~= split_sp(s@));
    }
    out
}

/// Parses a token as a decimal number that fits the type: digits only, and
/// a value of at most 255.
pub fn parse_u8_token(t: &str) -> (r: Option<u8>)
    ensures
        r == parse_u8_spec(t@),
{
    let n = t.unicode_len();
    if n == 0 {
        return None;
    }
    let mut val: u32 = 0;
    let mut i: usize = 0;
    while i < n
        invariant
            n == t@.len(),
            i <= n,
            all_digits(t@.subrange(0, i as int)),
            val == dec_val(t@.subrange(0, i as int)),
            val <= 255,
        decreases n - i,
    {
        let c = t.get_char(i);
        let d: u32 = if c == '0' {
            0
        } else if c == '1' {
            1
        } else if c == '2' {
            2
        } else if c == '3' {
            3
        } else if c == '4' {
            4
        } else if c == '5' {
            5
        } else if c == '6' {
            6
        } else if c == '7' {
            7
        } else if c == '8' {
            8
        } else if c == '9' {
            9
        } else {
            proof {
                assert(!is_digit(t@[i as int]));
                assert(!all_digits(t@));
            }
            return None;
        };
        proof {
            assert(is_digit(t@[i as int]));
            assert(digit_val(t@[i as int]) == d as nat);
            assert(t@.subrange(0, i as int + 1).drop_last() =~= t@.subrange(0, i as int));
            assert(t@.subrange(0, i as int + 1).last() == t@[i as int]);
            assert(all_digits(t@.subrange(0, i as int + 1)));
        }
        val = val * 10 + d;
        if val > 255 {
            proof {
                crate::num::lemma_dec_val_prefix(t@, i as int + 1);
                assert(t@.take(i as int + 1) =~= t@.subrange(0, i as int + 1));
                assert(dec_val(t@) > 255);
            }
            return None;
        }
        i = i + 1;
    }
    proof {
        assert(t@.subrange(0, n as int) =~= t@);
    }
    Some(val as u8)
}

/// Parses a flattened eight-token form field group back into its fields:
/// exactly eight space-separated tokens, of which the six positional
/// numbers must each be a decimal value that fits the type.
pub fn parse_form_entry(s: &str) -> (r: Option<(String, u8, u8, String, u8, u8, u8, u8)>)
    ensures
        r is Some <==> parse_entry_spec(s@) is Some,
        r matches Some(e) ==> parse_entry_spec(s@) == Some(
            (e.0@, e.1, e.2, e.3@, e.4, e.5, e.6, e.7),
        ),
{
    let ts = split_spaces(s);
    if ts.len() != 8 {
        return None;
    }
    proof {
        assert(forall|k: int| 0 <= k < 8 ==> #[trigger] ts@[k]@ == split_sp(s@)[k]);
    }
    let lr = match parse_u8_token(ts[1].as_str()) {
        Some(v) => v,
        None => {
            return None;
        },
    };
    let lc = match parse_u8_token(ts[2].as_str()) {
        Some(v) => v,
        None => {
            return None;
        },
    };
    let vr = match parse_u8_token(ts[4].as_str()) {
        Some(v) => v,
        None => {
            return None;
        },
    };
    let vc = match parse_u8_token(ts[5].as_str()) {
        Some(v) => v,
        None => {
            return None;
        },
    };
    let w = match parse_u8_token(ts[6].as_str()) {
        Some(v) => v,
        None => {
            return None;
        },
    };
    let l = match parse_u8_token(ts[7].as_str()) {
        Some(v) => v,
        None => {
            return None;
        },
    };
    Some((ts[0].clone(), lr, lc, ts[3].clone(), vr, vc, w, l))
}

} // verus!
