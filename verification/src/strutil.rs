//! Verified string utilities: decimal numbers, character search, splitting a
//! string on a separator and joining it back, and first-match lookup in a
//! header list. The split/join pair comes with the inversion lemmas the
//! metadata codec builds on.

use vstd::prelude::*;

verus! {

// ---------------------------------------------------------------------------
// Characters and decimal numbers
// ---------------------------------------------------------------------------

/// Is `c` one of the ASCII digits `'0'..='9'`?
pub open spec fn is_digit(c: char) -> bool {
    48 <= c as int && c as int <= 57
}

/// Numeric value of a digit character; 0 for anything else.
pub open spec fn digit_val(c: char) -> nat {
    if is_digit(c) {
        (c as int - 48) as nat
    } else {
        0
    }
}

/// The number denoted by a digit string, most significant digit first.
pub open spec fn dec_val(s: Seq<char>) -> nat
    decreases s.len(),
{
    if s.len() == 0 {
        0
    } else {
        dec_val(s.drop_last()) * 10 + digit_val(s.last())
    }
}

/// Every character of `s` is an ASCII digit.
pub open spec fn all_digits(s: Seq<char>) -> bool {
    forall|i: int| 0 <= i < s.len() ==> is_digit(s[i])
}

/// What parsing an unsigned decimal number yields: the denoted value when the
/// string is a nonempty digit string whose value fits, absent otherwise.
pub open spec fn spec_parse_usize(s: Seq<char>) -> Option<usize> {
    if s.len() > 0 && all_digits(s) && dec_val(s) <= usize::MAX {
        Some(dec_val(s) as usize)
    } else {
        None
    }
}

/// The digit character for a value below ten.
pub open spec fn digit_char(n: nat) -> char {
    if n == 0 { '0' }
    else if n == 1 { '1' }
    else if n == 2 { '2' }
    else if n == 3 { '3' }
    else if n == 4 { '4' }
    else if n == 5 { '5' }
    else if n == 6 { '6' }
    else if n == 7 { '7' }
    else if n == 8 { '8' }
    else if n == 9 { '9' }
    else { ' ' }
}

/// The decimal rendering of a number, without leading zeros (`0` is `"0"`).
pub open spec fn dec_str(n: nat) -> Seq<char>
    decreases n,
{
    if n < 10 {
        seq![digit_char(n)]
    } else {
        dec_str(n / 10).push(digit_char(n % 10))
    }
}

proof fn lemma_dec_val_take_succ(s: Seq<char>, i: int)
    requires
        0 <= i < s.len(),
    ensures
        dec_val(s.take(i + 1)) == dec_val(s.take(i)) * 10 + digit_val(s[i]),
{
    assert(s.take(i + 1).drop_last() =~= s.take(i));
    assert(s.take(i + 1).last() == s[i]);
}

proof fn lemma_dec_val_prefix_le(s: Seq<char>, i: int)
    requires
        0 <= i <= s.len(),
    ensures
        dec_val(s.take(i)) <= dec_val(s),
    decreases s.len() - i,
{
    if i == s.len() {
        assert(s.take(i) =~= s);
    } else {
        lemma_dec_val_take_succ(s, i);
        lemma_dec_val_prefix_le(s, i + 1);
        assert(dec_val(s.take(i)) <= dec_val(s.take(i)) * 10 + digit_val(s[i]));
    }
}

/// Parse an unsigned decimal number, rejecting empty input, non-digit
/// characters and values that do not fit.
pub fn parse_usize(s: &str) -> (r: Option<usize>)
    ensures
        r == spec_parse_usize(s@),
{
    let n = s.unicode_len();
    if n == 0 {
        return None;
    }
    let mut val: usize = 0;
    let mut i: usize = 0;
    while i < n
        invariant
            0 <= i <= n,
            n == s@.len(),
            all_digits(s@.take(i as int)),
            val == dec_val(s@.take(i as int)),
        decreases n - i,
    {
        let c = s.get_char(i);
        let u = c as u32;
        if u < 48 || u > 57 {
            assert(!is_digit(s@[i as int]));
            return None;
        }
        let d = (u - 48) as usize;
        assert(is_digit(s@[i as int]) && digit_val(s@[i as int]) == d);
        proof {
            lemma_dec_val_take_succ(s@, i as int);
        }
        if val > (usize::MAX - d) / 10 {
            proof {
                assert(val * 10 + d > usize::MAX) by (nonlinear_arith)
                    requires
                        val > (usize::MAX - d) / 10,
                        d <= 9,
                ;
                if all_digits(s@) {
                    lemma_dec_val_prefix_le(s@, i as int + 1);
                }
            }
            return None;
        }
        val = val * 10 + d;
        i = i + 1;
    }
    proof {
        assert(s@.take(n as int) =~= s@);
    }
    Some(val)
}

fn digit_str(d: usize) -> (r: &'static str)
    requires
        d < 10,
    ensures
        r@ == seq![digit_char(d as nat)],
{
    proof {
        reveal_strlit("0");
        reveal_strlit("1");
        reveal_strlit("2");
        reveal_strlit("3");
        reveal_strlit("4");
        reveal_strlit("5");
        reveal_strlit("6");
        reveal_strlit("7");
        reveal_strlit("8");
        reveal_strlit("9");
        assert("0"@ =~= seq!['0']);
        assert("1"@ =~= seq!['1']);
        assert("2"@ =~= seq!['2']);
        assert("3"@ =~= seq!['3']);
        assert("4"@ =~= seq!['4']);
        assert("5"@ =~= seq!['5']);
        assert("6"@ =~= seq!['6']);
        assert("7"@ =~= seq!['7']);
        assert("8"@ =~= seq!['8']);
        assert("9"@ =~= seq!['9']);
    }
    match d {
        0 => "0",
        1 => "1",
        2 => "2",
        3 => "3",
        4 => "4",
        5 => "5",
        6 => "6",
        7 => "7",
        8 => "8",
        _ => "9",
    }
}

/// Render a number as its decimal digits, most significant first, without
/// leading zeros.
pub(crate) fn usize_to_string(n: usize) -> (r: String)
    ensures
        r@ == dec_str(n as nat),
    decreases n,
{
    let d = n % 10;
    let ds = digit_str(d);
    if n < 10 {
        String::from_str(ds)
    } else {
        let mut s = usize_to_string(n / 10);
        s.append(ds);
        proof {
            assert(dec_str((n / 10) as nat) + seq![digit_char((n % 10) as nat)] =~= dec_str(
                (n / 10) as nat,
            ).push(digit_char((n % 10) as nat)));
        }
        s
    }
}

// ---------------------------------------------------------------------------
// Equality and search
// ---------------------------------------------------------------------------

/// Compare two string slices by contents.
pub fn str_eq(a: &str, b: &str) -> (r: bool)
    ensures
        r == (a@ == b@),
{
    let na = a.unicode_len();
    let nb = b.unicode_len();
    if na != nb {
        return false;
    }
    let mut i: usize = 0;
    while i < na
        invariant
            0 <= i <= na,
            na == a@.len(),
            na == b@.len(),
            forall|j: int| 0 <= j < i ==> a@[j] == b@[j],
        decreases na - i,
    {
        if a.get_char(i) != b.get_char(i) {
            return false;
        }
        i = i + 1;
    }
    proof {
        assert(a@ =~= b@);
    }
    true
}

/// No character of `s` is `c`.
pub open spec fn no_char(s: Seq<char>, c: char) -> bool {
    forall|i: int| 0 <= i < s.len() ==> s[i] != c
}

// ---------------------------------------------------------------------------
// Splitting on a separator, and joining back
// ---------------------------------------------------------------------------

/// Helper for [`spec_split`]: splits `s`, with `cur` the segment read so far.
pub open spec fn spec_split_rec(s: Seq<char>, sep: char, cur: Seq<char>) -> Seq<Seq<char>>
    decreases s.len(),
{
    if s.len() == 0 {
        seq![cur]
    } else if s[0] == sep {
        seq![cur] + spec_split_rec(s.skip(1), sep, Seq::empty())
    } else {
        spec_split_rec(s.skip(1), sep, cur.push(s[0]))
    }
}

/// The segments of `s` between occurrences of `sep`; always nonempty, and
/// `seq![s]` when `s` has no separator.
pub open spec fn spec_split(s: Seq<char>, sep: char) -> Seq<Seq<char>> {
    spec_split_rec(s, sep, Seq::empty())
}

/// The segments joined with `sep` between them.
pub open spec fn spec_join(parts: Seq<Seq<char>>, sep: char) -> Seq<char>
    decreases parts.len(),
{
    if parts.len() == 0 {
        Seq::empty()
    } else if parts.len() == 1 {
        parts[0]
    } else {
        parts[0] + seq![sep] + spec_join(parts.skip(1), sep)
    }
}

/// Split `s` on every occurrence of `sep`.
pub fn split_char(s: &str, sep: char) -> (r: Vec<String>)
    ensures
        r.deep_view() == spec_split(s@, sep),
{
    let n = s.unicode_len();
    let mut acc: Vec<String> = Vec::new();
    let mut start: usize = 0;
    let mut i: usize = 0;
    proof {
        assert(s@.skip(0) =~= s@);
        assert(s@.subrange(0, 0) =~= Seq::<char>::empty());
        assert(acc.deep_view() =~= Seq::<Seq<char>>::empty());
        assert(Seq::<Seq<char>>::empty() + spec_split_rec(s@, sep, Seq::empty()) =~= spec_split_rec(
            s@,
            sep,
            Seq::empty(),
        ));
    }
    while i < n
        invariant
            0 <= start <= i <= n,
            n == s@.len(),
            spec_split(s@, sep) == acc.deep_view() + spec_split_rec(
                s@.skip(i as int),
                sep,
                s@.subrange(start as int, i as int),
            ),
        decreases n - i,
    {
        let ghost pre_acc = acc.deep_view();
        let ghost cur = s@.subrange(start as int, i as int);
        let c = s.get_char(i);
        proof {
            assert(s@.skip(i as int)[0] == s@[i as int]);
            assert(s@.skip(i as int).skip(1) =~= s@.skip(i as int + 1));
        }
        if c == sep {
            let seg = s.substring_char(start, i);
            acc.push(String::from_str(seg));
            proof {
                assert(acc.deep_view() =~= pre_acc.push(cur));
                assert(pre_acc.push(cur) + spec_split_rec(
                    s@.skip(i as int + 1),
                    sep,
                    Seq::empty(),
                ) =~= pre_acc + (seq![cur] + spec_split_rec(
                    s@.skip(i as int + 1),
                    sep,
                    Seq::empty(),
                )));
                assert(s@.subrange(i as int + 1, i as int + 1) =~= Seq::<char>::empty());
            }
            start = i + 1;
        } else {
            proof {
                assert(s@.subrange(start as int, i as int + 1) =~= cur.push(s@[i as int]));
            }
        }
        i = i + 1;
    }
    proof {
        assert(s@.skip(n as int) =~= Seq::<char>::empty());
    }
    let seg = s.substring_char(start, n);
    acc.push(String::from_str(seg));
    proof {
        assert(acc.deep_view() =~= spec_split(s@, sep));
    }
    acc
}

/// Splitting consumes a separator-free prefix into the current segment.
pub proof fn lemma_split_rec_seg(seg: Seq<char>, rest: Seq<char>, sep: char, cur: Seq<char>)
    requires
        no_char(seg, sep),
    ensures
        spec_split_rec(seg + rest, sep, cur) == spec_split_rec(rest, sep, cur + seg),
    decreases seg.len(),
{
    if seg.len() == 0 {
        assert(seg + rest =~= rest);
        assert(cur + seg =~= cur);
    } else {
        assert((seg + rest)[0] == seg[0]);
        assert((seg + rest).skip(1) =~= seg.skip(1) + rest);
        lemma_split_rec_seg(seg.skip(1), rest, sep, cur.push(seg[0]));
        assert(cur.push(seg[0]) + seg.skip(1) =~= cur + seg);
    }
}

/// Law: splitting on `sep` inverts joining with `sep`, for any nonempty list
/// of segments none of which contains the separator.
pub proof fn lemma_split_join(parts: Seq<Seq<char>>, sep: char)
    requires
        parts.len() > 0,
        forall|i: int| 0 <= i < parts.len() ==> no_char(#[trigger] parts[i], sep),
    ensures
        spec_split(spec_join(parts, sep), sep) == parts,
    decreases parts.len(),
{
    if parts.len() == 1 {
        lemma_split_rec_seg(parts[0], Seq::empty(), sep, Seq::empty());
        assert(parts[0] + Seq::<char>::empty() =~= parts[0]);
        assert(Seq::<char>::empty() + parts[0] =~= parts[0]);
        assert(spec_split_rec(Seq::<char>::empty(), sep, parts[0]) =~= seq![parts[0]]);
        assert(seq![parts[0]] =~= parts);
    } else {
        let rest = parts.skip(1);
        let tail = seq![sep] + spec_join(rest, sep);
        lemma_split_join(rest, sep);
        lemma_split_rec_seg(parts[0], tail, sep, Seq::empty());
        assert(parts[0] + seq![sep] + spec_join(rest, sep) =~= parts[0] + tail);
        assert(Seq::<char>::empty() + parts[0] =~= parts[0]);
        assert(tail[0] == sep);
        assert(tail.skip(1) =~= spec_join(rest, sep));
        assert(seq![parts[0]] + spec_split_rec(spec_join(rest, sep), sep, Seq::empty()) =~= parts);
    }
}

/// Appending one more segment to a join appends a separator and the segment.
pub proof fn lemma_join_push(parts: Seq<Seq<char>>, sep: char, p: Seq<char>)
    ensures
        spec_join(parts.push(p), sep) == if parts.len() == 0 {
            p
        } else {
            spec_join(parts, sep) + seq![sep] + p
        },
    decreases parts.len(),
{
    if parts.len() == 0 {
        assert(parts.push(p)[0] == p);
    } else if parts.len() == 1 {
        assert(parts.push(p).skip(1) =~= seq![p]);
        assert(spec_join(seq![p], sep) == p);
        assert(spec_join(parts, sep) == parts[0]);
        assert(parts.push(p)[0] == parts[0]);
    } else {
        assert(parts.push(p).skip(1) =~= parts.skip(1).push(p));
        lemma_join_push(parts.skip(1), sep, p);
        assert(parts.push(p)[0] == parts[0]);
        assert(parts[0] + seq![sep] + (spec_join(parts.skip(1), sep) + seq![sep] + p) =~= (parts[0]
            + seq![sep] + spec_join(parts.skip(1), sep)) + seq![sep] + p);
    }
}

// ---------------------------------------------------------------------------
// Splitting at the first occurrence
// ---------------------------------------------------------------------------

/// What splitting at the first `sep` yields: the parts before and after it,
/// or absent when `s` has no separator.
pub open spec fn spec_split_once(s: Seq<char>, sep: char) -> Option<(Seq<char>, Seq<char>)>
    decreases s.len(),
{
    if s.len() == 0 {
        None
    } else if s[0] == sep {
        Some((Seq::empty(), s.skip(1)))
    } else {
        match spec_split_once(s.skip(1), sep) {
            None => None,
            Some(kv) => Some((seq![s[0]] + kv.0, kv.1)),
        }
    }
}

proof fn lemma_split_once_at(s: Seq<char>, sep: char, i: int)
    requires
        0 <= i < s.len(),
        s[i] == sep,
        forall|j: int| 0 <= j < i ==> s[j] != sep,
    ensures
        spec_split_once(s, sep) == Some((s.take(i), s.skip(i + 1))),
    decreases i,
{
    if i == 0 {
        assert(s.take(0) =~= Seq::<char>::empty());
    } else {
        lemma_split_once_at(s.skip(1), sep, i - 1);
        assert(seq![s[0]] + s.skip(1).take(i - 1) =~= s.take(i));
        assert(s.skip(1).skip(i) =~= s.skip(i + 1));
    }
}

proof fn lemma_split_once_none(s: Seq<char>, sep: char)
    requires
        no_char(s, sep),
    ensures
        spec_split_once(s, sep) is None,
    decreases s.len(),
{
    if s.len() > 0 {
        lemma_split_once_none(s.skip(1), sep);
    }
}

/// A separator right after a separator-free prefix splits exactly there.
pub proof fn lemma_split_once_exact(k: Seq<char>, rest: Seq<char>, sep: char)
    requires
        no_char(k, sep),
    ensures
        spec_split_once(k + seq![sep] + rest, sep) == Some((k, rest)),
{
    let s = k + seq![sep] + rest;
    assert(s[k.len() as int] == sep);
    lemma_split_once_at(s, sep, k.len() as int);
    assert(s.take(k.len() as int) =~= k);
    assert(s.skip(k.len() as int + 1) =~= rest);
}

/// Split `s` at the first occurrence of `sep`.
pub fn split_once(s: &str, sep: char) -> (r: Option<(String, String)>)
    ensures
        match r {
            Some(kv) => spec_split_once(s@, sep) == Some((kv.0@, kv.1@)),
            None => spec_split_once(s@, sep) is None,
        },
{
    let n = s.unicode_len();
    let mut i: usize = 0;
    while i < n
        invariant
            0 <= i <= n,
            n == s@.len(),
            forall|j: int| 0 <= j < i ==> s@[j] != sep,
        decreases n - i,
    {
        let c = s.get_char(i);
        if c == sep {
            let k = s.substring_char(0, i);
            let v = s.substring_char(i + 1, n);
            proof {
                lemma_split_once_at(s@, sep, i as int);
                assert(s@.take(i as int) =~= s@.subrange(0, i as int));
                assert(s@.skip(i as int + 1) =~= s@.subrange(i as int + 1, n as int));
            }
            return Some((String::from_str(k), String::from_str(v)));
        }
        i = i + 1;
    }
    proof {
        lemma_split_once_none(s@, sep);
    }
    None
}

// ---------------------------------------------------------------------------
// Header lists: first-match lookup
// ---------------------------------------------------------------------------

/// The view of an optional owned string.
pub open spec fn opt_string_view(o: Option<String>) -> Option<Seq<char>> {
    match o {
        Some(s) => Some(s@),
        None => None,
    }
}

/// The value of the first pair whose key is `name`, if any.
pub open spec fn spec_lookup(hs: Seq<(Seq<char>, Seq<char>)>, name: Seq<char>) -> Option<Seq<char>>
    decreases hs.len(),
{
    if hs.len() == 0 {
        None
    } else if hs[0].0 == name {
        Some(hs[0].1)
    } else {
        spec_lookup(hs.skip(1), name)
    }
}

/// Look a header up by exact name, first match wins.
pub fn lookup_header(hs: &Vec<(String, String)>, name: &str) -> (r: Option<String>)
    ensures
        opt_string_view(r) == spec_lookup(hs.deep_view(), name@),
{
    let ghost full = hs.deep_view();
    let n = hs.len();
    let mut i: usize = 0;
    proof {
        assert(full.skip(0) =~= full);
    }
    while i < n
        invariant
            0 <= i <= n,
            n == hs@.len(),
            full == hs.deep_view(),
            spec_lookup(full, name@) == spec_lookup(full.skip(i as int), name@),
        decreases n - i,
    {
        proof {
            assert(full.skip(i as int)[0] == full[i as int]);
            assert(full[i as int] == (hs@[i as int].0@, hs@[i as int].1@));
            assert(full.skip(i as int).skip(1) =~= full.skip(i as int + 1));
        }
        if str_eq(hs[i].0.as_str(), name) {
            return Some(String::from_str(hs[i].1.as_str()));
        }
        i = i + 1;
    }
    proof {
        assert(full.skip(n as int) =~= Seq::<(Seq<char>, Seq<char>)>::empty());
    }
    None
}

} // verus!
