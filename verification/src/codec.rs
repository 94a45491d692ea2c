//! The upload-metadata sub-format: a mapping of keys to byte-string values is
//! written as entries `key:base64(value)` joined with `,`. Decoding inverts
//! encoding for every mapping whose keys contain neither `:` nor `,`; that
//! law is part of [`encode_pairs`]'s contract.

use vstd::prelude::*;

use crate::b64::{base64_decode, base64_decoding, base64_encode, base64_encoding, fits_base64,
    is_base64_char};
use crate::strutil::{lemma_split_join, lemma_join_push, lemma_split_once_exact, no_char,
    spec_join, spec_split, spec_split_once, split_char, split_once};

verus! {

/// One encoded entry: the key, a colon, and the base64 of the value.
pub open spec fn spec_meta_entry(k: Seq<char>, v: Seq<u8>) -> Seq<char> {
    k + seq![':'] + base64_encoding(v)
}

/// The encoded entries of a mapping, in order.
pub open spec fn spec_meta_entries(m: Seq<(Seq<char>, Seq<u8>)>) -> Seq<Seq<char>> {
    m.map(|i: int, p: (Seq<char>, Seq<u8>)| spec_meta_entry(p.0, p.1))
}

/// The encoded header value of a mapping: its entries joined with `,`.
pub open spec fn spec_encode_pairs(m: Seq<(Seq<char>, Seq<u8>)>) -> Seq<char> {
    spec_join(spec_meta_entries(m), ',')
}

/// What decoding one entry yields: key before the first colon, base64-decoded
/// value after it; absent when there is no colon or the base64 is invalid.
pub open spec fn spec_decode_entry(entry: Seq<char>) -> Option<(Seq<char>, Seq<u8>)> {
    match spec_split_once(entry, ':') {
        None => None,
        Some(kv) => match base64_decoding(kv.1) {
            None => None,
            Some(v) => Some((kv.0, v)),
        },
    }
}

/// What decoding a list of entries yields; absent as soon as one entry fails.
pub open spec fn spec_decode_entries(parts: Seq<Seq<char>>) -> Option<Seq<(Seq<char>, Seq<u8>)>>
    decreases parts.len(),
{
    if parts.len() == 0 {
        Some(Seq::empty())
    } else {
        match spec_decode_entry(parts[0]) {
            None => None,
            Some(p) => match spec_decode_entries(parts.skip(1)) {
                None => None,
                Some(tl) => Some(seq![p] + tl),
            },
        }
    }
}

/// What decoding a whole header value yields: the empty mapping for the empty
/// string, else the decoded entries between commas.
pub open spec fn spec_decode_pairs(s: Seq<char>) -> Option<Seq<(Seq<char>, Seq<u8>)>> {
    if s.len() == 0 {
        Some(Seq::empty())
    } else {
        spec_decode_entries(spec_split(s, ','))
    }
}

/// A key the encoding keeps apart from its frame: no colon, no comma.
pub open spec fn wf_meta_key(k: Seq<char>) -> bool {
    no_char(k, ':') && no_char(k, ',')
}

/// Every key of the mapping is well-formed.
pub open spec fn wf_meta_keys(m: Seq<(Seq<char>, Seq<u8>)>) -> bool {
    forall|i: int| 0 <= i < m.len() ==> wf_meta_key(#[trigger] m[i].0)
}

/// Every value of the mapping is small enough to encode.
pub open spec fn fits_meta_values(m: Seq<(Seq<char>, Seq<u8>)>) -> bool {
    forall|i: int| 0 <= i < m.len() ==> fits_base64(#[trigger] m[i].1)
}

/// A string whose UTF-8 bytes are small enough to base64-encode.
pub open spec fn fits_meta_string(s: Seq<char>) -> bool {
    fits_base64(vstd::utf8::encode_utf8(s))
}

/// Every character of `s` is from the base64 output alphabet.
pub open spec fn all_base64(s: Seq<char>) -> bool {
    forall|i: int| 0 <= i < s.len() ==> is_base64_char(#[trigger] s[i])
}

/// The facts the encoder learns, per entry, from the base64 engine's contract.
pub open spec fn entry_facts(m: Seq<(Seq<char>, Seq<u8>)>, j: int) -> bool {
    &&& base64_decoding(base64_encoding(m[j].1)) == Some(m[j].1)
    &&& all_base64(base64_encoding(m[j].1))
}

proof fn lemma_entry_no_comma(m: Seq<(Seq<char>, Seq<u8>)>, j: int)
    requires
        0 <= j < m.len(),
        wf_meta_key(m[j].0),
        entry_facts(m, j),
    ensures
        no_char(spec_meta_entries(m)[j], ','),
{
    let k = m[j].0;
    let b = base64_encoding(m[j].1);
    let entry = spec_meta_entry(k, m[j].1);
    assert forall|x: int| 0 <= x < entry.len() implies entry[x] != ',' by {
        if x < k.len() {
            assert(entry[x] == k[x]);
        } else if x == k.len() {
            assert(entry[x] == ':');
        } else {
            assert(entry[x] == b[x - k.len() - 1]);
            assert(is_base64_char(b[x - k.len() - 1]));
        }
    }
}

proof fn lemma_decode_entries_of_encoded(m: Seq<(Seq<char>, Seq<u8>)>)
    requires
        wf_meta_keys(m),
        forall|j: int| 0 <= j < m.len() ==> #[trigger] entry_facts(m, j),
    ensures
        spec_decode_entries(spec_meta_entries(m)) == Some(m),
    decreases m.len(),
{
    let entries = spec_meta_entries(m);
    if m.len() == 0 {
        assert(entries =~= Seq::<Seq<char>>::empty());
    } else {
        let k = m[0].0;
        let v = m[0].1;
        let b = base64_encoding(v);
        lemma_split_once_exact(k, b, ':');
        assert(entries[0] == k + seq![':'] + b);
        assert(entry_facts(m, 0));
        assert(spec_decode_entry(entries[0]) == Some((k, v)));
        assert((k, v) == m[0]);
        let tl = m.skip(1);
        assert(forall|j: int| 0 <= j < tl.len() ==> tl[j] == m[j + 1]);
        assert forall|j: int| 0 <= j < tl.len() implies #[trigger] entry_facts(tl, j) by {
            assert(entry_facts(m, j + 1));
        }
        lemma_decode_entries_of_encoded(tl);
        assert(entries.skip(1) =~= spec_meta_entries(tl));
        assert(seq![m[0]] + tl =~= m);
    }
}

proof fn lemma_encoded_decodes(m: Seq<(Seq<char>, Seq<u8>)>)
    requires
        wf_meta_keys(m),
        forall|j: int| 0 <= j < m.len() ==> #[trigger] entry_facts(m, j),
    ensures
        spec_decode_pairs(spec_encode_pairs(m)) == Some(m),
{
    let entries = spec_meta_entries(m);
    if m.len() == 0 {
        assert(entries =~= Seq::<Seq<char>>::empty());
        assert(spec_encode_pairs(m).len() == 0);
        assert(m =~= Seq::<(Seq<char>, Seq<u8>)>::empty());
    } else {
        assert forall|j: int| 0 <= j < entries.len() implies no_char(
            #[trigger] entries[j],
            ',',
        ) by {
            lemma_entry_no_comma(m, j);
        }
        lemma_split_join(entries, ',');
        lemma_decode_entries_of_encoded(m);
        // the joined string is nonempty: its first entry contains a colon
        assert(entries[0].len() > 0);
        if entries.len() == 1 {
            assert(spec_join(entries, ',') == entries[0]);
        } else {
            assert(spec_join(entries, ',') == entries[0] + seq![','] + spec_join(
                entries.skip(1),
                ',',
            ));
        }
        assert(spec_encode_pairs(m).len() > 0);
    }
}

/// Encode a mapping as the upload-metadata header value. Decoding inverts
/// this encoding for every mapping whose keys contain neither `:` nor `,`.
pub fn encode_pairs(pairs: &Vec<(String, Vec<u8>)>) -> (r: String)
    requires
        fits_meta_values(pairs.deep_view()),
    ensures
        r@ == spec_encode_pairs(pairs.deep_view()),
        wf_meta_keys(pairs.deep_view()) ==> spec_decode_pairs(r@) == Some(pairs.deep_view()),
{
    let ghost m = pairs.deep_view();
    let mut out = String::new();
    let n = pairs.len();
    let mut i: usize = 0;
    proof {
        assert(m.len() == n);
        assert(spec_meta_entries(m.take(0)) =~= Seq::<Seq<char>>::empty());
        assert(out@ =~= spec_join(spec_meta_entries(m.take(0)), ','));
    }
    while i < n
        invariant
            0 <= i <= n,
            n == pairs@.len(),
            m == pairs.deep_view(),
            fits_meta_values(m),
            out@ == spec_join(spec_meta_entries(m.take(i as int)), ','),
            forall|j: int| 0 <= j < i ==> #[trigger] entry_facts(m, j),
        decreases n - i,
    {
        proof {
            reveal_strlit(",");
            reveal_strlit(":");
            assert(","@ =~= seq![',']);
            assert(":"@ =~= seq![':']);
            assert(pairs@[i as int].1.deep_view() =~= pairs@[i as int].1@);
            assert(m[i as int] == (pairs@[i as int].0@, pairs@[i as int].1@));
            assert(fits_base64(m[i as int].1));
        }
        if i > 0 {
            out.append(",");
        }
        out.append(pairs[i].0.as_str());
        out.append(":");
        let b = base64_encode(pairs[i].1.as_slice());
        out.append(b.as_str());
        proof {
            let ghost entry = spec_meta_entry(m[i as int].0, m[i as int].1);
            assert(spec_meta_entries(m.take(i as int + 1)) =~= spec_meta_entries(
                m.take(i as int),
            ).push(entry));
            lemma_join_push(spec_meta_entries(m.take(i as int)), ',', entry);
            if i == 0 {
                assert(spec_meta_entries(m.take(0)).len() == 0);
                assert(out@ =~= entry);
            } else {
                assert(out@ =~= spec_join(spec_meta_entries(m.take(i as int)), ',') + seq![',']
                    + entry);
            }
        }
        i = i + 1;
    }
    proof {
        assert(m.take(n as int) =~= m);
        if wf_meta_keys(m) {
            lemma_encoded_decodes(m);
        }
    }
    out
}

proof fn lemma_decode_entries_all(parts: Seq<Seq<char>>, vals: Seq<(Seq<char>, Seq<u8>)>)
    requires
        vals.len() == parts.len(),
        forall|j: int| 0 <= j < parts.len() ==> spec_decode_entry(#[trigger] parts[j]) == Some(
            vals[j],
        ),
    ensures
        spec_decode_entries(parts) == Some(vals),
    decreases parts.len(),
{
    if parts.len() == 0 {
        assert(vals =~= Seq::<(Seq<char>, Seq<u8>)>::empty());
    } else {
        lemma_decode_entries_all(parts.skip(1), vals.skip(1));
        assert(seq![vals[0]] + vals.skip(1) =~= vals);
    }
}

proof fn lemma_decode_entries_fail(parts: Seq<Seq<char>>, i: int)
    requires
        0 <= i < parts.len(),
        spec_decode_entry(parts[i]) is None,
    ensures
        spec_decode_entries(parts) is None,
    decreases i,
{
    if i > 0 {
        lemma_decode_entries_fail(parts.skip(1), i - 1);
    }
}

/// Decode an upload-metadata header value back into its mapping; absent when
/// an entry lacks a colon or carries invalid base64.
pub fn decode_pairs(s: &str) -> (r: Option<Vec<(String, Vec<u8>)>>)
    ensures
        match r {
            Some(v) => spec_decode_pairs(s@) == Some(v.deep_view()),
            None => spec_decode_pairs(s@) is None,
        },
{
    if s.unicode_len() == 0 {
        let empty: Vec<(String, Vec<u8>)> = Vec::new();
        proof {
            assert(empty.deep_view() =~= Seq::<(Seq<char>, Seq<u8>)>::empty());
        }
        return Some(empty);
    }
    let parts = split_char(s, ',');
    let ghost entries = parts.deep_view();
    let n = parts.len();
    let mut out: Vec<(String, Vec<u8>)> = Vec::new();
    let mut i: usize = 0;
    while i < n
        invariant
            0 <= i <= n,
            n == parts@.len(),
            entries == parts.deep_view(),
            spec_decode_pairs(s@) == spec_decode_entries(entries),
            out@.len() == i,
            forall|j: int| 0 <= j < i ==> spec_decode_entry(#[trigger] entries[j]) == Some(
                out.deep_view()[j],
            ),
        decreases n - i,
    {
        let ghost pre = out.deep_view();
        proof {
            assert(entries[i as int] == parts@[i as int]@);
        }
        match split_once(parts[i].as_str(), ':') {
            None => {
                proof {
                    lemma_decode_entries_fail(entries, i as int);
                }
                return None;
            },
            Some(kv) => {
                match base64_decode(kv.1.as_str()) {
                    None => {
                        proof {
                            lemma_decode_entries_fail(entries, i as int);
                        }
                        return None;
                    },
                    Some(bytes) => {
                        let ghost kview = kv.0@;
                        let ghost bview = bytes@;
                        proof {
                            assert(bytes.deep_view() =~= bview);
                        }
                        out.push((kv.0, bytes));
                        proof {
                            assert(spec_decode_entry(entries[i as int]) == Some(
                                (kview, bview),
                            ));
                            assert(out.deep_view() =~= pre.push((kview, bview)));
                            assert(forall|j: int| 0 <= j < i ==> out.deep_view()[j] == pre[j]);
                        }
                    },
                }
            },
        }
        i = i + 1;
    }
    proof {
        lemma_decode_entries_all(entries, out.deep_view());
    }
    Some(out)
}

} // verus!
