//! The wire-header table: the headers every request starts from, insertion
//! with replace-on-collision semantics, and the typed decoding of a raw
//! response header list into [`TusHeaders`].
//!
//! Wire names used: `tus-resumable`, `upload-offset`, `upload-length`,
//! `tus-version`, `tus-extension`, `tus-max-size`, `tus-checksum-algorithm`,
//! `upload-metadata`, `content-type` and `location`. Lookups expect the
//! lowercase names, as HTTP header maps report them.

use vstd::prelude::*;

use crate::codec::{decode_pairs, fits_meta_string, spec_decode_pairs};
use crate::info::{spec_parse_extensions, TusExtension};
use crate::strutil::{lookup_header, opt_string_view, parse_usize, spec_lookup, spec_parse_usize,
    spec_split, split_char, str_eq};

verus! {

/// The headers every request carries before anything else is added: the
/// protocol version.
pub open spec fn spec_default_headers() -> Seq<(Seq<char>, Seq<char>)> {
    seq![("tus-resumable"@, "1.0.0"@)]
}

/// The headers every request starts from.
pub fn default_headers() -> (r: Vec<(String, String)>)
    ensures
        r.deep_view() == spec_default_headers(),
{
    let mut v: Vec<(String, String)> = Vec::new();
    v.push((String::from_str("tus-resumable"), String::from_str("1.0.0")));
    proof {
        assert(v.deep_view() =~= spec_default_headers());
    }
    v
}

/// Header insertion: replace the value of the first pair with this key, or
/// append the pair when the key is absent.
pub open spec fn spec_headers_insert(
    hs: Seq<(Seq<char>, Seq<char>)>,
    k: Seq<char>,
    v: Seq<char>,
) -> Seq<(Seq<char>, Seq<char>)>
    decreases hs.len(),
{
    if hs.len() == 0 {
        seq![(k, v)]
    } else if hs[0].0 == k {
        seq![(k, v)] + hs.skip(1)
    } else {
        seq![hs[0]] + spec_headers_insert(hs.skip(1), k, v)
    }
}

proof fn lemma_headers_insert_found(
    hs: Seq<(Seq<char>, Seq<char>)>,
    k: Seq<char>,
    v: Seq<char>,
    i: int,
)
    requires
        0 <= i < hs.len(),
        hs[i].0 == k,
        forall|j: int| 0 <= j < i ==> hs[j].0 != k,
    ensures
        spec_headers_insert(hs, k, v) == hs.update(i, (k, v)),
    decreases i,
{
    if i == 0 {
        assert(seq![(k, v)] + hs.skip(1) =~= hs.update(0, (k, v)));
    } else {
        lemma_headers_insert_found(hs.skip(1), k, v, i - 1);
        assert(seq![hs[0]] + hs.skip(1).update(i - 1, (k, v)) =~= hs.update(i, (k, v)));
    }
}

proof fn lemma_headers_insert_missing(hs: Seq<(Seq<char>, Seq<char>)>, k: Seq<char>, v: Seq<char>)
    requires
        forall|j: int| 0 <= j < hs.len() ==> hs[j].0 != k,
    ensures
        spec_headers_insert(hs, k, v) == hs.push((k, v)),
    decreases hs.len(),
{
    if hs.len() == 0 {
        assert(seq![(k, v)] =~= hs.push((k, v)));
    } else {
        lemma_headers_insert_missing(hs.skip(1), k, v);
        assert(seq![hs[0]] + hs.skip(1).push((k, v)) =~= hs.push((k, v)));
    }
}

fn find_key(h: &Vec<(String, String)>, k: &str) -> (r: Option<usize>)
    ensures
        match r {
            Some(i) => i < h@.len() && h.deep_view()[i as int].0 == k@ && forall|j: int|
                0 <= j < i ==> h.deep_view()[j].0 != k@,
            None => forall|j: int| 0 <= j < h@.len() ==> h.deep_view()[j].0 != k@,
        },
{
    let n = h.len();
    let mut i: usize = 0;
    while i < n
        invariant
            0 <= i <= n,
            n == h@.len(),
            forall|j: int| 0 <= j < i ==> h.deep_view()[j].0 != k@,
        decreases n - i,
    {
        proof {
            assert(h.deep_view()[i as int] == (h@[i as int].0@, h@[i as int].1@));
        }
        if str_eq(h[i].0.as_str(), k) {
            return Some(i);
        }
        i = i + 1;
    }
    None
}

/// Insert a header: the first pair with this key gets the new value, keeping
/// its place; a missing key is appended.
pub fn headers_insert(h: &Vec<(String, String)>, k: &str, v: &str) -> (r: Vec<(String, String)>)
    ensures
        r.deep_view() == spec_headers_insert(h.deep_view(), k@, v@),
{
    let n = h.len();
    let mut out: Vec<(String, String)> = Vec::new();
    match find_key(h, k) {
        Some(idx) => {
            let ghost target = h.deep_view().update(idx as int, (k@, v@));
            let mut j: usize = 0;
            proof {
                assert(out.deep_view() =~= target.take(0));
            }
            while j < n
                invariant
                    0 <= j <= n,
                    n == h@.len(),
                    idx < n,
                    target == h.deep_view().update(idx as int, (k@, v@)),
                    out.deep_view() == target.take(j as int),
                decreases n - j,
            {
                let ghost pre = out.deep_view();
                if j == idx {
                    out.push((String::from_str(k), String::from_str(v)));
                } else {
                    out.push((h[j].0.clone(), h[j].1.clone()));
                    proof {
                        assert(h.deep_view()[j as int] == (h@[j as int].0@, h@[j as int].1@));
                    }
                }
                proof {
                    assert(out.deep_view() =~= pre.push(target[j as int]));
                    assert(pre.push(target[j as int]) =~= target.take(j as int + 1));
                }
                j = j + 1;
            }
            proof {
                assert(target.take(n as int) =~= target);
                lemma_headers_insert_found(h.deep_view(), k@, v@, idx as int);
            }
        },
        None => {
            let mut j: usize = 0;
            proof {
                assert(out.deep_view() =~= h.deep_view().take(0));
            }
            while j < n
                invariant
                    0 <= j <= n,
                    n == h@.len(),
                    out.deep_view() == h.deep_view().take(j as int),
                decreases n - j,
            {
                let ghost pre = out.deep_view();
                out.push((h[j].0.clone(), h[j].1.clone()));
                proof {
                    assert(h.deep_view()[j as int] == (h@[j as int].0@, h@[j as int].1@));
                    assert(out.deep_view() =~= pre.push(h.deep_view()[j as int]));
                    assert(pre.push(h.deep_view()[j as int]) =~= h.deep_view().take(j as int + 1));
                }
                j = j + 1;
            }
            let ghost pre = out.deep_view();
            out.push((String::from_str(k), String::from_str(v)));
            proof {
                assert(h.deep_view().take(n as int) =~= h.deep_view());
                assert(out.deep_view() =~= pre.push((k@, v@)));
                lemma_headers_insert_missing(h.deep_view(), k@, v@);
            }
        },
    }
    out
}

/// Header insertion folded over a list of pairs, first pair first.
pub open spec fn spec_fold_insert(
    hs: Seq<(Seq<char>, Seq<char>)>,
    cs: Seq<(Seq<char>, Seq<char>)>,
) -> Seq<(Seq<char>, Seq<char>)>
    decreases cs.len(),
{
    if cs.len() == 0 {
        hs
    } else {
        spec_fold_insert(spec_headers_insert(hs, cs[0].0, cs[0].1), cs.skip(1))
    }
}

/// Insert every pair of `cs` into `h`, in order.
pub fn fold_insert(h: Vec<(String, String)>, cs: &Vec<(String, String)>) -> (r: Vec<
    (String, String),
>)
    ensures
        r.deep_view() == spec_fold_insert(h.deep_view(), cs.deep_view()),
{
    let ghost h0 = h.deep_view();
    let ghost full = cs.deep_view();
    let n = cs.len();
    let mut cur = h;
    let mut i: usize = 0;
    proof {
        assert(full.skip(0) =~= full);
    }
    while i < n
        invariant
            0 <= i <= n,
            n == cs@.len(),
            full == cs.deep_view(),
            spec_fold_insert(h0, full) == spec_fold_insert(cur.deep_view(), full.skip(i as int)),
        decreases n - i,
    {
        proof {
            assert(full.skip(i as int)[0] == full[i as int]);
            assert(full[i as int] == (cs@[i as int].0@, cs@[i as int].1@));
            assert(full.skip(i as int).skip(1) =~= full.skip(i as int + 1));
        }
        cur = headers_insert(&cur, cs[i].0.as_str(), cs[i].1.as_str());
        i = i + 1;
    }
    proof {
        assert(full.skip(n as int) =~= Seq::<(Seq<char>, Seq<char>)>::empty());
    }
    cur
}

/// Every value in a header list is small enough to base64-encode.
pub open spec fn all_values_fit(hs: Seq<(Seq<char>, Seq<char>)>) -> bool {
    forall|i: int| 0 <= i < hs.len() ==> fits_meta_string(#[trigger] hs[i].1)
}

/// Inserting a small-enough value keeps every value small enough.
pub proof fn lemma_insert_values_fit(hs: Seq<(Seq<char>, Seq<char>)>, k: Seq<char>, v: Seq<char>)
    requires
        all_values_fit(hs),
        fits_meta_string(v),
    ensures
        all_values_fit(spec_headers_insert(hs, k, v)),
    decreases hs.len(),
{
    let r = spec_headers_insert(hs, k, v);
    if hs.len() == 0 {
        assert forall|i: int| 0 <= i < r.len() implies fits_meta_string(#[trigger] r[i].1) by {
            assert(r[i].1 == v);
        }
    } else if hs[0].0 == k {
        assert forall|i: int| 0 <= i < r.len() implies fits_meta_string(#[trigger] r[i].1) by {
            if i == 0 {
                assert(r[i].1 == v);
            } else {
                assert(r[i].1 == hs[i].1);
            }
        }
    } else {
        lemma_insert_values_fit(hs.skip(1), k, v);
        let tl = spec_headers_insert(hs.skip(1), k, v);
        assert forall|i: int| 0 <= i < r.len() implies fits_meta_string(#[trigger] r[i].1) by {
            if i == 0 {
                assert(r[i].1 == hs[0].1);
            } else {
                assert(r[i].1 == tl[i - 1].1);
            }
        }
    }
}

/// Folding in small-enough values keeps every value small enough.
pub proof fn lemma_fold_values_fit(hs: Seq<(Seq<char>, Seq<char>)>, cs: Seq<(Seq<char>, Seq<char>)>)
    requires
        all_values_fit(hs),
        all_values_fit(cs),
    ensures
        all_values_fit(spec_fold_insert(hs, cs)),
    decreases cs.len(),
{
    if cs.len() > 0 {
        assert(fits_meta_string(cs[0].1));
        lemma_insert_values_fit(hs, cs[0].0, cs[0].1);
        assert(all_values_fit(cs.skip(1))) by {
            assert(forall|i: int| 0 <= i < cs.skip(1).len() ==> cs.skip(1)[i].1 == cs[i + 1].1);
        }
        lemma_fold_values_fit(spec_headers_insert(hs, cs[0].0, cs[0].1), cs.skip(1));
    }
}

/// The view of an optional list of string pairs.
pub open spec fn opt_str_pairs_view(o: Option<Vec<(String, String)>>) -> Option<
    Seq<(Seq<char>, Seq<char>)>,
> {
    match o {
        Some(v) => Some(v.deep_view()),
        None => None,
    }
}

// ---------------------------------------------------------------------------
// Typed response headers
// ---------------------------------------------------------------------------

/// The typed protocol fields a raw response header list decodes to. Absence
/// stands for a missing or malformed header; whether absence is an error is
/// each operation's decision, not this codec's.
pub struct TusHeaders {
    /// `upload-offset` as a number.
    pub offset: Option<usize>,
    /// `upload-length` as a number.
    pub upload_length: Option<usize>,
    /// `tus-resumable`: the protocol version the server speaks.
    pub version: Option<String>,
    /// `tus-version`: the protocol versions the server supports.
    pub supported_versions: Option<Vec<String>>,
    /// `tus-resumable`, kept verbatim.
    pub resumable: Option<String>,
    /// `tus-extension`: the recognized extensions the server advertises.
    pub extensions: Option<Vec<TusExtension>>,
    /// `tus-max-size` as a number.
    pub max_size: Option<usize>,
    /// `tus-checksum-algorithm`: the supported checksum algorithms.
    pub checksum_algorithms: Option<Vec<String>>,
    /// `upload-metadata`, decoded through the metadata codec.
    pub upload_metadata: Option<Vec<(String, Vec<u8>)>>,
    /// `location`: where a created upload resource lives.
    pub location: Option<String>,
}

/// A numeric field: parsed leniently, absent when missing or malformed.
pub open spec fn spec_opt_parse(o: Option<Seq<char>>) -> Option<usize> {
    match o {
        None => None,
        Some(s) => spec_parse_usize(s),
    }
}

/// A list field: split on `,`, absent when the header is missing.
pub open spec fn spec_opt_split(o: Option<Seq<char>>) -> Option<Seq<Seq<char>>> {
    match o {
        None => None,
        Some(s) => Some(spec_split(s, ',')),
    }
}

/// The metadata field: decoded, absent when missing or malformed.
pub open spec fn spec_opt_decode_meta(o: Option<Seq<char>>) -> Option<
    Seq<(Seq<char>, Seq<u8>)>,
> {
    match o {
        None => None,
        Some(s) => spec_decode_pairs(s),
    }
}

/// The view of an optional list of owned strings.
pub open spec fn opt_vec_string_view(o: Option<Vec<String>>) -> Option<Seq<Seq<char>>> {
    match o {
        Some(v) => Some(v.deep_view()),
        None => None,
    }
}

/// The view of an optional decoded metadata mapping.
pub open spec fn opt_pairs_view(o: Option<Vec<(String, Vec<u8>)>>) -> Option<
    Seq<(Seq<char>, Seq<u8>)>,
> {
    match o {
        Some(v) => Some(v.deep_view()),
        None => None,
    }
}

fn parse_extensions(s: &str) -> (r: Vec<TusExtension>)
    ensures
        r@ == spec_parse_extensions(spec_split(s@, ',')),
{
    let parts = split_char(s, ',');
    let ghost full = parts.deep_view();
    let n = parts.len();
    let mut out: Vec<TusExtension> = Vec::new();
    let mut i: usize = 0;
    proof {
        assert(full.skip(0) =~= full);
        assert(out@ + spec_parse_extensions(full) =~= spec_parse_extensions(full));
    }
    while i < n
        invariant
            0 <= i <= n,
            n == parts@.len(),
            full == parts.deep_view(),
            spec_parse_extensions(full) == out@ + spec_parse_extensions(full.skip(i as int)),
        decreases n - i,
    {
        let ghost pre = out@;
        proof {
            assert(full.skip(i as int)[0] == full[i as int]);
            assert(full[i as int] == parts@[i as int]@);
            assert(full.skip(i as int).skip(1) =~= full.skip(i as int + 1));
        }
        match TusExtension::from_str(parts[i].as_str()) {
            Ok(e) => {
                out.push(e);
                proof {
                    assert(out@ =~= pre.push(e));
                    assert(pre.push(e) + spec_parse_extensions(full.skip(i as int + 1)) =~= pre + (
                    seq![e] + spec_parse_extensions(full.skip(i as int + 1))));
                }
            },
            Err(_) => {},
        }
        i = i + 1;
    }
    proof {
        assert(full.skip(n as int) =~= Seq::<Seq<char>>::empty());
        assert(out@ + Seq::<TusExtension>::empty() =~= out@);
    }
    out
}

impl TusHeaders {
    /// Decode a raw response header list into the typed protocol fields.
    /// Every field is lenient here: missing or malformed input leaves the
    /// field absent and never fails.
    pub fn from_pairs(pairs: &Vec<(String, String)>) -> (r: TusHeaders)
        ensures
            r.offset == spec_opt_parse(spec_lookup(pairs.deep_view(), "upload-offset"@)),
            r.upload_length == spec_opt_parse(spec_lookup(pairs.deep_view(), "upload-length"@)),
            opt_string_view(r.version) == spec_lookup(pairs.deep_view(), "tus-resumable"@),
            opt_string_view(r.resumable) == spec_lookup(pairs.deep_view(), "tus-resumable"@),
            opt_string_view(r.location) == spec_lookup(pairs.deep_view(), "location"@),
            opt_vec_string_view(r.supported_versions) == spec_opt_split(
                spec_lookup(pairs.deep_view(), "tus-version"@),
            ),
            opt_vec_string_view(r.checksum_algorithms) == spec_opt_split(
                spec_lookup(pairs.deep_view(), "tus-checksum-algorithm"@),
            ),
            r.max_size == spec_opt_parse(spec_lookup(pairs.deep_view(), "tus-max-size"@)),
            match r.extensions {
                None => spec_lookup(pairs.deep_view(), "tus-extension"@) is None,
                Some(es) => spec_lookup(pairs.deep_view(), "tus-extension"@) matches Some(s)
                    && es@ == spec_parse_extensions(spec_split(s, ',')),
            },
            opt_pairs_view(r.upload_metadata) == spec_opt_decode_meta(
                spec_lookup(pairs.deep_view(), "upload-metadata"@),
            ),
    {
        let offset = match lookup_header(pairs, "upload-offset") {
            Some(v) => parse_usize(v.as_str()),
            None => None,
        };
        let upload_length = match lookup_header(pairs, "upload-length") {
            Some(v) => parse_usize(v.as_str()),
            None => None,
        };
        let max_size = match lookup_header(pairs, "tus-max-size") {
            Some(v) => parse_usize(v.as_str()),
            None => None,
        };
        let version = lookup_header(pairs, "tus-resumable");
        let resumable = lookup_header(pairs, "tus-resumable");
        let location = lookup_header(pairs, "location");
        let supported_versions = match lookup_header(pairs, "tus-version") {
            Some(v) => Some(split_char(v.as_str(), ',')),
            None => None,
        };
        let checksum_algorithms = match lookup_header(pairs, "tus-checksum-algorithm") {
            Some(v) => Some(split_char(v.as_str(), ',')),
            None => None,
        };
        let extensions = match lookup_header(pairs, "tus-extension") {
            Some(v) => Some(parse_extensions(v.as_str())),
            None => None,
        };
        let upload_metadata = match lookup_header(pairs, "upload-metadata") {
            Some(v) => decode_pairs(v.as_str()),
            None => None,
        };
        TusHeaders {
            offset,
            upload_length,
            version,
            supported_versions,
            resumable,
            extensions,
            max_size,
            checksum_algorithms,
            upload_metadata,
            location,
        }
    }
}

} // verus!
