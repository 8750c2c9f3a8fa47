//! Module-name normalization, decoding and matching.
//!
//! A module lookup compares names case-insensitively after forcing a
//! `.dll`-style suffix onto the query, the way a path library forces an
//! extension: only the query's file name — what follows the last path
//! separator, with redundant trailing separators and `.` components set
//! aside — takes part. Its extension (everything after the last dot past the
//! component's first character) is dropped and the suffix is appended; a
//! query with no file name at all (empty, `.`, `..`, a lone separator) keeps
//! its text. The whole result is lowercased.
//!
//! A captured module record carries its display name as raw bytes in a fixed
//! buffer; the text is the bytes up to the first zero byte, decoded as UTF-8,
//! and a name that is not valid UTF-8 surfaces as a decoding failure.

use vstd::prelude::*;

use vstd::string::StringSliceAdditionalSpecFns;
use vstd::string::StrSliceExecFns;
use vstd::utf8::decode_utf8;
use vstd::utf8::encode_utf8_decode_utf8;
use vstd::utf8::encode_utf8_valid_utf8;
use vstd::utf8::valid_utf8;

use crate::snapshot::ModuleEntry;

verus! {

/// Lowercases one character: the twenty-six uppercase letters map to their
/// lowercase forms, everything else is unchanged.
pub open spec fn lower_char(c: char) -> char {
    if 65 <= c as u32 && c as u32 <= 90 {
        (((c as u32) + 32) as u8) as char
    } else {
        c
    }
}

/// Lowercases a character sequence pointwise.
pub open spec fn lower_seq(s: Seq<char>) -> Seq<char> {
    s.map_values(|c: char| lower_char(c))
}

/// The forced extension, separator included.
pub open spec fn dll_suffix() -> Seq<char> {
    seq!['.', 'd', 'l', 'l']
}

/// Whether a character separates path components.
pub open spec fn is_sep(c: char) -> bool {
    c == '/' || c == '\\'
}

/// Where the last path component starts: the position right after the last
/// separator, or zero when there is none.
pub open spec fn file_start(q: Seq<char>) -> int
    decreases q.len(),
{
    if q.len() == 0 {
        0
    } else if is_sep(q.last()) {
        q.len() as int
    } else {
        file_start(q.drop_last())
    }
}

/// The component start is well defined: no separator stands at or after it,
/// and a separator stands right before it unless it is the very beginning.
pub proof fn lemma_file_start(q: Seq<char>)
    ensures
        0 <= file_start(q) <= q.len(),
        forall|j: int| file_start(q) <= j < q.len() ==> !is_sep(q[j]),
        file_start(q) > 0 ==> is_sep(q[file_start(q) - 1]),
    decreases q.len(),
{
    if q.len() > 0 && !is_sep(q.last()) {
        lemma_file_start(q.drop_last());
        assert(forall|j: int| 0 <= j < q.len() - 1 ==> q.drop_last()[j] == q[j]);
    }
}

/// Only one position can be the component start.
pub proof fn lemma_file_start_unique(q: Seq<char>, k: int)
    requires
        0 <= k <= q.len(),
        forall|j: int| k <= j < q.len() ==> !is_sep(q[j]),
        k > 0 ==> is_sep(q[k - 1]),
    ensures
        k == file_start(q),
{
    lemma_file_start(q);
    let f = file_start(q);
    if k < f {
        assert(!is_sep(q[f - 1]));
    }
    if f < k {
        assert(!is_sep(q[k - 1]));
    }
}

/// How much of the query carries its file name: trailing separators and
/// trailing `.` components say nothing about the name and are set aside,
/// exactly as a path library sets them aside when it resolves the file name.
pub open spec fn effective_len(q: Seq<char>) -> int
    decreases q.len(),
{
    if q.len() == 0 {
        0
    } else if is_sep(q.last()) {
        effective_len(q.drop_last())
    } else if q.last() == '.' && file_start(q) == q.len() - 1 {
        effective_len(q.drop_last())
    } else {
        q.len() as int
    }
}

/// The effective length stays within the query, and the effective part does
/// not end in a separator.
pub proof fn lemma_effective_len(q: Seq<char>)
    ensures
        0 <= effective_len(q) <= q.len(),
        effective_len(q) > 0 ==> !is_sep(q[effective_len(q) - 1]),
    decreases q.len(),
{
    if q.len() > 0 && (is_sep(q.last()) || (q.last() == '.' && file_start(q) == q.len() - 1)) {
        lemma_effective_len(q.drop_last());
        assert(forall|j: int| 0 <= j < q.len() - 1 ==> q.drop_last()[j] == q[j]);
    }
}

/// Where the component's stem ends: the position of the last extension
/// separator — a dot at any position past the component's first character —
/// or the component's length when there is none. A dot in the first position
/// marks a hidden-style name, not an extension.
pub open spec fn stem_end(q: Seq<char>) -> int
    decreases q.len(),
{
    if q.len() <= 1 {
        q.len() as int
    } else if q[q.len() - 1] == '.' {
        q.len() - 1
    } else {
        let r = stem_end(q.drop_last());
        if r == q.len() - 1 {
            q.len() as int
        } else {
            r
        }
    }
}

/// What it means for `k` to be where the stem of a component `q` ends:
/// either there is no extension separator and the stem is all of `q`, or `k`
/// names the last dot past the first character.
pub open spec fn is_stem_end(q: Seq<char>, k: int) -> bool {
    ||| (k == q.len() && (forall|j: int| 1 <= j < q.len() ==> q[j] != '.'))
    ||| (1 <= k < q.len() && q[k] == '.' && (forall|j: int| k < j < q.len() ==> q[j] != '.'))
}

/// The recursive stem scan lands on a position with the stated meaning.
pub proof fn lemma_stem_end(q: Seq<char>)
    ensures
        is_stem_end(q, stem_end(q)),
    decreases q.len(),
{
    if q.len() > 1 && q[q.len() - 1] != '.' {
        lemma_stem_end(q.drop_last());
        assert(forall|j: int| 0 <= j < q.len() - 1 ==> q.drop_last()[j] == q[j]);
    }
}

/// Only one position can carry the stated meaning.
pub proof fn lemma_stem_end_unique(q: Seq<char>, k1: int, k2: int)
    requires
        is_stem_end(q, k1),
        is_stem_end(q, k2),
    ensures
        k1 == k2,
{
}

/// The normalized form of a query. The file name is what the effective part
/// of the query ends in; a query without one (empty, `.`, `..`, lone
/// separators) keeps its text, and any other query keeps everything up to
/// its file name's stem and gains the forced suffix. Everything is
/// lowercased.
pub open spec fn normalized(q: Seq<char>) -> Seq<char> {
    let e = q.take(effective_len(q));
    if e.len() == 0 {
        lower_seq(q)
    } else {
        let s = file_start(e);
        if e.len() - s == 2 && e[s] == '.' && e[s + 1] == '.' {
            lower_seq(q)
        } else {
            lower_seq(e.take(s + stem_end(e.skip(s)))) + dll_suffix()
        }
    }
}

/// How far a record's name buffer carries text: up to its first zero byte,
/// or the whole buffer when none occurs.
pub open spec fn name_len(bytes: Seq<u8>) -> int
    decreases bytes.len(),
{
    if bytes.len() == 0 {
        0
    } else if bytes[0] == 0 {
        0
    } else {
        1 + name_len(bytes.drop_first())
    }
}

/// The text length is well defined: the bytes before it are nonzero and a
/// zero byte stands at it unless the buffer ends there.
pub proof fn lemma_name_len(bytes: Seq<u8>)
    ensures
        0 <= name_len(bytes) <= bytes.len(),
        forall|i: int| 0 <= i < name_len(bytes) ==> bytes[i] != 0,
        name_len(bytes) < bytes.len() ==> bytes[name_len(bytes)] == 0,
    decreases bytes.len(),
{
    if bytes.len() > 0 && bytes[0] != 0 {
        lemma_name_len(bytes.drop_first());
        assert forall|i: int| 0 <= i < name_len(bytes) implies bytes[i] != 0 by {
            if i > 0 {
                assert(bytes.drop_first()[i - 1] == bytes[i]);
            }
        }
    }
}

/// Only one position can be where the text ends.
pub proof fn lemma_name_len_unique(bytes: Seq<u8>, k: int)
    requires
        0 <= k <= bytes.len(),
        forall|i: int| 0 <= i < k ==> bytes[i] != 0,
        k == bytes.len() || bytes[k] == 0,
    ensures
        k == name_len(bytes),
{
    lemma_name_len(bytes);
    let n = name_len(bytes);
    if k < n {
        assert(bytes[k] != 0);
    }
    if n < k {
        assert(bytes[n] != 0);
    }
}

/// The text captured in a module record's name buffer: the bytes up to the
/// first zero byte, decoded as UTF-8, or nothing when they are not a valid
/// encoding.
pub open spec fn decoded_name(bytes: Seq<u8>) -> Option<Seq<char>> {
    let text = bytes.take(name_len(bytes));
    if valid_utf8(text) {
        Some(decode_utf8(text))
    } else {
        None
    }
}

/// A module record answers the query when its name decodes and, lowercased,
/// equals the query's normalized form.
pub open spec fn entry_matches(q: Seq<char>, bytes: Seq<u8>) -> bool {
    match decoded_name(bytes) {
        None => false,
        Some(n) => lower_seq(n) == normalized(q),
    }
}

/// A record stops the scan: either its name does not decode (the lookup
/// fails) or it answers the query (the lookup returns it).
pub open spec fn significant(q: Seq<char>, entry: ModuleEntry) -> bool {
    decoded_name(entry.name@) is None || entry_matches(q, entry.name@)
}

/// Index of the first record that stops the scan, in enumeration order; the
/// sequence's length when none does.
pub open spec fn first_significant(q: Seq<char>, entries: Seq<ModuleEntry>) -> int
    decreases entries.len(),
{
    if entries.len() == 0 {
        0
    } else if significant(q, entries[0]) {
        0
    } else {
        1 + first_significant(q, entries.drop_first())
    }
}

/// The first stopping record is well defined: it lies in range, records
/// before it neither fail to decode nor answer the query, and the record it
/// points at stops the scan.
pub proof fn lemma_first_significant(q: Seq<char>, entries: Seq<ModuleEntry>)
    ensures
        0 <= first_significant(q, entries) <= entries.len(),
        forall|j: int| 0 <= j < first_significant(q, entries) ==> !significant(q, entries[j]),
        first_significant(q, entries) < entries.len() ==> significant(
            q,
            entries[first_significant(q, entries)],
        ),
    decreases entries.len(),
{
    if entries.len() > 0 && !significant(q, entries[0]) {
        lemma_first_significant(q, entries.drop_first());
        assert forall|j: int| 0 <= j < first_significant(q, entries) implies !significant(
            q,
            entries[j],
        ) by {
            if j > 0 {
                assert(entries.drop_first()[j - 1] == entries[j]);
            }
        }
    }
}

/// When every record before `k` lets the scan pass and record `k` stops it,
/// the scan stops exactly at `k`.
pub proof fn lemma_first_significant_eq(q: Seq<char>, entries: Seq<ModuleEntry>, k: int)
    requires
        0 <= k < entries.len(),
        forall|j: int| 0 <= j < k ==> !significant(q, entries[j]),
        significant(q, entries[k]),
    ensures
        first_significant(q, entries) == k,
    decreases entries.len(),
{
    if k > 0 {
        assert forall|j: int| 0 <= j < k - 1 implies !significant(
            q,
            entries.drop_first()[j],
        ) by {
            assert(entries.drop_first()[j] == entries[j + 1]);
        }
        assert(entries.drop_first()[k - 1] == entries[k]);
        lemma_first_significant_eq(q, entries.drop_first(), k - 1);
    }
}

/// When no record stops the scan it runs off the end.
pub proof fn lemma_none_significant(q: Seq<char>, entries: Seq<ModuleEntry>)
    requires
        forall|j: int| 0 <= j < entries.len() ==> !significant(q, entries[j]),
    ensures
        first_significant(q, entries) == entries.len(),
    decreases entries.len(),
{
    if entries.len() > 0 {
        assert(!significant(q, entries[0]));
        assert forall|j: int| 0 <= j < entries.drop_first().len() implies !significant(
            q,
            entries.drop_first()[j],
        ) by {
            assert(entries.drop_first()[j] == entries[j + 1]);
        }
        lemma_none_significant(q, entries.drop_first());
    }
}

/// Law: when every captured name decodes and none answers the query, the
/// lookup sees nothing to stop at — it reports an absent module, never an
/// error.
pub proof fn lemma_no_match_is_absent(q: Seq<char>, entries: Seq<ModuleEntry>)
    requires
        forall|j: int| 0 <= j < entries.len() ==> decoded_name(entries[j].name@) is Some,
        forall|j: int| 0 <= j < entries.len() ==> !entry_matches(q, entries[j].name@),
    ensures
        first_significant(q, entries) == entries.len(),
{
    assert forall|j: int| 0 <= j < entries.len() implies !significant(q, entries[j]) by {
        assert(decoded_name(entries[j].name@) is Some);
    }
    lemma_none_significant(q, entries);
}

/// Law: the lookup depends on the query only through its normalized form —
/// two queries that normalize alike stop the scan at the same record and
/// match the same entries.
pub proof fn lemma_result_depends_on_normalized(
    q1: Seq<char>,
    q2: Seq<char>,
    entries: Seq<ModuleEntry>,
)
    requires
        normalized(q1) == normalized(q2),
    ensures
        forall|j: int|
            0 <= j < entries.len() ==> entry_matches(q1, entries[j].name@) == entry_matches(
                q2,
                entries[j].name@,
            ),
        first_significant(q1, entries) == first_significant(q2, entries),
    decreases entries.len(),
{
    assert forall|j: int|
        0 <= j < entries.len() implies entry_matches(q1, entries[j].name@) == entry_matches(
        q2,
        entries[j].name@,
    ) by {
        assert(entry_matches(q1, entries[j].name@) == entry_matches(q2, entries[j].name@));
    }
    if entries.len() > 0 {
        assert(significant(q1, entries[0]) == significant(q2, entries[0]));
        lemma_result_depends_on_normalized(q1, q2, entries.drop_first());
    }
}

/// Lowercasing moves no character onto or off the extension separator.
pub proof fn lemma_lower_char_dot(c: char)
    ensures
        (lower_char(c) == '.') <==> (c == '.'),
{
    if 65 <= c as u32 && c as u32 <= 90 {
        assert(lower_char(c) as u32 == c as u32 + 32);
        assert(lower_char(c) != '.');
    }
}

/// Lowercasing moves no character onto or off the path separators.
pub proof fn lemma_lower_char_sep(c: char)
    ensures
        is_sep(lower_char(c)) <==> is_sep(c),
{
    if 65 <= c as u32 && c as u32 <= 90 {
        assert(lower_char(c) as u32 == c as u32 + 32);
        assert(!is_sep(lower_char(c)));
    }
}

/// Two sequences with separators in the same places have the same component
/// start.
proof fn lemma_same_shape_file_start(q1: Seq<char>, q2: Seq<char>)
    requires
        q1.len() == q2.len(),
        forall|i: int| 0 <= i < q1.len() ==> is_sep(q1[i]) == is_sep(q2[i]),
    ensures
        file_start(q1) == file_start(q2),
    decreases q1.len(),
{
    if q1.len() > 0 {
        assert(is_sep(q1.last()) == is_sep(q2.last()));
        if !is_sep(q1.last()) {
            assert forall|i: int| 0 <= i < q1.len() - 1 implies is_sep(q1.drop_last()[i])
                == is_sep(q2.drop_last()[i]) by {
                assert(q1.drop_last()[i] == q1[i] && q2.drop_last()[i] == q2[i]);
            }
            lemma_same_shape_file_start(q1.drop_last(), q2.drop_last());
        }
    }
}

/// Two sequences with separators and dots in the same places carry their
/// file names over the same effective length.
proof fn lemma_same_shape_effective(q1: Seq<char>, q2: Seq<char>)
    requires
        q1.len() == q2.len(),
        forall|i: int| 0 <= i < q1.len() ==> is_sep(q1[i]) == is_sep(q2[i]),
        forall|i: int| 0 <= i < q1.len() ==> (q1[i] == '.') == (q2[i] == '.'),
    ensures
        effective_len(q1) == effective_len(q2),
    decreases q1.len(),
{
    if q1.len() > 0 {
        lemma_same_shape_file_start(q1, q2);
        assert forall|i: int| 0 <= i < q1.len() - 1 implies is_sep(q1.drop_last()[i]) == is_sep(
            q2.drop_last()[i],
        ) && (q1.drop_last()[i] == '.') == (q2.drop_last()[i] == '.') by {
            assert(q1.drop_last()[i] == q1[i] && q2.drop_last()[i] == q2[i]);
        }
        if is_sep(q1.last()) || (q1.last() == '.' && file_start(q1) == q1.len() - 1) {
            lemma_same_shape_effective(q1.drop_last(), q2.drop_last());
        }
    }
}

/// Two components with dots in the same places have the same stem end.
proof fn lemma_same_dots_stem_end(q1: Seq<char>, q2: Seq<char>)
    requires
        q1.len() == q2.len(),
        forall|i: int| 0 <= i < q1.len() ==> (q1[i] == '.') == (q2[i] == '.'),
    ensures
        stem_end(q1) == stem_end(q2),
{
    lemma_stem_end(q1);
    lemma_stem_end(q2);
    lemma_stem_end_unique(q2, stem_end(q1), stem_end(q2));
}

/// Law: normalization is case-insensitive — two queries whose characters
/// lowercase alike normalize to the same name, so they answer alike.
pub proof fn lemma_normalized_case_insensitive(q1: Seq<char>, q2: Seq<char>)
    requires
        q1.len() == q2.len(),
        forall|i: int| 0 <= i < q1.len() ==> lower_char(q1[i]) == lower_char(q2[i]),
    ensures
        normalized(q1) == normalized(q2),
{
    assert forall|i: int|
        0 <= i < q1.len() implies (q1[i] == '.') == (q2[i] == '.') && is_sep(q1[i]) == is_sep(
        q2[i],
    ) by {
        lemma_lower_char_dot(q1[i]);
        lemma_lower_char_dot(q2[i]);
        lemma_lower_char_sep(q1[i]);
        lemma_lower_char_sep(q2[i]);
    }
    lemma_same_shape_effective(q1, q2);
    lemma_effective_len(q1);
    let m = effective_len(q1);
    let e1 = q1.take(m);
    let e2 = q2.take(m);
    assert(lower_seq(q1) =~= lower_seq(q2));
    if m > 0 {
        assert forall|i: int|
            0 <= i < e1.len() implies is_sep(e1[i]) == is_sep(e2[i]) && (e1[i] == '.') == (e2[i]
            == '.') by {
            assert(e1[i] == q1[i] && e2[i] == q2[i]);
        }
        lemma_same_shape_file_start(e1, e2);
        let s = file_start(e1);
        lemma_file_start(e1);
        if !(e1.len() - s == 2 && e1[s] == '.' && e1[s + 1] == '.') {
            let c1 = e1.skip(s);
            let c2 = e2.skip(s);
            assert forall|i: int| 0 <= i < c1.len() implies (c1[i] == '.') == (c2[i]
                == '.') by {
                assert(c1[i] == e1[s + i] && c2[i] == e2[s + i]);
            }
            lemma_same_dots_stem_end(c1, c2);
            lemma_stem_end(c1);
            let t = s + stem_end(c1);
            assert(lower_seq(e1.take(t)) =~= lower_seq(e2.take(t)));
        }
    }
}

/// Law: appending the forced extension to a plain stem changes nothing — a
/// separator-free query that is not `.` and has no extension separator, and
/// the same query with the suffix already present, normalize to the same
/// name.
pub proof fn lemma_normalized_dll_suffix(q: Seq<char>)
    requires
        q.len() > 0,
        forall|i: int| 0 <= i < q.len() ==> !is_sep(q[i]),
        forall|j: int| 1 <= j < q.len() ==> q[j] != '.',
        !(q.len() == 1 && q[0] == '.'),
    ensures
        normalized(q + dll_suffix()) == normalized(q),
{
    let q2 = q + dll_suffix();
    // the plain query is all file name: nothing to strip, component at zero
    assert(q.last() != '.');
    assert(effective_len(q) == q.len());
    lemma_file_start_unique(q, 0);
    assert(q.take(q.len() as int) =~= q);
    assert(q.skip(0) =~= q);
    lemma_stem_end(q);
    lemma_stem_end_unique(q, q.len() as int, stem_end(q));
    // so is the suffixed query, whose last dot is the appended one
    assert(q2.last() == 'l');
    assert(effective_len(q2) == q2.len());
    lemma_file_start_unique(q2, 0);
    assert(q2.take(q2.len() as int) =~= q2);
    assert(q2.skip(0) =~= q2);
    assert(q2[q.len() as int] == '.');
    assert forall|j: int| q.len() < j < q2.len() implies q2[j] != '.' by {
        assert(q2[j] == dll_suffix()[j - q.len()]);
    }
    assert(is_stem_end(q2, q.len() as int));
    lemma_stem_end(q2);
    lemma_stem_end_unique(q2, q.len() as int, stem_end(q2));
    assert(q2.take(q.len() as int) =~= q);
    assert(normalized(q2) == lower_seq(q) + dll_suffix());
    assert(normalized(q) == lower_seq(q) + dll_suffix());
}

/// Relies on str::from_utf8: it succeeds exactly on bytes that are a valid
/// UTF-8 encoding, and the returned text is their decoding (it re-encodes to
/// the given bytes).
#[verifier::external_body]
fn utf8_str(bytes: &[u8]) -> (r: Option<&str>)
    ensures
        r is Some <==> valid_utf8(bytes@),
        r matches Some(s) ==> s.spec_bytes() == bytes@,
{
    core::str::from_utf8(bytes).ok()
}

/// Lowercases one character, as [`lower_char`] describes.
pub fn to_lower_char(c: char) -> (r: char)
    ensures
        r == lower_char(c),
{
    let code: u32 = c as u32;
    if 65 <= code && code <= 90 {
        ((code as u8) + 32) as char
    } else {
        c
    }
}

/// Whether a character separates path components, as [`is_sep`] describes.
fn sep_char(c: char) -> (r: bool)
    ensures
        r == is_sep(c),
{
    c == '/' || c == '\\'
}

/// Lowercases the whole query.
fn lower_all(name: &str) -> (r: Vec<char>)
    ensures
        r@ == lower_seq(name@),
{
    let n = name.unicode_len();
    let mut out: Vec<char> = Vec::new();
    let mut i: usize = 0;
    while i < n
        invariant
            n == name@.len(),
            0 <= i <= n,
            out@.len() == i,
            forall|j: int| 0 <= j < i ==> out@[j] == lower_char(name@[j]),
        decreases n - i,
    {
        out.push(to_lower_char(name.get_char(i)));
        i += 1;
    }
    proof {
        assert(out@ =~= lower_seq(name@));
    }
    out
}

/// Finds how much of the query carries its file name, stripping trailing
/// separators and trailing `.` components.
fn effective_end(name: &str) -> (r: usize)
    ensures
        r as int == effective_len(name@),
        r <= name@.len(),
{
    let n = name.unicode_len();
    let mut e: usize = n;
    proof {
        assert(name@.take(n as int) =~= name@);
        lemma_effective_len(name@);
    }
    while e > 0
        invariant
            n == name@.len(),
            0 <= e <= n,
            effective_len(name@) == effective_len(name@.take(e as int)),
        decreases e,
    {
        let ghost p = name@.take(e as int);
        proof {
            assert(p.drop_last() =~= name@.take(e as int - 1));
        }
        let c = name.get_char(e - 1);
        if sep_char(c) {
            e -= 1;
        } else if c == '.' && (e == 1 || sep_char(name.get_char(e - 2))) {
            proof {
                lemma_file_start_unique(p, e as int - 1);
            }
            e -= 1;
        } else {
            proof {
                lemma_file_start(p);
                if c == '.' && file_start(p) == e as int - 1 {
                    // the dot would be a lone `.` component, yet a
                    // non-separator stands right before it
                    assert(is_sep(p[e as int - 2]));
                    assert(false);
                }
                assert(effective_len(p) == e as int);
            }
            return e;
        }
    }
    proof {
        assert(name@.take(0) =~= Seq::<char>::empty());
    }
    0
}

/// Finds where the file name starts inside the effective part `take(e)` of
/// the query.
fn comp_start(name: &str, e: usize) -> (r: usize)
    requires
        e <= name@.len(),
    ensures
        r as int == file_start(name@.take(e as int)),
        r <= e,
{
    let ghost p = name@.take(e as int);
    let mut s: usize = e;
    while s > 0
        invariant
            e <= name@.len(),
            0 <= s <= e,
            p == name@.take(e as int),
            forall|j: int| s <= j < e ==> !is_sep(p[j]),
        decreases s,
    {
        if sep_char(name.get_char(s - 1)) {
            proof {
                lemma_file_start_unique(p, s as int);
            }
            return s;
        }
        s -= 1;
    }
    proof {
        lemma_file_start_unique(p, 0);
    }
    0
}

/// Finds where the file name's stem ends, as a position in the query: the
/// last dot of the component `take(e).skip(s)` past its first character, or
/// the component's end.
fn stem_abs(name: &str, s: usize, e: usize) -> (r: usize)
    requires
        s < e <= name@.len(),
    ensures
        r as int == s + stem_end(name@.take(e as int).skip(s as int)),
        r <= e,
{
    let ghost comp = name@.take(e as int).skip(s as int);
    let mut i: usize = e;
    while i > s + 1
        invariant
            s < e <= name@.len(),
            comp == name@.take(e as int).skip(s as int),
            s + 1 <= i <= e,
            forall|j: int| i <= j < e ==> name@[j] != '.',
        decreases i,
    {
        i -= 1;
        if name.get_char(i) == '.' {
            proof {
                lemma_stem_end(comp);
                assert(comp[i - s as int] == name@[i as int]);
                assert forall|j: int| i - s < j < comp.len() implies comp[j] != '.' by {
                    assert(comp[j] == name@[s + j]);
                }
                assert(is_stem_end(comp, i - s as int));
                lemma_stem_end_unique(comp, i - s as int, stem_end(comp));
            }
            return i;
        }
    }
    proof {
        lemma_stem_end(comp);
        assert forall|j: int| 1 <= j < comp.len() implies comp[j] != '.' by {
            assert(comp[j] == name@[s + j]);
        }
        assert(is_stem_end(comp, comp.len() as int));
        lemma_stem_end_unique(comp, comp.len() as int, stem_end(comp));
    }
    e
}

/// Builds the normalized form of a query, as [`normalized`] describes.
pub fn normalized_query(name: &str) -> (r: Vec<char>)
    ensures
        r@ == normalized(name@),
{
    let e = effective_end(name);
    if e == 0 {
        return lower_all(name);
    }
    let ghost eff = name@.take(e as int);
    let s = comp_start(name, e);
    proof {
        // the effective part does not end in a separator, so a file name
        // component follows its component start
        lemma_effective_len(name@);
        lemma_file_start(eff);
        if s == e {
            assert(is_sep(eff[e as int - 1]));
            assert(false);
        }
    }
    if e - s == 2 && name.get_char(s) == '.' && name.get_char(s + 1) == '.' {
        return lower_all(name);
    }
    let t = stem_abs(name, s, e);
    proof {
        assert(eff.take(t as int) =~= name@.take(t as int));
    }
    let mut out: Vec<char> = Vec::new();
    let mut i: usize = 0;
    while i < t
        invariant
            t <= name@.len(),
            0 <= i <= t,
            out@.len() == i,
            forall|j: int| 0 <= j < i ==> out@[j] == lower_char(name@[j]),
        decreases t - i,
    {
        out.push(to_lower_char(name.get_char(i)));
        i += 1;
    }
    out.push('.');
    out.push('d');
    out.push('l');
    out.push('l');
    proof {
        assert(out@ =~= lower_seq(name@.take(t as int)) + dll_suffix());
    }
    out
}

/// Checks one captured record against an already-normalized query: nothing
/// when the record's name is not valid UTF-8, otherwise whether the
/// lowercased name equals the query.
pub(crate) fn entry_check(norm: &Vec<char>, entry: &ModuleEntry) -> (r: Option<bool>)
    ensures
        r is None <==> decoded_name(entry.name@) is None,
        r matches Some(b) ==> (decoded_name(entry.name@) matches Some(n) && b == (lower_seq(n)
            == norm@)),
{
    // the text runs to the first zero byte
    let mut k: usize = 0;
    while k < 256 && entry.name[k] != 0
        invariant
            entry.name@.len() == 256,
            0 <= k <= 256,
            forall|i: int| 0 <= i < k ==> entry.name@[i] != 0,
        decreases 256 - k,
    {
        k += 1;
    }
    proof {
        lemma_name_len_unique(entry.name@, k as int);
    }
    let mut text: Vec<u8> = Vec::new();
    let mut i: usize = 0;
    while i < k
        invariant
            entry.name@.len() == 256,
            k <= 256,
            0 <= i <= k,
            text@.len() == i,
            forall|j: int| 0 <= j < i ==> text@[j] == entry.name@[j],
        decreases k - i,
    {
        text.push(entry.name[i]);
        i += 1;
    }
    proof {
        assert(text@ =~= entry.name@.take(name_len(entry.name@)));
    }
    match utf8_str(text.as_slice()) {
        None => None,
        Some(s) => {
            proof {
                encode_utf8_valid_utf8(s@);
                encode_utf8_decode_utf8(s@);
                assert(decoded_name(entry.name@) == Some(s@));
            }
            let sl = s.unicode_len();
            if sl != norm.len() {
                proof {
                    assert(lower_seq(s@).len() != norm@.len());
                }
                return Some(false);
            }
            let mut j: usize = 0;
            while j < sl
                invariant
                    decoded_name(entry.name@) == Some(s@),
                    sl == s@.len(),
                    norm@.len() == sl,
                    0 <= j <= sl,
                    forall|i2: int| 0 <= i2 < j ==> lower_char(s@[i2]) == norm@[i2],
                decreases sl - j,
            {
                if to_lower_char(s.get_char(j)) != norm[j] {
                    proof {
                        assert(lower_seq(s@)[j as int] != norm@[j as int]);
                    }
                    return Some(false);
                }
                j += 1;
            }
            proof {
                assert(lower_seq(s@) =~= norm@);
            }
            Some(true)
        },
    }
}

} // verus!
