//! Read-only decoding of the dBase family of tabular file formats: the table
//! file (fixed 32-byte header plus 32-byte column descriptors) and its
//! companion memo stores in three historical dialects (dBase III, dBase IV/5,
//! FoxPro/Visual FoxPro).
//!
//! The crate root holds the terminator scanner: the byte-sequence utility that
//! both schema decoding (NUL-trimming column names) and dBase III memo
//! extraction (finding the `0x1A 0x1A` sentinel) are built on.

use vstd::prelude::*;
use vstd::slice::slice_subrange;

pub mod date;
pub mod dbf;
pub mod errors;
pub mod memo;
pub mod num;
pub mod text;

verus! {

/// True when the delimiter `d` occurs in `s`, in full and contiguously,
/// starting exactly at position `i`.
pub open spec fn matches_at(s: Seq<u8>, d: Seq<u8>, i: int) -> bool {
    &&& 0 <= i
    &&& i + d.len() <= s.len()
    &&& s.subrange(i, i + d.len() as int) == d
}

/// Length of the prefix of `s` that precedes the first full occurrence of
/// `d`, or the length of `s` itself when `d` never occurs in full.
pub open spec fn scan_len(s: Seq<u8>, d: Seq<u8>) -> nat
    decreases s.len(),
{
    if s.len() == 0 {
        0
    } else if matches_at(s, d, 0) {
        0
    } else {
        (scan_len(s.skip(1), d) + 1) as nat
    }
}

/// The prefix of `s` before the first full occurrence of `d`: the result of
/// both scan forms (the bounded scan over a slice and the streaming scan that
/// accumulates byte by byte).
pub open spec fn scan_prefix(s: Seq<u8>, d: Seq<u8>) -> Seq<u8> {
    s.take(scan_len(s, d) as int)
}

proof fn lemma_matches_at_shift(s: Seq<u8>, d: Seq<u8>, i: int)
    requires
        s.len() >= 1,
        0 <= i,
    ensures
        matches_at(s.skip(1), d, i) <==> matches_at(s, d, i + 1),
{
    if i + 1 + d.len() <= s.len() {
        assert(s.skip(1).subrange(i, i + d.len() as int) =~= s.subrange(
            i + 1,
            i + 1 + d.len() as int,
        ));
    }
}

/// `scan_len` is at most the length of the scanned sequence, no full
/// occurrence of the delimiter starts before it, and it either sits on a full
/// occurrence or at the very end.
pub proof fn lemma_scan_len_spec(s: Seq<u8>, d: Seq<u8>)
    requires
        d.len() > 0,
    ensures
        scan_len(s, d) <= s.len(),
        forall|i: int| 0 <= i < scan_len(s, d) ==> !matches_at(s, d, i),
        scan_len(s, d) == s.len() || matches_at(s, d, scan_len(s, d) as int),
    decreases s.len(),
{
    if s.len() == 0 {
    } else if matches_at(s, d, 0) {
    } else {
        lemma_scan_len_spec(s.skip(1), d);
        assert forall|i: int| 0 <= i < scan_len(s, d) implies !matches_at(s, d, i) by {
            if i > 0 {
                lemma_matches_at_shift(s, d, i - 1);
            }
        }
        if scan_len(s.skip(1), d) != s.skip(1).len() {
            lemma_matches_at_shift(s, d, scan_len(s.skip(1), d) as int);
        }
    }
}

/// Any position that no full occurrence precedes and that itself carries a
/// full occurrence (or is the end of the sequence) is exactly `scan_len`.
pub proof fn lemma_scan_len_unique(s: Seq<u8>, d: Seq<u8>, n: int)
    requires
        d.len() > 0,
        0 <= n <= s.len(),
        forall|i: int| 0 <= i < n ==> !matches_at(s, d, i),
        n == s.len() || matches_at(s, d, n),
    ensures
        scan_len(s, d) == n,
{
    lemma_scan_len_spec(s, d);
    if scan_len(s, d) < n {
        assert(matches_at(s, d, scan_len(s, d) as int));
    } else if scan_len(s, d) > n {
        assert(!matches_at(s, d, n));
    }
}

/// Law: for a byte sequence in which the delimiter fully occurs first at
/// position `n`, both scan forms return exactly the prefix before that
/// occurrence. In particular a sequence containing exactly one full
/// occurrence scans to the prefix before it.
pub proof fn lemma_scan_stops_at_first_occurrence(s: Seq<u8>, d: Seq<u8>, n: int)
    requires
        d.len() > 0,
        matches_at(s, d, n),
        forall|i: int| 0 <= i < n ==> !matches_at(s, d, i),
    ensures
        scan_len(s, d) == n,
        scan_prefix(s, d) == s.take(n),
{
    lemma_scan_len_unique(s, d, n);
}

/// Law: when the delimiter never occurs in full, the scan returns the whole
/// sequence unchanged.
pub proof fn lemma_scan_keeps_all_without_occurrence(s: Seq<u8>, d: Seq<u8>)
    requires
        d.len() > 0,
        forall|i: int| !matches_at(s, d, i),
    ensures
        scan_len(s, d) == s.len(),
        scan_prefix(s, d) == s,
{
    lemma_scan_len_unique(s, d, s.len() as int);
    assert(scan_prefix(s, d) =~= s);
}

/// Law: a byte equal to a 2-byte delimiter's first byte, but not followed by
/// its partner byte, does not falsely terminate the scan — that byte is
/// retained in the output (provided no full occurrence precedes it).
pub proof fn lemma_partial_match_is_retained(s: Seq<u8>, d: Seq<u8>, j: int)
    requires
        d.len() == 2,
        0 <= j < s.len(),
        s[j] == d[0],
        j + 1 < s.len() ==> s[j + 1] != d[1],
        forall|i: int| 0 <= i < j ==> !matches_at(s, d, i),
    ensures
        scan_len(s, d) > j,
        scan_prefix(s, d)[j] == s[j],
{
    assert(!matches_at(s, d, j)) by {
        if matches_at(s, d, j) {
            assert(s.subrange(j, j + 2)[1] == s[j + 1]);
        }
    }
    lemma_scan_len_spec(s, d);
    if scan_len(s, d) <= j {
        assert(matches_at(s, d, scan_len(s, d) as int));
    }
}

pub(crate) fn window_matches(s: &[u8], d: &[u8], i: usize) -> (b: bool)
    requires
        i + d@.len() <= s@.len(),
    ensures
        b == matches_at(s@, d@, i as int),
{
    let n = s.len();
    let dl = d.len();
    let mut k: usize = 0;
    while k < dl
        invariant
            k <= dl,
            n == s@.len(),
            dl == d@.len(),
            i + dl <= n,
            forall|m: int| 0 <= m < k ==> s@[i + m] == d@[m],
        decreases dl - k,
    {
        if s[i + k] != d[k] {
            proof {
                if matches_at(s@, d@, i as int) {
                    assert(s@.subrange(i as int, i + d@.len() as int)[k as int] == d@[k as int]);
                }
            }
            return false;
        }
        k += 1;
    }
    proof {
        assert(s@.subrange(i as int, i + d@.len() as int) =~= d@);
    }
    true
}

/// Bounded terminator scan over an in-memory byte sequence: the prefix
/// preceding the first complete, contiguous occurrence of the delimiter, or
/// the entire sequence if the delimiter never occurs in full.
pub trait SliceUntilTerminator {
    spec fn bytes(&self) -> Seq<u8>;

    fn until_terminator<'a>(&'a self, delimiter: &[u8]) -> (r: &'a [u8])
        requires
            delimiter@.len() > 0,
        ensures
            r@ == scan_prefix(self.bytes(), delimiter@),
    ;
}

impl SliceUntilTerminator for [u8] {
    open spec fn bytes(&self) -> Seq<u8> {
        self@
    }

    fn until_terminator<'a>(&'a self, delimiter: &[u8]) -> (r: &'a [u8]) {
        let n = self.len();
        let dl = delimiter.len();
        if dl > n {
            proof {
                lemma_scan_keeps_all_without_occurrence(self@, delimiter@);
            }
            return self;
        }
        let mut i: usize = 0;
        while i <= n - dl
            invariant
                dl <= n,
                n == self@.len(),
                dl == delimiter@.len(),
                dl > 0,
                i <= n - dl + 1,
                forall|j: int| 0 <= j < i ==> !matches_at(self@, delimiter@, j),
            decreases n - i,
        {
            if window_matches(self, delimiter, i) {
                proof {
                    lemma_scan_len_unique(self@, delimiter@, i as int);
                }
                return slice_subrange(self, 0, i);
            }
            i += 1;
        }
        proof {
            lemma_scan_keeps_all_without_occurrence(self@, delimiter@);
        }
        self
    }
}

} // verus!
