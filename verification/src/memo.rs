//! Companion memo stores: variable-length text/binary payloads referenced by
//! memo-type columns, addressed by zero-based block index. Three historical
//! dialects share the capability contract `MemoReader`; each frames payloads
//! differently (terminator scanning vs. length prefixing) and the dBase
//! dialects are little-endian while FoxPro is big-endian.

use vstd::prelude::*;

use crate::errors::Error;
use crate::matches_at;
use crate::scan_prefix;
use crate::lemma_scan_len_unique;
use crate::lemma_scan_keeps_all_without_occurrence;

pub mod dbt;
pub mod fpt;
pub mod simple;

verus! {

/// The suffix of `s` that starts at byte offset `off`, or the empty sequence
/// when `off` lies past the end: what a seek to `off` followed by reading to
/// exhaustion yields.
pub open spec fn tail_from(s: Seq<u8>, off: int) -> Seq<u8> {
    if 0 <= off <= s.len() {
        s.skip(off)
    } else {
        Seq::<u8>::empty()
    }
}

/// The bytes of `s` from `start` up to `start + count`, stopping early at the
/// end of `s`: what reading at most `count` bytes from offset `start` yields.
pub open spec fn take_at_most(s: Seq<u8>, start: int, count: int) -> Seq<u8>
    recommends
        0 <= start <= s.len(),
        0 <= count,
{
    if start + count <= s.len() {
        s.subrange(start, start + count)
    } else {
        s.subrange(start, s.len() as int)
    }
}

/// The 2-byte terminator sentinel that ends a memo payload in the formats
/// without explicit length prefixes.
pub open spec fn memo_terminator() -> Seq<u8> {
    seq![0x1au8, 0x1au8]
}

/// The suffix of the store starting at byte offset `off`, as a borrowed
/// slice: what a seek to `off` exposes for reading, empty when `off` lies at
/// or past the end.
pub(crate) fn block_tail(source: &Vec<u8>, off: u64) -> (r: &[u8])
    ensures
        r@ == tail_from(source@, off as int),
{
    let n = source.len();
    if off >= n as u64 {
        let r = vstd::slice::slice_subrange(source.as_slice(), n, n);
        proof {
            assert(r@ =~= tail_from(source@, off as int));
        }
        r
    } else {
        let r = vstd::slice::slice_subrange(source.as_slice(), off as usize, n);
        proof {
            assert(r@ =~= tail_from(source@, off as int));
        }
        r
    }
}

/// Represent a value decoded from a raw memo payload.
pub trait FromMemo: Sized {
    /// The relation between the raw payload bytes and the conversion result.
    spec fn from_memo_ensures(raw: Seq<u8>, r: Result<Self, Error>) -> bool;

    fn from_memo(raw: Vec<u8>) -> (r: Result<Self, Error>)
        ensures
            Self::from_memo_ensures(raw@, r),
    ;
}

impl FromMemo for String {
    /// Text projection: succeeds exactly on valid UTF-8 and yields the
    /// decoded characters; anything else is an encoding error.
    open spec fn from_memo_ensures(raw: Seq<u8>, r: Result<Self, Error>) -> bool {
        &&& r is Ok <==> vstd::utf8::valid_utf8(raw)
        &&& (r matches Ok(s) ==> s@ == vstd::utf8::decode_utf8(raw))
        &&& (r is Err ==> r->Err_0 == Error::Encoding)
    }

    fn from_memo(raw: Vec<u8>) -> (r: Result<Self, Error>) {
        match crate::text::string_from_utf8(raw) {
            Some(s) => Ok(s),
            None => Err(Error::Encoding),
        }
    }
}

impl FromMemo for Vec<u8> {
    /// Raw projection: always succeeds and hands the payload back unchanged.
    open spec fn from_memo_ensures(raw: Seq<u8>, r: Result<Self, Error>) -> bool {
        r matches Ok(v) && v@ == raw
    }

    fn from_memo(raw: Vec<u8>) -> (r: Result<Self, Error>) {
        Ok(raw)
    }
}

/// Shared capability contract of the three memo-store dialects: resolve a
/// zero-based block index to a decoded payload, and report the header's
/// next-free-block field.
pub trait MemoReader: Sized {
    /// The raw bytes of the whole memo store file.
    spec fn store(&self) -> Seq<u8>;

    /// The next-free-block pointer read from the store's header. It is
    /// informational only: never recomputed, never used for addressing.
    spec fn next_block(&self) -> u32;

    /// The dialect's framing: the raw payload (or error) that reading the
    /// given block index yields.
    spec fn payload_at(&self, index: u32) -> Result<Seq<u8>, Error>;

    fn read_memo<T: FromMemo>(&self, index: u32) -> (r: Result<T, Error>)
        ensures
            (match self.payload_at(index) {
                Ok(payload) => T::from_memo_ensures(payload, r),
                Err(e) => r == Result::<T, Error>::Err(e),
            }),
    ;

    fn next_available_block(&self) -> (r: u32)
        ensures
            r == self.next_block(),
    ;
}

/// Streaming terminator scan: consume bytes one at a time, accumulating
/// them, and stop — truncating the delimiter from the result — the instant
/// the trailing window of accumulated bytes equals the delimiter; if the
/// source is exhausted first, everything accumulated is returned. A partial
/// match never falsely terminates the accumulation.
pub fn read_until_terminator(data: &[u8], delimiter: &[u8]) -> (r: Vec<u8>)
    requires
        delimiter@.len() > 0,
    ensures
        r@ == scan_prefix(data@, delimiter@),
{
    let n = data.len();
    let dl = delimiter.len();
    let mut output: Vec<u8> = Vec::new();
    let mut i: usize = 0;
    while i < n
        invariant
            i <= n,
            n == data@.len(),
            dl == delimiter@.len(),
            dl > 0,
            output@ == data@.take(i as int),
            forall|j: int| 0 <= j <= i - dl ==> !matches_at(data@, delimiter@, j),
        decreases n - i,
    {
        output.push(data[i]);
        i += 1;
        proof {
            assert(output@ =~= data@.take(i as int));
        }
        if output.len() >= dl {
            let size = output.len() - dl;
            let found = crate::window_matches(output.as_slice(), delimiter, size);
            proof {
                assert(output@.subrange(size as int, size + dl) =~= data@.subrange(
                    size as int,
                    size + dl,
                ));
                assert(found == matches_at(data@, delimiter@, size as int));
            }
            if found {
                proof {
                    lemma_scan_len_unique(data@, delimiter@, size as int);
                }
                output.truncate(size);
                proof {
                    assert(output@ =~= scan_prefix(data@, delimiter@));
                }
                return output;
            }
        }
    }
    proof {
        lemma_scan_keeps_all_without_occurrence(data@, delimiter@);
        assert(output@ =~= data@);
    }
    output
}

} // verus!
