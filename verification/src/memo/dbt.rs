//! The dBase memo stores (`.dbt` files): the dBase III dialect with fixed
//! 512-byte blocks and terminator-delimited records, and the dBase IV/5
//! dialect with a header-declared block size and length-prefixed records.
//! Both store their multi-byte header fields little-endian.

use vstd::prelude::*;

use crate::errors::Error;
use crate::memo::FromMemo;
use crate::memo::MemoReader;
use crate::memo::block_tail;
use crate::memo::memo_terminator;
use crate::memo::read_until_terminator;
use crate::memo::tail_from;
use crate::memo::take_at_most;
use crate::num::le16_at;
use crate::num::le32_at;
use crate::scan_prefix;

verus! {

/// Reader for the dBase III memo store: fixed 512-byte blocks, records
/// delimited by the 2-byte sentinel `0x1A 0x1A`.
pub struct Dbt3Reader {
    pub source: Vec<u8>,
    pub next_block: u32,
}

impl Dbt3Reader {
    /// Opens a dBase III memo store over its raw bytes. Bytes 0-3 of the
    /// header are the little-endian next-free-block pointer; it is kept as
    /// informational pass-through and never recomputed.
    pub fn from_reader(source: Vec<u8>) -> (r: Result<Self, Error>)
        ensures
            (match r {
                Ok(reader) => {
                    &&& source@.len() >= 4
                    &&& reader.source@ == source@
                    &&& reader.next_block == le32_at(source@, 0)
                },
                Err(e) => source@.len() < 4 && e == Error::UnexpectedEof,
            }),
    {
        if source.len() < 4 {
            return Err(Error::UnexpectedEof);
        }
        let next_block = crate::num::read_le_u32(source.as_slice(), 0);
        Ok(Dbt3Reader { source, next_block })
    }
}

impl MemoReader for Dbt3Reader {
    open spec fn store(&self) -> Seq<u8> {
        self.source@
    }

    open spec fn next_block(&self) -> u32 {
        self.next_block
    }

    /// dBase III framing: the record starts at byte offset `index * 512` and
    /// runs up to the first full `0x1A 0x1A` sentinel; the length is not
    /// stored but discovered by scanning, and a store exhausted before the
    /// sentinel yields everything up to its end, with no error.
    open spec fn payload_at(&self, index: u32) -> Result<Seq<u8>, Error> {
        Ok(scan_prefix(tail_from(self.source@, index * 512), memo_terminator()))
    }

    fn read_memo<T: FromMemo>(&self, index: u32) -> (r: Result<T, Error>) {
        let data = block_tail(&self.source, index as u64 * 512);
        let term: [u8; 2] = [0x1a, 0x1a];
        proof {
            assert(term@ =~= memo_terminator());
        }
        let payload = read_until_terminator(data, term.as_slice());
        T::from_memo(payload)
    }

    fn next_available_block(&self) -> (r: u32) {
        self.next_block
    }
}

/// Reader for the dBase IV/5 memo store: block size declared in the header,
/// records carrying an explicit total length. Sentinel bytes embedded in a
/// record are valid data here — no terminator scan is ever applied.
pub struct Dbt4Reader {
    pub source: Vec<u8>,
    pub next_block: u32,
    pub block_size: u16,
}

impl Dbt4Reader {
    /// Opens a dBase IV/5 memo store over its raw bytes. Bytes 0-3 are the
    /// little-endian next-free-block pointer; bytes 20-21 the little-endian
    /// block size, with 512 as the default when the stored value is zero.
    pub fn from_reader(source: Vec<u8>) -> (r: Result<Self, Error>)
        ensures
            (match r {
                Ok(reader) => {
                    &&& source@.len() >= 22
                    &&& reader.source@ == source@
                    &&& reader.next_block == le32_at(source@, 0)
                    &&& reader.block_size == (if le16_at(source@, 20) == 0 {
                        512u16
                    } else {
                        le16_at(source@, 20)
                    })
                },
                Err(e) => source@.len() < 22 && e == Error::UnexpectedEof,
            }),
    {
        if source.len() < 22 {
            return Err(Error::UnexpectedEof);
        }
        let next_block = crate::num::read_le_u32(source.as_slice(), 0);
        let stored = crate::num::read_le_u16(source.as_slice(), 20);
        let block_size: u16 = if stored == 0 {
            512
        } else {
            stored
        };
        Ok(Dbt4Reader { source, next_block, block_size })
    }
}

impl MemoReader for Dbt4Reader {
    open spec fn store(&self) -> Seq<u8> {
        self.source@
    }

    open spec fn next_block(&self) -> u32 {
        self.next_block
    }

    /// dBase IV/5 framing: at the block start stand a 4-byte record-type tag
    /// (ignored) and a 4-byte little-endian total length. The payload is
    /// `total - 8` bytes — a total below 8 is a length underflow — and a
    /// store that ends early yields the bytes that are present.
    open spec fn payload_at(&self, index: u32) -> Result<Seq<u8>, Error> {
        let s = self.source@;
        let pos = index * self.block_size;
        if s.len() < pos + 8 {
            Err(Error::UnexpectedEof)
        } else if le32_at(s, pos + 4) < 8 {
            Err(Error::LengthUnderflow)
        } else {
            Ok(take_at_most(s, pos + 8, le32_at(s, pos + 4) - 8))
        }
    }

    fn read_memo<T: FromMemo>(&self, index: u32) -> (r: Result<T, Error>) {
        let n = self.source.len();
        proof {
            assert(index * self.block_size <= 0xffff_ffff * 0xffff) by (nonlinear_arith)
                requires
                    index <= 0xffff_ffff,
                    self.block_size <= 0xffff,
            ;
        }
        let pos: u64 = index as u64 * self.block_size as u64;
        if (n as u64) < pos + 8 {
            return Err(Error::UnexpectedEof);
        }
        let start: usize = pos as usize;
        let total = crate::num::read_le_u32(self.source.as_slice(), start + 4);
        if total < 8 {
            return Err(Error::LengthUnderflow);
        }
        let count = total - 8;
        let end64: u64 = (start + 8) as u64 + count as u64;
        let end: usize = if end64 > n as u64 {
            n
        } else {
            end64 as usize
        };
        let payload = vstd::slice::slice_to_vec(
            vstd::slice::slice_subrange(self.source.as_slice(), start + 8, end),
        );
        proof {
            assert(payload@ == self.payload_at(index)->Ok_0);
        }
        T::from_memo(payload)
    }

    fn next_available_block(&self) -> (r: u32) {
        self.next_block
    }
}

} // verus!
