//! The plain memo reader: dBase III style, with a fixed 512-byte block size
//! and terminator-delimited records, keeping the store header's version byte
//! alongside the next-free-block pointer.

use vstd::prelude::*;

use crate::errors::Error;
use crate::memo::FromMemo;
use crate::memo::block_tail;
use crate::memo::memo_terminator;
use crate::memo::read_until_terminator;
use crate::memo::tail_from;
use crate::num::le32_at;
use crate::scan_prefix;

verus! {

/// The decoded header of a plain memo store: a fixed 512-byte block size,
/// the little-endian next-free-block pointer from bytes 0-3, and the version
/// byte from byte 16.
pub struct MemoHeader {
    pub block_size: u16,
    pub next_block: u32,
    pub version: u8,
}

/// Reader for special memo streams: the dBase III shape, over the raw bytes
/// of the whole store.
pub struct MemoReader {
    pub source: Vec<u8>,
    pub header: MemoHeader,
}

impl MemoReader {
    /// Opens the memo store over its raw bytes: at least the 17 header bytes
    /// up to and including the version byte must be present.
    pub fn from_reader(source: Vec<u8>) -> (r: Result<Self, Error>)
        ensures
            (match r {
                Ok(reader) => {
                    &&& source@.len() >= 17
                    &&& reader.source@ == source@
                    &&& reader.header.block_size == 512
                    &&& reader.header.next_block == le32_at(source@, 0)
                    &&& reader.header.version == source@[16]
                },
                Err(e) => source@.len() < 17 && e == Error::UnexpectedEof,
            }),
    {
        if source.len() < 17 {
            return Err(Error::UnexpectedEof);
        }
        let next_block = crate::num::read_le_u32(source.as_slice(), 0);
        let version = source[16];
        let header = MemoHeader { block_size: 512, next_block, version };
        Ok(MemoReader { source, header })
    }

    /// The record that block `index` addresses: the bytes from offset
    /// `index * block_size` up to the first full `0x1A 0x1A` sentinel, or to
    /// the end of the store when the sentinel never occurs.
    pub open spec fn payload_at(&self, index: u32) -> Seq<u8> {
        scan_prefix(tail_from(self.source@, index * self.header.block_size), memo_terminator())
    }

    /// Reads the memo payload at the given block index and converts it.
    pub fn read_memo<T: FromMemo>(&self, index: u32) -> (r: Result<T, Error>)
        ensures
            T::from_memo_ensures(self.payload_at(index), r),
    {
        proof {
            assert(index * self.header.block_size <= 0xffff_ffff * 0xffff) by (nonlinear_arith)
                requires
                    index <= 0xffff_ffff,
                    self.header.block_size <= 0xffff,
            ;
        }
        let data = block_tail(&self.source, index as u64 * self.header.block_size as u64);
        let term: [u8; 2] = [0x1a, 0x1a];
        proof {
            assert(term@ =~= memo_terminator());
        }
        let payload = read_until_terminator(data, term.as_slice());
        T::from_memo(payload)
    }
}

} // verus!
