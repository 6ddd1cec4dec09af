//! The FoxPro/Visual FoxPro memo store (`.fpt` files): header fields and
//! record lengths are big-endian — deliberately the opposite of the dBase
//! stores — and records are length-prefixed.

use vstd::prelude::*;

use crate::errors::Error;
use crate::memo::FromMemo;
use crate::memo::MemoReader;
use crate::memo::take_at_most;
use crate::num::be16_at;
use crate::num::be32_at;

verus! {

/// Reader for the FoxPro/Visual FoxPro memo store.
pub struct FptReader {
    pub source: Vec<u8>,
    pub next_block: u32,
    pub block_size: u16,
}

impl FptReader {
    /// Opens a FoxPro memo store over its raw bytes. Bytes 0-3 are the
    /// big-endian next-free-block pointer and bytes 6-7 the big-endian block
    /// size — historically 64, but always read from the header, never
    /// assumed.
    pub fn from_reader(source: Vec<u8>) -> (r: Result<Self, Error>)
        ensures
            (match r {
                Ok(reader) => {
                    &&& source@.len() >= 8
                    &&& reader.source@ == source@
                    &&& reader.next_block == be32_at(source@, 0)
                    &&& reader.block_size == be16_at(source@, 6)
                },
                Err(e) => source@.len() < 8 && e == Error::UnexpectedEof,
            }),
    {
        if source.len() < 8 {
            return Err(Error::UnexpectedEof);
        }
        let next_block = crate::num::read_be_u32(source.as_slice(), 0);
        let block_size = crate::num::read_be_u16(source.as_slice(), 6);
        Ok(FptReader { source, next_block, block_size })
    }
}

impl MemoReader for FptReader {
    open spec fn store(&self) -> Seq<u8> {
        self.source@
    }

    open spec fn next_block(&self) -> u32 {
        self.next_block
    }

    /// FoxPro framing: at the block start stand a 4-byte record-type tag
    /// (big-endian, ignored) and a 4-byte big-endian payload length. Exactly
    /// that many payload bytes follow; a store that ends early yields the
    /// bytes that are present.
    open spec fn payload_at(&self, index: u32) -> Result<Seq<u8>, Error> {
        let s = self.source@;
        let pos = index * self.block_size;
        if s.len() < pos + 8 {
            Err(Error::UnexpectedEof)
        } else {
            Ok(take_at_most(s, pos + 8, be32_at(s, pos + 4) as int))
        }
    }

    fn read_memo<T: FromMemo>(&self, index: u32) -> (r: Result<T, Error>) {
        let n = self.source.len();
        proof {
            assert(index * self.block_size <= 0xffff_ffff * 0xffff) by (nonlinear_arith)
                requires
                    index <= 0xffff_ffff,
                    self.block_size <= 0xffff,
            ;
        }
        let pos: u64 = index as u64 * self.block_size as u64;
        if (n as u64) < pos + 8 {
            return Err(Error::UnexpectedEof);
        }
        let start: usize = pos as usize;
        let count = crate::num::read_be_u32(self.source.as_slice(), start + 4);
        let end64: u64 = (start + 8) as u64 + count as u64;
        let end: usize = if end64 > n as u64 {
            n
        } else {
            end64 as usize
        };
        let payload = vstd::slice::slice_to_vec(
            vstd::slice::slice_subrange(self.source.as_slice(), start + 8, end),
        );
        proof {
            assert(payload@ == self.payload_at(index)->Ok_0);
        }
        T::from_memo(payload)
    }

    fn next_available_block(&self) -> (r: u32) {
        self.next_block
    }
}

} // verus!
