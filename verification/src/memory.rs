//! A source held in memory.

use crate::source::{Failure, SeekFrom, Source, SourceModel};
use vstd::prelude::*;

verus! {

/// A source over bytes held in memory. Its size is fixed: the position can
/// be moved to any offset up to the end of the bytes and no further. It
/// never faults.
pub struct MemorySource {
    data: Vec<u8>,
    position: usize,
}

impl MemorySource {
    /// A source over `data`, positioned at its first byte.
    pub fn new(data: Vec<u8>) -> (r: Self)
        ensures
            r.model() == (SourceModel {
                bytes: data@,
                position: 0,
                extent: data@.len(),
                faults: 0,
                reliable: true,
            }),
    {
        MemorySource { data, position: 0 }
    }
}

impl Source for MemorySource {
    closed spec fn model(&self) -> SourceModel {
        SourceModel {
            bytes: self.data@,
            position: self.position as nat,
            extent: self.data@.len(),
            faults: 0,
            reliable: true,
        }
    }

    fn read_up_to(&mut self, limit: u64) -> (r: Result<Vec<u8>, Failure>) {
        let len = self.data.len();
        let left = len - self.position;
        let count = if limit < left as u64 {
            limit as usize
        } else {
            left
        };
        let mut chunk: Vec<u8> = Vec::with_capacity(count);
        let mut i: usize = 0;
        while i < count
            invariant
                i <= count,
                self.position + count <= len == self.data@.len(),
                chunk@ == self.data@.subrange(self.position as int, self.position + i),
            decreases count - i,
        {
            chunk.push(self.data[self.position + i]);
            i += 1;
            assert(chunk@ =~= self.data@.subrange(self.position as int, self.position + i));
        }
        assert(chunk@ =~= old(self).model().upcoming(limit as nat));
        self.position = self.position + count;
        Ok(chunk)
    }

    fn seek(&mut self, from: SeekFrom) -> (r: Result<u64, Failure>) {
        let len = self.data.len();
        let target: i128 = match from {
            SeekFrom::Start(offset) => offset as i128,
            SeekFrom::End(distance) => len as i128 + distance as i128,
            SeekFrom::Current(distance) => self.position as i128 + distance as i128,
        };
        if 0 <= target && target <= len as i128 {
            self.position = target as usize;
            Ok(target as u64)
        } else {
            Err(Failure)
        }
    }
}

} // verus!
