//! The capability the stream operations are written against: a run of bytes
//! with a read position that can be moved.

use vstd::prelude::*;

verus! {

/// An operation on a source did not succeed. The cause is not kept: the
/// engine on the far side can be told of a failure, and of nothing else.
#[derive(Debug, Clone, Copy, PartialEq, Eq)]
pub struct Failure;

/// The place a seek is measured from, and the signed distance from it.
#[derive(Debug, Clone, Copy, PartialEq, Eq)]
pub enum SeekFrom {
    /// An offset from the first byte.
    Start(u64),
    /// A distance from the end of the bytes.
    End(i64),
    /// A distance from the current position.
    Current(i64),
}

/// What a source is, as far as contracts are concerned.
pub struct SourceModel {
    /// Every byte of the source, from its start.
    pub bytes: Seq<u8>,
    /// The offset at which the next read begins.
    pub position: nat,
    /// The largest offset the position can be moved to. A source of fixed
    /// size has its length here; one that lets the position run past its
    /// end has more.
    pub extent: nat,
    /// How many operations on the source have faulted so far. An operation
    /// faults when it fails for a reason that lies outside this model: a
    /// device that does not answer, say. A seek that is refused because its
    /// target cannot be reached is a failure too, but no fault.
    pub faults: nat,
    /// Whether the source never faults.
    pub reliable: bool,
}

impl SourceModel {
    /// The bounds every source keeps: offsets fit in 64 bits, the end of the
    /// bytes can be reached, and the position is an offset that can be
    /// reached.
    pub open spec fn wf(self) -> bool {
        &&& self.bytes.len() <= self.extent <= u64::MAX
        &&& self.position <= self.extent
    }

    /// The same source with its position at `position`.
    pub open spec fn at(self, position: nat) -> SourceModel {
        SourceModel { position, ..self }
    }

    /// Whether `other` is this source, at whatever position and after
    /// however many faults.
    pub open spec fn same_source(self, other: SourceModel) -> bool {
        other == (SourceModel { position: other.position, faults: other.faults, ..self })
    }

    /// Whether `later` is this source after one more fault. A fault leaves
    /// the position anywhere.
    pub open spec fn faulted(self, later: SourceModel) -> bool {
        self.same_source(later) && later.faults == self.faults + 1
    }

    /// The bytes from the position to the end; none once the position has
    /// reached or passed the end.
    pub open spec fn unread(self) -> Seq<u8> {
        if self.position <= self.bytes.len() {
            self.bytes.skip(self.position as int)
        } else {
            Seq::empty()
        }
    }

    /// The bytes a read of at most `limit` bytes yields: the unread bytes,
    /// cut off after `limit` of them.
    pub open spec fn upcoming(self, limit: nat) -> Seq<u8> {
        if limit < self.unread().len() {
            self.unread().take(limit as int)
        } else {
            self.unread()
        }
    }

    /// The offset that `from` denotes. It may be negative or lie past the
    /// extent; such a target is not admitted.
    pub open spec fn target(self, from: SeekFrom) -> int {
        match from {
            SeekFrom::Start(offset) => offset as int,
            SeekFrom::End(distance) => self.bytes.len() + distance,
            SeekFrom::Current(distance) => self.position + distance,
        }
    }

    /// Whether the position can be moved to `target`.
    pub open spec fn admits(self, target: int) -> bool {
        0 <= target <= self.extent
    }

    /// What a seek that does not fault returns, and the source after it. A
    /// target that is admitted becomes the position and is returned. One
    /// that is not is refused, and the position stays.
    pub open spec fn sought(self, from: SeekFrom) -> (Result<u64, Failure>, SourceModel) {
        let target = self.target(from);
        if self.admits(target) {
            (Ok(target as u64), self.at(target as nat))
        } else {
            (Err(Failure), self)
        }
    }
}

/// A source of bytes that can be read in sequence and repositioned.
///
/// The contracts of the two operations are what the stream operations rely
/// on. Each says that the operation either does what the model of the
/// source calls for, or faults: then it fails, and the position is unknown.
///
/// A source written in verified code is held to these contracts. One
/// written in unverified code is not, and has to meet them all the same:
/// there they are the duty of whoever writes it.
pub trait Source {
    /// The bytes, position and limits of this source.
    ///
    /// A verified source states its own. The default says nothing of the
    /// source, and is there so that a source in unverified code, which has
    /// no means to state a model, need not name one.
    open spec fn model(&self) -> SourceModel {
        arbitrary()
    }

    /// Reads from the position onward until `limit` bytes have been read or
    /// the end is reached, whichever comes first, and moves the position
    /// past what was read.
    fn read_up_to(&mut self, limit: u64) -> (r: Result<Vec<u8>, Failure>)
        requires
            old(self).model().wf(),
        ensures
            ({
                let before = old(self).model();
                let after = final(self).model();
                &&& after.wf()
                &&& before.reliable ==> after.faults == before.faults
                &&& after.faults == before.faults ==> match r {
                    Ok(chunk) => {
                        &&& chunk@ == before.upcoming(limit as nat)
                        &&& after == before.at(before.position + chunk@.len())
                    },
                    Err(_) => false,
                }
                &&& after.faults != before.faults ==> r is Err && before.faulted(after)
            }),
    ;

    /// Moves the position to the offset that `from` denotes and returns that
    /// offset. A target that the source does not admit is refused, and the
    /// position stays where it was.
    fn seek(&mut self, from: SeekFrom) -> (r: Result<u64, Failure>)
        requires
            old(self).model().wf(),
        ensures
            ({
                let before = old(self).model();
                let after = final(self).model();
                &&& after.wf()
                &&& before.reliable ==> after.faults == before.faults
                &&& after.faults == before.faults ==> (r, after) == before.sought(from)
                &&& after.faults != before.faults ==> r is Err && before.faulted(after)
            }),
    ;
}

} // verus!
