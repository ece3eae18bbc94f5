//! The four operations through which the engine draws on a source.
//!
//! Each answers with one signed 64-bit number. [`FAILED`] stands for a
//! failure of the source; there is no other way to tell the engine of one.
//! The operations keep no state of their own: what they know they ask of
//! the source, each time anew.

use crate::source::{Failure, SeekFrom, Source, SourceModel};
use vstd::prelude::*;

verus! {

/// The answer that tells the engine that an operation failed.
pub const FAILED: i64 = -1;

/// The signed number whose 64 bits are those of the unsigned `n`: `n`
/// itself up to `i64::MAX`, and `n - 2^64` above.
pub open spec fn as_signed(n: int) -> int {
    if n <= i64::MAX {
        n
    } else {
        n - 0x1_0000_0000_0000_0000
    }
}

/// The unsigned number whose 64 bits are those of the signed `v`: `v`
/// itself from zero on, and `v + 2^64` below.
pub open spec fn as_unsigned(v: int) -> int {
    if v >= 0 {
        v
    } else {
        v + 0x1_0000_0000_0000_0000
    }
}

fn to_signed(n: u64) -> (r: i64)
    ensures
        r == as_signed(n as int),
{
    assert(n <= 0x7fff_ffff_ffff_ffffu64 ==> (n as i64) == n) by (bit_vector);
    assert(n > 0x7fff_ffff_ffff_ffffu64 ==> (n as i64) == n - 0x1_0000_0000_0000_0000)
        by (bit_vector);
    #[verifier::truncate]
    (n as i64)
}

fn to_unsigned(v: i64) -> (r: u64)
    ensures
        r == as_unsigned(v as int),
{
    assert(v >= 0 ==> (v as u64) == v) by (bit_vector);
    assert(v < 0 ==> (v as u64) == v + 0x1_0000_0000_0000_0000) by (bit_vector);
    #[verifier::truncate]
    (v as u64)
}

/// The answer for the outcome of a seek: the offset that was reached, as a
/// signed number, or [`FAILED`].
pub open spec fn reported(outcome: Result<u64, Failure>) -> int {
    match outcome {
        Ok(offset) => as_signed(offset as int),
        Err(_) => FAILED as int,
    }
}

/// Turns the outcome of a seek into the answer for the engine.
pub fn report(outcome: Result<u64, Failure>) -> (r: i64)
    ensures
        r == reported(outcome),
{
    match outcome {
        Ok(offset) => to_signed(offset),
        Err(_) => FAILED,
    }
}

/// Turns the outcome of a read into the answer for the engine. The bytes
/// that were read go to the front of `data`, the rest of `data` stays, and
/// the answer is the number of bytes read. After a failed read `data` is
/// left as it was and the answer is [`FAILED`].
pub fn deliver(outcome: Result<Vec<u8>, Failure>, data: &mut [u8]) -> (r: i64)
    requires
        outcome matches Ok(chunk) ==> chunk@.len() <= old(data)@.len(),
    ensures
        match outcome {
            Ok(chunk) => {
                &&& r == as_signed(chunk@.len() as int)
                &&& final(data)@ == chunk@ + old(data)@.skip(chunk@.len() as int)
            },
            Err(_) => r == FAILED && final(data)@ == old(data)@,
        },
{
    match outcome {
        Ok(chunk) => {
            let count = chunk.len();
            let mut i: usize = 0;
            while i < count
                invariant
                    i <= count == chunk@.len() <= data@.len() == old(data)@.len(),
                    data@ == chunk@.take(i as int) + old(data)@.skip(i as int),
                decreases count - i,
            {
                data[i] = chunk[i];
                i += 1;
                assert(data@ =~= chunk@.take(i as int) + old(data)@.skip(i as int));
            }
            assert(chunk@.take(count as int) =~= chunk@);
            to_signed(count as u64)
        },
        Err(_) => FAILED,
    }
}

/// What a read of `size` bytes into `data` comes to when the source does
/// not fault: the answer, the contents of `data` afterwards, and the source
/// afterwards.
pub open spec fn read_result(data: Seq<u8>, size: i64, source: SourceModel) -> (
    int,
    Seq<u8>,
    SourceModel,
) {
    let chunk = source.upcoming(size as nat);
    (
        chunk.len() as int,
        chunk + data.skip(chunk.len() as int),
        source.at(source.position + chunk.len()),
    )
}

/// What a seek to `position` comes to when the source does not fault: the
/// answer and the source afterwards. A negative `position` stands for the
/// offset with the same 64 bits. An offset that the source does not admit
/// is answered with [`FAILED`], and the position stays.
pub open spec fn seek_result(position: i64, source: SourceModel) -> (int, SourceModel) {
    let target = as_unsigned(position as int);
    if source.admits(target) {
        (position as int, source.at(target as nat))
    } else {
        (FAILED as int, source)
    }
}

/// What asking for the position comes to when the source does not fault:
/// the answer and the source afterwards.
pub open spec fn tell_result(source: SourceModel) -> (int, SourceModel) {
    (as_signed(source.position as int), source)
}

/// What asking for the size comes to when the source does not fault: the
/// answer and the source afterwards.
pub open spec fn get_size_result(source: SourceModel) -> (int, SourceModel) {
    (as_signed(source.bytes.len() as int), source)
}

/// Reads up to `size` bytes from the position of `stream` onward into the
/// front of `data` and answers with the number of bytes read, which is less
/// than `size` only where the source ends first. The position moves past
/// what was read.
///
/// A `size` of zero answers zero and touches neither `stream` nor `data`.
/// When the source faults the answer is [`FAILED`] and `data` is left as it
/// was. The engine never asks for a negative number of bytes, and `data`
/// has room for as many as it asks for.
pub fn read<S: Source>(data: &mut [u8], size: i64, stream: &mut S) -> (r: i64)
    requires
        old(stream).model().wf(),
        0 <= size <= old(data)@.len(),
    ensures
        ({
            let before = old(stream).model();
            let after = final(stream).model();
            &&& after.wf()
            &&& before.reliable || size == 0 ==> after.faults == before.faults
            &&& after.faults == before.faults ==> (r as int, final(data)@, after) == read_result(
                old(data)@,
                size,
                before,
            )
            &&& after.faults != before.faults ==> {
                &&& r == FAILED
                &&& final(data)@ == old(data)@
                &&& before.faulted(after)
            }
        }),
{
    if size == 0 {
        return 0;
    }
    let outcome = stream.read_up_to(size as u64);
    deliver(outcome, data)
}

/// Moves the position of `stream` to `position` bytes from its start and
/// answers with the new position, or with [`FAILED`] when the source
/// refuses the offset or faults.
pub fn seek<S: Source>(position: i64, stream: &mut S) -> (r: i64)
    requires
        old(stream).model().wf(),
    ensures
        ({
            let before = old(stream).model();
            let after = final(stream).model();
            &&& after.wf()
            &&& before.reliable ==> after.faults == before.faults
            &&& after.faults == before.faults ==> (r as int, after) == seek_result(position, before)
            &&& after.faults != before.faults ==> r == FAILED && before.faulted(after)
        }),
{
    let outcome = stream.seek(SeekFrom::Start(to_unsigned(position)));
    report(outcome)
}

/// Answers with the position of `stream`, or with [`FAILED`] when the
/// source faults. The position stays where it was.
pub fn tell<S: Source>(stream: &mut S) -> (r: i64)
    requires
        old(stream).model().wf(),
    ensures
        ({
            let before = old(stream).model();
            let after = final(stream).model();
            &&& after.wf()
            &&& before.reliable ==> after.faults == before.faults
            &&& after.faults == before.faults ==> (r as int, after) == tell_result(before)
            &&& after.faults != before.faults ==> r == FAILED && before.faulted(after)
        }),
{
    let outcome = stream.seek(SeekFrom::Current(0));
    report(outcome)
}

/// Answers with the number of bytes in `stream`, or with [`FAILED`] when the
/// source faults.
///
/// The size is found by moving to the end, so the position is noted first
/// and put back afterwards. Putting it back is attempted whether or not the
/// end was reached, and a fault in doing so does not change the answer: the
/// position is then unknown, and the size is answered all the same.
pub fn get_size<S: Source>(stream: &mut S) -> (r: i64)
    requires
        old(stream).model().wf(),
    ensures
        ({
            let before = old(stream).model();
            let after = final(stream).model();
            &&& after.wf()
            &&& before.reliable ==> after.faults == before.faults
            &&& after.faults == before.faults ==> (r as int, after) == get_size_result(before)
            &&& after.faults != before.faults ==> {
                &&& before.same_source(after)
                &&& before.faults < after.faults <= before.faults + 2
                &&& r == FAILED || (r == get_size_result(before).0 && before.faulted(after))
            }
        }),
{
    let here = match stream.seek(SeekFrom::Current(0)) {
        Ok(offset) => offset,
        Err(_) => {
            return FAILED;
        },
    };
    let end = stream.seek(SeekFrom::End(0));
    let _ = stream.seek(SeekFrom::Start(here));
    report(end)
}

/// A read that asks for more than is left, from a source that does not
/// fault, answers with the number of bytes that are left, puts exactly
/// those at the front of the destination, and moves the position on by as
/// many.
pub proof fn read_stops_at_end(data: Seq<u8>, size: i64, source: SourceModel)
    requires
        source.wf(),
        size > source.unread().len(),
    ensures
        read_result(data, size, source) == (
            source.unread().len() as int,
            source.unread() + data.skip(source.unread().len() as int),
            source.at(source.position + source.unread().len()),
        ),
{
}

/// Asking for the size leaves the position where it was: asked for next,
/// it is the position from before, where the source does not fault.
pub proof fn get_size_keeps_position(source: SourceModel)
    requires
        source.wf(),
        source.position <= i64::MAX,
    ensures
        get_size_result(source).1 == source,
        tell_result(get_size_result(source).1).0 == source.position,
{
}

/// After a seek to an offset within the bytes the position, asked for
/// next, is that offset, where the source does not fault.
pub proof fn seek_then_tell(offset: i64, source: SourceModel)
    requires
        source.wf(),
        0 <= offset <= source.bytes.len(),
    ensures
        seek_result(offset, source).0 == offset,
        tell_result(seek_result(offset, source).1).0 == offset,
{
}

} // verus!
