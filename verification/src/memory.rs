//! A block device held in memory: a byte array of fixed size that is read
//! and written at an offset, as a device node is.

use vstd::prelude::*;

verus! {

/// The smaller of two lengths.
pub open spec fn least(a: int, b: int) -> int {
    if a <= b {
        a
    } else {
        b
    }
}

/// What a read of up to `len` bytes at `offset` returns: the bytes from
/// there to the end of the medium, `len` of them at most.
pub open spec fn read_result(medium: Seq<u8>, offset: int, len: int) -> Seq<u8> {
    if offset >= medium.len() {
        Seq::empty()
    } else {
        medium.subrange(offset, offset + least(len, medium.len() - offset))
    }
}

/// Number of bytes that a write of `len` bytes at `offset` takes: what fits
/// before the end of the medium.
pub open spec fn write_accepts(medium_len: int, offset: int, len: int) -> int {
    if offset >= medium_len {
        0
    } else {
        least(len, medium_len - offset)
    }
}

/// The medium after `data` was written at `offset`: the bytes that fit
/// replace what was there, everything else stays, and the size is the same.
pub open spec fn write_result(medium: Seq<u8>, offset: int, data: Seq<u8>) -> Seq<u8> {
    let taken = write_accepts(medium.len() as int, offset, data.len() as int);
    if taken == 0 {
        medium
    } else {
        medium.take(offset) + data.take(taken) + medium.skip(offset + taken)
    }
}

/// Reads up to `len` bytes at `offset`. At or past the end the read is
/// empty, which is how the end of a medium shows.
pub fn read_at(medium: &[u8], offset: usize, len: usize) -> (chunk: &[u8])
    ensures
        chunk@ == read_result(medium@, offset as int, len as int),
{
    if offset >= medium.len() {
        let chunk = &medium[0..0];
        assert(chunk@ =~= Seq::<u8>::empty());
        chunk
    } else {
        let room: usize = medium.len() - offset;
        let n: usize = if len <= room {
            len
        } else {
            room
        };
        &medium[offset..offset + n]
    }
}

/// Writes `data` at `offset` and returns how many bytes were taken. The
/// medium does not grow: bytes that do not fit are not taken.
pub fn write_at(medium: &mut Vec<u8>, offset: usize, data: &[u8]) -> (taken: usize)
    ensures
        taken as int == write_accepts(old(medium)@.len() as int, offset as int, data@.len() as int),
        final(medium)@ == write_result(old(medium)@, offset as int, data@),
        final(medium)@.len() == old(medium)@.len(),
{
    if offset >= medium.len() {
        return 0;
    }
    let room: usize = medium.len() - offset;
    let n: usize = if data.len() <= room {
        data.len()
    } else {
        room
    };
    let ghost before = medium@;
    assert(before.len() <= usize::MAX);
    let mut i: usize = 0;
    while i < n
        invariant
            i <= n,
            n as int == write_accepts(before.len() as int, offset as int, data@.len() as int),
            offset + n <= before.len() <= usize::MAX,
            n <= data@.len(),
            medium@.len() == before.len(),
            forall|j: int| 0 <= j < offset ==> medium@[j] == before[j],
            forall|j: int| offset <= j < offset + i ==> medium@[j] == data@[j - offset],
            forall|j: int| offset + i <= j < before.len() ==> medium@[j] == before[j],
        decreases n - i,
    {
        let byte: u8 = data[i];
        medium.set(offset + i, byte);
        i = i + 1;
    }
    assert(medium@ =~= write_result(before, offset as int, data@));
    n
}

} // verus!
