//! The transfer engine: an image goes onto a device chunk by chunk.
//!
//! A [`TransferJob`] holds the counters of one transfer and decides each
//! next step. It does no I/O: it says what to do, and is told what came of
//! it.

use vstd::prelude::*;
use crate::memory::{least, read_at, write_at, write_result};
use crate::menu::{Key, Selection};
use crate::progress::ProgressSample;

verus! {

/// Size of the buffer that one read fills and one write empties: 4 MiB.
pub const BLOCK_SIZE: usize = 4194304;

/// Why a transfer was given up. Each is final: nothing is tried again, and
/// a new transfer starts at the first byte.
#[derive(Clone, Copy, Debug, PartialEq, Eq, Structural)]
pub enum TransferError {
    /// The image could not be read.
    ReadFailure,
    /// The device took fewer bytes than it was handed.
    ShortWrite,
    /// The device refused a write.
    WriteFailure,
    /// The data written may not have reached the medium.
    FlushFailure,
}

/// Where a transfer stands.
#[derive(Clone, Copy, Debug, PartialEq, Eq, Structural)]
pub enum TransferPhase {
    /// The next chunk is to be read from the image.
    Reading,
    /// A chunk of `len` bytes was read and is to be written to the device.
    Writing { len: usize },
    /// Everything was written; the device is to be flushed.
    Flushing,
    /// The device was flushed: the transfer is done.
    Completed,
    /// The transfer was given up.
    Failed(TransferError),
}

/// What the owner of the handles reports to the job.
#[derive(Clone, Copy, Debug, PartialEq, Eq, Structural)]
pub enum TransferEvent {
    /// A read returned this many bytes; none at the end of the image.
    Read(usize),
    /// A read failed.
    ReadFailed,
    /// A write took this many bytes.
    Written(usize),
    /// A write failed.
    WriteFailed,
    /// The flush succeeded.
    Flushed,
    /// The flush failed.
    FlushFailed,
}

/// What the owner of the handles is to do next.
#[derive(Clone, Copy, Debug, PartialEq, Eq, Structural)]
pub enum TransferAction {
    /// Read up to `len` bytes from the image.
    Read { len: usize },
    /// Write the `len` bytes just read to the device.
    Write { len: usize },
    /// Force what was written onto the medium.
    Flush,
    /// Report success.
    Finish,
    /// Report the failure.
    Abort(TransferError),
}

/// The counters of one transfer.
#[derive(Clone, Copy, Debug, PartialEq, Eq, Structural)]
pub struct TransferJob {
    /// Most bytes that one read asks for.
    pub block_size: usize,
    /// Size of the image when the job began.
    pub bytes_total: u64,
    /// Bytes that the device has taken so far.
    pub bytes_written: u64,
    /// Where the transfer stands.
    pub phase: TransferPhase,
}

/// The phase that follows a write: the flush once everything is written,
/// else the next read.
pub open spec fn phase_after_write(bytes_written: u64, bytes_total: u64) -> TransferPhase {
    if bytes_written == bytes_total {
        TransferPhase::Flushing
    } else {
        TransferPhase::Reading
    }
}

impl TransferJob {
    /// Bytes still to be written.
    pub open spec fn remaining(&self) -> int {
        self.bytes_total - self.bytes_written
    }

    /// Most bytes that the next read asks for: a block, or what is left of
    /// the image where that is less.
    pub open spec fn chunk_len(&self) -> int {
        least(self.block_size as int, self.remaining())
    }

    /// The counters are in range and agree with the phase.
    pub open spec fn wf(&self) -> bool {
        &&& self.block_size > 0
        &&& self.bytes_written <= self.bytes_total
        &&& self.phase == TransferPhase::Reading ==> self.bytes_written < self.bytes_total
        &&& self.phase matches TransferPhase::Writing { len } ==> 0 < len <= self.chunk_len()
    }

    /// The job before its first step.
    pub open spec fn started(bytes_total: u64, block_size: usize) -> TransferJob {
        TransferJob {
            block_size,
            bytes_total,
            bytes_written: 0,
            phase: phase_after_write(0, bytes_total),
        }
    }

    /// The same job in another phase.
    pub open spec fn in_phase(&self, phase: TransferPhase) -> TransferJob {
        TransferJob { phase, ..*self }
    }

    /// The job after a write of `len` bytes went through.
    pub open spec fn wrote(&self, len: usize) -> TransferJob {
        let bytes_written = (self.bytes_written + len) as u64;
        TransferJob {
            bytes_written,
            phase: phase_after_write(bytes_written, self.bytes_total),
            ..*self
        }
    }

    /// The job after `event`. An event that the job is not waiting for
    /// changes nothing; so does any event once the job is done or given up.
    pub open spec fn after(&self, event: TransferEvent) -> TransferJob {
        match (self.phase, event) {
            (TransferPhase::Reading, TransferEvent::Read(n)) => if n == 0 {
                self.in_phase(TransferPhase::Flushing)
            } else if n <= self.chunk_len() {
                self.in_phase(TransferPhase::Writing { len: n })
            } else {
                self.in_phase(TransferPhase::Failed(TransferError::ReadFailure))
            },
            (TransferPhase::Reading, TransferEvent::ReadFailed) => self.in_phase(
                TransferPhase::Failed(TransferError::ReadFailure),
            ),
            (TransferPhase::Writing { len }, TransferEvent::Written(n)) => if n == len {
                self.wrote(len)
            } else if n < len {
                self.in_phase(TransferPhase::Failed(TransferError::ShortWrite))
            } else {
                self.in_phase(TransferPhase::Failed(TransferError::WriteFailure))
            },
            (TransferPhase::Writing { len }, TransferEvent::WriteFailed) => self.in_phase(
                TransferPhase::Failed(TransferError::WriteFailure),
            ),
            (TransferPhase::Flushing, TransferEvent::Flushed) => self.in_phase(
                TransferPhase::Completed,
            ),
            (TransferPhase::Flushing, TransferEvent::FlushFailed) => self.in_phase(
                TransferPhase::Failed(TransferError::FlushFailure),
            ),
            _ => *self,
        }
    }

    /// What the job asks for in its phase.
    pub open spec fn pending(&self) -> TransferAction {
        match self.phase {
            TransferPhase::Reading => TransferAction::Read { len: self.chunk_len() as usize },
            TransferPhase::Writing { len } => TransferAction::Write { len },
            TransferPhase::Flushing => TransferAction::Flush,
            TransferPhase::Completed => TransferAction::Finish,
            TransferPhase::Failed(error) => TransferAction::Abort(error),
        }
    }

    /// The job after a run of events, taken in order.
    pub open spec fn after_all(&self, events: Seq<TransferEvent>) -> TransferJob
        decreases events.len(),
    {
        if events.len() == 0 {
            *self
        } else {
            self.after(events[0]).after_all(events.skip(1))
        }
    }

    /// Whether the job has written everything if it has come to the flush
    /// or past it.
    pub open spec fn flushes_all(&self) -> bool {
        self.phase == TransferPhase::Flushing || self.phase == TransferPhase::Completed
            ==> self.bytes_written == self.bytes_total
    }

    /// A job for an image of `bytes_total` bytes. An empty image goes
    /// straight to the flush.
    pub fn new(bytes_total: u64, block_size: usize) -> (job: Self)
        requires
            block_size > 0,
        ensures
            job == Self::started(bytes_total, block_size),
            job.wf(),
            job.flushes_all(),
    {
        let phase = if bytes_total == 0 {
            TransferPhase::Flushing
        } else {
            TransferPhase::Reading
        };
        TransferJob { block_size, bytes_total, bytes_written: 0, phase }
    }

    /// What is to be done next.
    pub fn action(&self) -> (action: TransferAction)
        requires
            self.wf(),
        ensures
            action == self.pending(),
            action matches TransferAction::Read { len } ==> 0 < len <= self.block_size && len
                <= self.remaining(),
    {
        match self.phase {
            TransferPhase::Reading => {
                let left: u64 = self.bytes_total - self.bytes_written;
                let len: usize = if left >= self.block_size as u64 {
                    self.block_size
                } else {
                    left as usize
                };
                TransferAction::Read { len }
            },
            TransferPhase::Writing { len } => TransferAction::Write { len },
            TransferPhase::Flushing => TransferAction::Flush,
            TransferPhase::Completed => TransferAction::Finish,
            TransferPhase::Failed(error) => TransferAction::Abort(error),
        }
    }

    /// Takes the report of what the last action came to and returns the
    /// next action.
    ///
    /// The bytes written never go down and never pass the total. A write
    /// that took fewer bytes than it was handed ends the job, and so does
    /// every failure; the job is done only after a flush that succeeded.
    pub fn step(&mut self, event: TransferEvent) -> (action: TransferAction)
        requires
            old(self).wf(),
        ensures
            *final(self) == old(self).after(event),
            action == final(self).pending(),
            final(self).wf(),
            final(self).block_size == old(self).block_size,
            final(self).bytes_total == old(self).bytes_total,
            old(self).bytes_written <= final(self).bytes_written <= final(self).bytes_total,
            final(self).phase == TransferPhase::Completed ==> old(self).phase
                == TransferPhase::Completed || (old(self).phase == TransferPhase::Flushing && event
                == TransferEvent::Flushed),
    {
        match (self.phase, event) {
            (TransferPhase::Reading, TransferEvent::Read(n)) => {
                let left: u64 = self.bytes_total - self.bytes_written;
                if n == 0 {
                    self.phase = TransferPhase::Flushing;
                } else if n <= self.block_size && n as u64 <= left {
                    self.phase = TransferPhase::Writing { len: n };
                } else {
                    self.phase = TransferPhase::Failed(TransferError::ReadFailure);
                }
            },
            (TransferPhase::Reading, TransferEvent::ReadFailed) => {
                self.phase = TransferPhase::Failed(TransferError::ReadFailure);
            },
            (TransferPhase::Writing { len }, TransferEvent::Written(n)) => {
                if n == len {
                    self.bytes_written = self.bytes_written + len as u64;
                    self.phase = if self.bytes_written == self.bytes_total {
                        TransferPhase::Flushing
                    } else {
                        TransferPhase::Reading
                    };
                } else if n < len {
                    self.phase = TransferPhase::Failed(TransferError::ShortWrite);
                } else {
                    self.phase = TransferPhase::Failed(TransferError::WriteFailure);
                }
            },
            (TransferPhase::Writing { len }, TransferEvent::WriteFailed) => {
                self.phase = TransferPhase::Failed(TransferError::WriteFailure);
            },
            (TransferPhase::Flushing, TransferEvent::Flushed) => {
                self.phase = TransferPhase::Completed;
            },
            (TransferPhase::Flushing, TransferEvent::FlushFailed) => {
                self.phase = TransferPhase::Failed(TransferError::FlushFailure);
            },
            _ => {},
        }
        self.action()
    }

    /// How far the job has come.
    pub fn progress(&self) -> (sample: ProgressSample)
        requires
            self.wf(),
        ensures
            sample == (ProgressSample {
                bytes_processed: self.bytes_written,
                bytes_total: self.bytes_total,
            }),
            sample.wf(),
    {
        ProgressSample { bytes_processed: self.bytes_written, bytes_total: self.bytes_total }
    }

    /// Whether the job has ended, well or not.
    pub fn is_over(&self) -> (over: bool)
        ensures
            over == (self.phase == TransferPhase::Completed || self.phase is Failed),
    {
        match self.phase {
            TransferPhase::Completed => true,
            TransferPhase::Failed(_) => true,
            _ => false,
        }
    }
}

/// The flush is reached with everything written, unless the image ended
/// early: a read that returned nothing is the only other way to it.
pub proof fn lemma_flush_means_all_written(job: TransferJob, event: TransferEvent)
    requires
        job.wf(),
        job.phase != TransferPhase::Flushing,
        event != TransferEvent::Read(0),
        job.after(event).phase == TransferPhase::Flushing,
    ensures
        job.after(event).bytes_written == job.bytes_total,
{
}

/// Over any run of events the bytes written never go down and never pass
/// the total, and the total and the block size stay what they were.
pub proof fn lemma_run_keeps_order(job: TransferJob, events: Seq<TransferEvent>)
    requires
        job.wf(),
    ensures
        job.after_all(events).wf(),
        job.bytes_written <= job.after_all(events).bytes_written <= job.bytes_total,
        job.after_all(events).bytes_total == job.bytes_total,
        job.after_all(events).block_size == job.block_size,
    decreases events.len(),
{
    if events.len() > 0 {
        lemma_run_keeps_order(job.after(events[0]), events.skip(1));
    }
}

/// A run in which no read came back empty, and which ends in success, has
/// written the whole image: its last sample is the total.
pub proof fn lemma_completed_run_wrote_all(job: TransferJob, events: Seq<TransferEvent>)
    requires
        job.wf(),
        job.flushes_all(),
        forall|i: int| 0 <= i < events.len() ==> events[i] != TransferEvent::Read(0),
        job.after_all(events).phase == TransferPhase::Completed,
    ensures
        job.after_all(events).bytes_written == job.bytes_total,
    decreases events.len(),
{
    if events.len() > 0 {
        let next = job.after(events[0]);
        let rest = events.skip(1);
        assert(events[0] != TransferEvent::Read(0));
        assert forall|i: int| 0 <= i < rest.len() implies rest[i] != TransferEvent::Read(0) by {
            assert(rest[i] == events[i + 1]);
        }
        lemma_completed_run_wrote_all(next, rest);
    }
}

/// No event undoes the end of a job: once done or given up, it stays so.
pub proof fn lemma_end_is_final(job: TransferJob, event: TransferEvent)
    requires
        job.phase == TransferPhase::Completed || job.phase is Failed,
    ensures
        job.after(event) == job,
{
}

/// Number of chunks that an image of `total` bytes goes over in.
pub open spec fn chunk_count(total: nat, block_size: nat) -> nat
    recommends
        block_size > 0,
{
    ((total + block_size - 1) / (block_size as int)) as nat
}

/// Bytes written once `chunks` chunks are through.
pub open spec fn written_after(chunks: nat, total: nat, block_size: nat) -> nat {
    least((chunks * block_size) as int, total as int) as nat
}

/// The samples of a transfer that goes through: one after each chunk.
pub open spec fn progress_samples(total: nat, block_size: nat) -> Seq<ProgressSample>
    recommends
        block_size > 0,
{
    Seq::new(
        chunk_count(total, block_size),
        |k: int|
            ProgressSample {
                bytes_processed: written_after((k + 1) as nat, total, block_size) as u64,
                bytes_total: total as u64,
            },
    )
}

/// What a device holds after an image was flashed onto it: the image from
/// the first byte on, as far as the device reaches, and behind it what was
/// there before. The device keeps its size.
pub open spec fn flashed(image: Seq<u8>, device: Seq<u8>) -> Seq<u8> {
    write_result(device, 0, image)
}

/// The number of chunks is fixed by where the last one begins and ends.
pub proof fn lemma_chunk_count(total: nat, block_size: nat, chunks: nat)
    requires
        block_size > 0,
        chunks * block_size >= total,
        chunks > 0 ==> (chunks - 1) * block_size < total,
    ensures
        chunk_count(total, block_size) == chunks,
{
    let x = total + block_size - 1;
    let q = x / (block_size as int);
    let r = x % (block_size as int);
    vstd::arithmetic::div_mod::lemma_fundamental_div_mod(x, block_size as int);
    assert(q == chunks) by (nonlinear_arith)
        requires
            x == block_size * q + r,
            0 <= r < block_size,
            x == total + block_size - 1,
            chunks * block_size >= total,
            chunks > 0 ==> (chunks - 1) * block_size < total,
            block_size > 0,
            total >= 0,
            chunks >= 0,
    ;
}

/// The samples of a transfer rise strictly, none passes the total, and the
/// last one is the total.
pub proof fn lemma_progress_rises(total: nat, block_size: nat)
    requires
        block_size > 0,
        total <= u64::MAX,
    ensures
        forall|i: int, j: int|
            0 <= i < j < progress_samples(total, block_size).len() ==> progress_samples(
                total,
                block_size,
            )[i].bytes_processed < progress_samples(total, block_size)[j].bytes_processed,
        forall|i: int|
            0 <= i < progress_samples(total, block_size).len() ==> 0 < (#[trigger] progress_samples(
                total,
                block_size,
            )[i]).bytes_processed <= total && progress_samples(total, block_size)[i].bytes_total
                == total,
        progress_samples(total, block_size).len() > 0 ==> progress_samples(
            total,
            block_size,
        ).last().bytes_processed == total,
        total > 0 ==> progress_samples(total, block_size).len() > 0,
{
    let n = chunk_count(total, block_size);
    let x = total + block_size - 1;
    let r = x % (block_size as int);
    vstd::arithmetic::div_mod::lemma_fundamental_div_mod(x, block_size as int);
    assert(n * block_size >= total && (n > 0 ==> (n - 1) * block_size < total) && (total > 0 ==> n
        > 0)) by (nonlinear_arith)
        requires
            x == block_size * n + r,
            0 <= r < block_size,
            x == total + block_size - 1,
            block_size > 0,
    ;
    let samples = progress_samples(total, block_size);
    assert forall|i: int, j: int| 0 <= i < j < samples.len() implies samples[i].bytes_processed
        < samples[j].bytes_processed by {
        assert((i + 1) * block_size < (j + 1) * block_size && (i + 1) * block_size <= (n - 1)
            * block_size) by (nonlinear_arith)
            requires
                0 <= i < j < n,
                block_size > 0,
        ;
    }
    assert forall|i: int| 0 <= i < samples.len() implies 0 < (#[trigger] samples[i]).bytes_processed
        <= total && samples[i].bytes_total == total by {
        assert(0 < (i + 1) * block_size) by (nonlinear_arith)
            requires
                0 <= i,
                block_size > 0,
        ;
    }
    if samples.len() > 0 {
        assert(samples.last() == samples[n - 1]);
    }
}

/// One more chunk moves the count on by the length of that chunk.
pub proof fn lemma_next_chunk(chunks: nat, total: nat, block_size: nat)
    requires
        block_size > 0,
        written_after(chunks, total, block_size) < total,
    ensures
        written_after(chunks + 1, total, block_size) == written_after(chunks, total, block_size)
            + least(block_size as int, total - written_after(chunks, total, block_size)),
        chunks * block_size < total,
{
    assert((chunks + 1) * block_size == chunks * block_size + block_size) by (nonlinear_arith);
}

/// A chunk that fits goes where the image has it.
proof fn lemma_chunk_lands(image: Seq<u8>, before: Seq<u8>, offset: int, len: int)
    requires
        0 <= offset,
        0 < len,
        offset + len <= image.len(),
        offset + len <= before.len(),
    ensures
        write_result(
            flashed(image.take(offset), before),
            offset,
            image.subrange(offset, offset + len),
        ) == flashed(image.take(offset + len), before),
{
    let left = write_result(
        flashed(image.take(offset), before),
        offset,
        image.subrange(offset, offset + len),
    );
    let right = flashed(image.take(offset + len), before);
    assert(left.len() == right.len());
    assert forall|i: int| 0 <= i < left.len() implies left[i] == right[i] by {}
    assert(left =~= right);
}

/// A chunk that passes the end of the device leaves on it the image as far
/// as the device reaches.
proof fn lemma_chunk_cut(image: Seq<u8>, before: Seq<u8>, offset: int, len: int)
    requires
        0 <= offset <= before.len(),
        0 < len,
        offset + len <= image.len(),
        offset + len > before.len(),
    ensures
        write_result(
            flashed(image.take(offset), before),
            offset,
            image.subrange(offset, offset + len),
        ) == flashed(image, before),
{
    let left = write_result(
        flashed(image.take(offset), before),
        offset,
        image.subrange(offset, offset + len),
    );
    let right = flashed(image, before);
    assert(left.len() == right.len());
    assert forall|i: int| 0 <= i < left.len() implies left[i] == right[i] by {}
    assert(left =~= right);
}

/// Flashes an image onto a device held in memory, in blocks of
/// [`BLOCK_SIZE`].
pub fn flash_iso(image: &[u8], device: &mut Vec<u8>) -> (outcome: Result<
    Vec<ProgressSample>,
    TransferError,
>)
    ensures
        final(device)@ == flashed(image@, old(device)@),
        image@.len() <= old(device)@.len() ==> (outcome matches Ok(samples) && samples@
            == progress_samples(image@.len(), BLOCK_SIZE as nat)),
        image@.len() > old(device)@.len() ==> outcome == Err::<Vec<ProgressSample>, TransferError>(
            TransferError::ShortWrite,
        ),
{
    flash_iso_in_blocks(image, device, BLOCK_SIZE)
}

/// Flashes an image onto a device held in memory, in blocks of
/// `block_size` bytes, and returns the progress samples, one for each chunk.
///
/// The job decides each step; the reads and writes are done on the two
/// buffers. The device is overwritten from its first byte and keeps what it
/// held behind the image. A device smaller than the image takes what fits,
/// and the write that does not fit ends the transfer.
pub fn flash_iso_in_blocks(image: &[u8], device: &mut Vec<u8>, block_size: usize) -> (outcome:
    Result<Vec<ProgressSample>, TransferError>)
    requires
        block_size > 0,
    ensures
        final(device)@ == flashed(image@, old(device)@),
        image@.len() <= old(device)@.len() ==> (outcome matches Ok(samples) && samples@
            == progress_samples(image@.len(), block_size as nat)),
        image@.len() > old(device)@.len() ==> outcome == Err::<Vec<ProgressSample>, TransferError>(
            TransferError::ShortWrite,
        ),
{
    let ghost before = device@;
    let ghost total = image@.len();
    let ghost bs = block_size as nat;
    let mut job = TransferJob::new(image.len() as u64, block_size);
    let mut samples: Vec<ProgressSample> = Vec::new();
    let mut action = job.action();
    let ghost mut chunks: nat = 0;
    proof {
        assert(chunks * bs == 0) by (nonlinear_arith)
            requires
                chunks == 0,
        ;
        assert(device@ =~= flashed(image@.take(0), before));
    }
    loop
        invariant
            job.wf(),
            job.block_size == block_size,
            job.bytes_total == total,
            total == image@.len(),
            total <= usize::MAX,
            bs == block_size,
            before == old(device)@,
            job.phase == TransferPhase::Reading || job.phase == TransferPhase::Flushing,
            job.phase == TransferPhase::Flushing ==> job.bytes_written == total,
            action == job.pending(),
            job.bytes_written == written_after(chunks, total, bs),
            chunks > 0 ==> (chunks - 1) * bs < total,
            job.bytes_written <= before.len(),
            device@.len() == before.len(),
            device@ == flashed(image@.take(job.bytes_written as int), before),
            samples@.len() == chunks,
            forall|k: int|
                0 <= k < chunks ==> samples@[k] == (ProgressSample {
                    bytes_processed: written_after((k + 1) as nat, total, bs) as u64,
                    bytes_total: total as u64,
                }),
        ensures
            job.phase == TransferPhase::Flushing,
        decreases total - job.bytes_written,
    {
        match action {
            TransferAction::Read { len } => {
                let offset: usize = job.bytes_written as usize;
                let chunk = read_at(image, offset, len);
                assert(chunk@ == image@.subrange(offset as int, offset + len));
                job.step(TransferEvent::Read(chunk.len()));
                let taken: usize = write_at(device, offset, chunk);
                action = job.step(TransferEvent::Written(taken));
                if taken < len {
                    proof {
                        lemma_chunk_cut(image@, before, offset as int, len as int);
                    }
                    return Err(TransferError::ShortWrite);
                }
                samples.push(job.progress());
                proof {
                    lemma_next_chunk(chunks, total, bs);
                    lemma_chunk_lands(image@, before, offset as int, len as int);
                    chunks = chunks + 1;
                }
            },
            _ => {
                break ;
            },
        }
    }
    job.step(TransferEvent::Flushed);
    proof {
        assert(image@.take(total as int) =~= image@);
        lemma_chunk_count(total, bs, chunks);
        assert(samples@ =~= progress_samples(total, bs));
    }
    Ok(samples)
}

/// What follows a key under the question whether to flash.
#[derive(Clone, Copy, Debug, PartialEq, Eq, Structural)]
pub enum FlashMenuAction {
    /// Draw the question again and wait for the next key.
    Stay,
    /// Flash the image, then ask whether to verify it.
    Flash,
    /// Leave without flashing.
    Leave,
}

/// What follows a key under the question whether to verify.
#[derive(Clone, Copy, Debug, PartialEq, Eq, Structural)]
pub enum VerifyMenuAction {
    /// Draw the question again and wait for the next key.
    Stay,
    /// Verify the device, report the result, and end the program.
    Verify,
    /// End the program without verifying.
    Exit,
}

/// What a key means under the question whether to flash, whose first entry
/// is yes and whose second is no.
pub open spec fn flash_menu_action(selection: Selection, key: Key) -> FlashMenuAction {
    match key {
        Key::Enter => if selection.selected == 0 {
            FlashMenuAction::Flash
        } else if selection.selected == 1 {
            FlashMenuAction::Leave
        } else {
            FlashMenuAction::Stay
        },
        Key::Escape => FlashMenuAction::Leave,
        _ => FlashMenuAction::Stay,
    }
}

/// What a key means under the question whether to verify: enter on the
/// first entry verifies, enter anywhere else ends the program.
pub open spec fn verify_menu_action(selection: Selection, key: Key) -> VerifyMenuAction {
    match key {
        Key::Enter => if selection.selected == 0 {
            VerifyMenuAction::Verify
        } else {
            VerifyMenuAction::Exit
        },
        _ => VerifyMenuAction::Stay,
    }
}

/// One key under the question whether to flash. Up and down move the
/// cursor, enter takes the entry under it, escape leaves.
pub fn menu(selection: &mut Selection, key: Key) -> (action: FlashMenuAction)
    requires
        old(selection).wf(),
    ensures
        *final(selection) == old(selection).moved(key),
        final(selection).wf(),
        action == flash_menu_action(*old(selection), key),
{
    selection.press(key);
    match key {
        Key::Enter => {
            if selection.selected == 0 {
                FlashMenuAction::Flash
            } else if selection.selected == 1 {
                FlashMenuAction::Leave
            } else {
                FlashMenuAction::Stay
            }
        },
        Key::Escape => FlashMenuAction::Leave,
        _ => FlashMenuAction::Stay,
    }
}

/// One key under the question whether to verify.
pub fn verify_menu(selection: &mut Selection, key: Key) -> (action: VerifyMenuAction)
    requires
        old(selection).wf(),
    ensures
        *final(selection) == old(selection).moved(key),
        final(selection).wf(),
        action == verify_menu_action(*old(selection), key),
{
    selection.press(key);
    match key {
        Key::Enter => {
            if selection.selected == 0 {
                VerifyMenuAction::Verify
            } else {
                VerifyMenuAction::Exit
            }
        },
        _ => VerifyMenuAction::Stay,
    }
}

} // verus!
