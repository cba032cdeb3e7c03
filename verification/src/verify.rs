//! The verification engine: the image and the device are read again, each
//! into a SHA-256 digest of its own, and the two digests are compared.
//!
//! A [`VerificationJob`] holds the counter and the two digests. It does no
//! I/O: it says how much to read, and is handed what was read.

use vstd::prelude::*;
use crate::digest::{digests_match, sha256, DigestState, DIGEST_CAPACITY};
use crate::flash::{chunk_count, flashed, progress_samples, written_after, BLOCK_SIZE};
use crate::memory::{least, read_at};
use crate::progress::ProgressSample;

verus! {

/// What the owner of the handles is to do next.
#[derive(Clone, Copy, Debug, PartialEq, Eq, Structural)]
pub enum VerifyAction {
    /// Read up to `len` bytes from the image, and up to `len` bytes from the
    /// device.
    Read { len: usize },
    /// Nothing more is to be read: finalize the digests.
    Finish,
}

/// The counter and the digests of one verification.
pub struct VerificationJob {
    /// Most bytes that one read asks for.
    pub block_size: usize,
    /// Size of the image when the job began. The device is read this far
    /// and no further, however large it is.
    pub bytes_to_compare: u64,
    /// Bytes of the image that went into its digest.
    pub bytes_compared: u64,
    /// Whether a read came back empty, which ends the comparison.
    pub stopped: bool,
    /// Digest of what was read from the image.
    pub source_digest: DigestState,
    /// Digest of what was read from the device.
    pub destination_digest: DigestState,
}

impl VerificationJob {
    /// Bytes of the image still to be compared.
    pub open spec fn remaining(&self) -> int {
        self.bytes_to_compare - self.bytes_compared
    }

    /// Most bytes that the next read asks for: a block, or what is left of
    /// the image where that is less.
    pub open spec fn chunk_len(&self) -> int {
        least(self.block_size as int, self.remaining())
    }

    /// The counter is in range and counts what the image's digest took.
    pub open spec fn wf(&self) -> bool {
        &&& self.block_size > 0
        &&& self.bytes_compared <= self.bytes_to_compare
        &&& self.source_digest.wf()
        &&& self.destination_digest.wf()
        &&& self.source_digest@.len() == self.bytes_compared
    }

    /// Whether nothing more is to be read.
    pub open spec fn done(&self) -> bool {
        self.stopped || self.bytes_compared == self.bytes_to_compare
    }

    /// What the job asks for.
    pub open spec fn pending(&self) -> VerifyAction {
        if self.done() {
            VerifyAction::Finish
        } else {
            VerifyAction::Read { len: self.chunk_len() as usize }
        }
    }

    /// Whether the job can take two chunks of these lengths: it is not done,
    /// neither is longer than was asked for, and neither digest passes its
    /// capacity.
    pub open spec fn fits(&self, source_len: int, destination_len: int) -> bool {
        &&& !self.done()
        &&& source_len <= self.chunk_len()
        &&& destination_len <= self.chunk_len()
        &&& self.source_digest@.len() + source_len < DIGEST_CAPACITY
        &&& self.destination_digest@.len() + destination_len < DIGEST_CAPACITY
    }

    /// A job for an image of `bytes_to_compare` bytes. For an empty image
    /// it is done at once, with nothing read.
    pub fn new(bytes_to_compare: u64, block_size: usize) -> (job: Self)
        requires
            block_size > 0,
        ensures
            job.wf(),
            job.block_size == block_size,
            job.bytes_to_compare == bytes_to_compare,
            job.bytes_compared == 0,
            !job.stopped,
            job.source_digest@ == Seq::<u8>::empty(),
            job.destination_digest@ == Seq::<u8>::empty(),
            job.done() == (bytes_to_compare == 0),
    {
        VerificationJob {
            block_size,
            bytes_to_compare,
            bytes_compared: 0,
            stopped: false,
            source_digest: DigestState::new(),
            destination_digest: DigestState::new(),
        }
    }

    /// What is to be done next.
    pub fn action(&self) -> (action: VerifyAction)
        requires
            self.wf(),
        ensures
            action == self.pending(),
            action matches VerifyAction::Read { len } ==> 0 < len <= self.block_size && len
                <= self.remaining(),
    {
        if self.stopped || self.bytes_compared == self.bytes_to_compare {
            VerifyAction::Finish
        } else {
            let left: u64 = self.bytes_to_compare - self.bytes_compared;
            let len: usize = if left >= self.block_size as u64 {
                self.block_size
            } else {
                left as usize
            };
            VerifyAction::Read { len }
        }
    }

    /// Whether [`absorb`](Self::absorb) can be called with chunks of these
    /// lengths.
    pub fn can_absorb(&self, source_len: usize, destination_len: usize) -> (ok: bool)
        requires
            self.wf(),
        ensures
            ok == self.fits(source_len as int, destination_len as int),
    {
        match self.action() {
            VerifyAction::Finish => false,
            VerifyAction::Read { len } => {
                source_len <= len && destination_len <= len && self.source_digest.has_room(
                    source_len,
                ) && self.destination_digest.has_room(destination_len)
            },
        }
    }

    /// Takes what one read of the image and one read of the device
    /// returned, and says what is to be done next.
    ///
    /// If either chunk is empty the comparison ends there and neither chunk
    /// is counted. Otherwise each chunk goes into its own digest, whole, and
    /// the counter moves on by the length of the image's chunk. The two
    /// lengths need not agree.
    pub fn absorb(&mut self, source_chunk: &[u8], destination_chunk: &[u8]) -> (action:
        VerifyAction)
        requires
            old(self).wf(),
            old(self).fits(source_chunk@.len() as int, destination_chunk@.len() as int),
        ensures
            final(self).wf(),
            action == final(self).pending(),
            final(self).block_size == old(self).block_size,
            final(self).bytes_to_compare == old(self).bytes_to_compare,
            source_chunk@.len() == 0 || destination_chunk@.len() == 0 ==> {
                &&& final(self).stopped
                &&& final(self).bytes_compared == old(self).bytes_compared
                &&& final(self).source_digest@ == old(self).source_digest@
                &&& final(self).destination_digest@ == old(self).destination_digest@
            },
            source_chunk@.len() > 0 && destination_chunk@.len() > 0 ==> {
                &&& !final(self).stopped
                &&& final(self).bytes_compared == old(self).bytes_compared + source_chunk@.len()
                &&& final(self).source_digest@ == old(self).source_digest@ + source_chunk@
                &&& final(self).destination_digest@ == old(self).destination_digest@
                    + destination_chunk@
            },
    {
        if source_chunk.len() == 0 || destination_chunk.len() == 0 {
            self.stopped = true;
        } else {
            self.source_digest.absorb(source_chunk);
            self.destination_digest.absorb(destination_chunk);
            self.bytes_compared = self.bytes_compared + source_chunk.len() as u64;
        }
        self.action()
    }

    /// How far the job has come.
    pub fn progress(&self) -> (sample: ProgressSample)
        requires
            self.wf(),
        ensures
            sample == (ProgressSample {
                bytes_processed: self.bytes_compared,
                bytes_total: self.bytes_to_compare,
            }),
            sample.wf(),
    {
        ProgressSample { bytes_processed: self.bytes_compared, bytes_total: self.bytes_to_compare }
    }

    /// Finalizes both digests and says whether they are the same. Differing
    /// digests are a result, not a failure.
    pub fn finish(self) -> (verified: bool)
        requires
            self.wf(),
        ensures
            verified == (sha256(self.source_digest@) == sha256(self.destination_digest@)),
    {
        let source = self.source_digest.finalize();
        let destination = self.destination_digest.finalize();
        digests_match(&source, &destination)
    }
}

/// Bytes of the image that go into its digest. With a device at least as
/// large as the image that is the whole image. Against a smaller device the
/// comparison ends with the first chunk that finds nothing left on the
/// device.
pub open spec fn source_reach(image_len: nat, device_len: nat, block_size: nat) -> nat
    recommends
        block_size > 0,
{
    if device_len >= image_len {
        image_len
    } else {
        least(image_len as int, (chunk_count(device_len, block_size) * block_size) as int) as nat
    }
}

/// Bytes of the device that go into its digest: as many as the image has,
/// or the whole device where it is smaller.
pub open spec fn destination_reach(image_len: nat, device_len: nat) -> nat {
    least(image_len as int, device_len as int) as nat
}

/// The result of verifying `device` against `image`: whether the digest of
/// what was read of the one equals the digest of what was read of the other.
pub open spec fn verified(image: Seq<u8>, device: Seq<u8>, block_size: nat) -> bool
    recommends
        block_size > 0,
{
    sha256(image.take(source_reach(image.len(), device.len(), block_size) as int)) == sha256(
        device.take(destination_reach(image.len(), device.len()) as int),
    )
}

/// The samples of a verification: those of a transfer of the image, as far
/// as the comparison gets.
pub open spec fn verify_samples(image_len: nat, device_len: nat, block_size: nat) -> Seq<
    ProgressSample,
>
    recommends
        block_size > 0,
{
    progress_samples(image_len, block_size).take(
        chunk_count(source_reach(image_len, device_len, block_size), block_size) as int,
    )
}

/// Two different messages with one digest.
pub open spec fn collide(left: Seq<u8>, right: Seq<u8>) -> bool {
    left != right && sha256(left) == sha256(right)
}

/// Verifies a device held in memory against an image, in blocks of
/// [`BLOCK_SIZE`].
pub fn verify(image: &[u8], device: &[u8]) -> (matches: bool)
    requires
        image@.len() < DIGEST_CAPACITY,
    ensures
        matches == verified(image@, device@, BLOCK_SIZE as nat),
{
    verify_in_blocks(image, device, BLOCK_SIZE).0
}

/// Verifies a device held in memory against an image, in blocks of
/// `block_size` bytes, and returns the result with the progress samples, one
/// for each chunk that was compared.
///
/// The job decides each step; the reads are done on the two buffers, the
/// device being read where the last read of it ended.
pub fn verify_in_blocks(image: &[u8], device: &[u8], block_size: usize) -> (outcome: (
    bool,
    Vec<ProgressSample>,
))
    requires
        block_size > 0,
        image@.len() < DIGEST_CAPACITY,
    ensures
        outcome.0 == verified(image@, device@, block_size as nat),
        outcome.1@ == verify_samples(image@.len(), device@.len(), block_size as nat),
{
    let ghost total = image@.len();
    let ghost room = device@.len();
    let ghost bs = block_size as nat;
    let mut job = VerificationJob::new(image.len() as u64, block_size);
    let mut samples: Vec<ProgressSample> = Vec::new();
    let mut action = job.action();
    let mut device_offset: usize = 0;
    let ghost mut chunks: nat = 0;
    proof {
        assert(chunks * bs == 0) by (nonlinear_arith)
            requires
                chunks == 0,
        ;
        assert(image@.take(0) =~= Seq::<u8>::empty());
        assert(device@.take(0) =~= Seq::<u8>::empty());
    }
    loop
        invariant
            job.wf(),
            job.block_size == block_size,
            job.bytes_to_compare == total,
            total == image@.len(),
            total < DIGEST_CAPACITY,
            total <= usize::MAX,
            room == device@.len(),
            bs == block_size,
            action == job.pending(),
            job.bytes_compared == written_after(chunks, total, bs),
            chunks > 0 ==> (chunks - 1) * bs < total && (chunks - 1) * bs < room,
            job.stopped ==> room <= job.bytes_compared < total,
            device_offset == least(job.bytes_compared as int, room as int),
            job.source_digest@ == image@.take(job.bytes_compared as int),
            job.destination_digest@ == device@.take(device_offset as int),
            samples@.len() == chunks,
            forall|k: int|
                0 <= k < chunks ==> samples@[k] == (ProgressSample {
                    bytes_processed: written_after((k + 1) as nat, total, bs) as u64,
                    bytes_total: total as u64,
                }),
        ensures
            job.done(),
        decreases total - job.bytes_compared + (if job.stopped { 0int } else { 1int }),
    {
        match action {
            VerifyAction::Read { len } => {
                let offset: usize = job.bytes_compared as usize;
                let source_chunk = read_at(image, offset, len);
                let destination_chunk = read_at(device, device_offset, len);
                proof {
                    assert(source_chunk@ == image@.subrange(offset as int, offset + len));
                    lemma_take_extend(image@, offset as int, len as int);
                    if destination_chunk@.len() > 0 {
                        lemma_take_extend(
                            device@,
                            device_offset as int,
                            destination_chunk@.len() as int,
                        );
                    }
                }
                action = job.absorb(source_chunk, destination_chunk);
                if destination_chunk.len() > 0 {
                    device_offset = device_offset + destination_chunk.len();
                    samples.push(job.progress());
                    proof {
                        crate::flash::lemma_next_chunk(chunks, total, bs);
                        chunks = chunks + 1;
                    }
                }
            },
            VerifyAction::Finish => {
                break ;
            },
        }
    }
    proof {
        lemma_reach(total, room, bs, chunks);
        assert(samples@ =~= verify_samples(total, room, bs));
    }
    (job.finish(), samples)
}

/// A prefix grows by the bytes that follow it.
proof fn lemma_take_extend(bytes: Seq<u8>, offset: int, len: int)
    requires
        0 <= offset,
        0 <= len,
        offset + len <= bytes.len(),
    ensures
        bytes.take(offset) + bytes.subrange(offset, offset + len) == bytes.take(offset + len),
{
    assert(bytes.take(offset) + bytes.subrange(offset, offset + len) =~= bytes.take(offset + len));
}

/// Where the comparison ends, from the number of chunks it took.
proof fn lemma_reach(total: nat, room: nat, block_size: nat, chunks: nat)
    requires
        block_size > 0,
        chunks > 0 ==> (chunks - 1) * block_size < total && (chunks - 1) * block_size < room,
        written_after(chunks, total, block_size) == total || room <= written_after(
            chunks,
            total,
            block_size,
        ) < total,
    ensures
        source_reach(total, room, block_size) == written_after(chunks, total, block_size),
        destination_reach(total, room) == least(
            written_after(chunks, total, block_size) as int,
            room as int,
        ),
        chunk_count(source_reach(total, room, block_size), block_size) == chunks,
        chunks <= chunk_count(total, block_size),
{
    let reached = written_after(chunks, total, block_size);
    if chunks == 0 {
        assert(chunks * block_size == 0) by (nonlinear_arith)
            requires
                chunks == 0,
        ;
    }
    if room < total {
        crate::flash::lemma_chunk_count(room, block_size, chunks);
    }
    crate::flash::lemma_chunk_count(reached, block_size, chunks);
    let all = chunk_count(total, block_size);
    let x = total + block_size - 1;
    let r = x % (block_size as int);
    vstd::arithmetic::div_mod::lemma_fundamental_div_mod(x, block_size as int);
    assert(chunks <= all) by (nonlinear_arith)
        requires
            x == block_size * all + r,
            0 <= r < block_size,
            x == total + block_size - 1,
            chunks > 0 ==> (chunks - 1) * block_size < total,
            block_size > 0,
            chunks >= 0,
    ;
}

/// Against a device at least as large as the image, verification compares
/// the whole image with as many bytes of the device, and gives one sample
/// for each chunk of the image.
pub proof fn lemma_large_device(image: Seq<u8>, device: Seq<u8>, block_size: nat)
    requires
        block_size > 0,
        image.len() <= device.len(),
    ensures
        verified(image, device, block_size) == (sha256(image) == sha256(
            device.take(image.len() as int),
        )),
        verify_samples(image.len(), device.len(), block_size) == progress_samples(
            image.len(),
            block_size,
        ),
{
    assert(image.take(image.len() as int) =~= image);
    assert(verify_samples(image.len(), device.len(), block_size) =~= progress_samples(
        image.len(),
        block_size,
    ));
}

/// Verification succeeds exactly when the device begins with the image, or
/// with other bytes that have the image's digest.
pub proof fn lemma_verified_iff_same_or_collision(
    image: Seq<u8>,
    device: Seq<u8>,
    block_size: nat,
)
    requires
        block_size > 0,
        image.len() <= device.len(),
    ensures
        verified(image, device, block_size) <==> (device.take(image.len() as int) == image
            || collide(image, device.take(image.len() as int))),
{
    lemma_large_device(image, device, block_size);
}

/// A device that an image was flashed onto verifies against that image,
/// whatever it held before and whatever the block sizes were.
pub proof fn lemma_flashed_device_verifies(image: Seq<u8>, device: Seq<u8>, block_size: nat)
    requires
        block_size > 0,
        image.len() <= device.len(),
    ensures
        verified(image, flashed(image, device), block_size),
{
    let after = flashed(image, device);
    assert(after.take(image.len() as int) =~= image);
    lemma_large_device(image, after, block_size);
}

/// Once one byte within the image's length has changed on a flashed device,
/// verification fails, unless the changed bytes have the image's digest.
pub proof fn lemma_tampering_shows(
    image: Seq<u8>,
    device: Seq<u8>,
    block_size: nat,
    index: int,
    byte: u8,
)
    requires
        block_size > 0,
        image.len() <= device.len(),
        0 <= index < image.len(),
        byte != image[index],
    ensures
        flashed(image, device)[index] == image[index],
        verified(image, flashed(image, device).update(index, byte), block_size) == collide(
            image,
            flashed(image, device).update(index, byte).take(image.len() as int),
        ),
{
    let tampered = flashed(image, device).update(index, byte);
    let head = tampered.take(image.len() as int);
    assert(head[index] == byte);
    lemma_verified_iff_same_or_collision(image, tampered, block_size);
}

/// A device of exactly the image's size is compared whole: the comparison
/// ends with the image's last chunk and asks for no read past it.
pub proof fn lemma_device_of_image_size(image: Seq<u8>, device: Seq<u8>, block_size: nat)
    requires
        block_size > 0,
        image.len() == device.len(),
    ensures
        verified(image, device, block_size) == (sha256(image) == sha256(device)),
        verify_samples(image.len(), device.len(), block_size) == progress_samples(
            image.len(),
            block_size,
        ),
{
    lemma_large_device(image, device, block_size);
    assert(device.take(image.len() as int) =~= device);
}

/// An empty image verifies against every device, and nothing is read.
pub proof fn lemma_empty_image_verifies(device: Seq<u8>, block_size: nat)
    requires
        block_size > 0,
    ensures
        verified(Seq::<u8>::empty(), device, block_size),
        verify_samples(0, device.len(), block_size).len() == 0,
{
    let image = Seq::<u8>::empty();
    assert(device.take(0) =~= image);
    assert(image.take(0) =~= image);
    lemma_large_device(image, device, block_size);
    crate::flash::lemma_chunk_count(0, block_size, 0);
}

} // verus!
