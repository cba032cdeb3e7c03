//! Streaming SHA-256 over the `sha2` crate.

use vstd::prelude::*;

verus! {

/// Number of bytes above which a SHA-256 message has no digest: the
/// algorithm records the message length in bits in a 64-bit field.
pub const DIGEST_CAPACITY: u64 = 0x2000_0000_0000_0000;

/// Number of bytes in a SHA-256 digest.
pub const DIGEST_LEN: usize = 32;

#[verifier::external_type_specification]
#[verifier::external_body]
pub struct ExSha256(sha2::Sha256);

/// The SHA-256 digest of a whole message, as `sha2` computes it.
pub uninterp spec fn sha256(message: Seq<u8>) -> Seq<u8>;

/// The bytes that a `sha2::Sha256` hasher has been given so far, in order.
pub uninterp spec fn absorbed(hasher: sha2::Sha256) -> Seq<u8>;

/// `sha2::Digest::new` for `Sha256`: a hasher that has been given nothing.
#[verifier::external_body]
fn hasher_new() -> (hasher: sha2::Sha256)
    ensures
        absorbed(hasher) == Seq::<u8>::empty(),
{
    <sha2::Sha256 as sha2::Digest>::new()
}

/// `sha2::Digest::update` for `Sha256`: the hasher has then been given
/// `data` after everything it was given before. The call is kept below the
/// length at which the hasher's block counter could overflow.
#[verifier::external_body]
fn hasher_update(hasher: &mut sha2::Sha256, data: &[u8])
    requires
        absorbed(*old(hasher)).len() + data@.len() < DIGEST_CAPACITY,
    ensures
        absorbed(*final(hasher)) == absorbed(*old(hasher)) + data@,
{
    sha2::Digest::update(hasher, data)
}

/// `sha2::Digest::finalize` for `Sha256`: the 32-byte digest of everything
/// the hasher was given. How the bytes were split over calls of `update` has
/// no part in it. The call is kept below the length whose bit count
/// overflows inside `sha2`.
#[verifier::external_body]
fn hasher_finalize(hasher: sha2::Sha256) -> (out: [u8; 32])
    requires
        absorbed(hasher).len() < DIGEST_CAPACITY,
    ensures
        out@ == sha256(absorbed(hasher)),
{
    sha2::Digest::finalize(hasher).into()
}

/// A running SHA-256 accumulator that knows how many bytes it has taken.
pub struct DigestState {
    hasher: sha2::Sha256,
    length: u64,
}

impl DigestState {
    /// The bytes taken so far.
    pub closed spec fn view(&self) -> Seq<u8> {
        absorbed(self.hasher)
    }

    /// The counter agrees with what the hasher was given, and the digest of
    /// it exists.
    pub closed spec fn wf(&self) -> bool {
        &&& self.length as nat == absorbed(self.hasher).len()
        &&& self.length < DIGEST_CAPACITY
    }

    /// An accumulator that has taken nothing.
    pub fn new() -> (state: Self)
        ensures
            state.wf(),
            state@ == Seq::<u8>::empty(),
    {
        DigestState { hasher: hasher_new(), length: 0 }
    }

    /// Number of bytes taken so far.
    pub fn len(&self) -> (n: u64)
        requires
            self.wf(),
        ensures
            n as nat == self@.len(),
            n < DIGEST_CAPACITY,
    {
        self.length
    }

    /// Whether `extra` more bytes can be taken without passing the capacity.
    pub fn has_room(&self, extra: usize) -> (fits: bool)
        requires
            self.wf(),
        ensures
            fits == (self@.len() + extra < DIGEST_CAPACITY),
    {
        (extra as u64) < DIGEST_CAPACITY - self.length
    }

    /// Takes `data` after what was taken before.
    pub fn absorb(&mut self, data: &[u8])
        requires
            old(self).wf(),
            old(self)@.len() + data@.len() < DIGEST_CAPACITY,
        ensures
            final(self).wf(),
            final(self)@ == old(self)@ + data@,
    {
        hasher_update(&mut self.hasher, data);
        self.length = self.length + data.len() as u64;
    }

    /// The digest of everything taken.
    pub fn finalize(self) -> (out: [u8; 32])
        requires
            self.wf(),
        ensures
            out@ == sha256(self@),
    {
        hasher_finalize(self.hasher)
    }
}

/// Whether two digests are the same 32 bytes.
pub fn digests_match(left: &[u8; 32], right: &[u8; 32]) -> (same: bool)
    ensures
        same == (left@ == right@),
{
    let mut i: usize = 0;
    while i < DIGEST_LEN
        invariant
            i <= DIGEST_LEN,
            forall|j: int| 0 <= j < i ==> left@[j] == right@[j],
        decreases DIGEST_LEN - i,
    {
        if left[i] != right[i] {
            return false;
        }
        i = i + 1;
    }
    assert(left@ =~= right@);
    true
}

/// The digest of `data`, taken in one piece.
pub fn digest(data: &[u8]) -> (out: [u8; 32])
    requires
        data@.len() < DIGEST_CAPACITY,
    ensures
        out@ == sha256(data@),
{
    let mut state = DigestState::new();
    state.absorb(data);
    assert(Seq::<u8>::empty() + data@ =~= data@);
    state.finalize()
}

/// The digest of `data`, taken in pieces of `block_size` bytes. The size of
/// the pieces has no part in the result: it is the digest of the whole.
pub fn digest_in_blocks(data: &[u8], block_size: usize) -> (out: [u8; 32])
    requires
        block_size > 0,
        data@.len() < DIGEST_CAPACITY,
    ensures
        out@ == sha256(data@),
{
    let mut state = DigestState::new();
    let mut offset: usize = 0;
    assert(data@.take(0) =~= Seq::<u8>::empty());
    while offset < data.len()
        invariant
            state.wf(),
            offset <= data@.len() < DIGEST_CAPACITY,
            state@ == data@.take(offset as int),
            block_size > 0,
        decreases data@.len() - offset,
    {
        let left: usize = data.len() - offset;
        let len: usize = if left < block_size {
            left
        } else {
            block_size
        };
        let piece = &data[offset..offset + len];
        state.absorb(piece);
        assert(data@.take(offset as int) + data@.subrange(offset as int, offset + len) =~= data@.take(
            offset + len,
        ));
        offset = offset + len;
    }
    assert(data@.take(offset as int) =~= data@);
    state.finalize()
}

} // verus!
