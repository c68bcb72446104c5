//! Streaming SHA-256 hash provider with non-destructive snapshotting.
//!
//! A context accumulates input bytes; its view is the exact sequence of
//! bytes passed to `update`, in order. `fork` copies that state, and
//! `fork_finish` reads a digest without ending the context, so a transcript
//! digest can be taken while the transcript keeps growing.

use vstd::prelude::*;

use libcrux_sha2::Sha256 as LibcruxSha256;

use crate::enums::HashAlgorithm;

verus! {

/// Largest total input, in bytes, that SHA-256 accepts (2^61 - 1, the
/// algorithm's own domain bound, enforced by the streaming state).
pub const MAX_HASH_INPUT_LEN: u64 = 0x1fff_ffff_ffff_ffff;

/// Largest single payload, in bytes, that the backend accepts in one call;
/// longer input is fed to it in chunks.
const MAX_BACKEND_PAYLOAD_LEN: u64 = 0xffff_ffff;

/// How many bytes `update` hands the backend at a time; small enough for
/// every platform's `usize` and for the backend's per-call limit.
const HASH_CHUNK_LEN: usize = 0x4000_0000;

#[verifier::external_type_specification]
#[verifier::external_body]
pub struct ExSha256State(LibcruxSha256);

/// The SHA-256 digest of a byte sequence.
pub uninterp spec fn sha256_digest(bytes: Seq<u8>) -> Seq<u8>;

/// The bytes a streaming state has accumulated so far, in order.
pub uninterp spec fn accumulated(state: LibcruxSha256) -> Seq<u8>;

/// Relies on libcrux_sha2::Sha256::new: a fresh streaming state has
/// accumulated nothing.
#[verifier::external_body]
fn sha256_state_new() -> (state: LibcruxSha256)
    ensures
        accumulated(state) == Seq::<u8>::empty(),
{
    LibcruxSha256::new()
}

/// Relies on libcrux_sha2::Sha256::update (trait libcrux_sha2::Digest):
/// appends the payload to the accumulated input. The backend rejects a
/// single payload over u32::MAX bytes and silently stops accumulating past
/// 2^61 - 1 total bytes, so both stay out of range here.
#[verifier::external_body]
fn sha256_state_update(state: &mut LibcruxSha256, data: &[u8])
    requires
        data@.len() <= MAX_BACKEND_PAYLOAD_LEN,
        accumulated(*old(state)).len() + data@.len() <= MAX_HASH_INPUT_LEN,
    ensures
        accumulated(*final(state)) == accumulated(*old(state)) + data@,
{
    libcrux_sha2::Digest::update(state, data)
}

/// Relies on libcrux_sha2::Sha256::finish (trait libcrux_sha2::Digest):
/// writes the 32-byte SHA-256 digest of everything accumulated so far,
/// computed on an internal copy, so the state itself stays usable.
#[verifier::external_body]
fn sha256_state_finish(state: &LibcruxSha256) -> (r: Vec<u8>)
    ensures
        r@ == sha256_digest(accumulated(*state)),
        r@.len() == 32,
{
    let mut digest = [0u8; 32];
    libcrux_sha2::Digest::finish(state, &mut digest);
    digest.to_vec()
}

/// Relies on the Clone impl of libcrux_sha2::Sha256: copies the streaming
/// state, accumulated input included.
#[verifier::external_body]
fn sha256_state_clone(state: &LibcruxSha256) -> (r: LibcruxSha256)
    ensures
        accumulated(r) == accumulated(*state),
{
    state.clone()
}

/// Relies on libcrux_sha2::sha256: the 32-byte SHA-256 digest of the
/// payload in one shot. The backend rejects a payload over u32::MAX bytes.
#[verifier::external_body]
fn sha256_oneshot(data: &[u8]) -> (r: Vec<u8>)
    requires
        data@.len() <= MAX_BACKEND_PAYLOAD_LEN,
    ensures
        r@ == sha256_digest(data@),
        r@.len() == 32,
{
    libcrux_sha2::sha256(data).to_vec()
}

/// The SHA-256 hash provider.
pub struct Sha256;

impl Sha256 {
    /// Allocates a new, empty streaming context bound to SHA-256.
    pub fn start(&self) -> (r: Sha256Context)
        ensures
            r@ == Seq::<u8>::empty(),
    {
        Sha256Context { state: sha256_state_new() }
    }

    /// One-shot convenience: the digest of exactly the given bytes,
    /// equivalent to `start`, `update(data)`, `finish`.
    pub fn hash(&self, data: &[u8]) -> (r: Vec<u8>)
        requires
            data@.len() <= MAX_HASH_INPUT_LEN,
        ensures
            r@ == sha256_digest(data@),
            r@.len() == 32,
    {
        if (data.len() as u64) <= MAX_BACKEND_PAYLOAD_LEN {
            sha256_oneshot(data)
        } else {
            let mut ctx = self.start();
            ctx.update(data);
            let r = ctx.finish();
            proof {
                assert(Seq::<u8>::empty() + data@ =~= data@);
            }
            r
        }
    }

    /// The fixed identifier of this provider's algorithm.
    pub fn algorithm(&self) -> (r: HashAlgorithm)
        ensures
            r == HashAlgorithm::SHA256,
    {
        HashAlgorithm::SHA256
    }

    /// The fixed digest length in bytes.
    pub fn output_len(&self) -> (r: usize)
        ensures
            r == 32,
    {
        32
    }
}

/// A stateful accumulator of input bytes for one SHA-256 computation.
/// Its view is the sequence of bytes passed to `update` so far, in order.
pub struct Sha256Context {
    state: LibcruxSha256,
}

impl View for Sha256Context {
    type V = Seq<u8>;

    closed spec fn view(&self) -> Seq<u8> {
        accumulated(self.state)
    }
}

impl Sha256Context {
    /// Appends bytes to the accumulated input; never fails. Payloads longer
    /// than the backend takes in one call are fed to it in chunks.
    pub fn update(&mut self, data: &[u8])
        requires
            old(self)@.len() + data@.len() <= MAX_HASH_INPUT_LEN,
        ensures
            final(self)@ == old(self)@ + data@,
    {
        let mut offset: usize = 0;
        while offset < data.len()
            invariant
                offset <= data@.len(),
                old(self)@.len() + data@.len() <= MAX_HASH_INPUT_LEN,
                self@ == old(self)@ + data@.take(offset as int),
            decreases data@.len() - offset,
        {
            let remaining = data.len() - offset;
            let step = if remaining > HASH_CHUNK_LEN {
                HASH_CHUNK_LEN
            } else {
                remaining
            };
            let chunk = vstd::slice::slice_subrange(data, offset, offset + step);
            sha256_state_update(&mut self.state, chunk);
            proof {
                assert(data@.take(offset as int) + data@.subrange(
                    offset as int,
                    (offset + step) as int,
                ) =~= data@.take((offset + step) as int));
            }
            offset = offset + step;
        }
        proof {
            assert(data@.take(data@.len() as int) =~= data@);
        }
    }

    /// Consumes the context and returns the digest of all bytes
    /// accumulated so far.
    pub fn finish(self) -> (r: Vec<u8>)
        ensures
            r@ == sha256_digest(self@),
            r@.len() == 32,
    {
        sha256_state_finish(&self.state)
    }

    /// A new, independent context whose accumulated state is an exact copy
    /// of this one's; later updates to either do not affect the other.
    pub fn fork(&self) -> (r: Sha256Context)
        ensures
            r@ == self@,
    {
        Sha256Context { state: sha256_state_clone(&self.state) }
    }

    /// The digest of the accumulated state, without consuming or altering
    /// the context: it keeps accepting updates, and a later digest reflects
    /// everything accumulated by then.
    pub fn fork_finish(&self) -> (r: Vec<u8>)
        ensures
            r@ == sha256_digest(self@),
            r@.len() == 32,
    {
        sha256_state_finish(&self.state)
    }
}

/// Fork independence: a fresh context updated with `a` has accumulated
/// exactly `a`; a fork of it updated with `b` digests to the one-shot
/// digest of `a ++ b`, while the original still digests to the one-shot
/// digest of `a` alone.
pub proof fn lemma_fork_independence(a: Seq<u8>, b: Seq<u8>)
    ensures
        sha256_digest((Seq::<u8>::empty() + a) + b) == sha256_digest(a + b),
        sha256_digest(Seq::<u8>::empty() + a) == sha256_digest(a),
{
    assert(Seq::<u8>::empty() + a =~= a);
}

/// Fork-finish non-destructiveness: after accumulating `a`, `fork_finish`
/// reads the one-shot digest of `a` while leaving the accumulated state as
/// it was, so updating with `b` and finishing digests `a ++ b`.
pub proof fn lemma_fork_finish_non_destructive(a: Seq<u8>, b: Seq<u8>)
    ensures
        ({
            let t = Seq::<u8>::empty() + a;
            sha256_digest(t) == sha256_digest(a) && sha256_digest(t + b) == sha256_digest(a + b)
        }),
{
    assert(Seq::<u8>::empty() + a =~= a);
}

} // verus!
