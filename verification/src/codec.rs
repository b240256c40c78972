//! Salt and derivation-message byte layouts, and the keccak-256 address
//! derivation.
//!
//! The 85-byte derivation message is the exact pre-image hashed to obtain a
//! candidate contract address: a control byte, the factory address, the
//! calling address, the 4-byte run segment, the raw little-endian 8-byte lane
//! result, and the init-code hash. The candidate address is the low 20 bytes
//! of the message's keccak-256 digest.

use vstd::prelude::*;
use vstd::bytes::{spec_u64_to_le_bytes, u64_to_le_bytes, lemma_auto_spec_u64_to_from_le_bytes};
use crate::config::Config;
use tiny_keccak::{Hasher, Keccak};

verus! {

/// The constant first byte of every derivation message.
pub const CONTROL_CHARACTER: u8 = 0xff;

/// The 85-byte derivation message: control byte, factory address (20), calling
/// address (20), run segment (4), raw little-endian lane result (8), init-code
/// hash (32).
pub open spec fn spec_derivation_message(
    factory: Seq<u8>,
    caller: Seq<u8>,
    run_segment: Seq<u8>,
    lane_result: u64,
    init_code_hash: Seq<u8>,
) -> Seq<u8> {
    seq![CONTROL_CHARACTER] + factory + caller + run_segment + spec_u64_to_le_bytes(lane_result)
        + init_code_hash
}

/// The keccak-256 digest of a byte string; what it is on given bytes is known
/// only to the hash routine.
pub uninterp spec fn keccak256_of(msg: Seq<u8>) -> Seq<u8>;

/// The candidate contract address derived from a message: the low 20 bytes of
/// its 32-byte keccak-256 digest.
pub open spec fn spec_derived_address(msg: Seq<u8>) -> Seq<u8> {
    keccak256_of(msg).skip(12)
}

/// Relies on `tiny_keccak::Keccak::v256` with `Hasher::update` and
/// `Hasher::finalize`: the 32-byte keccak-256 digest, a function of the input
/// bytes alone.
#[verifier::external_body]
fn keccak256(msg: &[u8]) -> (digest: Vec<u8>)
    ensures
        digest@ == keccak256_of(msg@),
        digest@.len() == 32,
{
    let mut hash = Keccak::v256();
    hash.update(msg);
    let mut out = [0u8; 32];
    hash.finalize(&mut out);
    out.to_vec()
}

/// Append a byte slice to a vector.
pub fn push_bytes(out: &mut Vec<u8>, src: &[u8])
    ensures
        final(out)@ == old(out)@ + src@,
{
    let mut i: usize = 0;
    while i < src.len()
        invariant
            i <= src@.len(),
            out@ == old(out)@ + src@.take(i as int),
        decreases src@.len() - i,
    {
        out.push(src[i]);
        assert(src@.take(i + 1) =~= src@.take(i as int) + seq![src@[i as int]]);
        i = i + 1;
    }
    assert(src@.take(src@.len() as int) =~= src@);
}

/// The 4-byte dispatch message of a round is its run segment.
pub fn build_message(run_segment: &[u8; 4]) -> (msg: [u8; 4])
    ensures
        msg@ == run_segment@,
{
    *run_segment
}

impl Config {
    /// Assemble the 85-byte derivation message for a found lane result.
    pub fn assemble_derivation_message(
        &self,
        run_segment: &[u8; 4],
        lane_result: u64,
    ) -> (msg: Vec<u8>)
        ensures
            msg@ == spec_derivation_message(
                self.factory_address@,
                self.calling_address@,
                run_segment@,
                lane_result,
                self.init_code_hash@,
            ),
            msg@.len() == 85,
    {
        proof {
            lemma_auto_spec_u64_to_from_le_bytes();
        }
        let mut msg: Vec<u8> = Vec::new();
        msg.push(CONTROL_CHARACTER);
        push_bytes(&mut msg, self.factory_address.as_slice());
        push_bytes(&mut msg, self.calling_address.as_slice());
        push_bytes(&mut msg, run_segment.as_slice());
        let lane_bytes = u64_to_le_bytes(lane_result);
        push_bytes(&mut msg, lane_bytes.as_slice());
        push_bytes(&mut msg, self.init_code_hash.as_slice());
        assert(msg@ =~= spec_derivation_message(
            self.factory_address@,
            self.calling_address@,
            run_segment@,
            lane_result,
            self.init_code_hash@,
        ));
        msg
    }
}

/// Derive the candidate contract address from a derivation message: keccak-256
/// of the message, keeping the low 20 bytes of the digest.
pub fn derive_address(msg: &[u8]) -> (addr: Vec<u8>)
    ensures
        addr@ == spec_derived_address(msg@),
        addr@.len() == 20,
{
    let digest = keccak256(msg);
    let mut addr: Vec<u8> = Vec::new();
    let mut i: usize = 12;
    while i < 32
        invariant
            12 <= i <= 32,
            digest@.len() == 32,
            addr@ == digest@.subrange(12, i as int),
        decreases 32 - i,
    {
        addr.push(digest[i]);
        assert(digest@.subrange(12, i + 1) =~= digest@.subrange(12, i as int) + seq![
            digest@[i as int],
        ]);
        i = i + 1;
    }
    assert(addr@ =~= keccak256_of(msg@).skip(12));
    addr
}

/// Two equal derivation messages derive the same address: the derived address
/// is a function of the message bytes alone.
pub proof fn lemma_derive_address_deterministic(m1: Seq<u8>, m2: Seq<u8>)
    requires
        m1 == m2,
    ensures
        spec_derived_address(m1) == spec_derived_address(m2),
{
}

} // verus!
