//! Trusted boundary to the BLS and proof-of-space primitives.
//!
//! Every cryptographic result is a pure function of its byte-level
//! arguments; each gets an uninterpreted name, and the wrapper below it is
//! the only place that name is given a value. The engine's contracts speak
//! of these names and of nothing else about the cryptography.

use vstd::prelude::*;

use crate::bytes::Bytes32;
use crate::bytes::Bytes48;
use crate::bytes::Bytes96;
use crate::model::ProofCandidate;
use crate::model::ProofCandidateV;
use dg_xch_core::traits::SizedBytes;
use dg_xch_core::blockchain::proof_of_space::ProofOfSpace as ExtProofOfSpace;
use dg_xch_core::consensus::constants::CONSENSUS_CONSTANTS_MAP;
use dg_xch_pos::verify_and_get_quality_string;

verus! {

/// The public key derived from a 32-byte secret scalar (an invalid scalar
/// falls back to the zero key, as the outside conversion does).
pub uninterp spec fn pk_of_sk(sk: Seq<u8>) -> Seq<u8>;

/// The augmented plot public key derived from the harvester-local key and
/// the farmer key, with or without the taproot share; `None` is a
/// derivation failure.
pub uninterp spec fn plot_pk_of(local_pk: Seq<u8>, farmer_pk: Seq<u8>, include_taproot: bool) -> Option<Seq<u8>>;

/// The taproot secret key derived from the harvester-local key and the
/// farmer key; `None` is a derivation failure.
pub uninterp spec fn taproot_sk_of(local_pk: Seq<u8>, farmer_pk: Seq<u8>) -> Option<Seq<u8>>;

/// The augmented-scheme signature of `msg` under `sk` with `prepend_pk`
/// prefixed into the signed payload.
pub uninterp spec fn sign_prepend_of(sk: Seq<u8>, msg: Seq<u8>, prepend_pk: Seq<u8>) -> Seq<u8>;

/// The augmented-scheme signature of `msg` under `sk` with the signer's own
/// public key prefixed.
pub uninterp spec fn sign_of(sk: Seq<u8>, msg: Seq<u8>) -> Seq<u8>;

/// Whether 96 bytes decode as a BLS signature.
pub uninterp spec fn sig_decodes(sig: Seq<u8>) -> bool;

/// The aggregate of a list of signatures; `None` when decoding or
/// aggregation fails.
pub uninterp spec fn aggregate_of(sigs: Seq<Seq<u8>>) -> Option<Seq<u8>>;

/// Whether `sig` verifies against `pk` and `msg` under the augmented
/// verification equation (the public key prefixed into the payload).
pub uninterp spec fn sig_verifies(pk: Seq<u8>, msg: Seq<u8>, sig: Seq<u8>) -> bool;

/// The quality string of a stored proof for a challenge/signage-point pair
/// on the named network at the given peak height; `None` is a rejection.
pub uninterp spec fn quality_of(network: Seq<char>, height: u32, challenge: Seq<u8>, sp_hash: Seq<u8>, proof: ProofCandidateV) -> Option<Seq<u8>>;

/// Relies on blst's `SecretKey::from_bytes` (falling back to the default
/// key on an invalid scalar, exactly as the outside byte conversion does)
/// and `SecretKey::sk_to_pk`: a deterministic 48-byte public key.
#[verifier::external_body]
pub fn sk_to_pk(sk: &Bytes32) -> (r: Bytes48)
    requires
        sk.wf(),
    ensures
        r.wf(),
        r@ == pk_of_sk(sk@),
{
    let secret = blst::min_pk::SecretKey::from_bytes(&sk.bytes).unwrap_or_default();
    Bytes48 { bytes: secret.sk_to_pk().to_bytes().to_vec() }
}

/// Relies on `dg_xch_core::blockchain::proof_of_space::generate_plot_public_key`:
/// a deterministic aggregate of the local key, the farmer key and, when
/// asked for, the taproot key; fails only inside the point arithmetic.
#[verifier::external_body]
pub fn derive_plot_public_key(local_pk: &Bytes48, farmer_pk: &Bytes48, include_taproot: bool) -> (r: Option<Bytes48>)
    requires
        local_pk.wf(),
        farmer_pk.wf(),
    ensures
        match r {
            Some(pk) => pk.wf() && plot_pk_of(local_pk@, farmer_pk@, include_taproot) == Some(pk@),
            None => plot_pk_of(local_pk@, farmer_pk@, include_taproot) is None,
        },
{
    let l = blst::min_pk::PublicKey::from_bytes(&local_pk.bytes).unwrap_or_default();
    let f = blst::min_pk::PublicKey::from_bytes(&farmer_pk.bytes).unwrap_or_default();
    match dg_xch_core::blockchain::proof_of_space::generate_plot_public_key(&l, &f, include_taproot) {
        Ok(pk) => Some(Bytes48 { bytes: pk.to_bytes().to_vec() }),
        Err(_) => None,
    }
}

/// Relies on `dg_xch_core::blockchain::proof_of_space::generate_taproot_sk`:
/// a deterministic key hashed out of the local and farmer keys.
#[verifier::external_body]
pub fn derive_taproot_secret(local_pk: &Bytes48, farmer_pk: &Bytes48) -> (r: Option<Bytes32>)
    requires
        local_pk.wf(),
        farmer_pk.wf(),
    ensures
        match r {
            Some(sk) => sk.wf() && taproot_sk_of(local_pk@, farmer_pk@) == Some(sk@),
            None => taproot_sk_of(local_pk@, farmer_pk@) is None,
        },
{
    let l = blst::min_pk::PublicKey::from_bytes(&local_pk.bytes).unwrap_or_default();
    let f = blst::min_pk::PublicKey::from_bytes(&farmer_pk.bytes).unwrap_or_default();
    match dg_xch_core::blockchain::proof_of_space::generate_taproot_sk(&l, &f) {
        Ok(sk) => Some(Bytes32 { bytes: sk.to_bytes().to_vec() }),
        Err(_) => None,
    }
}

/// Relies on `dg_xch_core::clvm::bls_bindings::sign_prepend`: deterministic
/// augmented signing with an explicit prefixed public key.
#[verifier::external_body]
pub fn sign_prepend_bytes(sk: &Bytes32, msg: &Vec<u8>, prepend_pk: &Bytes48) -> (r: Bytes96)
    requires
        sk.wf(),
        prepend_pk.wf(),
    ensures
        r.wf(),
        r@ == sign_prepend_of(sk@, msg@, prepend_pk@),
{
    let secret = blst::min_pk::SecretKey::from_bytes(&sk.bytes).unwrap_or_default();
    let pk = blst::min_pk::PublicKey::from_bytes(&prepend_pk.bytes).unwrap_or_default();
    let sig = dg_xch_core::clvm::bls_bindings::sign_prepend(&secret, msg, &pk);
    Bytes96 { bytes: sig.to_bytes().to_vec() }
}

/// Relies on `dg_xch_core::clvm::bls_bindings::sign`: deterministic
/// augmented signing with the signer's own public key prefixed.
#[verifier::external_body]
pub fn sign_bytes(sk: &Bytes32, msg: &Vec<u8>) -> (r: Bytes96)
    requires
        sk.wf(),
    ensures
        r.wf(),
        r@ == sign_of(sk@, msg@),
{
    let secret = blst::min_pk::SecretKey::from_bytes(&sk.bytes).unwrap_or_default();
    let sig = dg_xch_core::clvm::bls_bindings::sign(&secret, msg);
    Bytes96 { bytes: sig.to_bytes().to_vec() }
}

/// Relies on blst's `Signature::from_bytes`: whether the fixed-size decode
/// succeeds is a function of the bytes alone.
#[verifier::external_body]
pub fn signature_decodes(sig: &Bytes96) -> (r: bool)
    requires
        sig.wf(),
    ensures
        r == sig_decodes(sig@),
{
    blst::min_pk::Signature::from_bytes(&sig.bytes).is_ok()
}

/// Relies on blst's `AggregateSignature::aggregate` (with group checking)
/// over the decoded shares: a deterministic combined signature, or a
/// failure when a share does not decode or the library rejects the set.
#[verifier::external_body]
pub fn aggregate_signatures(sigs: &Vec<Bytes96>) -> (r: Option<Bytes96>)
    requires
        forall|i: int| 0 <= i < sigs@.len() ==> (#[trigger] sigs@[i]).wf(),
    ensures
        match r {
            Some(s) => s.wf() && aggregate_of(sigs.deep_view()) == Some(s@),
            None => aggregate_of(sigs.deep_view()) is None,
        },
{
    let mut decoded = Vec::with_capacity(sigs.len());
    for s in sigs.iter() {
        match blst::min_pk::Signature::from_bytes(&s.bytes) {
            Ok(d) => decoded.push(d),
            Err(_) => return None,
        }
    }
    let refs: Vec<&blst::min_pk::Signature> = decoded.iter().collect();
    match blst::min_pk::AggregateSignature::aggregate(&refs, true) {
        Ok(agg) => Some(Bytes96 { bytes: agg.to_signature().to_bytes().to_vec() }),
        Err(_) => None,
    }
}

/// Relies on `dg_xch_core::clvm::bls_bindings::verify_signature`: the
/// augmented verification equation over the decoded signature; bytes that
/// do not decode verify as false.
#[verifier::external_body]
pub fn verify_aggregate(pk: &Bytes48, msg: &Vec<u8>, sig: &Bytes96) -> (r: bool)
    requires
        pk.wf(),
        sig.wf(),
    ensures
        r == sig_verifies(pk@, msg@, sig@),
{
    let key = blst::min_pk::PublicKey::from_bytes(&pk.bytes).unwrap_or_default();
    match blst::min_pk::Signature::from_bytes(&sig.bytes) {
        Ok(s) => dg_xch_core::clvm::bls_bindings::verify_signature(&key, msg, &s),
        Err(_) => false,
    }
}

/// Relies on `dg_xch_pos::verify_and_get_quality_string`, with the
/// consensus constants taken from `CONSENSUS_CONSTANTS_MAP` (a fixed table
/// keyed by network name; an unknown name is a rejection): the quality
/// string is a function of the proof, the hashes, the network and the
/// height alone. The proof bytes must be exactly eight per size unit:
/// the verifier reads sixty-four bits of proof per size unit with no
/// bounds check, so shorter input would abort rather than return.
#[verifier::external_body]
pub fn check_proof_quality(network: &String, height: u32, challenge: &Bytes32, sp_hash: &Bytes32, proof: &ProofCandidate) -> (r: Option<Bytes32>)
    requires
        challenge.wf(),
        sp_hash.wf(),
        proof.wf(),
        proof.proof@.len() == 8 * (proof.size as int),
    ensures
        match r {
            Some(q) => q.wf() && quality_of(network@, height, challenge@, sp_hash@, proof.deep_view()) == Some(q@),
            None => quality_of(network@, height, challenge@, sp_hash@, proof.deep_view()) is None,
        },
{
    let constants = CONSENSUS_CONSTANTS_MAP.get(network)?;
    let pos = ExtProofOfSpace {
        challenge: proof.challenge.bytes.clone().into(),
        pool_public_key: proof.pool_public_key.as_ref().map(|b| b.bytes.clone().into()),
        pool_contract_puzzle_hash: proof.pool_contract_puzzle_hash.as_ref().map(|b| b.bytes.clone().into()),
        plot_public_key: proof.plot_public_key.bytes.clone().into(),
        size: proof.size,
        proof: proof.proof.clone().into(),
    };
    let ch = challenge.bytes.clone().into();
    let sp = sp_hash.bytes.clone().into();
    let q = verify_and_get_quality_string(&pos, constants, ch, sp, height)?;
    Some(Bytes32 { bytes: q.bytes().to_vec() })
}

} // verus!
