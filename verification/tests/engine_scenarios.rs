//! End-to-end scenarios for the signature-reconstruction engine, driven
//! with real BLS keys and signatures.

use blst::min_pk::SecretKey;
use dg_xch_core::blockchain::proof_of_space::{generate_plot_public_key, generate_taproot_sk};
use dg_xch_core::clvm::bls_bindings::{sign_prepend, verify_signature};

use farmer_signing::bytes::{Bytes32, Bytes48, Bytes96};
use farmer_signing::engine::{finish_response, process_response};
use farmer_signing::model::{
    CryptoError, FarmerState, KeyEntry, KeyRing, MessageSignature, Outcome, PlotProof,
    ProofCandidate, ProofGroup, SignagePointGroup, SignagePointRecord, SignatureResponse,
};

fn b32(x: u8) -> Bytes32 {
    Bytes32 { bytes: vec![x; 32] }
}

fn secret(seed: u8) -> SecretKey {
    SecretKey::key_gen(&[seed; 32], &[]).expect("32-byte seed")
}

fn sk_bytes(sk: &SecretKey) -> Bytes32 {
    Bytes32 { bytes: sk.to_bytes().to_vec() }
}

fn pk_bytes(sk: &SecretKey) -> Bytes48 {
    Bytes48 { bytes: sk.sk_to_pk().to_bytes().to_vec() }
}

fn sig96(sig: &blst::min_pk::Signature) -> Bytes96 {
    Bytes96 { bytes: sig.to_bytes().to_vec() }
}

struct Fixture {
    farmer_sk: SecretKey,
    local_sk: SecretKey,
    agg_pk: blst::min_pk::PublicKey,
    keys: KeyRing,
}

/// A farmer key, a harvester-local key, and the derived plot public key.
fn fixture(include_taproot: bool) -> Fixture {
    let farmer_sk = secret(1);
    let local_sk = secret(2);
    let agg_pk = generate_plot_public_key(
        &local_sk.sk_to_pk(),
        &farmer_sk.sk_to_pk(),
        include_taproot,
    )
    .expect("valid keys");
    let keys = KeyRing {
        farmer_keys: vec![KeyEntry {
            public_key: pk_bytes(&farmer_sk),
            secret_key: sk_bytes(&farmer_sk),
        }],
        pool_keys: vec![],
    };
    Fixture { farmer_sk, local_sk, agg_pk, keys }
}

fn plain_candidate(agg_pk: &blst::min_pk::PublicKey) -> ProofCandidate {
    ProofCandidate {
        challenge: b32(3),
        pool_public_key: None,
        pool_contract_puzzle_hash: None,
        plot_public_key: Bytes48 { bytes: agg_pk.to_bytes().to_vec() },
        size: 32,
        proof: vec![4; 8],
    }
}

fn sp_response(fx: &Fixture, h1: &Bytes32, r1: &Bytes32) -> SignatureResponse {
    let harv_cc = sign_prepend(&fx.local_sk, &h1.bytes, &fx.agg_pk);
    let harv_rc = sign_prepend(&fx.local_sk, &r1.bytes, &fx.agg_pk);
    SignatureResponse {
        plot_identifier: b"plot-1".to_vec(),
        challenge_hash: b32(3),
        sp_hash: Bytes32 { bytes: h1.bytes.clone() },
        local_pk: Bytes48 { bytes: fx.local_sk.sk_to_pk().to_bytes().to_vec() },
        farmer_pk: pk_bytes(&fx.farmer_sk),
        message_signatures: vec![
            MessageSignature { message: Bytes32 { bytes: h1.bytes.clone() }, signature: sig96(&harv_cc) },
            MessageSignature { message: Bytes32 { bytes: r1.bytes.clone() }, signature: sig96(&harv_rc) },
        ],
    }
}

/// Signage point H1 with reward chain R1, a candidate with no pool key
/// and no contract, and a matching farmer key: the engine declares, with
/// the signage points carried over and no pool target.
#[test]
fn declares_plain_proof() {
    let fx = fixture(false);
    let h1 = b32(9);
    let r1 = b32(7);
    let response = sp_response(&fx, &h1, &r1);
    let pospace = plain_candidate(&fx.agg_pk);
    let outcome = finish_response(
        &fx.keys, &response, 11, true, &pospace, &b32(6), &b32(0xaa), &b32(0xbb),
    )
    .expect("no malformed input");
    match outcome {
        Outcome::Declare(d) => {
            assert_eq!(d.challenge_chain_sp.bytes, h1.bytes);
            assert_eq!(d.reward_chain_sp.bytes, r1.bytes);
            assert_eq!(d.signage_point_index, 11);
            assert_eq!(d.farmer_puzzle_hash.bytes, vec![0xaa; 32]);
            assert!(d.pool_target.is_none());
            assert!(d.pool_signature.is_none());
            // The emitted aggregates verify against the plot public key.
            let cc = blst::min_pk::Signature::from_bytes(&d.challenge_chain_sp_signature.bytes)
                .expect("valid aggregate");
            assert!(verify_signature(&fx.agg_pk, &h1.bytes, &cc));
            let rc = blst::min_pk::Signature::from_bytes(&d.reward_chain_sp_signature.bytes)
                .expect("valid aggregate");
            assert!(verify_signature(&fx.agg_pk, &r1.bytes, &rc));
        }
        other => panic!("expected a declaration, got {}", outcome_name(&other)),
    }
}

fn outcome_name(o: &Outcome) -> &'static str {
    match o {
        Outcome::UnknownSpHash => "UnknownSpHash",
        Outcome::EmptySignagePointList => "EmptySignagePointList",
        Outcome::MalformedSignatureList => "MalformedSignatureList",
        Outcome::NoProofsForSpHash => "NoProofsForSpHash",
        Outcome::UnknownPlot => "UnknownPlot",
        Outcome::InvalidProof => "InvalidProof",
        Outcome::PartialResponse => "PartialResponse",
        Outcome::NoMatchingFarmerKey => "NoMatchingFarmerKey",
        Outcome::KeyMismatch => "KeyMismatch",
        Outcome::MissingPoolKey => "MissingPoolKey",
        Outcome::SignatureInvalid => "SignatureInvalid",
        Outcome::Declare(_) => "Declare",
        Outcome::SignedVals(_) => "SignedVals",
    }
}

/// Processing the same well-formed response twice yields the same
/// aggregate signature bytes both times.
#[test]
fn processing_is_idempotent() {
    let fx = fixture(false);
    let h1 = b32(9);
    let r1 = b32(7);
    let response = sp_response(&fx, &h1, &r1);
    let pospace = plain_candidate(&fx.agg_pk);
    let first = finish_response(&fx.keys, &response, 1, true, &pospace, &b32(6), &b32(1), &b32(2))
        .expect("ok");
    let second = finish_response(&fx.keys, &response, 1, true, &pospace, &b32(6), &b32(1), &b32(2))
        .expect("ok");
    match (first, second) {
        (Outcome::Declare(a), Outcome::Declare(b)) => {
            assert_eq!(a.challenge_chain_sp_signature.bytes, b.challenge_chain_sp_signature.bytes);
            assert_eq!(a.reward_chain_sp_signature.bytes, b.reward_chain_sp_signature.bytes);
        }
        _ => panic!("expected two declarations"),
    }
}

/// A proof bound to a pool contract whose pool key is not owned is
/// rejected with no emission, even though the signature chain verifies.
#[test]
fn missing_pool_key_blocks_declaration() {
    let fx = fixture(true);
    let pool_sk = secret(3);
    let h1 = b32(9);
    let r1 = b32(7);
    let response = sp_response(&fx, &h1, &r1);
    let mut pospace = plain_candidate(&fx.agg_pk);
    pospace.pool_public_key = Some(pk_bytes(&pool_sk));
    pospace.pool_contract_puzzle_hash = Some(b32(5));
    let outcome = finish_response(
        &fx.keys, &response, 1, true, &pospace, &b32(6), &b32(1), &b32(2),
    )
    .expect("ok");
    assert!(matches!(outcome, Outcome::MissingPoolKey), "got {}", outcome_name(&outcome));
}

/// With the pool key owned, the contract-bound declaration carries a pool
/// target signed by the pool key, and the aggregates include the taproot
/// share: they equal the three-share aggregate computed directly.
#[test]
fn taproot_declaration_with_pool_key() {
    let fx = fixture(true);
    let pool_sk = secret(3);
    let h1 = b32(9);
    let r1 = b32(7);
    let response = sp_response(&fx, &h1, &r1);
    let mut pospace = plain_candidate(&fx.agg_pk);
    pospace.pool_public_key = Some(pk_bytes(&pool_sk));
    pospace.pool_contract_puzzle_hash = Some(b32(5));
    let keys = KeyRing {
        farmer_keys: fx.keys.farmer_keys,
        pool_keys: vec![KeyEntry { public_key: pk_bytes(&pool_sk), secret_key: sk_bytes(&pool_sk) }],
    };
    let pool_target = b32(0xbb);
    let outcome = finish_response(&keys, &response, 1, true, &pospace, &b32(6), &b32(0xaa), &pool_target)
        .expect("ok");
    match outcome {
        Outcome::Declare(d) => {
            let pt = d.pool_target.expect("pool target");
            assert_eq!(pt.puzzle_hash.bytes, pool_target.bytes);
            assert_eq!(pt.max_height, 0);
            // The pool signature covers the serialized pool target.
            let mut payload = pool_target.bytes.clone();
            payload.extend_from_slice(&0u32.to_be_bytes());
            let psig = blst::min_pk::Signature::from_bytes(
                &d.pool_signature.expect("pool signature").bytes,
            )
            .expect("valid signature");
            assert!(verify_signature(&pool_sk.sk_to_pk(), &payload, &psig));
            // The challenge-chain aggregate equals the three-share
            // aggregate (harvester, farmer, taproot) computed directly.
            let taproot_sk =
                generate_taproot_sk(&fx.local_sk.sk_to_pk(), &fx.farmer_sk.sk_to_pk()).unwrap();
            let harv = sign_prepend(&fx.local_sk, &h1.bytes, &fx.agg_pk);
            let farmer = sign_prepend(&fx.farmer_sk, &h1.bytes, &fx.agg_pk);
            let taproot = sign_prepend(&taproot_sk, &h1.bytes, &fx.agg_pk);
            let expected = blst::min_pk::AggregateSignature::aggregate(
                &[&harv, &farmer, &taproot],
                true,
            )
            .unwrap()
            .to_signature();
            assert_eq!(d.challenge_chain_sp_signature.bytes, expected.to_bytes().to_vec());
        }
        other => panic!("expected a declaration, got {}", outcome_name(&other)),
    }
}

/// Omitting the taproot share makes verification against the
/// taproot-inclusive plot public key fail deterministically.
#[test]
fn non_taproot_aggregate_fails_against_taproot_key() {
    let fx = fixture(true);
    let h1 = b32(9);
    let harv = sign_prepend(&fx.local_sk, &h1.bytes, &fx.agg_pk);
    let farmer = sign_prepend(&fx.farmer_sk, &h1.bytes, &fx.agg_pk);
    let partial = blst::min_pk::AggregateSignature::aggregate(&[&harv, &farmer], true)
        .unwrap()
        .to_signature();
    assert!(!verify_signature(&fx.agg_pk, &h1.bytes, &partial));
}

/// A response whose derived augmented key differs from the stored plot
/// public key is dropped on the key-mismatch path.
#[test]
fn key_mismatch_drops_response() {
    let fx = fixture(false);
    let other = secret(9);
    let response = sp_response(&fx, &b32(9), &b32(7));
    let mut pospace = plain_candidate(&fx.agg_pk);
    pospace.plot_public_key = pk_bytes(&other);
    let outcome = finish_response(&fx.keys, &response, 1, true, &pospace, &b32(6), &b32(1), &b32(2))
        .expect("ok");
    assert!(matches!(outcome, Outcome::KeyMismatch), "got {}", outcome_name(&outcome));
}

/// No owned farmer key matches the response's farmer public key: no
/// output, no error.
#[test]
fn unmatched_farmer_key_is_silent() {
    let fx = fixture(false);
    let mut response = sp_response(&fx, &b32(9), &b32(7));
    response.farmer_pk = pk_bytes(&secret(9));
    let pospace = plain_candidate(&fx.agg_pk);
    let outcome = finish_response(&fx.keys, &response, 1, true, &pospace, &b32(6), &b32(1), &b32(2))
        .expect("ok");
    assert!(matches!(outcome, Outcome::NoMatchingFarmerKey), "got {}", outcome_name(&outcome));
}

/// A harvester signature over the wrong message survives decoding but the
/// aggregate fails verification: a logged drop, not an error.
#[test]
fn wrong_message_signature_is_invalid() {
    let fx = fixture(false);
    let h1 = b32(9);
    let r1 = b32(7);
    let mut response = sp_response(&fx, &h1, &r1);
    let wrong = sign_prepend(&fx.local_sk, &b32(0xee).bytes, &fx.agg_pk);
    response.message_signatures[0].signature = sig96(&wrong);
    let pospace = plain_candidate(&fx.agg_pk);
    let outcome = finish_response(&fx.keys, &response, 1, true, &pospace, &b32(6), &b32(1), &b32(2))
        .expect("ok");
    assert!(matches!(outcome, Outcome::SignatureInvalid), "got {}", outcome_name(&outcome));
}

/// Signature bytes that fail fixed-size decoding are a propagated error,
/// not a drop.
#[test]
fn undecodable_signature_is_an_error() {
    let fx = fixture(false);
    let mut response = sp_response(&fx, &b32(9), &b32(7));
    response.message_signatures[0].signature = Bytes96 { bytes: vec![0xff; 96] };
    let pospace = plain_candidate(&fx.agg_pk);
    let r = finish_response(&fx.keys, &response, 1, true, &pospace, &b32(6), &b32(1), &b32(2));
    match r {
        Err(e) => assert_eq!(e, CryptoError::MalformedSignature),
        Ok(o) => panic!("expected an error, got {}", outcome_name(&o)),
    }
}

/// A single-entry message list takes the partial-proof drop path.
#[test]
fn single_entry_list_is_partial() {
    let fx = fixture(false);
    let h1 = b32(9);
    let harv = sign_prepend(&fx.local_sk, &h1.bytes, &fx.agg_pk);
    let mut response = sp_response(&fx, &h1, &b32(7));
    response.message_signatures = vec![MessageSignature {
        message: Bytes32 { bytes: h1.bytes.clone() },
        signature: sig96(&harv),
    }];
    let pospace = plain_candidate(&fx.agg_pk);
    let outcome = finish_response(&fx.keys, &response, 1, false, &pospace, &b32(6), &b32(1), &b32(2))
        .expect("ok");
    assert!(matches!(outcome, Outcome::PartialResponse), "got {}", outcome_name(&outcome));
}

/// The block-signing phase emits signed values carrying the quality
/// string and two verifying foliage aggregates.
#[test]
fn foliage_phase_emits_signed_values() {
    let fx = fixture(false);
    let f1 = b32(0x11);
    let f2 = b32(0x22);
    let harv_f1 = sign_prepend(&fx.local_sk, &f1.bytes, &fx.agg_pk);
    let harv_f2 = sign_prepend(&fx.local_sk, &f2.bytes, &fx.agg_pk);
    let mut response = sp_response(&fx, &b32(9), &b32(7));
    response.message_signatures = vec![
        MessageSignature { message: Bytes32 { bytes: f1.bytes.clone() }, signature: sig96(&harv_f1) },
        MessageSignature { message: Bytes32 { bytes: f2.bytes.clone() }, signature: sig96(&harv_f2) },
    ];
    let pospace = plain_candidate(&fx.agg_pk);
    let quality = b32(0x44);
    let outcome = finish_response(&fx.keys, &response, 1, false, &pospace, &quality, &b32(1), &b32(2))
        .expect("ok");
    match outcome {
        Outcome::SignedVals(sv) => {
            assert_eq!(sv.quality_string.bytes, quality.bytes);
            let s1 = blst::min_pk::Signature::from_bytes(&sv.foliage_block_data_signature.bytes)
                .expect("valid aggregate");
            assert!(verify_signature(&fx.agg_pk, &f1.bytes, &s1));
            let s2 = blst::min_pk::Signature::from_bytes(
                &sv.foliage_transaction_block_signature.bytes,
            )
            .expect("valid aggregate");
            assert!(verify_signature(&fx.agg_pk, &f2.bytes, &s2));
        }
        other => panic!("expected signed values, got {}", outcome_name(&other)),
    }
}

// ---------------------------------------------------------------------------
// Full-state lookups through process_response
// ---------------------------------------------------------------------------

fn empty_state() -> FarmerState {
    FarmerState {
        signage_points: vec![],
        proofs_of_space: vec![],
        farmer_target: b32(0xaa),
        pool_target: b32(0xbb),
    }
}

fn record(h1: &Bytes32, r1: &Bytes32, index: u8) -> SignagePointRecord {
    SignagePointRecord {
        challenge_hash: b32(3),
        sp_hash: Bytes32 { bytes: h1.bytes.clone() },
        reward_chain_sp: Bytes32 { bytes: r1.bytes.clone() },
        signage_point_index: index,
    }
}

/// A response naming an unknown signage-point hash is dropped and nothing
/// is produced to send.
#[test]
fn unknown_sp_hash_is_dropped() {
    let fx = fixture(false);
    let state = empty_state();
    let response = sp_response(&fx, &b32(9), &b32(7));
    let outcome = process_response(&state, &fx.keys, &"mainnet".to_string(), 0, &response)
        .expect("ok");
    assert!(matches!(outcome, Outcome::UnknownSpHash), "got {}", outcome_name(&outcome));
}

/// Records exist for the hash but the list is empty.
#[test]
fn empty_signage_point_list_is_dropped() {
    let fx = fixture(false);
    let h1 = b32(9);
    let mut state = empty_state();
    state.signage_points.push(SignagePointGroup {
        sp_hash: Bytes32 { bytes: h1.bytes.clone() },
        records: vec![],
    });
    let response = sp_response(&fx, &h1, &b32(7));
    let outcome = process_response(&state, &fx.keys, &"mainnet".to_string(), 0, &response)
        .expect("ok");
    assert!(matches!(outcome, Outcome::EmptySignagePointList), "got {}", outcome_name(&outcome));
}

/// The first message names the signage point but the second names no
/// stored reward-chain value: rejected as malformed, not asserted on.
#[test]
fn mismatched_reward_chain_is_malformed() {
    let fx = fixture(false);
    let h1 = b32(9);
    let mut state = empty_state();
    state.signage_points.push(SignagePointGroup {
        sp_hash: Bytes32 { bytes: h1.bytes.clone() },
        records: vec![record(&h1, &b32(7), 1)],
    });
    let response = sp_response(&fx, &h1, &b32(0x55));
    let outcome = process_response(&state, &fx.keys, &"mainnet".to_string(), 0, &response)
        .expect("ok");
    assert!(matches!(outcome, Outcome::MalformedSignatureList), "got {}", outcome_name(&outcome));
}

/// No proofs at all under the hash, then no proof for the plot.
#[test]
fn missing_proofs_are_distinguished() {
    let fx = fixture(false);
    let h1 = b32(9);
    let r1 = b32(7);
    let mut state = empty_state();
    state.signage_points.push(SignagePointGroup {
        sp_hash: Bytes32 { bytes: h1.bytes.clone() },
        records: vec![record(&h1, &r1, 1)],
    });
    let response = sp_response(&fx, &h1, &r1);
    let outcome = process_response(&state, &fx.keys, &"mainnet".to_string(), 0, &response)
        .expect("ok");
    assert!(matches!(outcome, Outcome::NoProofsForSpHash), "got {}", outcome_name(&outcome));

    state.proofs_of_space.push(ProofGroup {
        sp_hash: Bytes32 { bytes: h1.bytes.clone() },
        proofs: vec![PlotProof {
            plot_identifier: b"other-plot".to_vec(),
            proof: plain_candidate(&fx.agg_pk),
        }],
    });
    let outcome = process_response(&state, &fx.keys, &"mainnet".to_string(), 0, &response)
        .expect("ok");
    assert!(matches!(outcome, Outcome::UnknownPlot), "got {}", outcome_name(&outcome));
}

/// A fabricated proof is rejected by the real quality verifier: the
/// response is dropped as an invalid proof.
#[test]
fn stale_proof_is_rejected_by_quality_check() {
    let fx = fixture(false);
    let h1 = b32(9);
    let r1 = b32(7);
    let mut state = empty_state();
    state.signage_points.push(SignagePointGroup {
        sp_hash: Bytes32 { bytes: h1.bytes.clone() },
        records: vec![record(&h1, &r1, 1)],
    });
    let mut candidate = plain_candidate(&fx.agg_pk);
    // A candidate must name a pool key or a contract to pass the shape
    // checks, and carry eight proof bytes per size unit to reach the
    // verifier at all; the proof bytes themselves still fail validation.
    candidate.pool_public_key = Some(pk_bytes(&secret(3)));
    candidate.proof = vec![4; 8 * 32];
    state.proofs_of_space.push(ProofGroup {
        sp_hash: Bytes32 { bytes: h1.bytes.clone() },
        proofs: vec![PlotProof { plot_identifier: b"plot-1".to_vec(), proof: candidate }],
    });
    let response = sp_response(&fx, &h1, &r1);
    let outcome = process_response(&state, &fx.keys, &"mainnet".to_string(), 0, &response)
        .expect("ok");
    assert!(matches!(outcome, Outcome::InvalidProof), "got {}", outcome_name(&outcome));
}

/// A stored proof whose byte length is not eight per size unit is an
/// invalid proof: it never reaches the quality verifier, which reads
/// exactly that many bytes.
#[test]
fn short_proof_is_rejected_before_quality_check() {
    let fx = fixture(false);
    let h1 = b32(9);
    let r1 = b32(7);
    let mut state = empty_state();
    state.signage_points.push(SignagePointGroup {
        sp_hash: Bytes32 { bytes: h1.bytes.clone() },
        records: vec![record(&h1, &r1, 1)],
    });
    let mut candidate = plain_candidate(&fx.agg_pk);
    candidate.pool_public_key = Some(pk_bytes(&secret(3)));
    candidate.proof = vec![4; 8];
    state.proofs_of_space.push(ProofGroup {
        sp_hash: Bytes32 { bytes: h1.bytes.clone() },
        proofs: vec![PlotProof { plot_identifier: b"plot-1".to_vec(), proof: candidate }],
    });
    let response = sp_response(&fx, &h1, &r1);
    let outcome = process_response(&state, &fx.keys, &"mainnet".to_string(), 0, &response)
        .expect("ok");
    assert!(matches!(outcome, Outcome::InvalidProof), "got {}", outcome_name(&outcome));
}
