//! The signature-reconstruction engine.
//!
//! `spec_process` is the mathematical description of what one harvester
//! response produces; `process_response` is the executable engine, proved
//! to return exactly that. The cryptographic names it builds on come from
//! `crate::bls`.

use vstd::prelude::*;

use crate::bls::aggregate_of;
use crate::bls::aggregate_signatures;
use crate::bls::check_proof_quality;
use crate::bls::derive_plot_public_key;
use crate::bls::derive_taproot_secret;
use crate::bls::pk_of_sk;
use crate::bls::plot_pk_of;
use crate::bls::quality_of;
use crate::bls::sig_decodes;
use crate::bls::sig_verifies;
use crate::bls::sign_bytes;
use crate::bls::sign_of;
use crate::bls::sign_prepend_bytes;
use crate::bls::sign_prepend_of;
use crate::bls::signature_decodes;
use crate::bls::sk_to_pk;
use crate::bls::taproot_sk_of;
use crate::bls::verify_aggregate;
use crate::bytes::bytes_copy;
use crate::bytes::bytes_eq;
use crate::bytes::Bytes32;
use crate::bytes::Bytes48;
use crate::bytes::Bytes96;
use crate::model::CryptoError;
use crate::model::Declaration;
use crate::model::DeclarationV;
use crate::model::FarmerState;
use crate::model::FarmerStateV;
use crate::model::KeyEntry;
use crate::model::KeyEntryV;
use crate::model::KeyRing;
use crate::model::KeyRingV;
use crate::model::Outcome;
use crate::model::OutcomeV;
use crate::model::PlotProof;
use crate::model::PlotProofV;
use crate::model::PoolTargetMessage;
use crate::model::PoolTargetMessageV;
use crate::model::ProofCandidate;
use crate::model::ProofCandidateV;
use crate::model::ProofGroup;
use crate::model::ProofGroupV;
use crate::model::SignagePointGroup;
use crate::model::SignagePointGroupV;
use crate::model::SignagePointRecord;
use crate::model::SignagePointRecordV;
use crate::model::SignatureResponse;
use crate::model::SignatureResponseV;
use crate::model::SignedValuesMessageV;

verus! {

// ---------------------------------------------------------------------------
// Lookups, specified as first-match scans
// ---------------------------------------------------------------------------

/// The signage-point records stored under `h`, if any group carries it.
pub open spec fn spec_find_sp_records(groups: Seq<SignagePointGroupV>, h: Seq<u8>) -> Option<
    Seq<SignagePointRecordV>,
>
    decreases groups.len(),
{
    if groups.len() == 0 {
        None
    } else if groups[0].sp_hash == h {
        Some(groups[0].records)
    } else {
        spec_find_sp_records(groups.skip(1), h)
    }
}

/// The proof candidates stored under `h`, if any group carries it.
pub open spec fn spec_find_proofs(groups: Seq<ProofGroupV>, h: Seq<u8>) -> Option<Seq<PlotProofV>>
    decreases groups.len(),
{
    if groups.len() == 0 {
        None
    } else if groups[0].sp_hash == h {
        Some(groups[0].proofs)
    } else {
        spec_find_proofs(groups.skip(1), h)
    }
}

/// The first candidate stored for the plot identifier, if any.
pub open spec fn spec_find_plot(proofs: Seq<PlotProofV>, id: Seq<u8>) -> Option<ProofCandidateV>
    decreases proofs.len(),
{
    if proofs.len() == 0 {
        None
    } else if proofs[0].plot_identifier == id {
        Some(proofs[0].proof)
    } else {
        spec_find_plot(proofs.skip(1), id)
    }
}

/// The first owned farmer secret whose derived public key equals
/// `farmer_pk`, if any. The match goes through key derivation, as the
/// engine re-derives every public key rather than trusting the index.
pub open spec fn spec_find_farmer_secret(keys: Seq<KeyEntryV>, farmer_pk: Seq<u8>) -> Option<
    Seq<u8>,
>
    decreases keys.len(),
{
    if keys.len() == 0 {
        None
    } else if pk_of_sk(keys[0].secret_key) == farmer_pk {
        Some(keys[0].secret_key)
    } else {
        spec_find_farmer_secret(keys.skip(1), farmer_pk)
    }
}

/// The first owned pool secret stored under `pool_pk`, if any.
pub open spec fn spec_find_pool_secret(keys: Seq<KeyEntryV>, pool_pk: Seq<u8>) -> Option<Seq<u8>>
    decreases keys.len(),
{
    if keys.len() == 0 {
        None
    } else if keys[0].public_key == pool_pk {
        Some(keys[0].secret_key)
    } else {
        spec_find_pool_secret(keys.skip(1), pool_pk)
    }
}

// ---------------------------------------------------------------------------
// Phase classification
// ---------------------------------------------------------------------------

/// The response carries signage-point signatures: the first message names
/// the signage-point hash itself and the second names a stored
/// reward-chain value.
pub open spec fn spec_is_sp_signatures(
    records: Seq<SignagePointRecordV>,
    resp: SignatureResponseV,
) -> bool {
    &&& resp.message_signatures.len() >= 2
    &&& resp.message_signatures[0].message == resp.sp_hash
    &&& exists|i: int|
        0 <= i < records.len() && #[trigger] records[i].reward_chain_sp
            == resp.message_signatures[1].message
}

/// The first message names the signage-point hash but the second names no
/// stored reward-chain value: a malformed response, rejected rather than
/// asserted on.
pub open spec fn spec_is_malformed(
    records: Seq<SignagePointRecordV>,
    resp: SignatureResponseV,
) -> bool {
    &&& resp.message_signatures.len() >= 2
    &&& resp.message_signatures[0].message == resp.sp_hash
    &&& !(exists|i: int|
        0 <= i < records.len() && #[trigger] records[i].reward_chain_sp
            == resp.message_signatures[1].message)
}

// ---------------------------------------------------------------------------
// Pool-target serialization
// ---------------------------------------------------------------------------

/// The big-endian bytes of a 32-bit integer.
pub open spec fn u32_be_bytes(x: u32) -> Seq<u8> {
    seq![
        ((x >> 24) & 0xff) as u8,
        ((x >> 16) & 0xff) as u8,
        ((x >> 8) & 0xff) as u8,
        (x & 0xff) as u8,
    ]
}

/// The signed pool-target payload, as the wire format lays it out: the
/// 32 puzzle-hash bytes, then the big-endian height.
fn pool_target_bytes(puzzle_hash: &Bytes32, max_height: u32) -> (r: Vec<u8>)
    requires
        puzzle_hash.wf(),
    ensures
        r@ == puzzle_hash@ + u32_be_bytes(max_height),
{
    proof {
        assert((max_height >> 24) & 0xff < 256) by (bit_vector);
        assert((max_height >> 16) & 0xff < 256) by (bit_vector);
        assert((max_height >> 8) & 0xff < 256) by (bit_vector);
        assert(max_height & 0xff < 256) by (bit_vector);
    }
    let mut out = bytes_copy(&puzzle_hash.bytes);
    out.push(((max_height >> 24) & 0xff) as u8);
    out.push(((max_height >> 16) & 0xff) as u8);
    out.push(((max_height >> 8) & 0xff) as u8);
    out.push((max_height & 0xff) as u8);
    proof {
        assert(out@ =~= puzzle_hash@ + u32_be_bytes(max_height));
    }
    out
}

// ---------------------------------------------------------------------------
// Share sets and phases
// ---------------------------------------------------------------------------

/// The ordered signature shares aggregated for one message: the
/// harvester's, the farmer's, and the taproot share when one is required.
pub open spec fn spec_share_set(
    harvester_sig: Seq<u8>,
    sk: Seq<u8>,
    msg: Seq<u8>,
    agg_pk: Seq<u8>,
    taproot_sk: Option<Seq<u8>>,
) -> Seq<Seq<u8>> {
    match taproot_sk {
        Some(t) => seq![
            harvester_sig,
            sign_prepend_of(sk, msg, agg_pk),
            sign_prepend_of(t, msg, agg_pk),
        ],
        None => seq![harvester_sig, sign_prepend_of(sk, msg, agg_pk)],
    }
}

/// The declaration emitted at the end of the signage-point phase.
pub open spec fn spec_declaration(
    resp: SignatureResponseV,
    sp_index: u8,
    pospace: ProofCandidateV,
    agg_cc: Seq<u8>,
    agg_rc: Seq<u8>,
    farmer_target: Seq<u8>,
    pool_target: Option<PoolTargetMessageV>,
    pool_signature: Option<Seq<u8>>,
) -> DeclarationV {
    DeclarationV {
        challenge_hash: resp.challenge_hash,
        challenge_chain_sp: resp.message_signatures[0].message,
        signage_point_index: sp_index,
        reward_chain_sp: resp.message_signatures[1].message,
        proof_of_space: pospace,
        challenge_chain_sp_signature: agg_cc,
        reward_chain_sp_signature: agg_rc,
        farmer_puzzle_hash: farmer_target,
        pool_target,
        pool_signature,
    }
}

/// Phase A: signage-point signing. The two messages are the
/// challenge-chain and reward-chain signage points.
pub open spec fn spec_phase_a(
    keys: KeyRingV,
    resp: SignatureResponseV,
    sp_index: u8,
    pospace: ProofCandidateV,
    farmer_target: Seq<u8>,
    pool_target: Seq<u8>,
) -> Result<OutcomeV, CryptoError> {
    let include_taproot = pospace.pool_contract_puzzle_hash is Some;
    let cc = resp.message_signatures[0];
    let rc = resp.message_signatures[1];
    if !sig_decodes(cc.signature) || !sig_decodes(rc.signature) {
        Err(CryptoError::MalformedSignature)
    } else {
        match spec_find_farmer_secret(keys.farmer_keys, resp.farmer_pk) {
            None => Ok(OutcomeV::NoMatchingFarmerKey),
            Some(sk) => {
                let pk = pk_of_sk(sk);
                match plot_pk_of(resp.local_pk, pk, include_taproot) {
                    None => Err(CryptoError::KeyDerivation),
                    Some(agg_pk) => {
                        if agg_pk != pospace.plot_public_key {
                            Ok(OutcomeV::KeyMismatch)
                        } else if include_taproot && taproot_sk_of(resp.local_pk, pk) is None {
                            Err(CryptoError::KeyDerivation)
                        } else {
                            let tsk = if include_taproot {
                                taproot_sk_of(resp.local_pk, pk)
                            } else {
                                None
                            };
                            match aggregate_of(
                                spec_share_set(cc.signature, sk, cc.message, agg_pk, tsk),
                            ) {
                                None => Err(CryptoError::Aggregation),
                                Some(agg_cc) => {
                                    if !sig_verifies(agg_pk, cc.message, agg_cc) {
                                        Ok(OutcomeV::SignatureInvalid)
                                    } else {
                                        match aggregate_of(
                                            spec_share_set(
                                                rc.signature,
                                                sk,
                                                rc.message,
                                                agg_pk,
                                                tsk,
                                            ),
                                        ) {
                                            None => Err(CryptoError::Aggregation),
                                            Some(agg_rc) => {
                                                if !sig_verifies(agg_pk, rc.message, agg_rc) {
                                                    Ok(OutcomeV::SignatureInvalid)
                                                } else {
                                                    spec_phase_a_pool(
                                                        keys,
                                                        resp,
                                                        sp_index,
                                                        pospace,
                                                        agg_cc,
                                                        agg_rc,
                                                        farmer_target,
                                                        pool_target,
                                                    )
                                                }
                                            },
                                        }
                                    }
                                },
                            }
                        }
                    },
                }
            },
        }
    }
}

/// The pool-target step that closes phase A: a proof bound to a pool
/// public key is declared only with a signed pool target.
pub open spec fn spec_phase_a_pool(
    keys: KeyRingV,
    resp: SignatureResponseV,
    sp_index: u8,
    pospace: ProofCandidateV,
    agg_cc: Seq<u8>,
    agg_rc: Seq<u8>,
    farmer_target: Seq<u8>,
    pool_target: Seq<u8>,
) -> Result<OutcomeV, CryptoError> {
    match pospace.pool_public_key {
        Some(ppk) => match spec_find_pool_secret(keys.pool_keys, ppk) {
            None => Ok(OutcomeV::MissingPoolKey),
            Some(psk) => Ok(
                OutcomeV::Declare(
                    spec_declaration(
                        resp,
                        sp_index,
                        pospace,
                        agg_cc,
                        agg_rc,
                        farmer_target,
                        Some(PoolTargetMessageV { puzzle_hash: pool_target, max_height: 0 }),
                        Some(sign_of(psk, pool_target + u32_be_bytes(0))),
                    ),
                ),
            ),
        },
        None => Ok(
            OutcomeV::Declare(
                spec_declaration(
                    resp,
                    sp_index,
                    pospace,
                    agg_cc,
                    agg_rc,
                    farmer_target,
                    None,
                    None,
                ),
            ),
        ),
    }
}

/// Phase B: block/foliage signing. The two messages are the foliage block
/// data hash and the foliage transaction block hash; the emitted message
/// carries the quality string.
pub open spec fn spec_phase_b(
    keys: KeyRingV,
    resp: SignatureResponseV,
    pospace: ProofCandidateV,
    quality: Seq<u8>,
) -> Result<OutcomeV, CryptoError> {
    let include_taproot = pospace.pool_contract_puzzle_hash is Some;
    let fd = resp.message_signatures[0];
    let ft = resp.message_signatures[1];
    if !sig_decodes(fd.signature) || !sig_decodes(ft.signature) {
        Err(CryptoError::MalformedSignature)
    } else {
        match spec_find_farmer_secret(keys.farmer_keys, resp.farmer_pk) {
            None => Ok(OutcomeV::NoMatchingFarmerKey),
            Some(sk) => {
                let pk = pk_of_sk(sk);
                match plot_pk_of(resp.local_pk, pk, include_taproot) {
                    None => Err(CryptoError::KeyDerivation),
                    Some(agg_pk) => {
                        if agg_pk != pospace.plot_public_key {
                            Ok(OutcomeV::KeyMismatch)
                        } else if include_taproot && taproot_sk_of(resp.local_pk, pk) is None {
                            Err(CryptoError::KeyDerivation)
                        } else {
                            let tsk = if include_taproot {
                                taproot_sk_of(resp.local_pk, pk)
                            } else {
                                None
                            };
                            match aggregate_of(
                                spec_share_set(fd.signature, sk, fd.message, agg_pk, tsk),
                            ) {
                                None => Err(CryptoError::Aggregation),
                                Some(agg_fd) => match aggregate_of(
                                    spec_share_set(ft.signature, sk, ft.message, agg_pk, tsk),
                                ) {
                                    None => Err(CryptoError::Aggregation),
                                    Some(agg_ft) => {
                                        if !sig_verifies(agg_pk, fd.message, agg_fd) {
                                            Ok(OutcomeV::SignatureInvalid)
                                        } else if !sig_verifies(agg_pk, ft.message, agg_ft) {
                                            Ok(OutcomeV::SignatureInvalid)
                                        } else {
                                            Ok(
                                                OutcomeV::SignedVals(
                                                    SignedValuesMessageV {
                                                        quality_string: quality,
                                                        foliage_block_data_signature: agg_fd,
                                                        foliage_transaction_block_signature:
                                                            agg_ft,
                                                    },
                                                ),
                                            )
                                        }
                                    },
                                },
                            }
                        }
                    },
                }
            },
        }
    }
}

/// What the engine does once the quality verifier has spoken: one of the
/// two signing phases, or the partial-response drop.
pub open spec fn spec_finish(
    keys: KeyRingV,
    resp: SignatureResponseV,
    sp_index: u8,
    is_sp_signatures: bool,
    pospace: ProofCandidateV,
    quality: Seq<u8>,
    farmer_target: Seq<u8>,
    pool_target: Seq<u8>,
) -> Result<OutcomeV, CryptoError> {
    if is_sp_signatures {
        spec_phase_a(keys, resp, sp_index, pospace, farmer_target, pool_target)
    } else if resp.message_signatures.len() > 1 {
        spec_phase_b(keys, resp, pospace, quality)
    } else {
        Ok(OutcomeV::PartialResponse)
    }
}

/// The complete outcome of one harvester response: the mathematical
/// description that `process_response` is proved to return.
pub open spec fn spec_process(
    state: FarmerStateV,
    keys: KeyRingV,
    network: Seq<char>,
    height: u32,
    resp: SignatureResponseV,
) -> Result<OutcomeV, CryptoError> {
    match spec_find_sp_records(state.signage_points, resp.sp_hash) {
        None => Ok(OutcomeV::UnknownSpHash),
        Some(records) => {
            if records.len() == 0 {
                Ok(OutcomeV::EmptySignagePointList)
            } else if spec_is_malformed(records, resp) {
                Ok(OutcomeV::MalformedSignatureList)
            } else {
                match spec_find_proofs(state.proofs_of_space, resp.sp_hash) {
                    None => Ok(OutcomeV::NoProofsForSpHash),
                    Some(plist) => {
                        match spec_find_plot(plist, resp.plot_identifier) {
                            None => Ok(OutcomeV::UnknownPlot),
                            Some(pospace) => {
                                if pospace.proof.len() != 8 * (pospace.size as int) {
                                    // The quality verifier reads exactly
                                    // eight proof bytes per size unit; any
                                    // other length is an invalid proof.
                                    Ok(OutcomeV::InvalidProof)
                                } else {
                                    match quality_of(
                                    network,
                                    height,
                                    resp.challenge_hash,
                                    resp.sp_hash,
                                    pospace,
                                ) {
                                    None => Ok(OutcomeV::InvalidProof),
                                    Some(quality) => spec_finish(
                                        keys,
                                        resp,
                                        records[0].signage_point_index,
                                        spec_is_sp_signatures(records, resp),
                                        pospace,
                                        quality,
                                        state.farmer_target,
                                        state.pool_target,
                                    ),
                                }
                                }
                            },
                        }
                    },
                }
            }
        },
    }
}

/// The executable result agrees with the specified one.
pub open spec fn matches_spec(
    r: Result<Outcome, CryptoError>,
    s: Result<OutcomeV, CryptoError>,
) -> bool {
    match r {
        Ok(o) => s == Ok::<OutcomeV, CryptoError>(o.deep_view()),
        Err(e) => s == Err::<OutcomeV, CryptoError>(e),
    }
}

// ---------------------------------------------------------------------------
// Executable lookups
// ---------------------------------------------------------------------------

/// The index of the signage-point group stored under `h`, if any.
fn find_sp_group(groups: &Vec<SignagePointGroup>, h: &Bytes32) -> (r: Option<usize>)
    ensures
        match r {
            Some(i) => i < groups@.len() && spec_find_sp_records(groups.deep_view(), h@) == Some(
                groups@[i as int].records.deep_view(),
            ),
            None => spec_find_sp_records(groups.deep_view(), h@) is None,
        },
{
    let ghost dv = groups.deep_view();
    proof {
        assert(dv.skip(0) =~= dv);
    }
    let mut i: usize = 0;
    while i < groups.len()
        invariant
            0 <= i <= groups@.len(),
            dv == groups.deep_view(),
            dv.len() == groups@.len(),
            spec_find_sp_records(dv, h@) == spec_find_sp_records(dv.skip(i as int), h@),
        decreases groups@.len() - i,
    {
        proof {
            assert(dv.skip(i as int)[0] == dv[i as int]);
        }
        if bytes_eq(&groups[i].sp_hash.bytes, &h.bytes) {
            return Some(i);
        }
        proof {
            assert(dv.skip(i as int).skip(1) =~= dv.skip(i as int + 1));
        }
        i = i + 1;
    }
    proof {
        assert(dv.skip(groups@.len() as int) =~= Seq::<SignagePointGroupV>::empty());
    }
    None
}

/// The index of the proof group stored under `h`, if any.
fn find_proof_group(groups: &Vec<ProofGroup>, h: &Bytes32) -> (r: Option<usize>)
    ensures
        match r {
            Some(i) => i < groups@.len() && spec_find_proofs(groups.deep_view(), h@) == Some(
                groups@[i as int].proofs.deep_view(),
            ),
            None => spec_find_proofs(groups.deep_view(), h@) is None,
        },
{
    let ghost dv = groups.deep_view();
    proof {
        assert(dv.skip(0) =~= dv);
    }
    let mut i: usize = 0;
    while i < groups.len()
        invariant
            0 <= i <= groups@.len(),
            dv == groups.deep_view(),
            dv.len() == groups@.len(),
            spec_find_proofs(dv, h@) == spec_find_proofs(dv.skip(i as int), h@),
        decreases groups@.len() - i,
    {
        proof {
            assert(dv.skip(i as int)[0] == dv[i as int]);
        }
        if bytes_eq(&groups[i].sp_hash.bytes, &h.bytes) {
            return Some(i);
        }
        proof {
            assert(dv.skip(i as int).skip(1) =~= dv.skip(i as int + 1));
        }
        i = i + 1;
    }
    proof {
        assert(dv.skip(groups@.len() as int) =~= Seq::<ProofGroupV>::empty());
    }
    None
}

/// The index of the first candidate for the plot identifier, if any.
fn find_plot(proofs: &Vec<PlotProof>, id: &Vec<u8>) -> (r: Option<usize>)
    ensures
        match r {
            Some(i) => i < proofs@.len() && spec_find_plot(proofs.deep_view(), id@) == Some(
                proofs@[i as int].proof.deep_view(),
            ),
            None => spec_find_plot(proofs.deep_view(), id@) is None,
        },
{
    let ghost dv = proofs.deep_view();
    proof {
        assert(dv.skip(0) =~= dv);
    }
    let mut i: usize = 0;
    while i < proofs.len()
        invariant
            0 <= i <= proofs@.len(),
            dv == proofs.deep_view(),
            dv.len() == proofs@.len(),
            spec_find_plot(dv, id@) == spec_find_plot(dv.skip(i as int), id@),
        decreases proofs@.len() - i,
    {
        proof {
            assert(dv.skip(i as int)[0] == dv[i as int]);
        }
        if bytes_eq(&proofs[i].plot_identifier, id) {
            return Some(i);
        }
        proof {
            assert(dv.skip(i as int).skip(1) =~= dv.skip(i as int + 1));
        }
        i = i + 1;
    }
    proof {
        assert(dv.skip(proofs@.len() as int) =~= Seq::<PlotProofV>::empty());
    }
    None
}

/// The index of the first farmer key whose derived public key matches, if
/// any. Every owned key is re-derived and compared, as the response must
/// be matched against every key the farmer holds.
fn find_farmer_secret(keys: &Vec<KeyEntry>, farmer_pk: &Bytes48) -> (r: Option<usize>)
    requires
        forall|i: int| 0 <= i < keys@.len() ==> (#[trigger] keys@[i]).wf(),
    ensures
        match r {
            Some(i) => i < keys@.len() && spec_find_farmer_secret(keys.deep_view(), farmer_pk@)
                == Some(keys@[i as int].secret_key@),
            None => spec_find_farmer_secret(keys.deep_view(), farmer_pk@) is None,
        },
{
    let ghost dv = keys.deep_view();
    proof {
        assert(dv.skip(0) =~= dv);
    }
    let mut i: usize = 0;
    while i < keys.len()
        invariant
            0 <= i <= keys@.len(),
            dv == keys.deep_view(),
            dv.len() == keys@.len(),
            forall|j: int| 0 <= j < keys@.len() ==> (#[trigger] keys@[j]).wf(),
            spec_find_farmer_secret(dv, farmer_pk@) == spec_find_farmer_secret(
                dv.skip(i as int),
                farmer_pk@,
            ),
        decreases keys@.len() - i,
    {
        proof {
            assert(dv.skip(i as int)[0] == dv[i as int]);
        }
        let derived = sk_to_pk(&keys[i].secret_key);
        if bytes_eq(&derived.bytes, &farmer_pk.bytes) {
            return Some(i);
        }
        proof {
            assert(dv.skip(i as int).skip(1) =~= dv.skip(i as int + 1));
        }
        i = i + 1;
    }
    proof {
        assert(dv.skip(keys@.len() as int) =~= Seq::<KeyEntryV>::empty());
    }
    None
}

/// The index of the pool key stored under `pool_pk`, if any.
fn find_pool_secret(keys: &Vec<KeyEntry>, pool_pk: &Bytes48) -> (r: Option<usize>)
    ensures
        match r {
            Some(i) => i < keys@.len() && spec_find_pool_secret(keys.deep_view(), pool_pk@)
                == Some(keys@[i as int].secret_key@),
            None => spec_find_pool_secret(keys.deep_view(), pool_pk@) is None,
        },
{
    let ghost dv = keys.deep_view();
    proof {
        assert(dv.skip(0) =~= dv);
    }
    let mut i: usize = 0;
    while i < keys.len()
        invariant
            0 <= i <= keys@.len(),
            dv == keys.deep_view(),
            dv.len() == keys@.len(),
            spec_find_pool_secret(dv, pool_pk@) == spec_find_pool_secret(
                dv.skip(i as int),
                pool_pk@,
            ),
        decreases keys@.len() - i,
    {
        proof {
            assert(dv.skip(i as int)[0] == dv[i as int]);
        }
        if bytes_eq(&keys[i].public_key.bytes, &pool_pk.bytes) {
            return Some(i);
        }
        proof {
            assert(dv.skip(i as int).skip(1) =~= dv.skip(i as int + 1));
        }
        i = i + 1;
    }
    proof {
        assert(dv.skip(keys@.len() as int) =~= Seq::<KeyEntryV>::empty());
    }
    None
}

/// Whether the response carries signage-point signatures, and whether it
/// is malformed (first message names the signage point, second names no
/// stored reward-chain value).
fn classify_response(records: &Vec<SignagePointRecord>, response: &SignatureResponse) -> (r: (
    bool,
    bool,
))
    ensures
        r.0 == spec_is_sp_signatures(records.deep_view(), response.deep_view()),
        r.1 == spec_is_malformed(records.deep_view(), response.deep_view()),
{
    let ghost rv = records.deep_view();
    if response.message_signatures.len() < 2 {
        return (false, false);
    }
    if !bytes_eq(&response.message_signatures[0].message.bytes, &response.sp_hash.bytes) {
        return (false, false);
    }
    let ghost m1 = response.deep_view().message_signatures[1].message;
    proof {
        assert(response.deep_view().message_signatures[0] == response.message_signatures@[0].deep_view());
        assert(response.deep_view().message_signatures[1] == response.message_signatures@[1].deep_view());
    }
    let mut i: usize = 0;
    while i < records.len()
        invariant
            0 <= i <= records@.len(),
            rv == records.deep_view(),
            rv.len() == records@.len(),
            response.message_signatures@.len() >= 2,
            m1 == response.deep_view().message_signatures[1].message,
            response.deep_view().message_signatures[0].message == response.deep_view().sp_hash,
            forall|j: int| 0 <= j < i ==> #[trigger] rv[j].reward_chain_sp != m1,
        decreases records@.len() - i,
    {
        if bytes_eq(
            &records[i].reward_chain_sp.bytes,
            &response.message_signatures[1].message.bytes,
        ) {
            proof {
                assert(rv[i as int].reward_chain_sp == m1);
            }
            return (true, false);
        }
        i = i + 1;
    }
    (false, true)
}

// ---------------------------------------------------------------------------
// Share sets
// ---------------------------------------------------------------------------

/// The signature shares aggregated for one message, in order: the
/// harvester's, the farmer's, and the taproot share when one is required.
fn build_share_set(
    harvester_sig: &Bytes96,
    sk: &Bytes32,
    msg: &Bytes32,
    agg_pk: &Bytes48,
    taproot_sk: &Option<Bytes32>,
) -> (r: Vec<Bytes96>)
    requires
        harvester_sig.wf(),
        sk.wf(),
        agg_pk.wf(),
        match taproot_sk {
            Some(t) => t.wf(),
            None => true,
        },
    ensures
        r.deep_view() == spec_share_set(
            harvester_sig@,
            sk@,
            msg@,
            agg_pk@,
            taproot_sk.deep_view(),
        ),
        forall|i: int| 0 <= i < r@.len() ==> (#[trigger] r@[i]).wf(),
{
    let mut shares: Vec<Bytes96> = Vec::new();
    shares.push(harvester_sig.duplicate());
    shares.push(sign_prepend_bytes(sk, &msg.bytes, agg_pk));
    match taproot_sk {
        Some(t) => {
            shares.push(sign_prepend_bytes(t, &msg.bytes, agg_pk));
        },
        None => {},
    }
    proof {
        assert(shares.deep_view() =~~= spec_share_set(
            harvester_sig@,
            sk@,
            msg@,
            agg_pk@,
            taproot_sk.deep_view(),
        ));
    }
    shares
}

// ---------------------------------------------------------------------------
// The two signing phases
// ---------------------------------------------------------------------------

/// Phase A: reconstruct and check the two signage-point aggregates, then
/// build the declaration.
fn run_phase_a(
    keys: &KeyRing,
    response: &SignatureResponse,
    sp_index: u8,
    pospace: &ProofCandidate,
    farmer_target: &Bytes32,
    pool_target: &Bytes32,
) -> (r: Result<Outcome, CryptoError>)
    requires
        keys.wf(),
        response.wf(),
        pospace.wf(),
        farmer_target.wf(),
        pool_target.wf(),
        response.message_signatures@.len() >= 2,
    ensures
        matches_spec(
            r,
            spec_phase_a(
                keys.deep_view(),
                response.deep_view(),
                sp_index,
                pospace.deep_view(),
                farmer_target@,
                pool_target@,
            ),
        ),
{
    let ghost kv = keys.deep_view();
    let ghost rv = response.deep_view();
    let ghost pv = pospace.deep_view();
    proof {
        assert(rv.message_signatures[0] == response.message_signatures@[0].deep_view());
        assert(rv.message_signatures[1] == response.message_signatures@[1].deep_view());
        assert(response.message_signatures@[0].wf());
        assert(response.message_signatures@[1].wf());
    }
    let include_taproot = pospace.pool_contract_puzzle_hash.is_some();
    if !signature_decodes(&response.message_signatures[0].signature) {
        return Err(CryptoError::MalformedSignature);
    }
    if !signature_decodes(&response.message_signatures[1].signature) {
        return Err(CryptoError::MalformedSignature);
    }
    let sk_index = match find_farmer_secret(&keys.farmer_keys, &response.farmer_pk) {
        None => {
            return Ok(Outcome::NoMatchingFarmerKey);
        },
        Some(i) => i,
    };
    let sk = &keys.farmer_keys[sk_index].secret_key;
    proof {
        assert(keys.farmer_keys@[sk_index as int].wf());
    }
    let pk = sk_to_pk(sk);
    let agg_pk = match derive_plot_public_key(&response.local_pk, &pk, include_taproot) {
        None => {
            return Err(CryptoError::KeyDerivation);
        },
        Some(a) => a,
    };
    if !bytes_eq(&agg_pk.bytes, &pospace.plot_public_key.bytes) {
        return Ok(Outcome::KeyMismatch);
    }
    let taproot_sk: Option<Bytes32> = if include_taproot {
        match derive_taproot_secret(&response.local_pk, &pk) {
            None => {
                return Err(CryptoError::KeyDerivation);
            },
            Some(t) => Some(t),
        }
    } else {
        None
    };
    let cc_shares = build_share_set(
        &response.message_signatures[0].signature,
        sk,
        &response.message_signatures[0].message,
        &agg_pk,
        &taproot_sk,
    );
    let agg_cc = match aggregate_signatures(&cc_shares) {
        None => {
            return Err(CryptoError::Aggregation);
        },
        Some(s) => s,
    };
    if !verify_aggregate(&agg_pk, &response.message_signatures[0].message.bytes, &agg_cc) {
        return Ok(Outcome::SignatureInvalid);
    }
    let rc_shares = build_share_set(
        &response.message_signatures[1].signature,
        sk,
        &response.message_signatures[1].message,
        &agg_pk,
        &taproot_sk,
    );
    let agg_rc = match aggregate_signatures(&rc_shares) {
        None => {
            return Err(CryptoError::Aggregation);
        },
        Some(s) => s,
    };
    if !verify_aggregate(&agg_pk, &response.message_signatures[1].message.bytes, &agg_rc) {
        return Ok(Outcome::SignatureInvalid);
    }
    let pool_parts: (Option<PoolTargetMessage>, Option<Bytes96>) = match &pospace.pool_public_key {
        Some(ppk) => {
            proof {
                assert(pv.pool_public_key == Some(ppk@));
            }
            match find_pool_secret(&keys.pool_keys, ppk) {
                None => {
                    return Ok(Outcome::MissingPoolKey);
                },
                Some(pool_index) => {
                    let psk = &keys.pool_keys[pool_index].secret_key;
                    proof {
                        assert(keys.pool_keys@[pool_index as int].wf());
                    }
                    let target_bytes = pool_target_bytes(pool_target, 0);
                    let pool_sig = sign_bytes(psk, &target_bytes);
                    (
                        Some(
                            PoolTargetMessage {
                                puzzle_hash: pool_target.duplicate(),
                                max_height: 0,
                            },
                        ),
                        Some(pool_sig),
                    )
                },
            }
        },
        None => (None, None),
    };
    let declaration = Declaration {
        challenge_hash: response.challenge_hash.duplicate(),
        challenge_chain_sp: response.message_signatures[0].message.duplicate(),
        signage_point_index: sp_index,
        reward_chain_sp: response.message_signatures[1].message.duplicate(),
        proof_of_space: pospace.duplicate(),
        challenge_chain_sp_signature: agg_cc,
        reward_chain_sp_signature: agg_rc,
        farmer_puzzle_hash: farmer_target.duplicate(),
        pool_target: pool_parts.0,
        pool_signature: pool_parts.1,
    };
    Ok(Outcome::Declare(declaration))
}

/// Phase B: reconstruct and check the two foliage aggregates, then build
/// the signed-values message around the quality string.
fn run_phase_b(
    keys: &KeyRing,
    response: &SignatureResponse,
    pospace: &ProofCandidate,
    quality: &Bytes32,
) -> (r: Result<Outcome, CryptoError>)
    requires
        keys.wf(),
        response.wf(),
        pospace.wf(),
        quality.wf(),
        response.message_signatures@.len() >= 2,
    ensures
        matches_spec(
            r,
            spec_phase_b(keys.deep_view(), response.deep_view(), pospace.deep_view(), quality@),
        ),
{
    let ghost kv = keys.deep_view();
    let ghost rv = response.deep_view();
    let ghost pv = pospace.deep_view();
    proof {
        assert(rv.message_signatures[0] == response.message_signatures@[0].deep_view());
        assert(rv.message_signatures[1] == response.message_signatures@[1].deep_view());
        assert(response.message_signatures@[0].wf());
        assert(response.message_signatures@[1].wf());
    }
    let include_taproot = pospace.pool_contract_puzzle_hash.is_some();
    if !signature_decodes(&response.message_signatures[0].signature) {
        return Err(CryptoError::MalformedSignature);
    }
    if !signature_decodes(&response.message_signatures[1].signature) {
        return Err(CryptoError::MalformedSignature);
    }
    let sk_index = match find_farmer_secret(&keys.farmer_keys, &response.farmer_pk) {
        None => {
            return Ok(Outcome::NoMatchingFarmerKey);
        },
        Some(i) => i,
    };
    let sk = &keys.farmer_keys[sk_index].secret_key;
    proof {
        assert(keys.farmer_keys@[sk_index as int].wf());
    }
    let pk = sk_to_pk(sk);
    let agg_pk = match derive_plot_public_key(&response.local_pk, &pk, include_taproot) {
        None => {
            return Err(CryptoError::KeyDerivation);
        },
        Some(a) => a,
    };
    if !bytes_eq(&agg_pk.bytes, &pospace.plot_public_key.bytes) {
        return Ok(Outcome::KeyMismatch);
    }
    let taproot_sk: Option<Bytes32> = if include_taproot {
        match derive_taproot_secret(&response.local_pk, &pk) {
            None => {
                return Err(CryptoError::KeyDerivation);
            },
            Some(t) => Some(t),
        }
    } else {
        None
    };
    let fd_shares = build_share_set(
        &response.message_signatures[0].signature,
        sk,
        &response.message_signatures[0].message,
        &agg_pk,
        &taproot_sk,
    );
    let agg_fd = match aggregate_signatures(&fd_shares) {
        None => {
            return Err(CryptoError::Aggregation);
        },
        Some(s) => s,
    };
    let ft_shares = build_share_set(
        &response.message_signatures[1].signature,
        sk,
        &response.message_signatures[1].message,
        &agg_pk,
        &taproot_sk,
    );
    let agg_ft = match aggregate_signatures(&ft_shares) {
        None => {
            return Err(CryptoError::Aggregation);
        },
        Some(s) => s,
    };
    if !verify_aggregate(&agg_pk, &response.message_signatures[0].message.bytes, &agg_fd) {
        return Ok(Outcome::SignatureInvalid);
    }
    if !verify_aggregate(&agg_pk, &response.message_signatures[1].message.bytes, &agg_ft) {
        return Ok(Outcome::SignatureInvalid);
    }
    Ok(
        Outcome::SignedVals(
            crate::model::SignedValuesMessage {
                quality_string: quality.duplicate(),
                foliage_block_data_signature: agg_fd,
                foliage_transaction_block_signature: agg_ft,
            },
        ),
    )
}

// ---------------------------------------------------------------------------
// Public entry points
// ---------------------------------------------------------------------------

/// What the engine does once the quality verifier has spoken for the
/// matched proof: one of the two signing phases, or the partial-response
/// drop. Public so that the post-verification logic can be driven for any
/// quality-verifier outcome.
pub fn finish_response(
    keys: &KeyRing,
    response: &SignatureResponse,
    sp_index: u8,
    is_sp_signatures: bool,
    pospace: &ProofCandidate,
    quality: &Bytes32,
    farmer_target: &Bytes32,
    pool_target: &Bytes32,
) -> (r: Result<Outcome, CryptoError>)
    requires
        keys.wf(),
        response.wf(),
        pospace.wf(),
        quality.wf(),
        farmer_target.wf(),
        pool_target.wf(),
        is_sp_signatures ==> response.message_signatures@.len() >= 2,
    ensures
        matches_spec(
            r,
            spec_finish(
                keys.deep_view(),
                response.deep_view(),
                sp_index,
                is_sp_signatures,
                pospace.deep_view(),
                quality@,
                farmer_target@,
                pool_target@,
            ),
        ),
{
    if is_sp_signatures {
        run_phase_a(keys, response, sp_index, pospace, farmer_target, pool_target)
    } else if response.message_signatures.len() > 1 {
        run_phase_b(keys, response, pospace, quality)
    } else {
        Ok(Outcome::PartialResponse)
    }
}

/// Handle one harvester signature response against the shared farming
/// state: the engine's single entry point. Returns the terminal outcome,
/// or an error for malformed cryptographic input; it never emits anything
/// itself — the caller dispatches `Declare` and `SignedVals` outcomes.
pub fn process_response(
    state: &FarmerState,
    keys: &KeyRing,
    network: &String,
    height: u32,
    response: &SignatureResponse,
) -> (r: Result<Outcome, CryptoError>)
    requires
        state.wf(),
        keys.wf(),
        response.wf(),
    ensures
        matches_spec(
            r,
            spec_process(
                state.deep_view(),
                keys.deep_view(),
                network@,
                height,
                response.deep_view(),
            ),
        ),
{
    let ghost sv = state.deep_view();
    let ghost rv = response.deep_view();
    let group_index = match find_sp_group(&state.signage_points, &response.sp_hash) {
        None => {
            return Ok(Outcome::UnknownSpHash);
        },
        Some(i) => i,
    };
    let records = &state.signage_points[group_index].records;
    proof {
        assert(state.signage_points@[group_index as int].wf());
    }
    if records.len() == 0 {
        return Ok(Outcome::EmptySignagePointList);
    }
    let flags = classify_response(records, response);
    if flags.1 {
        return Ok(Outcome::MalformedSignatureList);
    }
    let proof_group_index = match find_proof_group(&state.proofs_of_space, &response.sp_hash) {
        None => {
            return Ok(Outcome::NoProofsForSpHash);
        },
        Some(i) => i,
    };
    let plot_index = match find_plot(
        &state.proofs_of_space[proof_group_index].proofs,
        &response.plot_identifier,
    ) {
        None => {
            return Ok(Outcome::UnknownPlot);
        },
        Some(i) => i,
    };
    let pospace = &state.proofs_of_space[proof_group_index].proofs[plot_index].proof;
    proof {
        assert(state.proofs_of_space@[proof_group_index as int].wf());
        assert(state.proofs_of_space@[proof_group_index as int].proofs@[plot_index as int].wf());
    }
    if pospace.proof.len() != 8 * (pospace.size as usize) {
        return Ok(Outcome::InvalidProof);
    }
    let quality = match check_proof_quality(
        network,
        height,
        &response.challenge_hash,
        &response.sp_hash,
        pospace,
    ) {
        None => {
            return Ok(Outcome::InvalidProof);
        },
        Some(q) => q,
    };
    let sp_index = records[0].signage_point_index;
    proof {
        assert(records.deep_view()[0] == records@[0].deep_view());
    }
    finish_response(
        keys,
        response,
        sp_index,
        flags.0,
        pospace,
        &quality,
        &state.farmer_target,
        &state.pool_target,
    )
}

// ---------------------------------------------------------------------------
// Laws
// ---------------------------------------------------------------------------

/// Law: a declaration is only emitted with aggregate signatures that
/// verify against the declared proof's plot public key, over the
/// challenge-chain and reward-chain messages it carries.
pub proof fn lemma_declare_verifies(
    state: FarmerStateV,
    keys: KeyRingV,
    network: Seq<char>,
    height: u32,
    resp: SignatureResponseV,
    d: DeclarationV,
)
    requires
        spec_process(state, keys, network, height, resp) == Ok::<OutcomeV, CryptoError>(
            OutcomeV::Declare(d),
        ),
    ensures
        sig_verifies(
            d.proof_of_space.plot_public_key,
            d.challenge_chain_sp,
            d.challenge_chain_sp_signature,
        ),
        sig_verifies(
            d.proof_of_space.plot_public_key,
            d.reward_chain_sp,
            d.reward_chain_sp_signature,
        ),
{
}

/// Law: a signed-values message is only emitted with aggregate signatures
/// that verify against the matched proof's plot public key, over the two
/// foliage message hashes of the response.
pub proof fn lemma_signed_values_verify(
    state: FarmerStateV,
    keys: KeyRingV,
    network: Seq<char>,
    height: u32,
    resp: SignatureResponseV,
    sv: SignedValuesMessageV,
    plist: Seq<PlotProofV>,
    pospace: ProofCandidateV,
)
    requires
        spec_find_proofs(state.proofs_of_space, resp.sp_hash) == Some(plist),
        spec_find_plot(plist, resp.plot_identifier) == Some(pospace),
        spec_process(state, keys, network, height, resp) == Ok::<OutcomeV, CryptoError>(
            OutcomeV::SignedVals(sv),
        ),
    ensures
        sig_verifies(
            pospace.plot_public_key,
            resp.message_signatures[0].message,
            sv.foliage_block_data_signature,
        ),
        sig_verifies(
            pospace.plot_public_key,
            resp.message_signatures[1].message,
            sv.foliage_transaction_block_signature,
        ),
{
}

/// Law: a proof bound to a pool contract is only declared with the
/// taproot share included in both aggregates — each emitted aggregate is
/// exactly the aggregation of the harvester share, the farmer share and
/// the taproot share.
pub proof fn lemma_taproot_included(
    state: FarmerStateV,
    keys: KeyRingV,
    network: Seq<char>,
    height: u32,
    resp: SignatureResponseV,
    d: DeclarationV,
    sk: Seq<u8>,
    tsk: Seq<u8>,
)
    requires
        spec_process(state, keys, network, height, resp) == Ok::<OutcomeV, CryptoError>(
            OutcomeV::Declare(d),
        ),
        d.proof_of_space.pool_contract_puzzle_hash is Some,
        spec_find_farmer_secret(keys.farmer_keys, resp.farmer_pk) == Some(sk),
        taproot_sk_of(resp.local_pk, pk_of_sk(sk)) == Some(tsk),
    ensures
        aggregate_of(
            spec_share_set(
                resp.message_signatures[0].signature,
                sk,
                d.challenge_chain_sp,
                d.proof_of_space.plot_public_key,
                Some(tsk),
            ),
        ) == Some(d.challenge_chain_sp_signature),
        aggregate_of(
            spec_share_set(
                resp.message_signatures[1].signature,
                sk,
                d.reward_chain_sp,
                d.proof_of_space.plot_public_key,
                Some(tsk),
            ),
        ) == Some(d.reward_chain_sp_signature),
{
}

/// Law: a response naming a signage-point hash with no stored records is
/// dropped with no emission.
pub proof fn lemma_unknown_sp_hash_drops(
    state: FarmerStateV,
    keys: KeyRingV,
    network: Seq<char>,
    height: u32,
    resp: SignatureResponseV,
)
    requires
        spec_find_sp_records(state.signage_points, resp.sp_hash) is None,
    ensures
        spec_process(state, keys, network, height, resp) == Ok::<OutcomeV, CryptoError>(
            OutcomeV::UnknownSpHash,
        ),
        !OutcomeV::UnknownSpHash.is_emission(),
{
}

/// Law: in either phase, a derived augmented public key that differs from
/// the stored proof's plot public key drops the response with no emission.
pub proof fn lemma_key_mismatch_drops(
    state: FarmerStateV,
    keys: KeyRingV,
    network: Seq<char>,
    height: u32,
    resp: SignatureResponseV,
    records: Seq<SignagePointRecordV>,
    plist: Seq<PlotProofV>,
    pospace: ProofCandidateV,
    quality: Seq<u8>,
    sk: Seq<u8>,
    agg_pk: Seq<u8>,
)
    requires
        spec_find_sp_records(state.signage_points, resp.sp_hash) == Some(records),
        records.len() > 0,
        !spec_is_malformed(records, resp),
        spec_find_proofs(state.proofs_of_space, resp.sp_hash) == Some(plist),
        spec_find_plot(plist, resp.plot_identifier) == Some(pospace),
        pospace.proof.len() == 8 * (pospace.size as int),
        quality_of(network, height, resp.challenge_hash, resp.sp_hash, pospace) == Some(quality),
        resp.message_signatures.len() >= 2,
        sig_decodes(resp.message_signatures[0].signature),
        sig_decodes(resp.message_signatures[1].signature),
        spec_find_farmer_secret(keys.farmer_keys, resp.farmer_pk) == Some(sk),
        plot_pk_of(
            resp.local_pk,
            pk_of_sk(sk),
            pospace.pool_contract_puzzle_hash is Some,
        ) == Some(agg_pk),
        agg_pk != pospace.plot_public_key,
    ensures
        spec_process(state, keys, network, height, resp) == Ok::<OutcomeV, CryptoError>(
            OutcomeV::KeyMismatch,
        ),
        !OutcomeV::KeyMismatch.is_emission(),
{
}

/// Law: success is owed. When every step goes through — the response is
/// a signage-point signing response for stored records, the quality
/// verifier still accepts the matched proof, the harvester signatures
/// decode, a farmer key matches, the derived plot key agrees with the
/// stored one, and both share sets aggregate and verify — the engine
/// emits a declaration with exactly these fields (here for a proof bound
/// to no pool key and no contract).
pub proof fn lemma_declaration_owed(
    state: FarmerStateV,
    keys: KeyRingV,
    network: Seq<char>,
    height: u32,
    resp: SignatureResponseV,
    records: Seq<SignagePointRecordV>,
    plist: Seq<PlotProofV>,
    pospace: ProofCandidateV,
    quality: Seq<u8>,
    sk: Seq<u8>,
    agg_cc: Seq<u8>,
    agg_rc: Seq<u8>,
)
    requires
        spec_find_sp_records(state.signage_points, resp.sp_hash) == Some(records),
        records.len() > 0,
        spec_is_sp_signatures(records, resp),
        spec_find_proofs(state.proofs_of_space, resp.sp_hash) == Some(plist),
        spec_find_plot(plist, resp.plot_identifier) == Some(pospace),
        pospace.proof.len() == 8 * (pospace.size as int),
        quality_of(network, height, resp.challenge_hash, resp.sp_hash, pospace) == Some(quality),
        sig_decodes(resp.message_signatures[0].signature),
        sig_decodes(resp.message_signatures[1].signature),
        spec_find_farmer_secret(keys.farmer_keys, resp.farmer_pk) == Some(sk),
        pospace.pool_contract_puzzle_hash is None,
        pospace.pool_public_key is None,
        plot_pk_of(resp.local_pk, pk_of_sk(sk), false) == Some(pospace.plot_public_key),
        aggregate_of(
            spec_share_set(
                resp.message_signatures[0].signature,
                sk,
                resp.message_signatures[0].message,
                pospace.plot_public_key,
                None,
            ),
        ) == Some(agg_cc),
        sig_verifies(pospace.plot_public_key, resp.message_signatures[0].message, agg_cc),
        aggregate_of(
            spec_share_set(
                resp.message_signatures[1].signature,
                sk,
                resp.message_signatures[1].message,
                pospace.plot_public_key,
                None,
            ),
        ) == Some(agg_rc),
        sig_verifies(pospace.plot_public_key, resp.message_signatures[1].message, agg_rc),
    ensures
        spec_process(state, keys, network, height, resp) == Ok::<OutcomeV, CryptoError>(
            OutcomeV::Declare(
                spec_declaration(
                    resp,
                    records[0].signage_point_index,
                    pospace,
                    agg_cc,
                    agg_rc,
                    state.farmer_target,
                    None,
                    None,
                ),
            ),
        ),
{
}

/// Law: processing is deterministic — the outcome, aggregate signature
/// bytes included, is a function of the state, the keys and the response
/// alone, so the same well-formed response processed twice yields the
/// same result both times.
pub proof fn lemma_process_idempotent(
    state: FarmerStateV,
    keys: KeyRingV,
    network: Seq<char>,
    height: u32,
    resp: SignatureResponseV,
    r1: Result<OutcomeV, CryptoError>,
    r2: Result<OutcomeV, CryptoError>,
)
    requires
        r1 == spec_process(state, keys, network, height, resp),
        r2 == spec_process(state, keys, network, height, resp),
    ensures
        r1 == r2,
{
}

} // verus!
