use vstd::prelude::*;

use crate::bytes::Bytes32;
use crate::bytes::Bytes48;
use crate::bytes::Bytes96;

verus! {

// ---------------------------------------------------------------------------
// Shared farming state, as read by the engine
// ---------------------------------------------------------------------------

/// One signage point observed by the node.
pub struct SignagePointRecord {
    pub challenge_hash: Bytes32,
    pub sp_hash: Bytes32,
    pub reward_chain_sp: Bytes32,
    pub signage_point_index: u8,
}

pub ghost struct SignagePointRecordV {
    pub challenge_hash: Seq<u8>,
    pub sp_hash: Seq<u8>,
    pub reward_chain_sp: Seq<u8>,
    pub signage_point_index: u8,
}

impl DeepView for SignagePointRecord {
    type V = SignagePointRecordV;

    open spec fn deep_view(&self) -> SignagePointRecordV {
        SignagePointRecordV {
            challenge_hash: self.challenge_hash@,
            sp_hash: self.sp_hash@,
            reward_chain_sp: self.reward_chain_sp@,
            signage_point_index: self.signage_point_index,
        }
    }
}

impl SignagePointRecord {
    pub open spec fn wf(&self) -> bool {
        self.challenge_hash.wf() && self.sp_hash.wf() && self.reward_chain_sp.wf()
    }
}

/// All signage points stored under one signage-point hash.
pub struct SignagePointGroup {
    pub sp_hash: Bytes32,
    pub records: Vec<SignagePointRecord>,
}

pub ghost struct SignagePointGroupV {
    pub sp_hash: Seq<u8>,
    pub records: Seq<SignagePointRecordV>,
}

impl DeepView for SignagePointGroup {
    type V = SignagePointGroupV;

    open spec fn deep_view(&self) -> SignagePointGroupV {
        SignagePointGroupV { sp_hash: self.sp_hash@, records: self.records.deep_view() }
    }
}

impl SignagePointGroup {
    pub open spec fn wf(&self) -> bool {
        self.sp_hash.wf() && forall|i: int|
            0 <= i < self.records@.len() ==> #[trigger] self.records@[i].wf()
    }
}

/// A stored proof-of-space candidate.
pub struct ProofCandidate {
    pub challenge: Bytes32,
    pub pool_public_key: Option<Bytes48>,
    pub pool_contract_puzzle_hash: Option<Bytes32>,
    pub plot_public_key: Bytes48,
    pub size: u8,
    pub proof: Vec<u8>,
}

pub ghost struct ProofCandidateV {
    pub challenge: Seq<u8>,
    pub pool_public_key: Option<Seq<u8>>,
    pub pool_contract_puzzle_hash: Option<Seq<u8>>,
    pub plot_public_key: Seq<u8>,
    pub size: u8,
    pub proof: Seq<u8>,
}

impl DeepView for ProofCandidate {
    type V = ProofCandidateV;

    open spec fn deep_view(&self) -> ProofCandidateV {
        ProofCandidateV {
            challenge: self.challenge@,
            pool_public_key: self.pool_public_key.deep_view(),
            pool_contract_puzzle_hash: self.pool_contract_puzzle_hash.deep_view(),
            plot_public_key: self.plot_public_key@,
            size: self.size,
            proof: self.proof@,
        }
    }
}

impl ProofCandidate {
    pub open spec fn wf(&self) -> bool {
        &&& self.challenge.wf()
        &&& self.plot_public_key.wf()
        &&& match self.pool_public_key {
            Some(pk) => pk.wf(),
            None => true,
        }
        &&& match self.pool_contract_puzzle_hash {
            Some(ph) => ph.wf(),
            None => true,
        }
    }
}

impl ProofCandidate {
    /// A fresh copy, byte for byte.
    pub fn duplicate(&self) -> (r: ProofCandidate)
        ensures
            r.deep_view() == self.deep_view(),
            r.wf() == self.wf(),
    {
        ProofCandidate {
            challenge: self.challenge.duplicate(),
            pool_public_key: match &self.pool_public_key {
                Some(b) => Some(b.duplicate()),
                None => None,
            },
            pool_contract_puzzle_hash: match &self.pool_contract_puzzle_hash {
                Some(b) => Some(b.duplicate()),
                None => None,
            },
            plot_public_key: self.plot_public_key.duplicate(),
            size: self.size,
            proof: crate::bytes::bytes_copy(&self.proof),
        }
    }
}

/// A proof candidate keyed by the identifier of the plot it came from.
pub struct PlotProof {
    pub plot_identifier: Vec<u8>,
    pub proof: ProofCandidate,
}

pub ghost struct PlotProofV {
    pub plot_identifier: Seq<u8>,
    pub proof: ProofCandidateV,
}

impl DeepView for PlotProof {
    type V = PlotProofV;

    open spec fn deep_view(&self) -> PlotProofV {
        PlotProofV { plot_identifier: self.plot_identifier@, proof: self.proof.deep_view() }
    }
}

impl PlotProof {
    pub open spec fn wf(&self) -> bool {
        self.proof.wf()
    }
}

/// All proof candidates stored under one signage-point hash.
pub struct ProofGroup {
    pub sp_hash: Bytes32,
    pub proofs: Vec<PlotProof>,
}

pub ghost struct ProofGroupV {
    pub sp_hash: Seq<u8>,
    pub proofs: Seq<PlotProofV>,
}

impl DeepView for ProofGroup {
    type V = ProofGroupV;

    open spec fn deep_view(&self) -> ProofGroupV {
        ProofGroupV { sp_hash: self.sp_hash@, proofs: self.proofs.deep_view() }
    }
}

impl ProofGroup {
    /// Well-formed, with each plot identifier stored at most once, as a
    /// map keyed by plot identifier would hold it.
    pub open spec fn wf(&self) -> bool {
        &&& self.sp_hash.wf()
        &&& forall|i: int| 0 <= i < self.proofs@.len() ==> #[trigger] self.proofs@[i].wf()
        &&& forall|i: int, j: int|
            #![trigger self.proofs@[i].plot_identifier, self.proofs@[j].plot_identifier]
            0 <= i < j < self.proofs@.len() ==> self.proofs@[i].plot_identifier@
                != self.proofs@[j].plot_identifier@
    }
}

/// The parts of the shared farming state that the engine reads.
pub struct FarmerState {
    pub signage_points: Vec<SignagePointGroup>,
    pub proofs_of_space: Vec<ProofGroup>,
    pub farmer_target: Bytes32,
    pub pool_target: Bytes32,
}

pub ghost struct FarmerStateV {
    pub signage_points: Seq<SignagePointGroupV>,
    pub proofs_of_space: Seq<ProofGroupV>,
    pub farmer_target: Seq<u8>,
    pub pool_target: Seq<u8>,
}

impl DeepView for FarmerState {
    type V = FarmerStateV;

    open spec fn deep_view(&self) -> FarmerStateV {
        FarmerStateV {
            signage_points: self.signage_points.deep_view(),
            proofs_of_space: self.proofs_of_space.deep_view(),
            farmer_target: self.farmer_target@,
            pool_target: self.pool_target@,
        }
    }
}

impl FarmerState {
    /// Well-formed, with each signage-point hash keying at most one group
    /// in either store, as the maps they stand for would hold them.
    pub open spec fn wf(&self) -> bool {
        &&& self.farmer_target.wf()
        &&& self.pool_target.wf()
        &&& forall|i: int|
            0 <= i < self.signage_points@.len() ==> #[trigger] self.signage_points@[i].wf()
        &&& forall|i: int|
            0 <= i < self.proofs_of_space@.len() ==> #[trigger] self.proofs_of_space@[i].wf()
        &&& forall|i: int, j: int|
            #![trigger self.signage_points@[i].sp_hash, self.signage_points@[j].sp_hash]
            0 <= i < j < self.signage_points@.len() ==> self.signage_points@[i].sp_hash@
                != self.signage_points@[j].sp_hash@
        &&& forall|i: int, j: int|
            #![trigger self.proofs_of_space@[i].sp_hash, self.proofs_of_space@[j].sp_hash]
            0 <= i < j < self.proofs_of_space@.len() ==> self.proofs_of_space@[i].sp_hash@
                != self.proofs_of_space@[j].sp_hash@
    }
}

// ---------------------------------------------------------------------------
// Key ring
// ---------------------------------------------------------------------------

/// A private key stored under the public key it was indexed by.
pub struct KeyEntry {
    pub public_key: Bytes48,
    pub secret_key: Bytes32,
}

pub ghost struct KeyEntryV {
    pub public_key: Seq<u8>,
    pub secret_key: Seq<u8>,
}

impl DeepView for KeyEntry {
    type V = KeyEntryV;

    open spec fn deep_view(&self) -> KeyEntryV {
        KeyEntryV { public_key: self.public_key@, secret_key: self.secret_key@ }
    }
}

impl KeyEntry {
    pub open spec fn wf(&self) -> bool {
        self.public_key.wf() && self.secret_key.wf()
    }
}

/// No two entries are stored under the same public key: what a map
/// keyed by public key gives for free.
pub open spec fn unique_keys(entries: Seq<KeyEntryV>) -> bool {
    forall|i: int, j: int|
        #![trigger entries[i].public_key, entries[j].public_key]
        0 <= i < j < entries.len() ==> entries[i].public_key != entries[j].public_key
}

/// Some entry is stored under the public key.
pub open spec fn spec_has_key(entries: Seq<KeyEntryV>, public_key: Seq<u8>) -> bool {
    exists|i: int| 0 <= i < entries.len() && #[trigger] entries[i].public_key == public_key
}

/// The farmer's own signing keys and the pool keys it holds, immutable
/// after load.
pub struct KeyRing {
    pub farmer_keys: Vec<KeyEntry>,
    pub pool_keys: Vec<KeyEntry>,
}

pub ghost struct KeyRingV {
    pub farmer_keys: Seq<KeyEntryV>,
    pub pool_keys: Seq<KeyEntryV>,
}

impl DeepView for KeyRing {
    type V = KeyRingV;

    open spec fn deep_view(&self) -> KeyRingV {
        KeyRingV {
            farmer_keys: self.farmer_keys.deep_view(),
            pool_keys: self.pool_keys.deep_view(),
        }
    }
}

impl KeyRing {
    pub open spec fn wf(&self) -> bool {
        &&& forall|i: int|
            0 <= i < self.farmer_keys@.len() ==> #[trigger] self.farmer_keys@[i].wf()
        &&& forall|i: int|
            0 <= i < self.pool_keys@.len() ==> #[trigger] self.pool_keys@[i].wf()
        &&& unique_keys(self.farmer_keys.deep_view())
        &&& unique_keys(self.pool_keys.deep_view())
    }
}

// ---------------------------------------------------------------------------
// Inbound message
// ---------------------------------------------------------------------------

/// One signed message of a harvester response: the 32-byte message hash and
/// the harvester's partial signature over it.
pub struct MessageSignature {
    pub message: Bytes32,
    pub signature: Bytes96,
}

pub ghost struct MessageSignatureV {
    pub message: Seq<u8>,
    pub signature: Seq<u8>,
}

impl DeepView for MessageSignature {
    type V = MessageSignatureV;

    open spec fn deep_view(&self) -> MessageSignatureV {
        MessageSignatureV { message: self.message@, signature: self.signature@ }
    }
}

impl MessageSignature {
    pub open spec fn wf(&self) -> bool {
        self.message.wf() && self.signature.wf()
    }
}

/// A harvester's partial-signature response.
pub struct SignatureResponse {
    pub plot_identifier: Vec<u8>,
    pub challenge_hash: Bytes32,
    pub sp_hash: Bytes32,
    pub local_pk: Bytes48,
    pub farmer_pk: Bytes48,
    pub message_signatures: Vec<MessageSignature>,
}

pub ghost struct SignatureResponseV {
    pub plot_identifier: Seq<u8>,
    pub challenge_hash: Seq<u8>,
    pub sp_hash: Seq<u8>,
    pub local_pk: Seq<u8>,
    pub farmer_pk: Seq<u8>,
    pub message_signatures: Seq<MessageSignatureV>,
}

impl DeepView for SignatureResponse {
    type V = SignatureResponseV;

    open spec fn deep_view(&self) -> SignatureResponseV {
        SignatureResponseV {
            plot_identifier: self.plot_identifier@,
            challenge_hash: self.challenge_hash@,
            sp_hash: self.sp_hash@,
            local_pk: self.local_pk@,
            farmer_pk: self.farmer_pk@,
            message_signatures: self.message_signatures.deep_view(),
        }
    }
}

impl SignatureResponse {
    pub open spec fn wf(&self) -> bool {
        &&& self.challenge_hash.wf()
        &&& self.sp_hash.wf()
        &&& self.local_pk.wf()
        &&& self.farmer_pk.wf()
        &&& forall|i: int|
            0 <= i < self.message_signatures@.len() ==> #[trigger] self.message_signatures@[i].wf()
    }
}

// ---------------------------------------------------------------------------
// Outbound messages
// ---------------------------------------------------------------------------

/// The pool target signed for a pooled proof: a puzzle hash valid up to the
/// given height (the engine always uses height zero, meaning no limit).
pub struct PoolTargetMessage {
    pub puzzle_hash: Bytes32,
    pub max_height: u32,
}

pub ghost struct PoolTargetMessageV {
    pub puzzle_hash: Seq<u8>,
    pub max_height: u32,
}

impl DeepView for PoolTargetMessage {
    type V = PoolTargetMessageV;

    open spec fn deep_view(&self) -> PoolTargetMessageV {
        PoolTargetMessageV { puzzle_hash: self.puzzle_hash@, max_height: self.max_height }
    }
}

/// The "declare proof of space" message sent to the consensus node after
/// the signage-point phase.
pub struct Declaration {
    pub challenge_hash: Bytes32,
    pub challenge_chain_sp: Bytes32,
    pub signage_point_index: u8,
    pub reward_chain_sp: Bytes32,
    pub proof_of_space: ProofCandidate,
    pub challenge_chain_sp_signature: Bytes96,
    pub reward_chain_sp_signature: Bytes96,
    pub farmer_puzzle_hash: Bytes32,
    pub pool_target: Option<PoolTargetMessage>,
    pub pool_signature: Option<Bytes96>,
}

pub ghost struct DeclarationV {
    pub challenge_hash: Seq<u8>,
    pub challenge_chain_sp: Seq<u8>,
    pub signage_point_index: u8,
    pub reward_chain_sp: Seq<u8>,
    pub proof_of_space: ProofCandidateV,
    pub challenge_chain_sp_signature: Seq<u8>,
    pub reward_chain_sp_signature: Seq<u8>,
    pub farmer_puzzle_hash: Seq<u8>,
    pub pool_target: Option<PoolTargetMessageV>,
    pub pool_signature: Option<Seq<u8>>,
}

impl DeepView for Declaration {
    type V = DeclarationV;

    open spec fn deep_view(&self) -> DeclarationV {
        DeclarationV {
            challenge_hash: self.challenge_hash@,
            challenge_chain_sp: self.challenge_chain_sp@,
            signage_point_index: self.signage_point_index,
            reward_chain_sp: self.reward_chain_sp@,
            proof_of_space: self.proof_of_space.deep_view(),
            challenge_chain_sp_signature: self.challenge_chain_sp_signature@,
            reward_chain_sp_signature: self.reward_chain_sp_signature@,
            farmer_puzzle_hash: self.farmer_puzzle_hash@,
            pool_target: self.pool_target.deep_view(),
            pool_signature: self.pool_signature.deep_view(),
        }
    }
}

/// The "signed values" message sent after the block-signing phase.
pub struct SignedValuesMessage {
    pub quality_string: Bytes32,
    pub foliage_block_data_signature: Bytes96,
    pub foliage_transaction_block_signature: Bytes96,
}

pub ghost struct SignedValuesMessageV {
    pub quality_string: Seq<u8>,
    pub foliage_block_data_signature: Seq<u8>,
    pub foliage_transaction_block_signature: Seq<u8>,
}

impl DeepView for SignedValuesMessage {
    type V = SignedValuesMessageV;

    open spec fn deep_view(&self) -> SignedValuesMessageV {
        SignedValuesMessageV {
            quality_string: self.quality_string@,
            foliage_block_data_signature: self.foliage_block_data_signature@,
            foliage_transaction_block_signature: self.foliage_transaction_block_signature@,
        }
    }
}

// ---------------------------------------------------------------------------
// Engine outcome
// ---------------------------------------------------------------------------

/// The terminal outcome of one harvester response. Every variant but
/// `Declare` and `SignedVals` is a logged drop with no emission.
pub enum Outcome {
    /// No signage points are stored under the response's signage-point hash.
    UnknownSpHash,
    /// The signage-point list stored under the hash is empty.
    EmptySignagePointList,
    /// The first message hash named the signage point but the second did not
    /// name any stored reward-chain value: a malformed response.
    MalformedSignatureList,
    /// No proofs at all are stored under the signage-point hash.
    NoProofsForSpHash,
    /// Proofs exist for the hash, but none for the response's plot.
    UnknownPlot,
    /// The quality verifier no longer accepts the stored proof.
    InvalidProof,
    /// Fewer than two message signatures: a partial response, dropped.
    PartialResponse,
    /// No owned farmer key matches the response's farmer public key.
    NoMatchingFarmerKey,
    /// The derived plot public key differs from the stored proof's.
    KeyMismatch,
    /// The proof names a pool public key whose private key is not owned.
    MissingPoolKey,
    /// An aggregate signature failed verification.
    SignatureInvalid,
    /// A verified declaration, ready to dispatch.
    Declare(Declaration),
    /// Verified signed values, ready to dispatch.
    SignedVals(SignedValuesMessage),
}

pub ghost enum OutcomeV {
    UnknownSpHash,
    EmptySignagePointList,
    MalformedSignatureList,
    NoProofsForSpHash,
    UnknownPlot,
    InvalidProof,
    PartialResponse,
    NoMatchingFarmerKey,
    KeyMismatch,
    MissingPoolKey,
    SignatureInvalid,
    Declare(DeclarationV),
    SignedVals(SignedValuesMessageV),
}

impl DeepView for Outcome {
    type V = OutcomeV;

    open spec fn deep_view(&self) -> OutcomeV {
        match self {
            Outcome::UnknownSpHash => OutcomeV::UnknownSpHash,
            Outcome::EmptySignagePointList => OutcomeV::EmptySignagePointList,
            Outcome::MalformedSignatureList => OutcomeV::MalformedSignatureList,
            Outcome::NoProofsForSpHash => OutcomeV::NoProofsForSpHash,
            Outcome::UnknownPlot => OutcomeV::UnknownPlot,
            Outcome::InvalidProof => OutcomeV::InvalidProof,
            Outcome::PartialResponse => OutcomeV::PartialResponse,
            Outcome::NoMatchingFarmerKey => OutcomeV::NoMatchingFarmerKey,
            Outcome::KeyMismatch => OutcomeV::KeyMismatch,
            Outcome::MissingPoolKey => OutcomeV::MissingPoolKey,
            Outcome::SignatureInvalid => OutcomeV::SignatureInvalid,
            Outcome::Declare(d) => OutcomeV::Declare(d.deep_view()),
            Outcome::SignedVals(s) => OutcomeV::SignedVals(s.deep_view()),
        }
    }
}

impl OutcomeV {
    /// True of the two outcomes that carry a message to the consensus node.
    pub open spec fn is_emission(&self) -> bool {
        self is Declare || self is SignedVals
    }
}

/// A malformed cryptographic input, propagated to the caller rather than
/// logged and dropped.
#[derive(Clone, Copy, PartialEq, Eq, Structural, Debug)]
pub enum CryptoError {
    /// A harvester signature's 96 bytes are not a valid BLS signature.
    MalformedSignature,
    /// Plot-public-key or taproot-key derivation failed.
    KeyDerivation,
    /// The aggregation library rejected the signature shares.
    Aggregation,
}

} // verus!
