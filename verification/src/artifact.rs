//! What a proving stage hands back: a proof and the public output it attests.

use vstd::prelude::*;

verus! {

/// The proof inside an artifact. Which variant it is depends on the proof
/// system that made it; only the constant-size `Groth16` variant can be
/// checked by the ledger.
#[derive(Clone, Debug, PartialEq, Eq)]
pub enum ProofObject {
    /// A proof made of one part per segment of the execution: its size grows
    /// with the computation.
    Composite,
    /// A single proof of the whole execution in the engine's own proof system.
    Succinct,
    /// A constant-size proof, with the digest of the parameters of the verifier
    /// that it was made for.
    Groth16 { seal: Vec<u8>, verifier_parameters: [u8; 32] },
    /// No proof at all, as an engine in development mode gives.
    Fake,
}

/// The mathematical content of a [`ProofObject`].
pub enum ProofObjectView {
    Composite,
    Succinct,
    Groth16 { seal: Seq<u8>, verifier_parameters: Seq<u8> },
    Fake,
}

impl View for ProofObject {
    type V = ProofObjectView;

    open spec fn view(&self) -> ProofObjectView {
        match *self {
            ProofObject::Composite => ProofObjectView::Composite,
            ProofObject::Succinct => ProofObjectView::Succinct,
            ProofObject::Groth16 { seal, verifier_parameters } => ProofObjectView::Groth16 {
                seal: seal@,
                verifier_parameters: verifier_parameters@,
            },
            ProofObject::Fake => ProofObjectView::Fake,
        }
    }
}

/// The output of a proving stage.
#[derive(Clone, Debug, PartialEq, Eq)]
pub struct ProofArtifact {
    /// The proof.
    pub proof: ProofObject,
    /// The public output of the computation.
    pub journal: Vec<u8>,
}

/// The mathematical content of a [`ProofArtifact`].
pub struct ProofArtifactView {
    pub proof: ProofObjectView,
    pub journal: Seq<u8>,
}

impl View for ProofArtifact {
    type V = ProofArtifactView;

    open spec fn view(&self) -> ProofArtifactView {
        ProofArtifactView { proof: self.proof@, journal: self.journal@ }
    }
}

/// The contents of a list of artifacts, in order.
pub open spec fn artifacts_view(artifacts: Seq<ProofArtifact>) -> Seq<ProofArtifactView> {
    artifacts.map_values(|a: ProofArtifact| a@)
}

impl ProofArtifact {
    /// An artifact made of `proof` and `journal`.
    pub fn new(proof: ProofObject, journal: Vec<u8>) -> (r: Self)
        ensures
            r.proof == proof,
            r.journal == journal,
    {
        ProofArtifact { proof, journal }
    }
}

} // verus!
