use vstd::prelude::*;

verus! {

/// The roles of the proof-verification proxy's access control.
#[derive(Clone, Copy, Debug, PartialEq, Eq, Structural)]
pub enum Role {
    PauseManager,
    UpgradableCodeStager,
    UpgradableCodeDeployer,
    DAO,
    UnrestrictedValidateProof,
}

/// The interface of a prover contract that checks a signed cross-chain message.
pub trait Prover {
    fn verify_vaa(&self, vaa: String) -> u32;
}

} // verus!
