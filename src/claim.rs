//! What the verifying party checks of a proof beyond its cryptographic
//! soundness: that it speaks of the expected public inputs, exit code,
//! program binary and associated data.

use vstd::prelude::*;

verus! {

/// The three public inputs of the guest program.
#[derive(Clone, Copy, Debug, PartialEq, Eq, Structural)]
pub struct PublicInputs {
    pub n: u32,
    pub init_a: u32,
    pub init_b: u32,
}

/// What a proof claims of an execution, or what a verifier expects of one.
#[derive(Clone, Debug)]
pub struct ExecutionClaim {
    pub public_inputs: PublicInputs,
    pub exit_code: u32,
    /// The program binary the execution ran.
    pub program: Vec<u8>,
    /// Extra data bound into the proof; empty by default.
    pub associated_data: Vec<u8>,
}

#[derive(Clone, Copy, Debug, PartialEq, Eq, Structural)]
pub enum VerifyError {
    /// The proof itself does not check.
    Malformed,
    InputsMismatch,
    ExitCodeMismatch,
    ProgramMismatch,
    AssociatedDataMismatch,
}

impl ExecutionClaim {
    /// A claim with no associated data.
    pub fn new(public_inputs: PublicInputs, exit_code: u32, program: Vec<u8>) -> (r: ExecutionClaim)
        ensures
            r.public_inputs == public_inputs,
            r.exit_code == exit_code,
            r.program@ == program@,
            r.associated_data@.len() == 0,
    {
        ExecutionClaim { public_inputs, exit_code, program, associated_data: Vec::new() }
    }
}

/// The verdict on a proof that makes `claim`, checked against `expected`;
/// `proof_sound` is whether the proof itself checks.
pub open spec fn verdict(proof_sound: bool, claim: ExecutionClaim, expected: ExecutionClaim) -> Result<(), VerifyError> {
    if !proof_sound {
        Err(VerifyError::Malformed)
    } else if claim.public_inputs != expected.public_inputs {
        Err(VerifyError::InputsMismatch)
    } else if claim.exit_code != expected.exit_code {
        Err(VerifyError::ExitCodeMismatch)
    } else if claim.program@ != expected.program@ {
        Err(VerifyError::ProgramMismatch)
    } else if claim.associated_data@ != expected.associated_data@ {
        Err(VerifyError::AssociatedDataMismatch)
    } else {
        Ok(())
    }
}

pub fn bytes_equal(a: &[u8], b: &[u8]) -> (r: bool)
    ensures
        r == (a@ == b@),
{
    if a.len() != b.len() {
        return false;
    }
    let mut i: usize = 0;
    while i < a.len()
        invariant
            a@.len() == b@.len(),
            0 <= i <= a@.len(),
            forall|j: int| 0 <= j < i ==> a@[j] == b@[j],
        decreases a@.len() - i,
    {
        if a[i] != b[i] {
            return false;
        }
        i = i + 1;
    }
    assert(a@ =~= b@);
    true
}

pub fn check_claim(proof_sound: bool, claim: &ExecutionClaim, expected: &ExecutionClaim) -> (r: Result<(), VerifyError>)
    ensures
        r == verdict(proof_sound, *claim, *expected),
{
    if !proof_sound {
        Err(VerifyError::Malformed)
    } else if claim.public_inputs != expected.public_inputs {
        Err(VerifyError::InputsMismatch)
    } else if claim.exit_code != expected.exit_code {
        Err(VerifyError::ExitCodeMismatch)
    } else if !bytes_equal(claim.program.as_slice(), expected.program.as_slice()) {
        Err(VerifyError::ProgramMismatch)
    } else if !bytes_equal(claim.associated_data.as_slice(), expected.associated_data.as_slice()) {
        Err(VerifyError::AssociatedDataMismatch)
    } else {
        Ok(())
    }
}

/// A sound proof of an execution verifies against the same inputs, exit
/// code, program and associated data, and is rejected when any one of the
/// inputs, the exit code or the program differs.
pub proof fn lemma_claim_round_trip(claim: ExecutionClaim, other: ExecutionClaim)
    ensures
        verdict(true, claim, claim) == Ok::<(), VerifyError>(()),
        other.public_inputs != claim.public_inputs || other.exit_code != claim.exit_code
            || other.program@ != claim.program@ ==> verdict(true, claim, other) is Err,
        other.public_inputs != claim.public_inputs
            ==> verdict(true, claim, other) == Err::<(), VerifyError>(VerifyError::InputsMismatch),
        other.public_inputs == claim.public_inputs && other.exit_code != claim.exit_code
            ==> verdict(true, claim, other) == Err::<(), VerifyError>(VerifyError::ExitCodeMismatch),
        other.public_inputs == claim.public_inputs && other.exit_code == claim.exit_code
            && other.program@ != claim.program@
            ==> verdict(true, claim, other) == Err::<(), VerifyError>(VerifyError::ProgramMismatch),
{
}

} // verus!
