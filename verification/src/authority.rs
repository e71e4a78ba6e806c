use vstd::prelude::*;

use crate::errors::EscrowError;

verus! {

/// What program-derived-address search returns for a given seed and program
/// identity: a 32-byte keyless address together with the bump that proves
/// the derivation, or nothing in the statistically improbable case that no
/// bump yields an address off the signing curve.
pub uninterp spec fn derived_authority_of(seed: Seq<u8>, program_id: Seq<u8>) -> Option<
    (Seq<u8>, u8),
>;

/// The fixed seed under which the vault's custodial authority is derived.
pub open spec fn vault_auth_seed() -> Seq<u8> {
    seq![118u8, 97u8, 117u8, 108u8, 116u8, 95u8, 97u8, 117u8, 116u8, 104u8]
}

/// Builds the seed bytes of `vault_auth_seed`.
pub fn vault_auth_seed_bytes() -> (r: Vec<u8>)
    ensures
        r@ == vault_auth_seed(),
{
    let mut s: Vec<u8> = Vec::new();
    s.push(118);
    s.push(97);
    s.push(117);
    s.push(108);
    s.push(116);
    s.push(95);
    s.push(97);
    s.push(117);
    s.push(116);
    s.push(104);
    proof {
        assert(s@ =~= vault_auth_seed());
    }
    s
}

/// Relies on `solana_program::pubkey::Pubkey::try_find_program_address`:
/// off the chain it is a pure function of the seeds and the program id,
/// returning a 32-byte derived address and its bump seed, or `None` when no
/// bump yields a valid address.
#[verifier::external_body]
fn try_find_program_address(seed: &Vec<u8>, program_id: &Vec<u8>) -> (r: Option<(Vec<u8>, u8)>)
    requires
        program_id@.len() == 32,
    ensures
        r is Some <==> derived_authority_of(seed@, program_id@) is Some,
        r matches Some(p) ==> Some((p.0@, p.1)) == derived_authority_of(seed@, program_id@)
            && p.0@.len() == 32,
{
    let mut arr = [0u8; 32];
    arr.copy_from_slice(program_id.as_slice());
    let pid = solana_program::pubkey::Pubkey::new_from_array(arr);
    match solana_program::pubkey::Pubkey::try_find_program_address(&[seed.as_slice()], &pid) {
        Some((key, bump)) => Some((key.to_bytes().to_vec(), bump)),
        None => None,
    }
}

/// The capability that stands in for a signature on the vault: the derived
/// custodial address together with the bump proving its derivation. It is
/// never stored; every operation that needs vault authority re-derives it.
pub struct AuthorityProof {
    /// The derived, keyless address holding spending authority.
    pub authority: Vec<u8>,
    /// The numeric derivation proof presented alongside the address.
    pub bump: u8,
}

impl AuthorityProof {
    /// The capability is exactly what derivation under the fixed seed and
    /// this program identity yields.
    pub open spec fn valid_for(self, program_id: Seq<u8>) -> bool {
        derived_authority_of(vault_auth_seed(), program_id) == Some(
            (self.authority@, self.bump),
        )
    }
}

/// Re-derives the custodial authority for `program_id` under the fixed seed.
///
/// Succeeds exactly when the derivation yields an address; the failure case
/// is deterministic in the program identity, so an identity that derived an
/// authority at Initialize derives the same one at Cancel and Exchange.
pub fn derive_authority(program_id: &Vec<u8>) -> (r: Result<AuthorityProof, EscrowError>)
    requires
        program_id@.len() == 32,
    ensures
        r is Ok <==> derived_authority_of(vault_auth_seed(), program_id@) is Some,
        r matches Ok(g) ==> g.valid_for(program_id@) && g.authority@.len() == 32,
        r matches Err(e) ==> e == EscrowError::AuthorityDerivationFailure,
{
    let seed = vault_auth_seed_bytes();
    match try_find_program_address(&seed, program_id) {
        Some((key, bump)) => Ok(AuthorityProof { authority: key, bump }),
        None => Err(EscrowError::AuthorityDerivationFailure),
    }
}

} // verus!
