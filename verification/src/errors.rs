use vstd::prelude::*;

verus! {

/// Every way a settlement operation can be refused.
///
/// Each operation aborts with one of these and leaves no partial effect:
/// the record and the vault are either fully created, fully settled, or
/// fully cancelled.
#[derive(Clone, Copy, Debug, PartialEq, Eq, Structural)]
pub enum EscrowError {
    /// The signing identity does not match what the record requires,
    /// or a transfer was presented without its owner's authorization.
    Unauthorized,
    /// The recorded amount exceeds the balance of the funding account.
    AmountMismatch,
    /// The receive destination supplied at settlement differs from the
    /// one recorded at creation.
    DestinationMismatch,
    /// The merchant identity supplied at settlement differs from the
    /// one recorded at creation.
    MerchantMismatch,
    /// The re-derived custodial authority was rejected: either the
    /// derivation produced nothing, or its proof does not match the
    /// authority holding the vault.
    AuthorityDerivationFailure,
    /// A ledger-level refusal: the record slot already exists, no longer
    /// exists, or the vault cannot be closed.
    StorageFailure,
}

} // verus!
