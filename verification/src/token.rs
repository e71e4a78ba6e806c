use vstd::prelude::*;

use crate::authority::AuthorityProof;
use crate::errors::EscrowError;
use crate::keys::key_eq;

verus! {

/// A token-holding account as the settlement engine sees it: its address,
/// the identity authorized to spend from it, and its balance.
pub struct TokenAccount {
    pub key: Vec<u8>,
    pub owner: Vec<u8>,
    pub balance: u64,
}

/// Mathematical image of a `TokenAccount`.
pub struct TokenAccountView {
    pub key: Seq<u8>,
    pub owner: Seq<u8>,
    pub balance: u64,
}

impl View for TokenAccount {
    type V = TokenAccountView;

    open spec fn view(&self) -> TokenAccountView {
        TokenAccountView { key: self.key@, owner: self.owner@, balance: self.balance }
    }
}

/// Who may spend from the vault. The transition goes one way only:
/// `set_authority` accepts a merchant-controlled vault and hands it to the
/// protocol; no operation hands it back.
pub enum VaultAuthority {
    /// The state a vault is created in, before Initialize completes.
    MerchantControlled { merchant: Vec<u8> },
    /// The custodial state: only the derived authority, re-proved at every
    /// use, can spend.
    ProtocolControlled { authority: Vec<u8>, bump: u8 },
}

/// Mathematical image of a `VaultAuthority`.
pub enum VaultAuthorityView {
    MerchantControlled { merchant: Seq<u8> },
    ProtocolControlled { authority: Seq<u8>, bump: u8 },
}

impl View for VaultAuthority {
    type V = VaultAuthorityView;

    open spec fn view(&self) -> VaultAuthorityView {
        match self {
            VaultAuthority::MerchantControlled { merchant } => {
                VaultAuthorityView::MerchantControlled { merchant: merchant@ }
            },
            VaultAuthority::ProtocolControlled { authority, bump } => {
                VaultAuthorityView::ProtocolControlled { authority: authority@, bump: *bump }
            },
        }
    }
}

/// The custodial token account of one escrow: created fresh at Initialize,
/// drained and closed by Cancel or Exchange.
pub struct Vault {
    /// The funds denomination the vault was created under.
    pub mint: Vec<u8>,
    /// The spending authority and its one-way delegation state.
    pub authority: VaultAuthority,
    pub balance: u64,
}

/// Mathematical image of a `Vault`.
pub struct VaultView {
    pub mint: Seq<u8>,
    pub authority: VaultAuthorityView,
    pub balance: u64,
}

impl View for Vault {
    type V = VaultView;

    open spec fn view(&self) -> VaultView {
        VaultView { mint: self.mint@, authority: self.authority@, balance: self.balance }
    }
}

impl VaultView {
    /// The vault's spending authority matches a presented capability.
    pub open spec fn authorized_by(self, authority: Seq<u8>) -> bool {
        self.authority matches VaultAuthorityView::ProtocolControlled {
            authority: held,
            ..
        } && held == authority
    }
}

/// Effect of `set_authority`: reassigning a merchant-controlled vault to the
/// protocol, authorized by that merchant. Any other current state or signer
/// is refused and leaves the vault unchanged.
pub open spec fn spec_set_authority(
    v: VaultView,
    new_authority: Seq<u8>,
    new_bump: u8,
    current: Seq<u8>,
) -> (VaultView, Result<(), EscrowError>) {
    if v.authority matches VaultAuthorityView::MerchantControlled { merchant } && merchant
        == current {
        (
            VaultView {
                mint: v.mint,
                authority: VaultAuthorityView::ProtocolControlled {
                    authority: new_authority,
                    bump: new_bump,
                },
                balance: v.balance,
            },
            Ok(()),
        )
    } else {
        (v, Err(EscrowError::Unauthorized))
    }
}

/// Reassigns the vault's spending authority to the protocol's derived
/// authority, on the say-so of the merchant that currently controls it.
/// This is the only transition out of `MerchantControlled`; nothing
/// transitions back.
pub fn set_authority(vault: &mut Vault, grant: AuthorityProof, current_authority: &Vec<u8>) -> (r:
    Result<(), EscrowError>)
    ensures
        (final(vault)@, r) == spec_set_authority(
            old(vault)@,
            grant.authority@,
            grant.bump,
            current_authority@,
        ),
{
    let permitted = match &vault.authority {
        VaultAuthority::MerchantControlled { merchant } => key_eq(merchant, current_authority),
        VaultAuthority::ProtocolControlled { .. } => false,
    };
    if !permitted {
        return Err(EscrowError::Unauthorized);
    }
    vault.authority = VaultAuthority::ProtocolControlled {
        authority: grant.authority,
        bump: grant.bump,
    };
    Ok(())
}

/// Effect of a transfer into the vault: moves `amount` from the funding
/// account when its owner authorizes it and the balance suffices; any
/// refusal leaves both accounts unchanged.
pub open spec fn spec_transfer_in(
    from: TokenAccountView,
    v: VaultView,
    amount: u64,
    authority: Seq<u8>,
) -> (TokenAccountView, VaultView, Result<(), EscrowError>) {
    if authority != from.owner {
        (from, v, Err(EscrowError::Unauthorized))
    } else if amount > from.balance {
        (from, v, Err(EscrowError::AmountMismatch))
    } else {
        (
            TokenAccountView { key: from.key, owner: from.owner, balance: (from.balance - amount) as u64 },
            VaultView { mint: v.mint, authority: v.authority, balance: (v.balance + amount) as u64 },
            Ok(()),
        )
    }
}

/// Moves `amount` from a funding account into the vault, authorized by the
/// funding account's owner.
pub fn transfer_in(
    from: &mut TokenAccount,
    vault: &mut Vault,
    amount: u64,
    authority: &Vec<u8>,
) -> (r: Result<(), EscrowError>)
    requires
        old(vault).balance + amount <= u64::MAX,
    ensures
        (final(from)@, final(vault)@, r) == spec_transfer_in(
            old(from)@,
            old(vault)@,
            amount,
            authority@,
        ),
{
    if !key_eq(authority, &from.owner) {
        return Err(EscrowError::Unauthorized);
    }
    if amount > from.balance {
        return Err(EscrowError::AmountMismatch);
    }
    from.balance = from.balance - amount;
    vault.balance = vault.balance + amount;
    Ok(())
}

/// Effect of a transfer out of the vault: moves `amount` to the destination
/// when the presented capability matches the vault's custodial authority and
/// the vault balance suffices; any refusal leaves both unchanged.
pub open spec fn spec_transfer_out(
    v: VaultView,
    to: TokenAccountView,
    amount: u64,
    authority: Seq<u8>,
) -> (VaultView, TokenAccountView, Result<(), EscrowError>) {
    if !v.authorized_by(authority) {
        (v, to, Err(EscrowError::AuthorityDerivationFailure))
    } else if amount > v.balance {
        (v, to, Err(EscrowError::AmountMismatch))
    } else {
        (
            VaultView { mint: v.mint, authority: v.authority, balance: (v.balance - amount) as u64 },
            TokenAccountView { key: to.key, owner: to.owner, balance: (to.balance + amount) as u64 },
            Ok(()),
        )
    }
}

/// Moves `amount` from the vault to a destination account, authorized by the
/// re-derived custodial capability rather than by any user key.
pub fn transfer_out(
    vault: &mut Vault,
    to: &mut TokenAccount,
    amount: u64,
    grant: &AuthorityProof,
) -> (r: Result<(), EscrowError>)
    requires
        old(to).balance + amount <= u64::MAX,
    ensures
        (final(vault)@, final(to)@, r) == spec_transfer_out(
            old(vault)@,
            old(to)@,
            amount,
            grant.authority@,
        ),
{
    let permitted = match &vault.authority {
        VaultAuthority::ProtocolControlled { authority, .. } => key_eq(authority, &grant.authority),
        VaultAuthority::MerchantControlled { .. } => false,
    };
    if !permitted {
        return Err(EscrowError::AuthorityDerivationFailure);
    }
    if amount > vault.balance {
        return Err(EscrowError::AmountMismatch);
    }
    vault.balance = vault.balance - amount;
    to.balance = to.balance + amount;
    Ok(())
}

/// Effect of closing the vault: permitted only to the custodial authority,
/// and only once the vault is empty; the emptied balance and the storage
/// deposit go back to the merchant.
pub open spec fn spec_close_account(v: VaultView, authority: Seq<u8>) -> Result<
    u64,
    EscrowError,
> {
    if !v.authorized_by(authority) {
        Err(EscrowError::AuthorityDerivationFailure)
    } else if v.balance != 0 {
        Err(EscrowError::StorageFailure)
    } else {
        Ok(v.balance)
    }
}

/// Closes the vault under the re-derived custodial capability, returning the
/// residual balance handed back to the merchant. A vault that still holds
/// funds, or a capability that does not match, is refused.
pub fn close_account(vault: &Vault, grant: &AuthorityProof) -> (r: Result<u64, EscrowError>)
    ensures
        r == spec_close_account(vault@, grant.authority@),
{
    let permitted = match &vault.authority {
        VaultAuthority::ProtocolControlled { authority, .. } => key_eq(authority, &grant.authority),
        VaultAuthority::MerchantControlled { .. } => false,
    };
    if !permitted {
        return Err(EscrowError::AuthorityDerivationFailure);
    }
    if vault.balance != 0 {
        return Err(EscrowError::StorageFailure);
    }
    Ok(vault.balance)
}

} // verus!
