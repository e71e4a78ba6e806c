use vstd::prelude::*;

use crate::authority::derive_authority;
use crate::authority::derived_authority_of;
use crate::authority::vault_auth_seed;
use crate::errors::EscrowError;
use crate::keys::key_clone;
use crate::keys::key_eq;
use crate::record::EscrowAccount;
use crate::record::EscrowAccountView;
use crate::record::SETTLEMENT_WINDOW;
use crate::token::close_account;
use crate::token::set_authority;
use crate::token::spec_close_account;
use crate::token::transfer_in;
use crate::token::transfer_out;
use crate::token::TokenAccount;
use crate::token::TokenAccountView;
use crate::token::Vault;
use crate::token::VaultAuthority;
use crate::token::VaultAuthorityView;
use crate::token::VaultView;

verus! {

/// The shared time-window test: an invocation at `current_ts` is still
/// within the window when it does not pass `end_time` (the upper bound is
/// inclusive, so an invocation exactly at `end_time` is valid).
pub fn check_valid_time(end_time: i64, current_ts: i64) -> (r: bool)
    ensures
        r == (current_ts <= end_time),
{
    if current_ts <= end_time {
        return true;
    }
    false
}

/// What a successful Exchange reports: how much moved, and whether the
/// window had already closed (in which case nothing moved and the call only
/// tore the escrow down).
#[derive(Clone, Copy, Debug, PartialEq, Eq, Structural)]
pub struct ExchangeReceipt {
    pub amount_transferred: u64,
    pub expired: bool,
}

/// The settlement engine for one escrow slot: the durable record and the
/// custodial vault, both addressed under the protocol identity
/// `program_id`, so at most one live escrow exists at a time.
pub struct Engine {
    /// The protocol's own identity, from which the custodial authority is
    /// derived.
    pub program_id: Vec<u8>,
    /// The escrow record, present exactly while an escrow is live.
    pub escrow: Option<EscrowAccount>,
    /// The custodial vault, present exactly while an escrow is live.
    pub vault: Option<Vault>,
}

/// Mathematical image of an `Engine`.
pub struct EngineView {
    pub program_id: Seq<u8>,
    pub escrow: Option<EscrowAccountView>,
    pub vault: Option<VaultView>,
}

impl View for Engine {
    type V = EngineView;

    open spec fn view(&self) -> EngineView {
        EngineView {
            program_id: self.program_id@,
            escrow: match self.escrow {
                Some(record) => Some(record@),
                None => None,
            },
            vault: match self.vault {
                Some(vault) => Some(vault@),
                None => None,
            },
        }
    }
}

impl EngineView {
    /// The engine's invariant: record and vault live and die together; a
    /// live record keeps a well-formed window; a live vault is under
    /// protocol control and holds nothing between operations.
    pub open spec fn inv(self) -> bool {
        &&& self.program_id.len() == 32
        &&& (self.escrow is Some <==> self.vault is Some)
        &&& (self.escrow matches Some(rec) ==> rec.wf())
        &&& (self.vault matches Some(v) ==> v.balance == 0 && v.authority
            is ProtocolControlled)
    }
}

/// Everything Exchange leaves behind: the engine, the two outside accounts,
/// and the verdict.
pub struct ExchangeOutcome {
    pub engine: EngineView,
    pub buyer_account: TokenAccountView,
    pub merchant_receive_token_account: TokenAccountView,
    pub result: Result<ExchangeReceipt, EscrowError>,
}

/// Effect of Initialize on the engine: refused while an escrow is live or
/// when the custodial authority cannot be derived; otherwise a fresh record
/// with window `[now, now + SETTLEMENT_WINDOW]` and an empty vault under
/// the derived authority.
pub open spec fn spec_initialize(
    pre: EngineView,
    merchant: Seq<u8>,
    mint: Seq<u8>,
    merchant_receive_token_account: Seq<u8>,
    buyer_amount: u64,
    now: int,
) -> (EngineView, Result<(), EscrowError>) {
    if pre.escrow is Some || pre.vault is Some {
        (pre, Err(EscrowError::StorageFailure))
    } else {
        match derived_authority_of(vault_auth_seed(), pre.program_id) {
            None => (pre, Err(EscrowError::AuthorityDerivationFailure)),
            Some(d) => (
                EngineView {
                    program_id: pre.program_id,
                    escrow: Some(
                        EscrowAccountView {
                            merchant_key: merchant,
                            merchant_receive_token_account: merchant_receive_token_account,
                            buyer_amount: buyer_amount,
                            create_time: now,
                            end_time: now + SETTLEMENT_WINDOW,
                        },
                    ),
                    vault: Some(
                        VaultView {
                            mint: mint,
                            authority: VaultAuthorityView::ProtocolControlled {
                                authority: d.0,
                                bump: d.1,
                            },
                            balance: 0,
                        },
                    ),
                },
                Ok(()),
            ),
        }
    }
}

/// Effect of Cancel: only the recorded merchant may cancel, at any time;
/// the vault is closed under the re-derived authority and both entities are
/// destroyed, the (empty) vault balance going back to the merchant.
pub open spec fn spec_cancel(pre: EngineView, signer: Seq<u8>) -> (
    EngineView,
    Result<u64, EscrowError>,
) {
    match pre.escrow {
        None => (pre, Err(EscrowError::StorageFailure)),
        Some(rec) => {
            if signer != rec.merchant_key {
                (pre, Err(EscrowError::Unauthorized))
            } else {
                match derived_authority_of(vault_auth_seed(), pre.program_id) {
                    None => (pre, Err(EscrowError::AuthorityDerivationFailure)),
                    Some(d) => {
                        match pre.vault {
                            None => (pre, Err(EscrowError::StorageFailure)),
                            Some(v) => {
                                match spec_close_account(v, d.0) {
                                    Err(e) => (pre, Err(e)),
                                    Ok(amount) => (
                                        EngineView {
                                            program_id: pre.program_id,
                                            escrow: None,
                                            vault: None,
                                        },
                                        Ok(amount),
                                    ),
                                }
                            },
                        }
                    },
                }
            }
        },
    }
}

/// Effect of Exchange. The account checks come first, in the order the
/// record declares them; then the custodial capability is re-derived and
/// held against the vault; then the window decides: inside it the recorded
/// amount moves from the buyer's funding account through the vault to the
/// recorded destination, past it nothing moves. Either way record and vault
/// are destroyed, so no second settlement can follow.
pub open spec fn spec_exchange(
    pre: EngineView,
    buyer: Seq<u8>,
    buyer_account: TokenAccountView,
    merchant_receive_token_account: TokenAccountView,
    merchant: Seq<u8>,
    now: int,
) -> ExchangeOutcome {
    match pre.escrow {
        None => spec_exchange_refused(
            pre,
            buyer_account,
            merchant_receive_token_account,
            EscrowError::StorageFailure,
        ),
        Some(rec) => {
            if rec.buyer_amount > buyer_account.balance {
                spec_exchange_refused(
                    pre,
                    buyer_account,
                    merchant_receive_token_account,
                    EscrowError::AmountMismatch,
                )
            } else if merchant_receive_token_account.key != rec.merchant_receive_token_account {
                spec_exchange_refused(
                    pre,
                    buyer_account,
                    merchant_receive_token_account,
                    EscrowError::DestinationMismatch,
                )
            } else if merchant != rec.merchant_key {
                spec_exchange_refused(
                    pre,
                    buyer_account,
                    merchant_receive_token_account,
                    EscrowError::MerchantMismatch,
                )
            } else {
                match derived_authority_of(vault_auth_seed(), pre.program_id) {
                    None => spec_exchange_refused(
                        pre,
                        buyer_account,
                        merchant_receive_token_account,
                        EscrowError::AuthorityDerivationFailure,
                    ),
                    Some(d) => {
                        match pre.vault {
                            None => spec_exchange_refused(
                                pre,
                                buyer_account,
                                merchant_receive_token_account,
                                EscrowError::StorageFailure,
                            ),
                            Some(v) => {
                                if !v.authorized_by(d.0) {
                                    spec_exchange_refused(
                                        pre,
                                        buyer_account,
                                        merchant_receive_token_account,
                                        EscrowError::AuthorityDerivationFailure,
                                    )
                                } else if now <= rec.end_time {
                                    if buyer != buyer_account.owner {
                                        spec_exchange_refused(
                                            pre,
                                            buyer_account,
                                            merchant_receive_token_account,
                                            EscrowError::Unauthorized,
                                        )
                                    } else {
                                        ExchangeOutcome {
                                            engine: EngineView {
                                                program_id: pre.program_id,
                                                escrow: None,
                                                vault: None,
                                            },
                                            buyer_account: TokenAccountView {
                                                key: buyer_account.key,
                                                owner: buyer_account.owner,
                                                balance: (buyer_account.balance
                                                    - rec.buyer_amount) as u64,
                                            },
                                            merchant_receive_token_account: TokenAccountView {
                                                key: merchant_receive_token_account.key,
                                                owner: merchant_receive_token_account.owner,
                                                balance: (merchant_receive_token_account.balance
                                                    + rec.buyer_amount) as u64,
                                            },
                                            result: Ok(
                                                ExchangeReceipt {
                                                    amount_transferred: rec.buyer_amount,
                                                    expired: false,
                                                },
                                            ),
                                        }
                                    }
                                } else {
                                    ExchangeOutcome {
                                        engine: EngineView {
                                            program_id: pre.program_id,
                                            escrow: None,
                                            vault: None,
                                        },
                                        buyer_account: buyer_account,
                                        merchant_receive_token_account:
                                            merchant_receive_token_account,
                                        result: Ok(
                                            ExchangeReceipt {
                                                amount_transferred: 0,
                                                expired: true,
                                            },
                                        ),
                                    }
                                }
                            },
                        }
                    },
                }
            }
        },
    }
}

/// An Exchange that was refused outright: nothing changes but the verdict.
pub open spec fn spec_exchange_refused(
    pre: EngineView,
    buyer_account: TokenAccountView,
    merchant_receive_token_account: TokenAccountView,
    e: EscrowError,
) -> ExchangeOutcome {
    ExchangeOutcome {
        engine: pre,
        buyer_account: buyer_account,
        merchant_receive_token_account: merchant_receive_token_account,
        result: Err(e),
    }
}

impl Engine {
    /// An engine with no live escrow, for the protocol identity
    /// `program_id`.
    pub fn new(program_id: Vec<u8>) -> (r: Engine)
        requires
            program_id@.len() == 32,
        ensures
            r@.inv(),
            r@.program_id == program_id@,
            r@.escrow is None,
            r@.vault is None,
    {
        Engine { program_id, escrow: None, vault: None }
    }

    /// Initialize: create the escrow record and the custodial vault.
    ///
    /// The vault is created under the co-signing merchant's control, as
    /// account creation demands, and its authority is reassigned to the
    /// derived custodial address before the call returns, so the merchant
    /// never controls a funded vault. The window opens at `now` and closes
    /// `SETTLEMENT_WINDOW` units later. Refused with `StorageFailure` when
    /// the fixed-seed slot is already occupied, and with
    /// `AuthorityDerivationFailure` when no custodial address derives.
    pub fn initialize(
        &mut self,
        merchant: &Vec<u8>,
        mint: &Vec<u8>,
        merchant_receive_token_account: &Vec<u8>,
        buyer_amount: u64,
        now: i64,
    ) -> (r: Result<(), EscrowError>)
        requires
            old(self)@.inv(),
            now <= i64::MAX - SETTLEMENT_WINDOW,
        ensures
            final(self)@.inv(),
            (final(self)@, r) == spec_initialize(
                old(self)@,
                merchant@,
                mint@,
                merchant_receive_token_account@,
                buyer_amount,
                now as int,
            ),
    {
        if self.escrow.is_some() || self.vault.is_some() {
            return Err(EscrowError::StorageFailure);
        }
        let grant = match derive_authority(&self.program_id) {
            Ok(g) => g,
            Err(e) => {
                return Err(e);
            },
        };
        let mut vault = Vault {
            mint: key_clone(mint),
            authority: VaultAuthority::MerchantControlled { merchant: key_clone(merchant) },
            balance: 0,
        };
        if let Err(e) = set_authority(&mut vault, grant, merchant) {
            return Err(e);  // never taken: the vault is still the merchant's
        }
        let record = EscrowAccount {
            merchant_key: key_clone(merchant),
            merchant_receive_token_account: key_clone(merchant_receive_token_account),
            buyer_amount,
            create_time: now,
            end_time: now + SETTLEMENT_WINDOW,
        };
        self.escrow = Some(record);
        self.vault = Some(vault);
        Ok(())
    }

    /// Cancel: available to the recorded merchant at any time, before or
    /// after expiry. Re-derives the custodial capability, closes the vault
    /// under it, and destroys record and vault; the vault's (empty) balance
    /// and the storage deposits go back to the merchant. Refused with
    /// `Unauthorized` when the signer is not the recorded merchant, and
    /// with `StorageFailure` when no escrow is live.
    pub fn cancel(&mut self, merchant: &Vec<u8>) -> (r: Result<u64, EscrowError>)
        requires
            old(self)@.inv(),
        ensures
            final(self)@.inv(),
            (final(self)@, r) == spec_cancel(old(self)@, merchant@),
    {
        let authorized = match &self.escrow {
            Some(record) => key_eq(&record.merchant_key, merchant),
            None => {
                return Err(EscrowError::StorageFailure);
            },
        };
        if !authorized {
            return Err(EscrowError::Unauthorized);
        }
        let grant = match derive_authority(&self.program_id) {
            Ok(g) => g,
            Err(e) => {
                return Err(e);
            },
        };
        let closed = match &self.vault {
            Some(vault) => close_account(vault, &grant),
            None => {
                return Err(EscrowError::StorageFailure);  // never taken: a live record keeps its vault
            },
        };
        let reclaimed = match closed {
            Ok(amount) => amount,
            Err(e) => {
                return Err(e);
            },
        };
        self.escrow = None;
        self.vault = None;
        Ok(reclaimed)
    }

    /// Exchange: the buyer settles the escrow, once, inside or outside the
    /// window.
    ///
    /// Inside the window the recorded amount travels in two hops — buyer's
    /// funding account into the vault on the buyer's authority, vault to
    /// the recorded destination on the re-derived custodial authority — so
    /// the protocol, not the buyer, is the last-mile authorizer. Past the
    /// window nothing moves. Both branches close the vault and destroy the
    /// record, so no second settlement can follow. Refused, changing
    /// nothing, with `AmountMismatch` when the recorded amount exceeds the
    /// funding balance, `DestinationMismatch` or `MerchantMismatch` when
    /// the supplied accounts differ from the record, `Unauthorized` when
    /// the buyer does not own the funding account, and `StorageFailure`
    /// when no escrow is live.
    pub fn exchange(
        &mut self,
        buyer: &Vec<u8>,
        buyer_account: &mut TokenAccount,
        merchant_receive_token_account: &mut TokenAccount,
        merchant: &Vec<u8>,
        now: i64,
    ) -> (r: Result<ExchangeReceipt, EscrowError>)
        requires
            old(self)@.inv(),
            (old(self)@.escrow matches Some(rec) ==> old(merchant_receive_token_account)@.balance
                + rec.buyer_amount <= u64::MAX),
        ensures
            final(self)@.inv(),
            (ExchangeOutcome {
                engine: final(self)@,
                buyer_account: final(buyer_account)@,
                merchant_receive_token_account: final(merchant_receive_token_account)@,
                result: r,
            }) == spec_exchange(
                old(self)@,
                buyer@,
                old(buyer_account)@,
                old(merchant_receive_token_account)@,
                merchant@,
                now as int,
            ),
    {
        let (amount, end_time) = match &self.escrow {
            Some(record) => (record.buyer_amount, record.end_time),
            None => {
                return Err(EscrowError::StorageFailure);
            },
        };
        if amount > buyer_account.balance {
            return Err(EscrowError::AmountMismatch);
        }
        let destination_matches = match &self.escrow {
            Some(record) => key_eq(
                &record.merchant_receive_token_account,
                &merchant_receive_token_account.key,
            ),
            None => false,
        };
        if !destination_matches {
            return Err(EscrowError::DestinationMismatch);
        }
        let merchant_matches = match &self.escrow {
            Some(record) => key_eq(&record.merchant_key, merchant),
            None => false,
        };
        if !merchant_matches {
            return Err(EscrowError::MerchantMismatch);
        }
        let grant = match derive_authority(&self.program_id) {
            Ok(g) => g,
            Err(e) => {
                return Err(e);
            },
        };
        let capability_matches = match &self.vault {
            Some(vault) => match &vault.authority {
                VaultAuthority::ProtocolControlled { authority, .. } => key_eq(
                    authority,
                    &grant.authority,
                ),
                VaultAuthority::MerchantControlled { .. } => false,
            },
            None => {
                return Err(EscrowError::StorageFailure);  // never taken: a live record keeps its vault
            },
        };
        if !capability_matches {
            return Err(EscrowError::AuthorityDerivationFailure);
        }
        if check_valid_time(end_time, now) {
            match &mut self.vault {
                Some(vault) => {
                    if let Err(e) = transfer_in(buyer_account, vault, amount, buyer) {
                        return Err(e);
                    }
                    if let Err(e) = transfer_out(
                        vault,
                        merchant_receive_token_account,
                        amount,
                        &grant,
                    ) {
                        return Err(e);  // never taken: the capability matched and the vault holds the amount
                    }
                },
                None => {
                    return Err(EscrowError::StorageFailure);  // never taken: checked above
                },
            }
            let closed = match &self.vault {
                Some(vault) => close_account(vault, &grant),
                None => Err(EscrowError::StorageFailure),  // never taken: checked above
            };
            if let Err(e) = closed {
                return Err(e);  // never taken: the vault is empty again
            }
            self.escrow = None;
            self.vault = None;
            Ok(ExchangeReceipt { amount_transferred: amount, expired: false })
        } else {
            let closed = match &self.vault {
                Some(vault) => close_account(vault, &grant),
                None => Err(EscrowError::StorageFailure),  // never taken: checked above
            };
            if let Err(e) = closed {
                return Err(e);  // never taken: the invariant keeps the vault empty
            }
            self.escrow = None;
            self.vault = None;
            Ok(ExchangeReceipt { amount_transferred: 0, expired: true })
        }
    }
}

} // verus!
