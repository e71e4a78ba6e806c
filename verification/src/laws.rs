use vstd::prelude::*;

use crate::engine::spec_cancel;
use crate::engine::spec_exchange;
use crate::engine::spec_exchange_refused;
use crate::engine::spec_initialize;
use crate::engine::EngineView;
use crate::engine::ExchangeReceipt;
use crate::errors::EscrowError;
use crate::record::SETTLEMENT_WINDOW;
use crate::token::TokenAccountView;

verus! {

/// Initialize followed immediately by Cancel, signed by the same merchant,
/// refunds the vault's full balance — zero, since nothing was deposited —
/// and leaves neither an escrow record nor a vault behind.
pub proof fn initialize_then_cancel_clears(
    pre: EngineView,
    merchant: Seq<u8>,
    mint: Seq<u8>,
    merchant_receive_token_account: Seq<u8>,
    buyer_amount: u64,
    now: int,
)
    requires
        pre.inv(),
        pre.escrow is None,
        buyer_amount > 0,
    ensures
        ({
            let (mid, created) = spec_initialize(
                pre,
                merchant,
                mint,
                merchant_receive_token_account,
                buyer_amount,
                now,
            );
            created is Ok ==> {
                let (post, refunded) = spec_cancel(mid, merchant);
                &&& refunded == Ok::<u64, EscrowError>(0u64)
                &&& post.escrow is None
                &&& post.vault is None
            }
        }),
{
}

/// Inside the window, Exchange moves exactly the recorded amount from the
/// buyer's funding account to the destination recorded at Initialize: the
/// buyer ends debited by that amount, the destination credited by it, and
/// the vault — empty before the call — is gone afterwards, together with
/// the record.
pub proof fn exchange_in_window_settles(
    pre: EngineView,
    merchant: Seq<u8>,
    mint: Seq<u8>,
    buyer: Seq<u8>,
    buyer_account: TokenAccountView,
    merchant_receive_token_account: TokenAccountView,
    buyer_amount: u64,
    create_time: int,
    now: int,
)
    requires
        pre.inv(),
        pre.escrow is None,
        buyer_account.owner == buyer,
        buyer_amount <= buyer_account.balance,
        now <= create_time + SETTLEMENT_WINDOW,
        merchant_receive_token_account.balance + buyer_amount <= u64::MAX,
    ensures
        ({
            let (mid, created) = spec_initialize(
                pre,
                merchant,
                mint,
                merchant_receive_token_account.key,
                buyer_amount,
                create_time,
            );
            created is Ok ==> {
                let out = spec_exchange(
                    mid,
                    buyer,
                    buyer_account,
                    merchant_receive_token_account,
                    merchant,
                    now,
                );
                &&& out.result == Ok::<ExchangeReceipt, EscrowError>(
                    ExchangeReceipt { amount_transferred: buyer_amount, expired: false },
                )
                &&& out.buyer_account.balance == buyer_account.balance - buyer_amount
                &&& out.merchant_receive_token_account.balance
                    == merchant_receive_token_account.balance + buyer_amount
                &&& (mid.vault matches Some(v) && v.balance == 0)
                &&& out.engine.escrow is None
                &&& out.engine.vault is None
            }
        }),
{
}

/// Past the window, Exchange performs no transfer — the buyer's and the
/// destination's balances are exactly what they were — yet still destroys
/// the escrow record and the vault.
pub proof fn exchange_after_window_only_clears(
    pre: EngineView,
    merchant: Seq<u8>,
    mint: Seq<u8>,
    buyer: Seq<u8>,
    buyer_account: TokenAccountView,
    merchant_receive_token_account: TokenAccountView,
    buyer_amount: u64,
    create_time: int,
    now: int,
)
    requires
        pre.inv(),
        pre.escrow is None,
        buyer_amount <= buyer_account.balance,
        now > create_time + SETTLEMENT_WINDOW,
    ensures
        ({
            let (mid, created) = spec_initialize(
                pre,
                merchant,
                mint,
                merchant_receive_token_account.key,
                buyer_amount,
                create_time,
            );
            created is Ok ==> {
                let out = spec_exchange(
                    mid,
                    buyer,
                    buyer_account,
                    merchant_receive_token_account,
                    merchant,
                    now,
                );
                &&& out.result == Ok::<ExchangeReceipt, EscrowError>(
                    ExchangeReceipt { amount_transferred: 0, expired: true },
                )
                &&& out.buyer_account == buyer_account
                &&& out.merchant_receive_token_account == merchant_receive_token_account
                &&& out.engine.escrow is None
                &&& out.engine.vault is None
            }
        }),
{
}

/// Exchange presented with a receive destination other than the one
/// recorded at Initialize is refused with `DestinationMismatch` and
/// performs no transfer: accounts, record and vault all stay as they were.
pub proof fn exchange_wrong_destination_refused(
    pre: EngineView,
    merchant: Seq<u8>,
    mint: Seq<u8>,
    recorded_destination: Seq<u8>,
    buyer: Seq<u8>,
    buyer_account: TokenAccountView,
    merchant_receive_token_account: TokenAccountView,
    buyer_amount: u64,
    create_time: int,
    now: int,
)
    requires
        pre.inv(),
        pre.escrow is None,
        buyer_amount <= buyer_account.balance,
        merchant_receive_token_account.key != recorded_destination,
    ensures
        ({
            let (mid, created) = spec_initialize(
                pre,
                merchant,
                mint,
                recorded_destination,
                buyer_amount,
                create_time,
            );
            created is Ok ==> spec_exchange(
                mid,
                buyer,
                buyer_account,
                merchant_receive_token_account,
                merchant,
                now,
            ) == spec_exchange_refused(
                mid,
                buyer_account,
                merchant_receive_token_account,
                EscrowError::DestinationMismatch,
            )
        }),
{
}

/// Exchange invoked when the recorded amount exceeds the buyer's funding
/// balance is refused with `AmountMismatch` and performs no transfer:
/// accounts, record and vault all stay as they were.
pub proof fn exchange_insufficient_funds_refused(
    pre: EngineView,
    merchant: Seq<u8>,
    mint: Seq<u8>,
    recorded_destination: Seq<u8>,
    buyer: Seq<u8>,
    buyer_account: TokenAccountView,
    merchant_receive_token_account: TokenAccountView,
    buyer_amount: u64,
    create_time: int,
    now: int,
)
    requires
        pre.inv(),
        pre.escrow is None,
        buyer_amount > buyer_account.balance,
    ensures
        ({
            let (mid, created) = spec_initialize(
                pre,
                merchant,
                mint,
                recorded_destination,
                buyer_amount,
                create_time,
            );
            created is Ok ==> spec_exchange(
                mid,
                buyer,
                buyer_account,
                merchant_receive_token_account,
                merchant,
                now,
            ) == spec_exchange_refused(
                mid,
                buyer_account,
                merchant_receive_token_account,
                EscrowError::AmountMismatch,
            )
        }),
{
}

/// No double settlement: a successful Cancel or Exchange leaves neither
/// record nor vault, and against an engine whose record is gone, Cancel and
/// Exchange are both refused outright and change nothing.
pub proof fn no_double_settlement(
    st: EngineView,
    signer: Seq<u8>,
    buyer: Seq<u8>,
    buyer_account: TokenAccountView,
    merchant_receive_token_account: TokenAccountView,
    merchant: Seq<u8>,
    now: int,
)
    ensures
        (spec_cancel(st, signer).1 is Ok ==> spec_cancel(st, signer).0.escrow is None
            && spec_cancel(st, signer).0.vault is None),
        (spec_exchange(st, buyer, buyer_account, merchant_receive_token_account, merchant, now).result
            is Ok ==> spec_exchange(
            st,
            buyer,
            buyer_account,
            merchant_receive_token_account,
            merchant,
            now,
        ).engine.escrow is None && spec_exchange(
            st,
            buyer,
            buyer_account,
            merchant_receive_token_account,
            merchant,
            now,
        ).engine.vault is None),
        (st.escrow is None ==> spec_cancel(st, signer) == (
            st,
            Err::<u64, EscrowError>(EscrowError::StorageFailure),
        )),
        (st.escrow is None ==> spec_exchange(
            st,
            buyer,
            buyer_account,
            merchant_receive_token_account,
            merchant,
            now,
        ) == spec_exchange_refused(
            st,
            buyer_account,
            merchant_receive_token_account,
            EscrowError::StorageFailure,
        )),
{
}

} // verus!
