use vstd::prelude::*;

verus! {

/// Length of the settlement window, in the ledger's wall-clock units.
/// A record created at time `t` admits settlement up to and including
/// `t + SETTLEMENT_WINDOW`.
pub const SETTLEMENT_WINDOW: i64 = 300;

/// Durable state of one pending buyer-to-merchant settlement.
///
/// Created once by Initialize and destroyed exactly once, by Cancel or by
/// Exchange; every field is fixed at creation.
pub struct EscrowAccount {
    /// Identity of the merchant that created the escrow; owner of
    /// cancellation rights and recipient of the vault's residue.
    pub merchant_key: Vec<u8>,
    /// The token account designated at creation to receive the funds on a
    /// successful exchange; it cannot be redirected afterward.
    pub merchant_receive_token_account: Vec<u8>,
    /// The exact quantity of tokens the buyer owes.
    pub buyer_amount: u64,
    /// Opening instant of the settlement window.
    pub create_time: i64,
    /// Closing instant of the settlement window (inclusive).
    pub end_time: i64,
}

/// Mathematical image of an `EscrowAccount`.
pub struct EscrowAccountView {
    pub merchant_key: Seq<u8>,
    pub merchant_receive_token_account: Seq<u8>,
    pub buyer_amount: u64,
    pub create_time: int,
    pub end_time: int,
}

impl View for EscrowAccount {
    type V = EscrowAccountView;

    open spec fn view(&self) -> EscrowAccountView {
        EscrowAccountView {
            merchant_key: self.merchant_key@,
            merchant_receive_token_account: self.merchant_receive_token_account@,
            buyer_amount: self.buyer_amount,
            create_time: self.create_time as int,
            end_time: self.end_time as int,
        }
    }
}

impl EscrowAccountView {
    /// The window closes exactly `SETTLEMENT_WINDOW` units after it opens.
    pub open spec fn wf(self) -> bool {
        self.end_time == self.create_time + SETTLEMENT_WINDOW
    }
}

} // verus!
