use solana_pay::record::EscrowAccount;
use solana_pay::token::TokenAccount;
use solana_pay::token::Vault;
use solana_pay::token::VaultAuthority;
use solana_pay::Engine;
use solana_pay::EscrowError;
use solana_pay::ExchangeReceipt;
use solana_pay::SETTLEMENT_WINDOW;

fn program_id() -> Vec<u8> {
    let mut id = vec![7u8; 32];
    id[0] = 1;
    id
}

fn merchant() -> Vec<u8> {
    vec![2u8; 32]
}

fn buyer() -> Vec<u8> {
    vec![3u8; 32]
}

fn mint() -> Vec<u8> {
    vec![4u8; 32]
}

fn dest_key() -> Vec<u8> {
    vec![5u8; 32]
}

fn buyer_funding(balance: u64) -> TokenAccount {
    TokenAccount { key: vec![6u8; 32], owner: buyer(), balance }
}

fn destination(balance: u64) -> TokenAccount {
    TokenAccount { key: dest_key(), owner: merchant(), balance }
}

fn initialized_engine(buyer_amount: u64, now: i64) -> Engine {
    let mut engine = Engine::new(program_id());
    let r = engine.initialize(&merchant(), &mint(), &dest_key(), buyer_amount, now);
    assert_eq!(r, Ok(()));
    engine
}

#[test]
fn initialize_records_the_escrow_and_window() {
    let engine = initialized_engine(100, 1000);
    let record = engine.escrow.as_ref().expect("record must exist");
    assert_eq!(record.merchant_key, merchant());
    assert_eq!(record.merchant_receive_token_account, dest_key());
    assert_eq!(record.buyer_amount, 100);
    assert_eq!(record.create_time, 1000);
    assert_eq!(record.end_time, 1000 + SETTLEMENT_WINDOW);
    let vault = engine.vault.as_ref().expect("vault must exist");
    assert_eq!(vault.balance, 0);
    assert!(matches!(vault.authority, VaultAuthority::ProtocolControlled { .. }));
}

#[test]
fn initialize_twice_is_refused() {
    let mut engine = initialized_engine(100, 0);
    let r = engine.initialize(&merchant(), &mint(), &dest_key(), 7, 5);
    assert_eq!(r, Err(EscrowError::StorageFailure));
    assert!(engine.escrow.is_some());
}

#[test]
fn cancel_right_after_initialize_clears_everything() {
    let mut engine = initialized_engine(100, 0);
    let r = engine.cancel(&merchant());
    assert_eq!(r, Ok(0));
    assert!(engine.escrow.is_none());
    assert!(engine.vault.is_none());
}

#[test]
fn cancel_by_non_merchant_is_unauthorized() {
    let mut engine = initialized_engine(100, 0);
    let r = engine.cancel(&buyer());
    assert_eq!(r, Err(EscrowError::Unauthorized));
    assert!(engine.escrow.is_some());
    assert!(engine.vault.is_some());
}

#[test]
fn cancel_without_a_live_escrow_is_refused() {
    let mut engine = Engine::new(program_id());
    let r = engine.cancel(&merchant());
    assert_eq!(r, Err(EscrowError::StorageFailure));
}

#[test]
fn exchange_inside_window_moves_the_recorded_amount() {
    let mut engine = initialized_engine(100, 0);
    let mut funding = buyer_funding(250);
    let mut dest = destination(40);
    let r = engine.exchange(&buyer(), &mut funding, &mut dest, &merchant(), 150);
    assert_eq!(r, Ok(ExchangeReceipt { amount_transferred: 100, expired: false }));
    assert_eq!(funding.balance, 150);
    assert_eq!(dest.balance, 140);
    assert!(engine.escrow.is_none());
    assert!(engine.vault.is_none());
}

#[test]
fn exchange_exactly_at_end_time_is_still_valid() {
    let mut engine = initialized_engine(100, 0);
    let mut funding = buyer_funding(100);
    let mut dest = destination(0);
    let r = engine.exchange(&buyer(), &mut funding, &mut dest, &merchant(), SETTLEMENT_WINDOW);
    assert_eq!(r, Ok(ExchangeReceipt { amount_transferred: 100, expired: false }));
    assert_eq!(funding.balance, 0);
    assert_eq!(dest.balance, 100);
}

#[test]
fn exchange_past_window_clears_without_moving_funds() {
    let mut engine = initialized_engine(100, 0);
    let mut funding = buyer_funding(250);
    let mut dest = destination(40);
    let r = engine.exchange(&buyer(), &mut funding, &mut dest, &merchant(), 301);
    assert_eq!(r, Ok(ExchangeReceipt { amount_transferred: 0, expired: true }));
    assert_eq!(funding.balance, 250);
    assert_eq!(dest.balance, 40);
    assert!(engine.escrow.is_none());
    assert!(engine.vault.is_none());
}

#[test]
fn exchange_with_insufficient_funding_is_refused() {
    let mut engine = initialized_engine(100, 0);
    let mut funding = buyer_funding(99);
    let mut dest = destination(0);
    let r = engine.exchange(&buyer(), &mut funding, &mut dest, &merchant(), 10);
    assert_eq!(r, Err(EscrowError::AmountMismatch));
    assert_eq!(funding.balance, 99);
    assert_eq!(dest.balance, 0);
    assert!(engine.escrow.is_some());
}

#[test]
fn exchange_with_wrong_destination_is_refused() {
    let mut engine = initialized_engine(100, 0);
    let mut funding = buyer_funding(200);
    let mut dest = TokenAccount { key: vec![9u8; 32], owner: merchant(), balance: 0 };
    let r = engine.exchange(&buyer(), &mut funding, &mut dest, &merchant(), 10);
    assert_eq!(r, Err(EscrowError::DestinationMismatch));
    assert_eq!(funding.balance, 200);
    assert_eq!(dest.balance, 0);
    assert!(engine.escrow.is_some());
}

#[test]
fn exchange_with_wrong_merchant_is_refused() {
    let mut engine = initialized_engine(100, 0);
    let mut funding = buyer_funding(200);
    let mut dest = destination(0);
    let r = engine.exchange(&buyer(), &mut funding, &mut dest, &buyer(), 10);
    assert_eq!(r, Err(EscrowError::MerchantMismatch));
    assert_eq!(funding.balance, 200);
    assert!(engine.escrow.is_some());
}

#[test]
fn exchange_without_funding_owner_signature_is_unauthorized() {
    let mut engine = initialized_engine(100, 0);
    let mut funding = buyer_funding(200);
    let mut dest = destination(0);
    let r = engine.exchange(&merchant(), &mut funding, &mut dest, &merchant(), 10);
    assert_eq!(r, Err(EscrowError::Unauthorized));
    assert_eq!(funding.balance, 200);
    assert_eq!(dest.balance, 0);
    assert!(engine.escrow.is_some());
}

#[test]
fn exchange_without_a_live_escrow_is_refused() {
    let mut engine = Engine::new(program_id());
    let mut funding = buyer_funding(200);
    let mut dest = destination(0);
    let r = engine.exchange(&buyer(), &mut funding, &mut dest, &merchant(), 10);
    assert_eq!(r, Err(EscrowError::StorageFailure));
}

#[test]
fn settled_escrow_refuses_cancel_and_exchange() {
    let mut engine = initialized_engine(100, 0);
    let mut funding = buyer_funding(100);
    let mut dest = destination(0);
    let r = engine.exchange(&buyer(), &mut funding, &mut dest, &merchant(), 1);
    assert_eq!(r, Ok(ExchangeReceipt { amount_transferred: 100, expired: false }));
    assert_eq!(engine.cancel(&merchant()), Err(EscrowError::StorageFailure));
    let again = engine.exchange(&buyer(), &mut funding, &mut dest, &merchant(), 2);
    assert_eq!(again, Err(EscrowError::StorageFailure));
    assert_eq!(funding.balance, 0);
    assert_eq!(dest.balance, 100);
}

#[test]
fn cancelled_escrow_refuses_cancel_and_exchange() {
    let mut engine = initialized_engine(100, 0);
    assert_eq!(engine.cancel(&merchant()), Ok(0));
    assert_eq!(engine.cancel(&merchant()), Err(EscrowError::StorageFailure));
    let mut funding = buyer_funding(100);
    let mut dest = destination(0);
    let r = engine.exchange(&buyer(), &mut funding, &mut dest, &merchant(), 1);
    assert_eq!(r, Err(EscrowError::StorageFailure));
}

#[test]
fn vault_under_a_foreign_authority_refuses_settlement() {
    let mut engine = Engine {
        program_id: program_id(),
        escrow: Some(EscrowAccount {
            merchant_key: merchant(),
            merchant_receive_token_account: dest_key(),
            buyer_amount: 5,
            create_time: 0,
            end_time: SETTLEMENT_WINDOW,
        }),
        vault: Some(Vault {
            mint: mint(),
            authority: VaultAuthority::ProtocolControlled { authority: vec![0u8; 32], bump: 0 },
            balance: 0,
        }),
    };
    let mut funding = buyer_funding(100);
    let mut dest = destination(0);
    let r = engine.exchange(&buyer(), &mut funding, &mut dest, &merchant(), 1);
    assert_eq!(r, Err(EscrowError::AuthorityDerivationFailure));
    assert_eq!(funding.balance, 100);
    assert!(engine.escrow.is_some());
    assert_eq!(engine.cancel(&merchant()), Err(EscrowError::AuthorityDerivationFailure));
}
