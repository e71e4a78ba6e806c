//! A conditional-custody settlement protocol: a buyer's payment is settled
//! through a custodial vault whose spending authority belongs to a derived,
//! keyless address, and is released to the merchant only inside a fixed time
//! window, or cleared on cancellation or expiry.

pub mod authority;
pub mod engine;
pub mod errors;
pub mod keys;
pub mod laws;
pub mod record;
pub mod token;

pub use engine::check_valid_time;
pub use engine::Engine;
pub use engine::ExchangeReceipt;
pub use errors::EscrowError;
pub use record::EscrowAccount;
pub use record::SETTLEMENT_WINDOW;
