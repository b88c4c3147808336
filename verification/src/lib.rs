//! A transactional payment-splitting ledger.
//!
//! Given an inbound payment from a payer, the library computes and records a
//! two-way split of funds — a platform fee and a merchant payout — keyed by a
//! caller-supplied payment identifier that guarantees exactly-once accounting.
//! All external effects (authorization, balance queries, token transfers,
//! durable storage, the clock) are supplied by the surrounding environment;
//! the library holds the decisions, the arithmetic and the ledger state.

pub mod engine;
pub mod errors;
pub mod payment;
pub mod principal;
pub mod splitter;

pub use engine::SplitAmounts;
pub use errors::Error;
pub use payment::Payment;
pub use payment::PaymentType;
pub use principal::Principal;
pub use splitter::CrynkPaymentSplitter;
pub use splitter::TransferLeg;
