//! Verified core of an invoice-financing escrow: an SME raises a funding target
//! from investors, settles or withdraws once funded, and investors claim
//! principal plus yield (or a refund when funding is cancelled).
//!
//! The state machine is expressed over plain values; the host environment
//! (storage, authorization, ledger clock, events, token custody) is driven by
//! the caller, which hands ledger readings in and performs the payments that
//! the state machine returns. Token transfers themselves go through
//! [`transfer_funding_token_with_balance_checks`], which verifies the balance
//! movements it observes.

pub mod admin;
pub mod allowlist;
pub mod authorization;
pub mod book;
pub mod error;
pub mod funding;
pub mod init;
pub mod integrity;
pub mod invoice_id;
pub mod laws;
pub mod metadata;
pub mod payout;
pub mod queries;
pub mod settlement;
pub mod state;
pub mod tiers;
pub mod token;
pub mod types;

pub use authorization::EscrowCall;
pub use book::{BookEntry, InvestorBook};
pub use error::EscrowError;
pub use invoice_id::{label_from_bytes, validate_invoice_id};
pub use payout::calculate_principal_plus_yield;
pub use queries::EscrowSummary;
pub use settlement::ClaimOutcome;
pub use state::{EscrowContract, EscrowEvent, EscrowState};
pub use tiers::{effective_yield_for_commitment, validate_yield_tiers_table};
pub use token::{
    check_transfer_deltas, check_transfer_preflight, transfer_funding_token_with_balance_checks,
    TransferReceipt,
};
pub use types::{
    Addr, FundingCloseSnapshot, InvestorRecord, InvoiceEscrow, Label, Payment,
    SmeCollateralCommitment, YieldTier, BPS_DENOMINATOR, MAX_ATTESTATION_APPEND_ENTRIES,
    MAX_DUST_SWEEP_AMOUNT, MAX_INVESTOR_ALLOWLIST_BATCH, MAX_INVOICE_ID_STRING_LEN, MAX_YIELD_BPS,
    SCHEMA_VERSION, STATUS_CANCELLED, STATUS_FUNDED, STATUS_OPEN, STATUS_SETTLED,
    STATUS_WITHDRAWN,
};
