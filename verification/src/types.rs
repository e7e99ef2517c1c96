use vstd::prelude::*;

verus! {

/// Schema version written by `init`; `migrate` knows no path to or from any other.
pub const SCHEMA_VERSION: u32 = 6;

/// Longest accepted invoice identifier, in bytes.
pub const MAX_INVOICE_ID_STRING_LEN: usize = 32;

/// Most addresses accepted by one allowlist batch call.
pub const MAX_INVESTOR_ALLOWLIST_BATCH: usize = 50;

/// Largest amount a single treasury dust sweep may move.
pub const MAX_DUST_SWEEP_AMOUNT: i128 = 100_000_000;

/// Capacity of the append-only attestation digest log.
pub const MAX_ATTESTATION_APPEND_ENTRIES: usize = 32;

/// Basis points in one whole (100%).
pub const BPS_DENOMINATOR: i128 = 10_000;

/// Largest yield, in basis points, that the escrow or a tier may carry.
pub const MAX_YIELD_BPS: i64 = 10_000;

/// Escrow lifecycle status codes.
pub const STATUS_OPEN: u32 = 0;
pub const STATUS_FUNDED: u32 = 1;
pub const STATUS_SETTLED: u32 = 2;
pub const STATUS_WITHDRAWN: u32 = 3;
pub const STATUS_CANCELLED: u32 = 4;

/// An on-ledger account or contract, identified by a stable numeric handle
/// that the host side assigns to each address it has seen.
#[derive(Clone, Copy, Debug, PartialEq, Eq, Structural)]
pub struct Addr(pub u64);

/// A short ASCII name (an invoice identifier or an asset code): `len` bytes
/// of `bytes` are meaningful, the rest are zero.
#[derive(Clone, Copy, Debug, PartialEq, Eq)]
pub struct Label {
    pub len: u8,
    pub bytes: [u8; 32],
}

impl Label {
    /// The meaningful bytes of the label.
    pub open spec fn text(self) -> Seq<u8> {
        self.bytes@.take(self.len as int)
    }

    pub open spec fn well_formed(self) -> bool {
        self.len <= 32
    }

    /// The label spells exactly `text`, zero-padded.
    pub open spec fn denotes(self, text: Seq<u8>) -> bool {
        &&& self.len as int == text.len()
        &&& forall|i: int|
            #![trigger self.bytes@[i]]
            0 <= i < 32 ==> self.bytes@[i] == if i < text.len() {
                text[i]
            } else {
                0u8
            }
    }
}

/// One step of an optional yield ladder: investors who commit to at least
/// `min_lock_secs` of lock earn `yield_bps`.
#[derive(Clone, Copy, Debug, PartialEq, Eq, Structural)]
pub struct YieldTier {
    pub min_lock_secs: u64,
    pub yield_bps: i64,
}

/// The core escrow record.
#[derive(Clone, Copy, Debug, PartialEq, Eq)]
pub struct InvoiceEscrow {
    pub invoice_id: Label,
    pub admin: Addr,
    pub sme_address: Addr,
    pub amount: i128,
    pub funding_target: i128,
    pub funded_amount: i128,
    pub yield_bps: i64,
    pub maturity: u64,
    pub status: u32,
}

/// Immutable record of the moment funding closed; its `total_principal` is
/// the pro-rata denominator.
#[derive(Clone, Copy, Debug, PartialEq, Eq, Structural)]
pub struct FundingCloseSnapshot {
    pub total_principal: i128,
    pub funding_target: i128,
    pub closed_at_ledger_timestamp: u64,
    pub closed_at_ledger_sequence: u32,
}

/// Metadata-only record of collateral the SME says it has committed.
#[derive(Clone, Copy, Debug, PartialEq, Eq)]
pub struct SmeCollateralCommitment {
    pub asset: Label,
    pub amount: i128,
    pub recorded_at: u64,
}

/// Everything the escrow keeps about one address.
#[derive(Clone, Copy, Debug, PartialEq, Eq, Structural)]
pub struct InvestorRecord {
    /// Principal still owed to (or held for) the investor.
    pub contribution: i128,
    /// Rate chosen by a committed first deposit; `None` means the base rate.
    pub effective_yield_bps: Option<i64>,
    /// Ledger time before which the investor may not claim; 0 when unlocked.
    pub claim_not_before: u64,
    pub claimed: bool,
    pub refunded: bool,
    pub allowlisted: bool,
}

impl InvestorRecord {
    /// The record of an address the escrow has never seen.
    pub open spec fn empty() -> InvestorRecord {
        InvestorRecord {
            contribution: 0,
            effective_yield_bps: None,
            claim_not_before: 0,
            claimed: false,
            refunded: false,
            allowlisted: false,
        }
    }

    pub fn new_empty() -> (r: InvestorRecord)
        ensures
            r == InvestorRecord::empty(),
    {
        InvestorRecord {
            contribution: 0,
            effective_yield_bps: None,
            claim_not_before: 0,
            claimed: false,
            refunded: false,
            allowlisted: false,
        }
    }
}

/// A token movement out of escrow custody that the host must perform.
#[derive(Clone, Copy, Debug, PartialEq, Eq, Structural)]
pub struct Payment {
    pub recipient: Addr,
    pub amount: i128,
}

} // verus!
