use vstd::prelude::*;

use crate::book::{
    contributions_nonneg, keys_unique, lookup, total_contributions, BookEntry, InvestorBook,
};
use crate::tiers::tiers_valid;
use crate::types::{
    Addr, FundingCloseSnapshot, InvestorRecord, InvoiceEscrow, Label, SmeCollateralCommitment,
    YieldTier, MAX_YIELD_BPS, STATUS_CANCELLED, STATUS_FUNDED, STATUS_OPEN, STATUS_SETTLED,
    STATUS_WITHDRAWN,
};

verus! {

/// Observable notifications, one list per successful call.
#[derive(Clone, Copy, Debug, PartialEq, Eq)]
pub enum EscrowEvent {
    EscrowInitialized { invoice_id: Label, admin: Addr, sme: Addr, amount: i128 },
    EscrowFunded {
        invoice_id: Label,
        investor: Addr,
        amount: i128,
        funded_amount: i128,
        status: u32,
        effective_yield_bps: i64,
        tier_lock_secs: u64,
    },
    EscrowSettled { invoice_id: Label, funded_amount: i128, yield_bps: i64, maturity: u64 },
    SmeWithdrew { invoice_id: Label, amount: i128, recipient: Addr },
    InvestorPayoutClaimed { invoice_id: Label, investor: Addr, amount: i128 },
    FundingCancelled { invoice_id: Label, funded_amount: i128 },
    InvestorRefunded { invoice_id: Label, investor: Addr, amount: i128 },
    TreasuryDustSwept { invoice_id: Label, treasury: Addr, amount: i128 },
    LegalHoldChanged { invoice_id: Label, active: u32 },
    AdminProposed { invoice_id: Label, current_admin: Addr, pending_admin: Addr },
    AdminTransferred { invoice_id: Label, new_admin: Addr },
    AdminProposalCancelled { invoice_id: Label, cancelled_admin: Addr },
    FundingTargetUpdated { invoice_id: Label, old_target: i128, new_target: i128 },
    MaturityUpdated { invoice_id: Label, old_maturity: u64, new_maturity: u64 },
    InvestorCapLowered { invoice_id: Label, old_cap: u32, new_cap: u32 },
    BeneficiaryRotated { invoice_id: Label, prior_sme: Addr, new_sme: Addr },
    AllowlistEnabledChanged { invoice_id: Label, active: u32 },
    InvestorAllowlistChanged { invoice_id: Label, investor: Addr, allowed: u32 },
    InvestorAllowlistBatchApplied { invoice_id: Label, batch_size: u32, allowed: u32 },
    RegistryRefRebound { invoice_id: Label, registry: Option<Addr> },
    CollateralRecorded { invoice_id: Label, amount: i128, prior_amount: i128 },
    PrimaryAttestationBound { invoice_id: Label, digest: [u8; 32] },
    AttestationAppended { invoice_id: Label, index: u32, digest: [u8; 32] },
}

/// The whole escrow: one invoice, its configuration, per-address records
/// and the events of the last successful call.
pub struct EscrowContract {
    pub escrow: Option<InvoiceEscrow>,
    pub version: u32,
    pub legal_hold: bool,
    pub pending_admin: Option<Addr>,
    pub funding_token: Option<Addr>,
    pub treasury: Option<Addr>,
    pub registry: Option<Addr>,
    pub yield_tiers: Vec<YieldTier>,
    pub min_contribution: Option<i128>,
    pub max_unique_investors: Option<u32>,
    pub max_per_investor: Option<i128>,
    pub allowlist_active: bool,
    pub book: InvestorBook,
    pub unique_funder_count: u32,
    pub funding_close_snapshot: Option<FundingCloseSnapshot>,
    pub distributed_principal: i128,
    pub collateral: Option<SmeCollateralCommitment>,
    pub primary_attestation: Option<[u8; 32]>,
    pub attestation_log: Vec<[u8; 32]>,
    pub events: Vec<EscrowEvent>,
}

/// The mathematical model of an [`EscrowContract`].
pub struct EscrowState {
    pub escrow: Option<InvoiceEscrow>,
    pub version: u32,
    pub legal_hold: bool,
    pub pending_admin: Option<Addr>,
    pub funding_token: Option<Addr>,
    pub treasury: Option<Addr>,
    pub registry: Option<Addr>,
    pub yield_tiers: Seq<YieldTier>,
    pub min_contribution: Option<i128>,
    pub max_unique_investors: Option<u32>,
    pub max_per_investor: Option<i128>,
    pub allowlist_active: bool,
    pub book: Seq<BookEntry>,
    pub unique_funder_count: u32,
    pub funding_close_snapshot: Option<FundingCloseSnapshot>,
    pub distributed_principal: i128,
    pub collateral: Option<SmeCollateralCommitment>,
    pub primary_attestation: Option<[u8; 32]>,
    pub attestation_log: Seq<[u8; 32]>,
    pub events: Seq<EscrowEvent>,
}

impl View for EscrowContract {
    type V = EscrowState;

    open spec fn view(&self) -> EscrowState {
        EscrowState {
            escrow: self.escrow,
            version: self.version,
            legal_hold: self.legal_hold,
            pending_admin: self.pending_admin,
            funding_token: self.funding_token,
            treasury: self.treasury,
            registry: self.registry,
            yield_tiers: self.yield_tiers@,
            min_contribution: self.min_contribution,
            max_unique_investors: self.max_unique_investors,
            max_per_investor: self.max_per_investor,
            allowlist_active: self.allowlist_active,
            book: self.book@,
            unique_funder_count: self.unique_funder_count,
            funding_close_snapshot: self.funding_close_snapshot,
            distributed_principal: self.distributed_principal,
            collateral: self.collateral,
            primary_attestation: self.primary_attestation,
            attestation_log: self.attestation_log@,
            events: self.events@,
        }
    }
}

/// Whether funding has closed in a state of this status.
pub open spec fn status_after_close(status: u32) -> bool {
    status == STATUS_FUNDED || status == STATUS_SETTLED || status == STATUS_WITHDRAWN
}

impl EscrowState {
    /// The record kept for `a`.
    pub open spec fn rec(self, a: Addr) -> InvestorRecord {
        lookup(self.book, a)
    }

    pub open spec fn esc(self) -> InvoiceEscrow {
        self.escrow.unwrap()
    }

    /// The rate that `a`'s payout uses: the committed tier rate, else the base rate.
    pub open spec fn resolved_yield(self, a: Addr) -> i64 {
        match self.rec(a).effective_yield_bps {
            Some(y) => y,
            None => self.esc().yield_bps,
        }
    }

    /// Principal that investors still hold a claim to, or that left custody.
    pub open spec fn principal_accounted(self) -> int {
        total_contributions(self.book) + self.distributed_principal
    }

    /// Every committed rate recorded in the book is a valid rate.
    pub open spec fn committed_yields_in_range(self) -> bool {
        forall|a: Addr|
            #![trigger lookup(self.book, a)]
            lookup(self.book, a).effective_yield_bps matches Some(y) ==> 0 <= y <= MAX_YIELD_BPS
    }

    /// The invariant of an initialised escrow.
    pub open spec fn escrow_wf(self) -> bool {
        let e = self.esc();
        &&& e.amount > 0
        &&& e.funding_target > 0
        &&& 0 <= e.yield_bps <= MAX_YIELD_BPS
        &&& e.status <= STATUS_CANCELLED
        &&& e.funded_amount >= 0
        &&& e.invoice_id.well_formed()
        &&& self.funding_token is Some
        &&& self.treasury is Some
        &&& tiers_valid(self.yield_tiers, e.yield_bps)
        &&& self.committed_yields_in_range()
        &&& (self.min_contribution matches Some(m) ==> m > 0)
        &&& (self.max_unique_investors matches Some(c) ==> c > 0)
        &&& (self.max_per_investor matches Some(c) ==> c > 0)
        // principal conservation
        &&& (e.status == STATUS_WITHDRAWN ==> total_contributions(self.book) == e.funded_amount
            && self.distributed_principal == e.funded_amount)
        &&& (e.status != STATUS_WITHDRAWN ==> self.principal_accounted() == e.funded_amount)
        &&& (e.status != STATUS_WITHDRAWN && e.status != STATUS_CANCELLED
            ==> self.distributed_principal == 0)
        // the close snapshot exists exactly once funding closed, and records it
        &&& (status_after_close(e.status) <==> self.funding_close_snapshot is Some)
        &&& (self.funding_close_snapshot matches Some(snap) ==> {
            &&& snap.total_principal == e.funded_amount
            &&& snap.funding_target == e.funding_target
            &&& e.funded_amount >= e.funding_target
        })
    }

    /// The invariant of every escrow.
    pub open spec fn wf(self) -> bool {
        &&& keys_unique(self.book)
        &&& contributions_nonneg(self.book)
        &&& self.distributed_principal >= 0
        &&& match self.escrow {
            None => self.book.len() == 0 && self.distributed_principal == 0
                && self.funding_close_snapshot is None,
            Some(_) => self.escrow_wf(),
        }
    }
}

impl EscrowContract {
    pub open spec fn wf(&self) -> bool {
        self@.wf()
    }

    /// A freshly deployed, uninitialised escrow.
    pub fn new() -> (c: EscrowContract)
        ensures
            c.wf(),
            c@.escrow is None,
            c@.version == 0,
            !c@.legal_hold,
            c@.pending_admin is None,
            c@.registry is None,
            c@.funding_token is None,
            c@.treasury is None,
            c@.yield_tiers.len() == 0,
            c@.min_contribution is None,
            c@.max_unique_investors is None,
            c@.max_per_investor is None,
            !c@.allowlist_active,
            c@.book.len() == 0,
            c@.unique_funder_count == 0,
            c@.funding_close_snapshot is None,
            c@.distributed_principal == 0,
            c@.collateral is None,
            c@.primary_attestation is None,
            c@.attestation_log.len() == 0,
            c@.events.len() == 0,
    {
        EscrowContract {
            escrow: None,
            version: 0,
            legal_hold: false,
            pending_admin: None,
            funding_token: None,
            treasury: None,
            registry: None,
            yield_tiers: Vec::new(),
            min_contribution: None,
            max_unique_investors: None,
            max_per_investor: None,
            allowlist_active: false,
            book: InvestorBook::new(),
            unique_funder_count: 0,
            funding_close_snapshot: None,
            distributed_principal: 0,
            collateral: None,
            primary_attestation: None,
            attestation_log: Vec::new(),
            events: Vec::new(),
        }
    }
}

} // verus!
