use vstd::prelude::*;

use crate::error::EscrowError;
use crate::state::{EscrowContract, EscrowEvent};
use crate::types::{
    Addr, FundingCloseSnapshot, InvoiceEscrow, SmeCollateralCommitment, YieldTier,
};

verus! {

/// A one-call read model of the escrow.
#[derive(Clone, Copy, Debug, PartialEq, Eq)]
pub struct EscrowSummary {
    pub escrow: InvoiceEscrow,
    pub legal_hold: bool,
    pub funding_close_snapshot: Option<FundingCloseSnapshot>,
    pub unique_funder_count: u32,
    pub is_allowlist_active: bool,
    pub schema_version: u32,
    pub pending_admin: Option<Addr>,
}

impl EscrowContract {
    pub fn get_escrow(&self) -> (r: Result<InvoiceEscrow, EscrowError>)
        ensures
            r == match self@.escrow {
                Some(e) => Ok::<InvoiceEscrow, EscrowError>(e),
                None => Err(EscrowError::EscrowNotInitialized),
            },
    {
        match self.escrow {
            Some(e) => Ok(e),
            None => Err(EscrowError::EscrowNotInitialized),
        }
    }

    pub fn get_escrow_summary(&self) -> (r: Result<EscrowSummary, EscrowError>)
        ensures
            match r {
                Ok(sum) => self@.escrow == Some(sum.escrow) && sum.legal_hold == self@.legal_hold
                    && sum.funding_close_snapshot == self@.funding_close_snapshot
                    && sum.unique_funder_count == self@.unique_funder_count
                    && sum.is_allowlist_active == self@.allowlist_active && sum.schema_version
                    == self@.version && sum.pending_admin == self@.pending_admin,
                Err(e) => self@.escrow is None && e == EscrowError::EscrowNotInitialized,
            },
    {
        let e = match self.escrow {
            Some(e) => e,
            None => return Err(EscrowError::EscrowNotInitialized),
        };
        Ok(
            EscrowSummary {
                escrow: e,
                legal_hold: self.legal_hold,
                funding_close_snapshot: self.funding_close_snapshot,
                unique_funder_count: self.unique_funder_count,
                is_allowlist_active: self.allowlist_active,
                schema_version: self.version,
                pending_admin: self.pending_admin,
            },
        )
    }

    /// Principal currently recorded for `investor` (0 once refunded).
    pub fn get_contribution(&self, investor: Addr) -> (r: i128)
        requires
            self.wf(),
        ensures
            r == self@.rec(investor).contribution,
    {
        self.book.get(investor).contribution
    }

    pub fn get_legal_hold(&self) -> (r: bool)
        ensures
            r == self@.legal_hold,
    {
        self.legal_hold
    }

    pub fn get_pending_admin(&self) -> (r: Option<Addr>)
        ensures
            r == self@.pending_admin,
    {
        self.pending_admin
    }

    /// Stored schema version (0 before `init`).
    pub fn get_version(&self) -> (r: u32)
        ensures
            r == self@.version,
    {
        self.version
    }

    pub fn is_allowlist_active(&self) -> (r: bool)
        ensures
            r == self@.allowlist_active,
    {
        self.allowlist_active
    }

    pub fn is_investor_allowlisted(&self, investor: Addr) -> (r: bool)
        requires
            self.wf(),
        ensures
            r == self@.rec(investor).allowlisted,
    {
        self.book.get(investor).allowlisted
    }

    pub fn is_investor_claimed(&self, investor: Addr) -> (r: bool)
        requires
            self.wf(),
        ensures
            r == self@.rec(investor).claimed,
    {
        self.book.get(investor).claimed
    }

    pub fn is_investor_refunded(&self, investor: Addr) -> (r: bool)
        requires
            self.wf(),
        ensures
            r == self@.rec(investor).refunded,
    {
        self.book.get(investor).refunded
    }

    /// Principal that has left custody through refunds and SME withdrawal.
    pub fn get_distributed_principal(&self) -> (r: i128)
        ensures
            r == self@.distributed_principal,
    {
        self.distributed_principal
    }

    pub fn get_funding_close_snapshot(&self) -> (r: Option<FundingCloseSnapshot>)
        ensures
            r == self@.funding_close_snapshot,
    {
        self.funding_close_snapshot
    }

    /// The rate `investor`'s payout uses: its committed tier rate when it
    /// made a committed first deposit, else the base rate.
    pub fn get_effective_yield_bps(&self, investor: Addr) -> (r: Result<i64, EscrowError>)
        requires
            self.wf(),
        ensures
            match self@.escrow {
                Some(_) => r == Ok::<i64, EscrowError>(self@.resolved_yield(investor)),
                None => r == Err::<i64, EscrowError>(EscrowError::EscrowNotInitialized),
            },
    {
        let e = match self.escrow {
            Some(e) => e,
            None => return Err(EscrowError::EscrowNotInitialized),
        };
        match self.book.get(investor).effective_yield_bps {
            Some(y) => Ok(y),
            None => Ok(e.yield_bps),
        }
    }

    /// Same value as [`EscrowContract::get_effective_yield_bps`].
    pub fn get_investor_yield_bps(&self, investor: Addr) -> (r: Result<i64, EscrowError>)
        requires
            self.wf(),
        ensures
            match self@.escrow {
                Some(_) => r == Ok::<i64, EscrowError>(self@.resolved_yield(investor)),
                None => r == Err::<i64, EscrowError>(EscrowError::EscrowNotInitialized),
            },
    {
        self.get_effective_yield_bps(investor)
    }

    /// Ledger time before which `investor` may not claim (0: no lock).
    pub fn get_investor_claim_not_before(&self, investor: Addr) -> (r: u64)
        requires
            self.wf(),
        ensures
            r == self@.rec(investor).claim_not_before,
    {
        self.book.get(investor).claim_not_before
    }

    pub fn get_registry_ref(&self) -> (r: Option<Addr>)
        ensures
            r == self@.registry,
    {
        self.registry
    }

    pub fn get_sme_collateral_commitment(&self) -> (r: Option<SmeCollateralCommitment>)
        ensures
            r == self@.collateral,
    {
        self.collateral
    }

    pub fn get_min_contribution(&self) -> (r: Option<i128>)
        ensures
            r == self@.min_contribution,
    {
        self.min_contribution
    }

    pub fn get_max_unique_investors_cap(&self) -> (r: Option<u32>)
        ensures
            r == self@.max_unique_investors,
    {
        self.max_unique_investors
    }

    pub fn get_max_per_investor_cap(&self) -> (r: Option<i128>)
        ensures
            r == self@.max_per_investor,
    {
        self.max_per_investor
    }

    /// Number of distinct addresses that have deposited.
    pub fn get_unique_funder_count(&self) -> (r: u32)
        ensures
            r == self@.unique_funder_count,
    {
        self.unique_funder_count
    }

    pub fn get_funding_token(&self) -> (r: Result<Addr, EscrowError>)
        ensures
            r == match self@.funding_token {
                Some(t) => Ok::<Addr, EscrowError>(t),
                None => Err(EscrowError::FundingTokenNotSet),
            },
    {
        match self.funding_token {
            Some(t) => Ok(t),
            None => Err(EscrowError::FundingTokenNotSet),
        }
    }

    pub fn get_treasury(&self) -> (r: Result<Addr, EscrowError>)
        ensures
            r == match self@.treasury {
                Some(t) => Ok::<Addr, EscrowError>(t),
                None => Err(EscrowError::TreasuryNotSet),
            },
    {
        match self.treasury {
            Some(t) => Ok(t),
            None => Err(EscrowError::TreasuryNotSet),
        }
    }

    /// The yield ladder fixed at `init`.
    pub fn get_yield_tiers(&self) -> (r: Vec<YieldTier>)
        ensures
            r@ == self@.yield_tiers,
    {
        let n = self.yield_tiers.len();
        let mut out: Vec<YieldTier> = Vec::new();
        let mut i: usize = 0;
        while i < n
            invariant
                n == self.yield_tiers@.len(),
                0 <= i <= n,
                out@ =~= self.yield_tiers@.take(i as int),
            decreases n - i,
        {
            out.push(self.yield_tiers[i]);
            i = i + 1;
        }
        assert(self.yield_tiers@.take(n as int) =~= self.yield_tiers@);
        out
    }

    pub fn get_primary_attestation_hash(&self) -> (r: Option<[u8; 32]>)
        ensures
            r == self@.primary_attestation,
    {
        self.primary_attestation
    }

    /// Number of digests in the attestation log.
    pub fn get_attestation_append_count(&self) -> (r: usize)
        ensures
            r == self@.attestation_log.len(),
    {
        self.attestation_log.len()
    }

    /// The `index`-th digest of the attestation log, if there is one.
    pub fn get_attestation_digest(&self, index: usize) -> (r: Option<[u8; 32]>)
        ensures
            index < self@.attestation_log.len() ==> r == Some(self@.attestation_log[index as int]),
            index >= self@.attestation_log.len() ==> r is None,
    {
        if index < self.attestation_log.len() {
            Some(self.attestation_log[index])
        } else {
            None
        }
    }

    /// Events emitted by the last successful call.
    pub fn get_events(&self) -> (r: &Vec<EscrowEvent>)
        ensures
            r@ == self@.events,
    {
        &self.events
    }
}

} // verus!
