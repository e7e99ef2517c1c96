use vstd::prelude::*;

use crate::book::{lemma_book_set, lemma_lookup_le_total, book_set, lookup};
use crate::error::EscrowError;
use crate::state::{EscrowContract, EscrowEvent, EscrowState};
use crate::tiers::{effective_yield_for_commitment, lemma_select_tier_is_best, lemma_select_within, select_tier};
use crate::types::{
    Addr, FundingCloseSnapshot, InvestorRecord, InvoiceEscrow, MAX_YIELD_BPS, STATUS_FUNDED,
    STATUS_OPEN,
};

verus! {

/// Why a deposit of `amount` by `investor` is refused, checked in this
/// order. `commitment` is the lock of a committed first deposit, `None`
/// for a plain deposit.
pub open spec fn fund_error(
    s: EscrowState,
    investor: Addr,
    amount: i128,
    commitment: Option<u64>,
    now: u64,
) -> Option<EscrowError> {
    let prev = s.rec(investor).contribution;
    if s.escrow is None {
        Some(EscrowError::EscrowNotInitialized)
    } else if amount <= 0 {
        Some(EscrowError::FundingAmountNotPositive)
    } else if s.legal_hold {
        Some(EscrowError::LegalHoldBlocksFunding)
    } else if s.esc().status != STATUS_OPEN {
        Some(EscrowError::EscrowNotOpenForFunding)
    } else if s.allowlist_active && !s.rec(investor).allowlisted {
        Some(EscrowError::InvestorNotAllowlisted)
    } else if commitment is Some && prev > 0 {
        Some(EscrowError::TieredSecondDeposit)
    } else if s.min_contribution matches Some(m) && amount < m {
        Some(EscrowError::FundingBelowMinContribution)
    } else if prev + amount > i128::MAX {
        Some(EscrowError::InvestorContributionOverflow)
    } else if s.max_per_investor matches Some(c) && prev + amount > c {
        Some(EscrowError::InvestorContributionExceedsCap)
    } else if prev == 0 && ((s.max_unique_investors matches Some(c) && s.unique_funder_count >= c)
        || s.unique_funder_count == u32::MAX) {
        Some(EscrowError::UniqueInvestorCapReached)
    } else if s.esc().funded_amount + amount > i128::MAX {
        Some(EscrowError::FundedAmountOverflow)
    } else if commitment matches Some(lock) && lock > 0 && now + lock > u64::MAX {
        Some(EscrowError::InvestorClaimTimeOverflow)
    } else {
        None
    }
}

/// The investor's record after the deposit: principal grows by `amount`; a
/// committed first deposit also fixes the tier rate and, for a positive
/// lock, the earliest claim time.
pub open spec fn funded_record(
    s: EscrowState,
    investor: Addr,
    amount: i128,
    commitment: Option<u64>,
    now: u64,
) -> InvestorRecord {
    let r = s.rec(investor);
    match commitment {
        None => InvestorRecord { contribution: (r.contribution + amount) as i128, ..r },
        Some(lock) => InvestorRecord {
            contribution: (r.contribution + amount) as i128,
            effective_yield_bps: Some(select_tier(s.yield_tiers, s.esc().yield_bps, lock).0),
            claim_not_before: if lock > 0 {
                (now + lock) as u64
            } else {
                r.claim_not_before
            },
            ..r
        },
    }
}

/// The escrow after an accepted deposit. Reaching the target moves the
/// escrow to funded and writes the close snapshot.
pub open spec fn fund_post(
    s: EscrowState,
    investor: Addr,
    amount: i128,
    commitment: Option<u64>,
    now: u64,
    ledger_sequence: u32,
) -> EscrowState {
    let e = s.esc();
    let nf = (e.funded_amount + amount) as i128;
    let closes = nf >= e.funding_target;
    let status = if closes {
        STATUS_FUNDED
    } else {
        STATUS_OPEN
    };
    let nr = funded_record(s, investor, amount, commitment, now);
    let resolved = match nr.effective_yield_bps {
        Some(y) => y,
        None => e.yield_bps,
    };
    let tier_lock = match commitment {
        Some(lock) => select_tier(s.yield_tiers, e.yield_bps, lock).1,
        None => 0u64,
    };
    EscrowState {
        escrow: Some(InvoiceEscrow { funded_amount: nf, status, ..e }),
        book: book_set(s.book, investor, nr),
        unique_funder_count: if s.rec(investor).contribution == 0 {
            (s.unique_funder_count + 1) as u32
        } else {
            s.unique_funder_count
        },
        funding_close_snapshot: if closes {
            Some(
                FundingCloseSnapshot {
                    total_principal: nf,
                    funding_target: e.funding_target,
                    closed_at_ledger_timestamp: now,
                    closed_at_ledger_sequence: ledger_sequence,
                },
            )
        } else {
            s.funding_close_snapshot
        },
        events: seq![
            EscrowEvent::EscrowFunded {
                invoice_id: e.invoice_id,
                investor,
                amount,
                funded_amount: nf,
                status,
                effective_yield_bps: resolved,
                tier_lock_secs: tier_lock,
            },
        ],
        ..s
    }
}

impl EscrowContract {
    fn fund_leg(
        &mut self,
        investor: Addr,
        amount: i128,
        commitment: Option<u64>,
        now: u64,
        ledger_sequence: u32,
    ) -> (r: Result<InvoiceEscrow, EscrowError>)
        requires
            old(self).wf(),
        ensures
            final(self).wf(),
            match r {
                Ok(e) => {
                    &&& fund_error(old(self)@, investor, amount, commitment, now) is None
                    &&& final(self)@ == fund_post(
                        old(self)@,
                        investor,
                        amount,
                        commitment,
                        now,
                        ledger_sequence,
                    )
                    &&& final(self)@.escrow == Some(e)
                },
                Err(err) => {
                    &&& fund_error(old(self)@, investor, amount, commitment, now) == Some(err)
                    &&& final(self)@ == old(self)@
                },
            },
    {
        let ghost s = self@;
        let mut e = match self.escrow {
            Some(e) => e,
            None => return Err(EscrowError::EscrowNotInitialized),
        };
        if amount <= 0 {
            return Err(EscrowError::FundingAmountNotPositive);
        }
        if self.legal_hold {
            return Err(EscrowError::LegalHoldBlocksFunding);
        }
        if e.status != STATUS_OPEN {
            return Err(EscrowError::EscrowNotOpenForFunding);
        }
        let rec = self.book.get(investor);
        let prev = rec.contribution;
        if self.allowlist_active && !rec.allowlisted {
            return Err(EscrowError::InvestorNotAllowlisted);
        }
        if commitment.is_some() && prev > 0 {
            return Err(EscrowError::TieredSecondDeposit);
        }
        if let Some(m) = self.min_contribution {
            if amount < m {
                return Err(EscrowError::FundingBelowMinContribution);
            }
        }
        let new_contribution = match prev.checked_add(amount) {
            Some(v) => v,
            None => return Err(EscrowError::InvestorContributionOverflow),
        };
        if let Some(c) = self.max_per_investor {
            if new_contribution > c {
                return Err(EscrowError::InvestorContributionExceedsCap);
            }
        }
        if prev == 0 {
            if self.unique_funder_count == u32::MAX {
                return Err(EscrowError::UniqueInvestorCapReached);
            }
            if let Some(c) = self.max_unique_investors {
                if self.unique_funder_count >= c {
                    return Err(EscrowError::UniqueInvestorCapReached);
                }
            }
        }
        let new_funded = match e.funded_amount.checked_add(amount) {
            Some(v) => v,
            None => return Err(EscrowError::FundedAmountOverflow),
        };
        let mut nr = rec;
        nr.contribution = new_contribution;
        let mut tier_lock: u64 = 0;
        if let Some(lock) = commitment {
            let (y, tl) = effective_yield_for_commitment(&self.yield_tiers, e.yield_bps, lock);
            if lock > 0 {
                nr.claim_not_before = match now.checked_add(lock) {
                    Some(t) => t,
                    None => return Err(EscrowError::InvestorClaimTimeOverflow),
                };
            }
            nr.effective_yield_bps = Some(y);
            tier_lock = tl;
            proof {
                lemma_select_tier_is_best(self.yield_tiers@, e.yield_bps, lock);
                lemma_select_within(self.yield_tiers@, e.yield_bps, lock);
                if y != e.yield_bps {
                    let k = choose|k: int|
                        #![trigger self.yield_tiers@[k]]
                        0 <= k < self.yield_tiers@.len() && self.yield_tiers@[k].yield_bps == y;
                    assert(self.yield_tiers@[k].yield_bps <= MAX_YIELD_BPS);
                }
            }
        }
        assert(nr == funded_record(s, investor, amount, commitment, now));
        let closes = new_funded >= e.funding_target;
        let status = if closes { STATUS_FUNDED } else { STATUS_OPEN };
        let resolved = match nr.effective_yield_bps {
            Some(y) => y,
            None => e.yield_bps,
        };
        proof {
            lemma_book_set(s.book, investor, nr);
            lemma_lookup_le_total(s.book, investor);
        }
        self.book.set(investor, nr);
        if prev == 0 {
            self.unique_funder_count = self.unique_funder_count + 1;
        }
        if closes {
            self.funding_close_snapshot = Some(
                FundingCloseSnapshot {
                    total_principal: new_funded,
                    funding_target: e.funding_target,
                    closed_at_ledger_timestamp: now,
                    closed_at_ledger_sequence: ledger_sequence,
                },
            );
        }
        e.funded_amount = new_funded;
        e.status = status;
        self.escrow = Some(e);
        let ev = EscrowEvent::EscrowFunded {
            invoice_id: e.invoice_id,
            investor,
            amount,
            funded_amount: new_funded,
            status,
            effective_yield_bps: resolved,
            tier_lock_secs: tier_lock,
        };
        self.events = vec![ev];
        assert(self@.events =~= seq![ev]);
        Ok(e)
    }

    /// Records a deposit of `amount` from `investor` at ledger time `now`.
    /// A first deposit earns the base rate; a follow-on deposit keeps the
    /// rate and claim lock chosen by the first. Authorised by `investor`.
    pub fn fund(&mut self, investor: Addr, amount: i128, now: u64, ledger_sequence: u32) -> (r:
        Result<InvoiceEscrow, EscrowError>)
        requires
            old(self).wf(),
        ensures
            final(self).wf(),
            match r {
                Ok(e) => {
                    &&& fund_error(old(self)@, investor, amount, None, now) is None
                    &&& final(self)@ == fund_post(
                        old(self)@,
                        investor,
                        amount,
                        None,
                        now,
                        ledger_sequence,
                    )
                    &&& final(self)@.escrow == Some(e)
                },
                Err(err) => {
                    &&& fund_error(old(self)@, investor, amount, None, now) == Some(err)
                    &&& final(self)@ == old(self)@
                },
            },
    {
        self.fund_leg(investor, amount, None, now, ledger_sequence)
    }

    /// Records a committed first deposit: the investor locks the claim for
    /// `committed_lock_secs` and earns the best tier that lock meets. Only
    /// an investor without principal may commit. Authorised by `investor`.
    pub fn fund_with_commitment(
        &mut self,
        investor: Addr,
        amount: i128,
        committed_lock_secs: u64,
        now: u64,
        ledger_sequence: u32,
    ) -> (r: Result<InvoiceEscrow, EscrowError>)
        requires
            old(self).wf(),
        ensures
            final(self).wf(),
            match r {
                Ok(e) => {
                    &&& fund_error(old(self)@, investor, amount, Some(committed_lock_secs), now)
                        is None
                    &&& final(self)@ == fund_post(
                        old(self)@,
                        investor,
                        amount,
                        Some(committed_lock_secs),
                        now,
                        ledger_sequence,
                    )
                    &&& final(self)@.escrow == Some(e)
                },
                Err(err) => {
                    &&& fund_error(old(self)@, investor, amount, Some(committed_lock_secs), now)
                        == Some(err)
                    &&& final(self)@ == old(self)@
                },
            },
    {
        self.fund_leg(investor, amount, Some(committed_lock_secs), now, ledger_sequence)
    }
}

} // verus!
