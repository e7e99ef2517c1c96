use vstd::prelude::*;

use crate::book::{book_set, lemma_book_set, lemma_lookup_le_total, total_contributions};
use crate::error::EscrowError;
use crate::payout::{calculate_principal_plus_yield, payout_overflows, principal_plus_yield};
use crate::state::{EscrowContract, EscrowEvent, EscrowState};
use crate::types::{
    Addr, InvestorRecord, InvoiceEscrow, Payment, MAX_DUST_SWEEP_AMOUNT, MAX_YIELD_BPS,
    STATUS_CANCELLED, STATUS_FUNDED, STATUS_OPEN, STATUS_SETTLED, STATUS_WITHDRAWN,
};

verus! {

/// What a payout claim came to.
#[derive(Clone, Copy, Debug, PartialEq, Eq, Structural)]
pub enum ClaimOutcome {
    /// The investor had already claimed: nothing changes and nothing is paid.
    AlreadyClaimed,
    /// The claim is recorded and this payment is owed to the investor.
    Paid(Payment),
}

// ---------------------------------------------------------------- settle

pub open spec fn settle_error(s: EscrowState, now: u64) -> Option<EscrowError> {
    if s.escrow is None {
        Some(EscrowError::EscrowNotInitialized)
    } else if s.legal_hold {
        Some(EscrowError::LegalHoldBlocksSettlement)
    } else if s.esc().status != STATUS_FUNDED {
        Some(EscrowError::SettlementNotFunded)
    } else if now < s.esc().maturity {
        Some(EscrowError::MaturityNotReached)
    } else {
        None
    }
}

pub open spec fn settle_post(s: EscrowState) -> EscrowState {
    let e = s.esc();
    EscrowState {
        escrow: Some(InvoiceEscrow { status: STATUS_SETTLED, ..e }),
        events: seq![
            EscrowEvent::EscrowSettled {
                invoice_id: e.invoice_id,
                funded_amount: e.funded_amount,
                yield_bps: e.yield_bps,
                maturity: e.maturity,
            },
        ],
        ..s
    }
}

// ---------------------------------------------------------------- withdraw

pub open spec fn withdraw_error(s: EscrowState, contract_balance: i128) -> Option<EscrowError> {
    if s.escrow is None {
        Some(EscrowError::EscrowNotInitialized)
    } else if s.legal_hold {
        Some(EscrowError::LegalHoldBlocksWithdrawal)
    } else if s.esc().status != STATUS_FUNDED {
        Some(EscrowError::WithdrawalNotFunded)
    } else if contract_balance < s.esc().funded_amount {
        Some(EscrowError::InsufficientContractBalance)
    } else {
        None
    }
}

pub open spec fn withdraw_post(s: EscrowState) -> EscrowState {
    let e = s.esc();
    EscrowState {
        escrow: Some(InvoiceEscrow { status: STATUS_WITHDRAWN, ..e }),
        distributed_principal: (s.distributed_principal + e.funded_amount) as i128,
        events: seq![
            EscrowEvent::SmeWithdrew {
                invoice_id: e.invoice_id,
                amount: e.funded_amount,
                recipient: e.sme_address,
            },
        ],
        ..s
    }
}

// ---------------------------------------------------------------- payouts

/// The gross payout `compute_investor_payout` reports for `a`: zero before
/// funding closed, else principal plus yield at the investor's resolved rate.
pub open spec fn payout_result(s: EscrowState, a: Addr) -> Result<i128, EscrowError> {
    let c = s.rec(a).contribution;
    let y = s.resolved_yield(a);
    if s.escrow is None {
        Err(EscrowError::EscrowNotInitialized)
    } else if s.funding_close_snapshot is None || s.funding_close_snapshot.unwrap().total_principal
        <= 0 {
        Ok(0)
    } else if payout_overflows(c as int, y as int) {
        Err(EscrowError::ComputePayoutArithmeticOverflow)
    } else {
        Ok(principal_plus_yield(c as int, y as int) as i128)
    }
}

pub open spec fn claim_error(s: EscrowState, investor: Addr, now: u64) -> Option<EscrowError> {
    let r = s.rec(investor);
    if s.escrow is None {
        Some(EscrowError::EscrowNotInitialized)
    } else if s.legal_hold {
        Some(EscrowError::LegalHoldBlocksInvestorClaims)
    } else if s.esc().status != STATUS_SETTLED {
        Some(EscrowError::InvestorClaimNotSettled)
    } else if r.contribution == 0 {
        Some(EscrowError::NoContributionToClaim)
    } else if r.claimed {
        None
    } else if now < r.claim_not_before {
        Some(EscrowError::InvestorCommitmentLockNotExpired)
    } else if payout_result(s, investor) is Err {
        Some(payout_result(s, investor)->Err_0)
    } else if payout_result(s, investor)->Ok_0 == 0 {
        Some(EscrowError::PayoutZero)
    } else {
        None
    }
}

pub open spec fn claim_post(s: EscrowState, investor: Addr) -> EscrowState {
    let r = s.rec(investor);
    if r.claimed {
        EscrowState { events: Seq::empty(), ..s }
    } else {
        EscrowState {
            book: book_set(s.book, investor, InvestorRecord { claimed: true, ..r }),
            events: seq![
                EscrowEvent::InvestorPayoutClaimed {
                    invoice_id: s.esc().invoice_id,
                    investor,
                    amount: payout_result(s, investor)->Ok_0,
                },
            ],
            ..s
        }
    }
}

pub open spec fn claim_outcome(s: EscrowState, investor: Addr) -> ClaimOutcome {
    if s.rec(investor).claimed {
        ClaimOutcome::AlreadyClaimed
    } else {
        ClaimOutcome::Paid(
            Payment { recipient: investor, amount: payout_result(s, investor)->Ok_0 },
        )
    }
}

// ---------------------------------------------------------------- cancel / refund

pub open spec fn cancel_error(s: EscrowState) -> Option<EscrowError> {
    if s.escrow is None {
        Some(EscrowError::EscrowNotInitialized)
    } else if s.legal_hold {
        Some(EscrowError::LegalHoldBlocksCancelFunding)
    } else if s.esc().status != STATUS_OPEN {
        Some(EscrowError::CancelFundingNotOpen)
    } else {
        None
    }
}

pub open spec fn cancel_post(s: EscrowState) -> EscrowState {
    let e = s.esc();
    EscrowState {
        escrow: Some(InvoiceEscrow { status: STATUS_CANCELLED, ..e }),
        events: seq![
            EscrowEvent::FundingCancelled {
                invoice_id: e.invoice_id,
                funded_amount: e.funded_amount,
            },
        ],
        ..s
    }
}

pub open spec fn refund_error(s: EscrowState, investor: Addr) -> Option<EscrowError> {
    if s.escrow is None {
        Some(EscrowError::EscrowNotInitialized)
    } else if s.esc().status != STATUS_CANCELLED {
        Some(EscrowError::RefundNotCancelled)
    } else if s.rec(investor).contribution == 0 {
        Some(EscrowError::NoContributionToRefund)
    } else {
        None
    }
}

/// The principal leaves the investor's record before any token moves, so a
/// second refund finds nothing to return.
pub open spec fn refund_post(s: EscrowState, investor: Addr) -> EscrowState {
    let r = s.rec(investor);
    EscrowState {
        book: book_set(
            s.book,
            investor,
            InvestorRecord { contribution: 0, refunded: true, ..r },
        ),
        distributed_principal: (s.distributed_principal + r.contribution) as i128,
        events: seq![
            EscrowEvent::InvestorRefunded {
                invoice_id: s.esc().invoice_id,
                investor,
                amount: r.contribution,
            },
        ],
        ..s
    }
}

// ---------------------------------------------------------------- dust sweep

pub open spec fn is_terminal_status(status: u32) -> bool {
    status == STATUS_SETTLED || status == STATUS_WITHDRAWN || status == STATUS_CANCELLED
}

pub open spec fn min3(a: int, b: int, c: int) -> int {
    let ab = if a <= b {
        a
    } else {
        b
    };
    if ab <= c {
        ab
    } else {
        c
    }
}

/// The amount a sweep request moves: the request, capped by the balance
/// held and by the per-sweep limit.
pub open spec fn sweep_amount(requested: i128, contract_balance: i128) -> int {
    min3(requested as int, contract_balance as int, MAX_DUST_SWEEP_AMOUNT as int)
}

/// Principal the escrow still owes out of its balance.
pub open spec fn outstanding_principal(s: EscrowState) -> int {
    s.esc().funded_amount - s.distributed_principal
}

pub open spec fn sweep_error(s: EscrowState, requested: i128, contract_balance: i128) -> Option<
    EscrowError,
> {
    if s.escrow is None {
        Some(EscrowError::EscrowNotInitialized)
    } else if s.legal_hold {
        Some(EscrowError::LegalHoldBlocksTreasuryDustSweep)
    } else if requested <= 0 {
        Some(EscrowError::SweepAmountNotPositive)
    } else if !is_terminal_status(s.esc().status) {
        Some(EscrowError::DustSweepNotTerminal)
    } else if s.treasury is None {
        Some(EscrowError::TreasuryNotSet)
    } else if contract_balance <= 0 {
        Some(EscrowError::NoFundingTokenBalanceToSweep)
    } else if sweep_amount(requested, contract_balance) <= 0 {
        Some(EscrowError::EffectiveSweepAmountZero)
    } else if contract_balance - sweep_amount(requested, contract_balance) < outstanding_principal(
        s,
    ) {
        Some(EscrowError::SweepExceedsLiabilityFloor)
    } else {
        None
    }
}

pub open spec fn sweep_post(s: EscrowState, requested: i128, contract_balance: i128) -> EscrowState {
    EscrowState {
        events: seq![
            EscrowEvent::TreasuryDustSwept {
                invoice_id: s.esc().invoice_id,
                treasury: s.treasury.unwrap(),
                amount: sweep_amount(requested, contract_balance) as i128,
            },
        ],
        ..s
    }
}

impl EscrowContract {
    /// Marks a funded escrow settled once ledger time `now` reaches
    /// maturity (inclusive). Authorised by the SME.
    pub fn settle(&mut self, now: u64) -> (r: Result<InvoiceEscrow, EscrowError>)
        requires
            old(self).wf(),
        ensures
            final(self).wf(),
            match r {
                Ok(e) => settle_error(old(self)@, now) is None && final(self)@ == settle_post(
                    old(self)@,
                ) && final(self)@.escrow == Some(e),
                Err(err) => settle_error(old(self)@, now) == Some(err) && final(self)@ == old(self)@,
            },
    {
        let mut e = match self.escrow {
            Some(e) => e,
            None => return Err(EscrowError::EscrowNotInitialized),
        };
        if self.legal_hold {
            return Err(EscrowError::LegalHoldBlocksSettlement);
        }
        if e.status != STATUS_FUNDED {
            return Err(EscrowError::SettlementNotFunded);
        }
        if now < e.maturity {
            return Err(EscrowError::MaturityNotReached);
        }
        e.status = STATUS_SETTLED;
        self.escrow = Some(e);
        let ev = EscrowEvent::EscrowSettled {
            invoice_id: e.invoice_id,
            funded_amount: e.funded_amount,
            yield_bps: e.yield_bps,
            maturity: e.maturity,
        };
        self.events = vec![ev];
        assert(self@.events =~= seq![ev]);
        Ok(e)
    }

    /// Releases the funded principal to the SME; `contract_balance` is the
    /// escrow's funding-token balance read by the host. Returns the payment
    /// the host must make. Authorised by the SME.
    pub fn withdraw(&mut self, contract_balance: i128) -> (r: Result<Payment, EscrowError>)
        requires
            old(self).wf(),
        ensures
            final(self).wf(),
            match r {
                Ok(p) => {
                    &&& withdraw_error(old(self)@, contract_balance) is None
                    &&& final(self)@ == withdraw_post(old(self)@)
                    &&& p == Payment {
                        recipient: old(self)@.esc().sme_address,
                        amount: old(self)@.esc().funded_amount,
                    }
                    &&& p.amount > 0
                },
                Err(err) => withdraw_error(old(self)@, contract_balance) == Some(err) && final(self)@ == old(self)@,
            },
    {
        let mut e = match self.escrow {
            Some(e) => e,
            None => return Err(EscrowError::EscrowNotInitialized),
        };
        if self.legal_hold {
            return Err(EscrowError::LegalHoldBlocksWithdrawal);
        }
        if e.status != STATUS_FUNDED {
            return Err(EscrowError::WithdrawalNotFunded);
        }
        if contract_balance < e.funded_amount {
            return Err(EscrowError::InsufficientContractBalance);
        }
        e.status = STATUS_WITHDRAWN;
        self.escrow = Some(e);
        self.distributed_principal = self.distributed_principal + e.funded_amount;
        let ev = EscrowEvent::SmeWithdrew {
            invoice_id: e.invoice_id,
            amount: e.funded_amount,
            recipient: e.sme_address,
        };
        self.events = vec![ev];
        assert(self@.events =~= seq![ev]);
        Ok(Payment { recipient: e.sme_address, amount: e.funded_amount })
    }

    /// The gross payout owed to `investor` (see [`payout_result`]).
    pub fn compute_investor_payout(&self, investor: Addr) -> (r: Result<i128, EscrowError>)
        requires
            self.wf(),
        ensures
            r == payout_result(self@, investor),
    {
        let e = match self.escrow {
            Some(e) => e,
            None => return Err(EscrowError::EscrowNotInitialized),
        };
        match self.funding_close_snapshot {
            None => return Ok(0),
            Some(snap) => {
                if snap.total_principal <= 0 {
                    return Ok(0);
                }
            },
        }
        let rec = self.book.get(investor);
        let y = match rec.effective_yield_bps {
            Some(y) => y,
            None => e.yield_bps,
        };
        proof {
            lemma_lookup_le_total(self@.book, investor);
            assert(self@.committed_yields_in_range());
            assert(rec == crate::book::lookup(self@.book, investor));
        }
        calculate_principal_plus_yield(rec.contribution, y)
    }

    /// Records `investor`'s claim on a settled escrow at ledger time `now`
    /// and returns the payment owed; a repeated claim changes nothing.
    /// Authorised by `investor`.
    pub fn claim_investor_payout(&mut self, investor: Addr, now: u64) -> (r: Result<
        ClaimOutcome,
        EscrowError,
    >)
        requires
            old(self).wf(),
        ensures
            final(self).wf(),
            match r {
                Ok(o) => {
                    &&& claim_error(old(self)@, investor, now) is None
                    &&& final(self)@ == claim_post(old(self)@, investor)
                    &&& o == claim_outcome(old(self)@, investor)
                },
                Err(err) => claim_error(old(self)@, investor, now) == Some(err) && final(self)@
                    == old(self)@,
            },
    {
        let ghost s = self@;
        let e = match self.escrow {
            Some(e) => e,
            None => return Err(EscrowError::EscrowNotInitialized),
        };
        if self.legal_hold {
            return Err(EscrowError::LegalHoldBlocksInvestorClaims);
        }
        if e.status != STATUS_SETTLED {
            return Err(EscrowError::InvestorClaimNotSettled);
        }
        let rec = self.book.get(investor);
        if rec.contribution == 0 {
            return Err(EscrowError::NoContributionToClaim);
        }
        if rec.claimed {
            self.events = Vec::new();
            assert(self@.events =~= Seq::<EscrowEvent>::empty());
            return Ok(ClaimOutcome::AlreadyClaimed);
        }
        if now < rec.claim_not_before {
            return Err(EscrowError::InvestorCommitmentLockNotExpired);
        }
        let amount = match self.compute_investor_payout(investor) {
            Ok(a) => a,
            Err(err) => return Err(err),
        };
        if amount == 0 {
            return Err(EscrowError::PayoutZero);
        }
        let nr = InvestorRecord { claimed: true, ..rec };
        proof {
            lemma_book_set(s.book, investor, nr);
        }
        self.book.set(investor, nr);
        let ev = EscrowEvent::InvestorPayoutClaimed { invoice_id: e.invoice_id, investor, amount };
        self.events = vec![ev];
        assert(self@.events =~= seq![ev]);
        Ok(ClaimOutcome::Paid(Payment { recipient: investor, amount }))
    }

    /// Cancels an escrow that is still open, unlocking refunds. Authorised
    /// by the admin.
    pub fn cancel_funding(&mut self) -> (r: Result<InvoiceEscrow, EscrowError>)
        requires
            old(self).wf(),
        ensures
            final(self).wf(),
            match r {
                Ok(e) => cancel_error(old(self)@) is None && final(self)@ == cancel_post(
                    old(self)@,
                ) && final(self)@.escrow == Some(e),
                Err(err) => cancel_error(old(self)@) == Some(err) && final(self)@ == old(self)@,
            },
    {
        let mut e = match self.escrow {
            Some(e) => e,
            None => return Err(EscrowError::EscrowNotInitialized),
        };
        if self.legal_hold {
            return Err(EscrowError::LegalHoldBlocksCancelFunding);
        }
        if e.status != STATUS_OPEN {
            return Err(EscrowError::CancelFundingNotOpen);
        }
        e.status = STATUS_CANCELLED;
        self.escrow = Some(e);
        let ev = EscrowEvent::FundingCancelled {
            invoice_id: e.invoice_id,
            funded_amount: e.funded_amount,
        };
        self.events = vec![ev];
        assert(self@.events =~= seq![ev]);
        Ok(e)
    }

    /// Returns `investor`'s principal from a cancelled escrow and returns
    /// the payment the host must make. Authorised by `investor`.
    pub fn refund(&mut self, investor: Addr) -> (r: Result<Payment, EscrowError>)
        requires
            old(self).wf(),
        ensures
            final(self).wf(),
            match r {
                Ok(p) => {
                    &&& refund_error(old(self)@, investor) is None
                    &&& final(self)@ == refund_post(old(self)@, investor)
                    &&& p == Payment {
                        recipient: investor,
                        amount: old(self)@.rec(investor).contribution,
                    }
                    &&& p.amount > 0
                },
                Err(err) => refund_error(old(self)@, investor) == Some(err) && final(self)@
                    == old(self)@,
            },
    {
        let ghost s = self@;
        let e = match self.escrow {
            Some(e) => e,
            None => return Err(EscrowError::EscrowNotInitialized),
        };
        if e.status != STATUS_CANCELLED {
            return Err(EscrowError::RefundNotCancelled);
        }
        let rec = self.book.get(investor);
        let amount = rec.contribution;
        if amount == 0 {
            return Err(EscrowError::NoContributionToRefund);
        }
        let nr = InvestorRecord { contribution: 0, refunded: true, ..rec };
        proof {
            lemma_book_set(s.book, investor, nr);
            lemma_lookup_le_total(s.book, investor);
        }
        self.book.set(investor, nr);
        self.distributed_principal = self.distributed_principal + amount;
        let ev = EscrowEvent::InvestorRefunded { invoice_id: e.invoice_id, investor, amount };
        self.events = vec![ev];
        assert(self@.events =~= seq![ev]);
        Ok(Payment { recipient: investor, amount })
    }

    /// Sends stray funding-token dust to the treasury once the escrow is in
    /// a terminal state, never touching principal still owed.
    /// `contract_balance` is the escrow's funding-token balance read by the
    /// host. Authorised by the treasury.
    pub fn sweep_terminal_dust(&mut self, requested: i128, contract_balance: i128) -> (r: Result<
        Payment,
        EscrowError,
    >)
        requires
            old(self).wf(),
        ensures
            final(self).wf(),
            match r {
                Ok(p) => {
                    &&& sweep_error(old(self)@, requested, contract_balance) is None
                    &&& final(self)@ == sweep_post(old(self)@, requested, contract_balance)
                    &&& p == Payment {
                        recipient: old(self)@.treasury.unwrap(),
                        amount: sweep_amount(requested, contract_balance) as i128,
                    }
                },
                Err(err) => sweep_error(old(self)@, requested, contract_balance) == Some(err)
                    && final(self)@ == old(self)@,
            },
    {
        let e = match self.escrow {
            Some(e) => e,
            None => return Err(EscrowError::EscrowNotInitialized),
        };
        if self.legal_hold {
            return Err(EscrowError::LegalHoldBlocksTreasuryDustSweep);
        }
        if requested <= 0 {
            return Err(EscrowError::SweepAmountNotPositive);
        }
        if !(e.status == STATUS_SETTLED || e.status == STATUS_WITHDRAWN || e.status
            == STATUS_CANCELLED) {
            return Err(EscrowError::DustSweepNotTerminal);
        }
        let treasury = match self.treasury {
            Some(t) => t,
            None => return Err(EscrowError::TreasuryNotSet),
        };
        if contract_balance <= 0 {
            return Err(EscrowError::NoFundingTokenBalanceToSweep);
        }
        let mut amount = requested;
        if contract_balance < amount {
            amount = contract_balance;
        }
        if MAX_DUST_SWEEP_AMOUNT < amount {
            amount = MAX_DUST_SWEEP_AMOUNT;
        }
        if amount <= 0 {
            return Err(EscrowError::EffectiveSweepAmountZero);
        }
        let outstanding = e.funded_amount - self.distributed_principal;
        if contract_balance - amount < outstanding {
            return Err(EscrowError::SweepExceedsLiabilityFloor);
        }
        let ev = EscrowEvent::TreasuryDustSwept { invoice_id: e.invoice_id, treasury, amount };
        self.events = vec![ev];
        assert(self@.events =~= seq![ev]);
        Ok(Payment { recipient: treasury, amount })
    }
}

} // verus!
