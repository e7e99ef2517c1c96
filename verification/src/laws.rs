use vstd::prelude::*;

use crate::admin::{
    accept_admin_post, cancel_pending_admin_post, legal_hold_post, lower_cap_post, maturity_post,
    pending_admin_error, propose_admin_error, propose_admin_post, rotate_post, target_post,
};
use crate::allowlist::{allowlist_active_post, allowlist_one_post, batch_post};
use crate::init::init_error;
use crate::metadata::{append_post, bind_post, collateral_post, registry_post};
use crate::authorization::{required_authorizers, EscrowCall};
use crate::book::{lemma_book_set, lemma_lookup_le_total, lookup, total_contributions};
use crate::error::EscrowError;
use crate::funding::{fund_error, fund_post};
use crate::settlement::{
    cancel_error, cancel_post, claim_error, claim_outcome, claim_post, outstanding_principal,
    payout_result, refund_error, refund_post, settle_error, settle_post, sweep_amount, sweep_error,
    sweep_post, withdraw_error, withdraw_post,
    ClaimOutcome,
};
use crate::admin::rotate_error;
use crate::payout::{
    lemma_payout_between_principal_and_double, lemma_payout_monotone_in_yield, principal_plus_yield,
};
use crate::tiers::{lemma_select_tier_monotone, lemma_select_within, select_tier, tiers_valid};
use crate::state::EscrowState;
use crate::types::{
    Addr, InvestorRecord, Label, YieldTier, MAX_YIELD_BPS, STATUS_CANCELLED, STATUS_FUNDED,
    STATUS_OPEN, STATUS_SETTLED, STATUS_WITHDRAWN,
};

verus! {

/// Principal is conserved: until the SME withdraws, what investors still
/// hold plus what was refunded equals the funded amount; a withdrawal
/// releases exactly the funded amount; and while funds are in custody the
/// contributions add up to the close snapshot's total.
pub proof fn law_principal_conservation(s: EscrowState)
    requires
        s.wf(),
        s.escrow is Some,
    ensures
        s.esc().status != STATUS_WITHDRAWN ==> total_contributions(s.book)
            + s.distributed_principal == s.esc().funded_amount,
        s.esc().status == STATUS_WITHDRAWN ==> s.distributed_principal == s.esc().funded_amount,
        0 <= s.distributed_principal <= s.esc().funded_amount,
        (s.esc().status == STATUS_FUNDED || s.esc().status == STATUS_SETTLED)
            ==> total_contributions(s.book) == s.funding_close_snapshot.unwrap().total_principal,
{
    crate::book::lemma_total_nonneg(s.book);
}

/// Funding closes once: after the close snapshot is written every deposit
/// is refused, so the snapshot (the pro-rata denominator) never changes.
pub proof fn law_no_deposit_after_close(
    s: EscrowState,
    investor: Addr,
    amount: i128,
    commitment: Option<u64>,
    now: u64,
)
    requires
        s.wf(),
        s.funding_close_snapshot is Some,
    ensures
        fund_error(s, investor, amount, commitment, now) is Some,
{
}

/// A deposit that reaches the target closes funding and records the
/// funded total; one that does not leaves the escrow open.
pub proof fn law_deposit_closes_at_target(
    s: EscrowState,
    investor: Addr,
    amount: i128,
    commitment: Option<u64>,
    now: u64,
    seq: u32,
)
    requires
        s.wf(),
        fund_error(s, investor, amount, commitment, now) is None,
    ensures
        ({
            let t = fund_post(s, investor, amount, commitment, now, seq);
            &&& t.esc().funded_amount == s.esc().funded_amount + amount
            &&& t.rec(investor).contribution == s.rec(investor).contribution + amount
            &&& (t.esc().funded_amount >= s.esc().funding_target ==> t.esc().status
                == STATUS_FUNDED && t.funding_close_snapshot.unwrap().total_principal
                == t.esc().funded_amount)
            &&& (t.esc().funded_amount < s.esc().funding_target ==> t.esc().status == s.esc().status)
            &&& forall|b: Addr| b != investor ==> #[trigger] t.rec(b) == s.rec(b)
        }),
{
    let t = fund_post(s, investor, amount, commitment, now, seq);
    let nr = crate::funding::funded_record(s, investor, amount, commitment, now);
    lemma_book_set(s.book, investor, nr);
    assert forall|b: Addr| b != investor implies #[trigger] t.rec(b) == s.rec(b) by {
        assert(lookup(t.book, b) == lookup(s.book, b));
    }
}

/// The rate and claim lock chosen by a first deposit are final: once an
/// investor holds principal, no deposit may re-select a tier, and a
/// follow-on plain deposit keeps both.
pub proof fn law_tier_choice_is_final(
    s: EscrowState,
    investor: Addr,
    amount: i128,
    commitment: Option<u64>,
    now: u64,
    seq: u32,
)
    requires
        s.wf(),
        s.rec(investor).contribution > 0,
        fund_error(s, investor, amount, commitment, now) is None,
    ensures
        commitment is None,
        fund_post(s, investor, amount, commitment, now, seq).rec(investor).effective_yield_bps
            == s.rec(investor).effective_yield_bps,
        fund_post(s, investor, amount, commitment, now, seq).rec(investor).claim_not_before
            == s.rec(investor).claim_not_before,
        fund_post(s, investor, amount, commitment, now, seq).resolved_yield(investor)
            == s.resolved_yield(investor),
{
    let nr = crate::funding::funded_record(s, investor, amount, commitment, now);
    lemma_book_set(s.book, investor, nr);
}

/// Claiming is idempotent: after a paid claim, claiming again succeeds
/// without paying anything or changing the records.
pub proof fn law_claim_is_idempotent(s: EscrowState, investor: Addr, now: u64, later: u64)
    requires
        s.wf(),
        claim_error(s, investor, now) is None,
        !s.rec(investor).claimed,
    ensures
        ({
            let t = claim_post(s, investor);
            &&& t.rec(investor).claimed
            &&& claim_error(t, investor, later) is None
            &&& claim_outcome(t, investor) == ClaimOutcome::AlreadyClaimed
            &&& claim_post(t, investor).book == t.book
        }),
{
    let r = s.rec(investor);
    lemma_book_set(s.book, investor, InvestorRecord { claimed: true, ..r });
}

/// A claim pays principal plus yield at the investor's resolved rate:
/// never less than the principal, never more than twice it.
pub proof fn law_claim_pays_principal_plus_yield(s: EscrowState, investor: Addr, now: u64)
    requires
        s.wf(),
        claim_error(s, investor, now) is None,
        !s.rec(investor).claimed,
    ensures
        claim_outcome(s, investor) matches ClaimOutcome::Paid(p) && p.recipient == investor
            && p.amount == principal_plus_yield(
            s.rec(investor).contribution as int,
            s.resolved_yield(investor) as int,
        ) && s.rec(investor).contribution <= p.amount <= 2 * s.rec(investor).contribution,
{
    lemma_lookup_le_total(s.book, investor);
    assert(s.committed_yields_in_range());
    let y = s.resolved_yield(investor);
    assert(0 <= y <= MAX_YIELD_BPS);
    lemma_payout_between_principal_and_double(s.rec(investor).contribution as int, y as int);
}

/// A refund returns exactly the investor's principal, and a second refund
/// finds nothing left to return.
pub proof fn law_refund_once(s: EscrowState, investor: Addr)
    requires
        s.wf(),
        refund_error(s, investor) is None,
    ensures
        ({
            let t = refund_post(s, investor);
            &&& t.rec(investor).contribution == 0
            &&& t.rec(investor).refunded
            &&& t.distributed_principal == s.distributed_principal + s.rec(investor).contribution
            &&& refund_error(t, investor) == Some(EscrowError::NoContributionToRefund)
        }),
{
    let r = s.rec(investor);
    lemma_lookup_le_total(s.book, investor);
    lemma_book_set(s.book, investor, InvestorRecord { contribution: 0, refunded: true, ..r });
}

/// A dust sweep never dips into principal still owed: what stays in
/// custody covers every unreturned contribution.
pub proof fn law_sweep_respects_liability_floor(
    s: EscrowState,
    requested: i128,
    contract_balance: i128,
)
    requires
        s.wf(),
        sweep_error(s, requested, contract_balance) is None,
    ensures
        contract_balance - sweep_amount(requested, contract_balance) >= outstanding_principal(s),
        s.esc().status != STATUS_WITHDRAWN ==> contract_balance - sweep_amount(
            requested,
            contract_balance,
        ) >= total_contributions(s.book),
        0 < sweep_amount(requested, contract_balance) <= requested,
{
}

/// While the legal hold is on, deposits, settlement, withdrawal, investor
/// claims, cancellation, dust sweeps and beneficiary rotation are refused.
/// Refunds of a cancelled escrow are not held back.
pub proof fn law_legal_hold_freezes_value(
    s: EscrowState,
    investor: Addr,
    amount: i128,
    commitment: Option<u64>,
    now: u64,
    contract_balance: i128,
    new_sme: Addr,
)
    requires
        s.wf(),
        s.escrow is Some,
        s.legal_hold,
    ensures
        fund_error(s, investor, amount, commitment, now) is Some,
        settle_error(s, now) == Some(EscrowError::LegalHoldBlocksSettlement),
        withdraw_error(s, contract_balance) == Some(EscrowError::LegalHoldBlocksWithdrawal),
        claim_error(s, investor, now) == Some(EscrowError::LegalHoldBlocksInvestorClaims),
        cancel_error(s) == Some(EscrowError::LegalHoldBlocksCancelFunding),
        sweep_error(s, amount, contract_balance) == Some(
            EscrowError::LegalHoldBlocksTreasuryDustSweep,
        ),
        rotate_error(s, new_sme) == Some(EscrowError::LegalHoldBlocksBeneficiaryRotation),
{
}

/// Admin handover is two-step: a proposal leaves the admin unchanged (the
/// current admin still authorises admin calls, the nominee alone accepts),
/// and accepting installs exactly the proposed address, after which admin
/// calls need the new admin's authorization.
pub proof fn law_admin_handover(s: EscrowState, new_admin: Addr)
    requires
        s.wf(),
        propose_admin_error(s, new_admin) is None,
    ensures
        propose_admin_post(s, new_admin).esc().admin == s.esc().admin,
        pending_admin_error(propose_admin_post(s, new_admin)) is None,
        accept_admin_post(propose_admin_post(s, new_admin)).esc().admin == new_admin,
        accept_admin_post(propose_admin_post(s, new_admin)).pending_admin is None,
        required_authorizers(propose_admin_post(s, new_admin), EscrowCall::UpdateFundingTarget)
            == Ok::<Seq<Addr>, EscrowError>(seq![s.esc().admin]),
        required_authorizers(propose_admin_post(s, new_admin), EscrowCall::AcceptAdmin) == Ok::<
            Seq<Addr>,
            EscrowError,
        >(seq![new_admin]),
        required_authorizers(
            accept_admin_post(propose_admin_post(s, new_admin)),
            EscrowCall::UpdateFundingTarget,
        ) == Ok::<Seq<Addr>, EscrowError>(seq![new_admin]),
{
}

/// Without a tier table, the first deposit of an investor who holds no
/// principal and no committed rate, committed with a zero lock,
/// behaves as a plain deposit: it is refused for the same reason, and once
/// accepted it leaves the same escrow, close snapshot, funder count,
/// events, principal, resolved rate and claim time, and every other
/// investor's record alike.
pub proof fn law_zero_lock_commitment_matches_fund(
    s: EscrowState,
    investor: Addr,
    amount: i128,
    now: u64,
    seq: u32,
)
    requires
        s.wf(),
        s.yield_tiers.len() == 0,
        s.rec(investor).contribution == 0,
        s.rec(investor).effective_yield_bps is None,
    ensures
        fund_error(s, investor, amount, Some(0u64), now) == fund_error(
            s,
            investor,
            amount,
            None,
            now,
        ),
        fund_error(s, investor, amount, None, now) is None ==> ({
            let a = fund_post(s, investor, amount, Some(0u64), now, seq);
            let b = fund_post(s, investor, amount, None, now, seq);
            &&& a.escrow == b.escrow
            &&& a.funding_close_snapshot == b.funding_close_snapshot
            &&& a.unique_funder_count == b.unique_funder_count
            &&& a.events == b.events
            &&& a.rec(investor).contribution == b.rec(investor).contribution
            &&& a.resolved_yield(investor) == b.resolved_yield(investor)
            &&& a.rec(investor).claim_not_before == b.rec(investor).claim_not_before
            &&& forall|o: Addr| o != investor ==> #[trigger] a.rec(o) == b.rec(o)
        }),
{
    if fund_error(s, investor, amount, None, now) is None {
        let na = crate::funding::funded_record(s, investor, amount, Some(0u64), now);
        let nb = crate::funding::funded_record(s, investor, amount, None, now);
        lemma_book_set(s.book, investor, na);
        lemma_book_set(s.book, investor, nb);
        let a = fund_post(s, investor, amount, Some(0u64), now, seq);
        let b = fund_post(s, investor, amount, None, now, seq);
        assert(a.rec(investor) == na);
        assert(b.rec(investor) == nb);
        assert(a.events =~= b.events);
        assert forall|o: Addr| o != investor implies #[trigger] a.rec(o) == b.rec(o) by {
            assert(lookup(a.book, o) == lookup(s.book, o));
            assert(lookup(b.book, o) == lookup(s.book, o));
        }
    }
}

/// A longer commitment never earns less: on a valid ladder the rate chosen
/// for a longer lock is at least the rate for a shorter one, so the same
/// principal is paid at least as much.
pub proof fn law_longer_commitment_never_pays_less(
    tiers: Seq<YieldTier>,
    base: i64,
    principal: int,
    lock1: u64,
    lock2: u64,
)
    requires
        tiers_valid(tiers, base),
        0 <= base <= MAX_YIELD_BPS,
        principal >= 0,
        lock1 <= lock2,
    ensures
        select_tier(tiers, base, lock1).0 <= select_tier(tiers, base, lock2).0,
        principal_plus_yield(principal, select_tier(tiers, base, lock1).0 as int)
            <= principal_plus_yield(principal, select_tier(tiers, base, lock2).0 as int),
{
    lemma_select_tier_monotone(tiers, base, lock1, lock2);
    lemma_select_within(tiers, base, lock1);
    lemma_payout_monotone_in_yield(
        principal,
        select_tier(tiers, base, lock1).0 as int,
        select_tier(tiers, base, lock2).0 as int,
    );
}

/// The close snapshot, the pro-rata denominator, is immutable once
/// written: deposits and a second `init` are refused, and every other
/// operation leaves it exactly as it was, withdrawal included.
pub proof fn law_close_snapshot_is_immutable(
    s: EscrowState,
    investor: Addr,
    amount: i128,
    commitment: Option<u64>,
    now: u64,
    invoice_id: Seq<u8>,
    yield_bps: i64,
    tiers: Seq<YieldTier>,
    min_contribution: Option<i128>,
    max_unique_investors: Option<u32>,
    max_per_investor: Option<i128>,
    other: Addr,
    flag: bool,
    investors: Seq<Addr>,
    value: i128,
    new_maturity: u64,
    new_cap: u32,
    registry: Option<Addr>,
    asset: Label,
    digest: [u8; 32],
    contract_balance: i128,
)
    requires
        s.wf(),
        s.funding_close_snapshot is Some,
    ensures
        fund_error(s, investor, amount, commitment, now) is Some,
        init_error(
            s,
            invoice_id,
            amount,
            yield_bps,
            tiers,
            min_contribution,
            max_unique_investors,
            max_per_investor,
        )
            == Some(EscrowError::EscrowAlreadyInitialized),
        settle_post(s).funding_close_snapshot == s.funding_close_snapshot,
        withdraw_post(s).funding_close_snapshot == s.funding_close_snapshot,
        claim_post(s, investor).funding_close_snapshot == s.funding_close_snapshot,
        cancel_post(s).funding_close_snapshot == s.funding_close_snapshot,
        refund_post(s, investor).funding_close_snapshot == s.funding_close_snapshot,
        sweep_post(s, value, contract_balance).funding_close_snapshot == s.funding_close_snapshot,
        legal_hold_post(s, flag).funding_close_snapshot == s.funding_close_snapshot,
        propose_admin_post(s, other).funding_close_snapshot == s.funding_close_snapshot,
        accept_admin_post(s).funding_close_snapshot == s.funding_close_snapshot,
        cancel_pending_admin_post(s).funding_close_snapshot == s.funding_close_snapshot,
        target_post(s, value).funding_close_snapshot == s.funding_close_snapshot,
        maturity_post(s, new_maturity).funding_close_snapshot == s.funding_close_snapshot,
        lower_cap_post(s, new_cap).funding_close_snapshot == s.funding_close_snapshot,
        rotate_post(s, other).funding_close_snapshot == s.funding_close_snapshot,
        allowlist_active_post(s, flag).funding_close_snapshot == s.funding_close_snapshot,
        allowlist_one_post(s, investor, flag).funding_close_snapshot == s.funding_close_snapshot,
        batch_post(s, investors, flag).funding_close_snapshot == s.funding_close_snapshot,
        registry_post(s, registry).funding_close_snapshot == s.funding_close_snapshot,
        collateral_post(s, asset, value, now).funding_close_snapshot == s.funding_close_snapshot,
        bind_post(s, digest).funding_close_snapshot == s.funding_close_snapshot,
        append_post(s, digest).funding_close_snapshot == s.funding_close_snapshot,
{
}

/// A committed first deposit with a positive lock `lock` at ledger time
/// `now` fixes the investor's earliest claim at `now + lock`: once the
/// escrow is settled, every claim before that moment is refused as a lock
/// that has not expired.
pub proof fn law_commitment_lock_is_enforced(
    s: EscrowState,
    investor: Addr,
    amount: i128,
    lock: u64,
    now: u64,
    seq: u32,
)
    requires
        s.wf(),
        lock > 0,
        !s.rec(investor).claimed,
        fund_error(s, investor, amount, Some(lock), now) is None,
    ensures
        fund_post(s, investor, amount, Some(lock), now, seq).rec(investor).claim_not_before == now
            + lock,
        forall|at: u64|
            at < now + lock ==> #[trigger] claim_error(
                settle_post(fund_post(s, investor, amount, Some(lock), now, seq)),
                investor,
                at,
            ) == Some(EscrowError::InvestorCommitmentLockNotExpired),
{
    let nr = crate::funding::funded_record(s, investor, amount, Some(lock), now);
    lemma_book_set(s.book, investor, nr);
    let t = fund_post(s, investor, amount, Some(lock), now, seq);
    assert(t.rec(investor) == nr);
    assert(settle_post(t).book == t.book);
}

/// No claim is ever paid before the investor's claim lock expires.
pub proof fn law_no_claim_before_lock(s: EscrowState, investor: Addr, at: u64)
    requires
        s.wf(),
        !s.rec(investor).claimed,
        claim_error(s, investor, at) is None,
    ensures
        at >= s.rec(investor).claim_not_before,
{
}

/// Withdrawal releases principal only from a funded escrow: an open,
/// settled, withdrawn or cancelled escrow refuses it, so the SME can never
/// take principal that settled investors are owed.
pub proof fn law_withdraw_only_from_funded(s: EscrowState, contract_balance: i128)
    requires
        s.wf(),
    ensures
        withdraw_error(s, contract_balance) is None ==> s.escrow is Some && s.esc().status
            == STATUS_FUNDED,
        s.escrow is Some && !s.legal_hold && s.esc().status != STATUS_FUNDED ==> withdraw_error(
            s,
            contract_balance,
        ) == Some(EscrowError::WithdrawalNotFunded),
{
}

/// Investors are paid only from a settled escrow: in every other status,
/// withdrawn included, a claim is refused as not settled.
pub proof fn law_claim_only_when_settled(s: EscrowState, investor: Addr, now: u64)
    requires
        s.wf(),
    ensures
        claim_error(s, investor, now) is None ==> s.escrow is Some && s.esc().status
            == STATUS_SETTLED,
        s.escrow is Some && !s.legal_hold && s.esc().status != STATUS_SETTLED ==> claim_error(
            s,
            investor,
            now,
        ) == Some(EscrowError::InvestorClaimNotSettled),
{
}

/// With the allowlist gate on, every accepted deposit, first or follow-on,
/// plain or committed, comes from an investor currently on the allowlist.
pub proof fn law_allowlist_gates_every_deposit(
    s: EscrowState,
    investor: Addr,
    amount: i128,
    commitment: Option<u64>,
    now: u64,
)
    requires
        s.wf(),
        s.allowlist_active,
    ensures
        fund_error(s, investor, amount, commitment, now) is None ==> s.rec(investor).allowlisted,
        s.escrow is Some && amount > 0 && !s.legal_hold && s.esc().status == STATUS_OPEN
            && !s.rec(investor).allowlisted ==> fund_error(s, investor, amount, commitment, now)
            == Some(EscrowError::InvestorNotAllowlisted),
{
}

/// Dust is swept only from an escrow that is done with its principal:
/// settled, withdrawn or cancelled. An open or funded escrow refuses it.
pub proof fn law_sweep_only_when_terminal(s: EscrowState, requested: i128, contract_balance: i128)
    requires
        s.wf(),
    ensures
        sweep_error(s, requested, contract_balance) is None ==> s.escrow is Some && (s.esc().status
            == STATUS_SETTLED || s.esc().status == STATUS_WITHDRAWN || s.esc().status
            == STATUS_CANCELLED),
        s.escrow is Some && !s.legal_hold && requested > 0 && (s.esc().status == STATUS_OPEN
            || s.esc().status == STATUS_FUNDED) ==> sweep_error(s, requested, contract_balance)
            == Some(EscrowError::DustSweepNotTerminal),
{
}

} // verus!
