use liquifact_escrow::{
    label_from_bytes, Addr, ClaimOutcome, EscrowContract, EscrowError, EscrowEvent, Payment,
    YieldTier, MAX_DUST_SWEEP_AMOUNT, STATUS_CANCELLED, STATUS_FUNDED, STATUS_OPEN,
    STATUS_SETTLED, STATUS_WITHDRAWN,
};

/// Token balances held by addresses, standing in for the funding token.
struct Balances {
    entries: Vec<(Addr, i128)>,
}

impl Balances {
    fn new() -> Balances {
        Balances { entries: Vec::new() }
    }
    fn of(&self, a: Addr) -> i128 {
        self.entries.iter().find(|(k, _)| *k == a).map(|(_, v)| *v).unwrap_or(0)
    }
    fn add(&mut self, a: Addr, delta: i128) {
        match self.entries.iter_mut().find(|(k, _)| *k == a) {
            Some(e) => e.1 += delta,
            None => self.entries.push((a, delta)),
        }
    }
    fn mint(&mut self, a: Addr, amount: i128) {
        self.add(a, amount);
    }
    fn pay(&mut self, from: Addr, p: Payment) {
        self.add(from, -p.amount);
        self.add(p.recipient, p.amount);
    }
}

const ESCROW: Addr = Addr(9_999);
const TREASURY: Addr = Addr(4);

fn init_plain(c: &mut EscrowContract, id: &[u8], target: i128, yield_bps: i64, maturity: u64) -> (Addr, Addr) {
    let admin = Addr(1);
    let sme = Addr(2);
    c.init(admin, id, sme, target, yield_bps, maturity, Addr(3), None, TREASURY, None, None, None, None)
        .unwrap();
    (admin, sme)
}

fn calculate_expected_payout(principal: i128, yield_bps: i64) -> i128 {
    principal + (principal * yield_bps as i128) / 10_000
}

fn refund_via(c: &mut EscrowContract, bal: &mut Balances, investor: Addr) -> Result<Payment, EscrowError> {
    let p = c.refund(investor)?;
    bal.pay(ESCROW, p);
    Ok(p)
}

fn sweep_via(c: &mut EscrowContract, bal: &mut Balances, requested: i128) -> Result<i128, EscrowError> {
    let p = c.sweep_terminal_dust(requested, bal.of(ESCROW))?;
    bal.pay(ESCROW, p);
    Ok(p.amount)
}

#[test]
fn test_legal_hold_midflow_blocks_and_resumes_with_ordered_events() {
    let mut c = EscrowContract::new();
    let (admin, _sme) = init_plain(&mut c, b"LEGAL_HOLD_INTEGRATION", 100_000_000, 1000, 0);
    let id = c.get_escrow().unwrap().invoice_id;
    let mut seen: Vec<EscrowEvent> = Vec::new();

    c.set_legal_hold(true).unwrap();
    seen.extend(c.get_events().iter().copied());
    assert!(c.get_legal_hold());

    c.set_legal_hold(false).unwrap();
    seen.extend(c.get_events().iter().copied());
    assert!(!c.get_legal_hold());

    c.fund(admin, 100_000_000, 0, 0).unwrap();
    assert_eq!(c.get_escrow().unwrap().funded_amount, 100_000_000);

    c.set_legal_hold(true).unwrap();
    seen.extend(c.get_events().iter().copied());
    c.set_legal_hold(false).unwrap();
    seen.extend(c.get_events().iter().copied());

    c.settle(0).unwrap();
    assert_eq!(c.get_escrow().unwrap().status, 2);

    c.set_legal_hold(true).unwrap();
    seen.extend(c.get_events().iter().copied());
    assert!(c.get_legal_hold());
    c.set_legal_hold(false).unwrap();
    seen.extend(c.get_events().iter().copied());
    assert!(!c.get_legal_hold());

    assert!(seen.len() >= 6);
    let on = EscrowEvent::LegalHoldChanged { invoice_id: id, active: 1 };
    let off = EscrowEvent::LegalHoldChanged { invoice_id: id, active: 0 };
    assert_eq!(seen, vec![on, off, on, off, on, off]);
}

#[test]
fn test_escrow_gold_standard_happy_path_open_overfund_snapshot_settle_claim() {
    let mut c = EscrowContract::new();
    const USDC_DECIMALS: i128 = 10_000_000;
    const TARGET_USDC: i128 = 50_000 * USDC_DECIMALS;
    const YIELD_BPS: i64 = 1200;
    const MATURITY_SECS: u64 = 365 * 24 * 60 * 60;
    let alice = Addr(100);
    let bob = Addr(101);
    init_plain(&mut c, b"GOLD001", TARGET_USDC, YIELD_BPS, MATURITY_SECS);

    let initial = c.get_escrow().unwrap();
    assert_eq!(initial.status, 0);
    assert_eq!(initial.funded_amount, 0);
    assert_eq!(initial.funding_target, TARGET_USDC);
    assert_eq!(initial.yield_bps, YIELD_BPS);

    let alice_amount = 20_000 * USDC_DECIMALS;
    let after_alice = c.fund(alice, alice_amount, 1, 1).unwrap();
    assert_eq!(after_alice.status, 0);
    assert_eq!(after_alice.funded_amount, alice_amount);
    assert_eq!(c.get_contribution(alice), alice_amount);

    let bob_amount = 35_000 * USDC_DECIMALS;
    let after_bob = c.fund(bob, bob_amount, 1, 1).unwrap();
    assert_eq!(after_bob.status, 1);
    let total_funded = alice_amount + bob_amount;
    assert_eq!(after_bob.funded_amount, total_funded);
    assert!(total_funded > TARGET_USDC);

    let snapshot = c.get_funding_close_snapshot().unwrap();
    assert_eq!(snapshot.total_principal, total_funded);
    assert_eq!(snapshot.funding_target, TARGET_USDC);
    assert!(snapshot.closed_at_ledger_timestamp > 0);
    assert!(snapshot.closed_at_ledger_sequence > 0);
    assert_eq!(c.get_contribution(alice) + c.get_contribution(bob), snapshot.total_principal);

    let settled = c.settle(MATURITY_SECS + 1).unwrap();
    assert_eq!(settled.status, 2);
    assert_eq!(settled.funded_amount, total_funded);

    let alice_expected = calculate_expected_payout(alice_amount, YIELD_BPS);
    let bob_expected = calculate_expected_payout(bob_amount, YIELD_BPS);
    assert_eq!(
        c.claim_investor_payout(alice, MATURITY_SECS + 1),
        Ok(ClaimOutcome::Paid(Payment { recipient: alice, amount: alice_expected }))
    );
    assert!(c.is_investor_claimed(alice));
    assert_eq!(
        c.claim_investor_payout(bob, MATURITY_SECS + 1),
        Ok(ClaimOutcome::Paid(Payment { recipient: bob, amount: bob_expected }))
    );
    assert!(c.is_investor_claimed(alice));
    assert!(c.is_investor_claimed(bob));
    assert_eq!(c.get_contribution(alice), alice_amount);
    assert_eq!(c.get_contribution(bob), bob_amount);
    assert_eq!(c.get_investor_yield_bps(alice), Ok(YIELD_BPS));
    assert_eq!(c.get_investor_yield_bps(bob), Ok(YIELD_BPS));
    assert_eq!(alice_expected, alice_amount + (alice_amount * YIELD_BPS as i128) / 10_000);
    assert_eq!(bob_expected, bob_amount + (bob_amount * YIELD_BPS as i128) / 10_000);
    assert_eq!(c.get_escrow().unwrap().status, 2);
}

#[test]
fn test_escrow_tiered_yield_with_commitment_locks() {
    let mut c = EscrowContract::new();
    let tiers = vec![
        YieldTier { min_lock_secs: 90 * 24 * 60 * 60, yield_bps: 1000 },
        YieldTier { min_lock_secs: 180 * 24 * 60 * 60, yield_bps: 1200 },
        YieldTier { min_lock_secs: 365 * 24 * 60 * 60, yield_bps: 1500 },
    ];
    const USDC_DECIMALS: i128 = 10_000_000;
    const TARGET_USDC: i128 = 30_000 * USDC_DECIMALS;
    const BASE_YIELD_BPS: i64 = 800;
    c.init(Addr(1), b"TIER001", Addr(2), TARGET_USDC, BASE_YIELD_BPS, 0, Addr(3), None, TREASURY, Some(tiers), None, None, None)
        .unwrap();

    let base = Addr(100);
    let t1 = Addr(101);
    let t2 = Addr(102);
    let t3 = Addr(103);

    let base_amount = 5_000 * USDC_DECIMALS;
    c.fund(base, base_amount, 0, 0).unwrap();
    assert_eq!(c.get_investor_yield_bps(base), Ok(BASE_YIELD_BPS));

    let tier1_amount = 8_000 * USDC_DECIMALS;
    c.fund_with_commitment(t1, tier1_amount, 90 * 24 * 60 * 60, 0, 0).unwrap();
    assert_eq!(c.get_investor_yield_bps(t1), Ok(1000));

    let tier2_amount = 10_000 * USDC_DECIMALS;
    c.fund_with_commitment(t2, tier2_amount, 180 * 24 * 60 * 60, 0, 0).unwrap();
    assert_eq!(c.get_investor_yield_bps(t2), Ok(1200));

    let tier3_amount = 7_000 * USDC_DECIMALS;
    c.fund_with_commitment(t3, tier3_amount, 365 * 24 * 60 * 60, 0, 0).unwrap();
    assert_eq!(c.get_investor_yield_bps(t3), Ok(1500));

    assert_eq!(c.settle(0).unwrap().status, 2);

    let current_time = 0u64;
    assert_eq!(c.get_investor_claim_not_before(base), 0);
    let c1 = c.get_investor_claim_not_before(t1);
    let c2 = c.get_investor_claim_not_before(t2);
    let c3 = c.get_investor_claim_not_before(t3);
    assert!(c1 > current_time);
    assert!(c2 > c1);
    assert!(c3 > c2);

    // Before the lock expires the tiered investor may not claim.
    assert_eq!(c.claim_investor_payout(t1, c1 - 1), Err(EscrowError::InvestorCommitmentLockNotExpired));

    let later = c3 + 1;
    for inv in [base, t1, t2, t3] {
        c.claim_investor_payout(inv, later).unwrap();
        assert!(c.is_investor_claimed(inv));
    }

    let base_expected = calculate_expected_payout(base_amount, BASE_YIELD_BPS);
    let tier3_expected = calculate_expected_payout(tier3_amount, 1500);
    assert!(tier3_expected - tier3_amount > base_expected - base_amount);
}

#[test]
fn test_collateral_record_is_metadata_only_and_does_not_invoke_token_contract() {
    let mut c = EscrowContract::new();
    init_plain(&mut c, b"COLTI001", 10_000, 800, 0);
    let usdc = label_from_bytes(b"USDC");
    let commitment = c.record_sme_collateral_commitment(usdc, 5_000, 0).unwrap();
    assert_eq!(commitment.asset, usdc);
    assert_eq!(commitment.amount, 5_000);
    assert!(c.get_sme_collateral_commitment().is_some());
    // Metadata only: nothing in custody changed.
    assert_eq!(c.get_escrow().unwrap().funded_amount, 0);
    assert_eq!(c.get_distributed_principal(), 0);
}

#[test]
fn test_collateral_record_event_payload_is_metadata_only() {
    let mut c = EscrowContract::new();
    init_plain(&mut c, b"COLEV001", 10_000, 800, 0);
    let id = label_from_bytes(b"COLEV001");
    c.record_sme_collateral_commitment(label_from_bytes(b"USDC"), 5_000, 0).unwrap();
    assert_eq!(
        *c.get_events(),
        vec![EscrowEvent::CollateralRecorded { invoice_id: id, amount: 5_000, prior_amount: 0 }]
    );
}

#[test]
fn test_collateral_replacement_event_contains_prior_amount() {
    let mut c = EscrowContract::new();
    init_plain(&mut c, b"COLEV002", 10_000, 800, 0);
    let id = label_from_bytes(b"COLEV002");
    let usdc = label_from_bytes(b"USDC");
    c.record_sme_collateral_commitment(usdc, 5_000, 0).unwrap();
    assert_eq!(c.get_events().len(), 1);
    assert_eq!(
        c.get_events()[0],
        EscrowEvent::CollateralRecorded { invoice_id: id, amount: 5_000, prior_amount: 0 }
    );
    c.record_sme_collateral_commitment(usdc, 7_000, 20000).unwrap();
    assert_eq!(c.get_events().len(), 1);
    assert_eq!(
        c.get_events()[0],
        EscrowEvent::CollateralRecorded { invoice_id: id, amount: 7_000, prior_amount: 5_000 }
    );
    // A record may not move back in time.
    assert_eq!(
        c.record_sme_collateral_commitment(usdc, 8_000, 10),
        Err(EscrowError::CollateralTimestampBackwards)
    );
}

fn setup_withdraw(target: i128, id: &[u8]) -> (EscrowContract, Balances, Addr) {
    let mut c = EscrowContract::new();
    let (_admin, sme) = init_plain(&mut c, id, target, 800, 0);
    c.fund(Addr(100), target, 0, 0).unwrap();
    let mut bal = Balances::new();
    bal.mint(ESCROW, target);
    (c, bal, sme)
}

fn setup_open(target: i128, fund_amount: i128, id: &[u8]) -> (EscrowContract, Balances, Addr) {
    let mut c = EscrowContract::new();
    init_plain(&mut c, id, target, 800, 0);
    let investor = Addr(100);
    if fund_amount > 0 {
        c.fund(investor, fund_amount, 0, 0).unwrap();
        assert_eq!(c.get_escrow().unwrap().status, STATUS_OPEN);
    }
    (c, Balances::new(), investor)
}

#[test]
fn test_cancel_funding_from_open_emits_fund_can_event() {
    let partial = 250_000i128;
    let (mut c, _bal, _inv) = setup_open(1_000_000, partial, b"CANOPEN01");
    let cancelled = c.cancel_funding().unwrap();
    assert_eq!(cancelled.status, 4);
    let expected = EscrowEvent::FundingCancelled { invoice_id: cancelled.invoice_id, funded_amount: partial };
    assert!(c.get_events().iter().any(|e| *e == expected));
}

#[test]
fn test_cancel_funding_rejected_from_funded_state() {
    let (mut c, _bal, _sme) = setup_withdraw(500_000, b"CANFUND01");
    assert_eq!(c.get_escrow().unwrap().status, 1);
    assert_eq!(c.cancel_funding(), Err(EscrowError::CancelFundingNotOpen));
}

#[test]
fn test_cancel_funding_rejected_from_settled_state() {
    let (mut c, _bal, _sme) = setup_withdraw(500_000, b"CANSET01");
    c.settle(0).unwrap();
    assert_eq!(c.get_escrow().unwrap().status, 2);
    assert_eq!(c.cancel_funding(), Err(EscrowError::CancelFundingNotOpen));
}

#[test]
fn test_cancel_funding_rejected_from_withdrawn_state() {
    let (mut c, bal, _sme) = setup_withdraw(500_000, b"CANWD01");
    c.withdraw(bal.of(ESCROW)).unwrap();
    assert_eq!(c.get_escrow().unwrap().status, 3);
    assert_eq!(c.cancel_funding(), Err(EscrowError::CancelFundingNotOpen));
}

#[test]
fn test_cancel_funding_rejected_when_already_cancelled() {
    let (mut c, _bal, _inv) = setup_open(1_000_000, 0, b"CANCAN01");
    c.cancel_funding().unwrap();
    assert_eq!(c.get_escrow().unwrap().status, 4);
    assert_eq!(c.cancel_funding(), Err(EscrowError::CancelFundingNotOpen));
}

#[test]
fn test_cancel_funding_transition_matrix_and_refund_unlock() {
    let target = 2_000_000i128;
    let fund_amount = 400_000i128;
    let (mut c, mut bal, investor) = setup_open(target, fund_amount, b"CANLIFE01");

    let cancelled = c.cancel_funding().unwrap();
    assert_eq!(cancelled.status, 4);
    assert_eq!(cancelled.funded_amount, fund_amount);

    assert_eq!(c.settle(0), Err(EscrowError::SettlementNotFunded));
    assert_eq!(c.withdraw(0), Err(EscrowError::WithdrawalNotFunded));

    bal.mint(ESCROW, fund_amount);
    let before = bal.of(investor);
    refund_via(&mut c, &mut bal, investor).unwrap();
    assert_eq!(bal.of(investor) - before, fund_amount);
    assert!(c.is_investor_refunded(investor));

    let (mut funded, _b, _s) = setup_withdraw(target, b"CANLIFE02");
    assert_eq!(funded.get_escrow().unwrap().status, 1);
    assert_eq!(funded.cancel_funding(), Err(EscrowError::CancelFundingNotOpen));
}

#[test]
fn test_cancel_refund_sweep_liability_floor() {
    let mut c = EscrowContract::new();
    let target = 1_000_000i128;
    init_plain(&mut c, b"CANREF001", target, 800, 0);
    let inv1 = Addr(100);
    let inv2 = Addr(101);
    let a1 = 200_000i128;
    let a2 = 300_000i128;
    c.fund(inv1, a1, 0, 0).unwrap();
    c.fund(inv2, a2, 0, 0).unwrap();
    let total = a1 + a2;
    assert_eq!(c.get_escrow().unwrap().funded_amount, total);

    let extra = 50_000i128;
    let mut bal = Balances::new();
    bal.mint(ESCROW, total + extra);

    c.cancel_funding().unwrap();
    assert_eq!(c.get_escrow().unwrap().status, 4);

    refund_via(&mut c, &mut bal, inv1).unwrap();
    assert!(c.is_investor_refunded(inv1));
    assert_eq!(c.get_distributed_principal(), a1);

    let dup = refund_via(&mut c, &mut bal, inv1);
    assert!(dup.is_err());

    let sweep_fail = sweep_via(&mut c, &mut bal, extra + 1);
    assert!(sweep_fail.is_err());

    let swept = sweep_via(&mut c, &mut bal, extra).unwrap();
    assert_eq!(swept, extra);
    assert_eq!(bal.of(TREASURY), extra);

    refund_via(&mut c, &mut bal, inv2).unwrap();
    assert!(c.is_investor_refunded(inv2));
    assert_eq!(c.get_distributed_principal(), total);
}

#[test]
fn withdraw_transfers_funded_amount_to_sme() {
    let target = 50_000_000i128;
    let (mut c, mut bal, sme) = setup_withdraw(target, b"WD_BAL001");
    let sme_before = bal.of(sme);
    assert_eq!(bal.of(ESCROW), target);
    let p = c.withdraw(bal.of(ESCROW)).unwrap();
    bal.pay(ESCROW, p);
    assert_eq!(bal.of(sme) - sme_before, target);
    assert_eq!(bal.of(ESCROW), 0);
    assert_eq!(c.get_escrow().unwrap().status, 3);
}

#[test]
fn withdraw_updates_distributed_principal() {
    let target = 20_000_000i128;
    let (mut c, bal, _sme) = setup_withdraw(target, b"WD_DP001");
    c.withdraw(bal.of(ESCROW)).unwrap();
    assert_eq!(c.get_escrow().unwrap().status, 3);
    assert_eq!(c.get_distributed_principal(), target);
}

#[test]
fn withdraw_event_includes_recipient() {
    let target = 5_000_000i128;
    let (mut c, bal, sme) = setup_withdraw(target, b"WD_EV001");
    c.withdraw(bal.of(ESCROW)).unwrap();
    let escrow = c.get_escrow().unwrap();
    let expected = EscrowEvent::SmeWithdrew { invoice_id: escrow.invoice_id, amount: target, recipient: sme };
    assert!(c.get_events().iter().any(|e| *e == expected));
}

#[test]
fn withdraw_rejected_when_contract_balance_short() {
    let target = 100_000_000i128;
    let (mut c, _bal, _sme) = setup_withdraw(target, b"WD_IB001");
    assert_eq!(c.withdraw(target / 2), Err(EscrowError::InsufficientContractBalance));
    assert_eq!(c.get_escrow().unwrap().status, STATUS_FUNDED);
    assert_eq!(EscrowError::InsufficientContractBalance.code(), 130);
}

// ---- liability floor of the treasury dust sweep ----

fn setup_cancelled(amounts: &[i128], mint: i128, id: &[u8]) -> (EscrowContract, Balances, Vec<Addr>) {
    let mut c = EscrowContract::new();
    let total: i128 = amounts.iter().sum();
    init_plain(&mut c, id, total * 2, 0, 0);
    let mut bal = Balances::new();
    bal.mint(ESCROW, mint);
    let investors: Vec<Addr> = (0..amounts.len() as u64).map(|i| Addr(100 + i)).collect();
    for (inv, amt) in investors.iter().zip(amounts) {
        c.fund(*inv, *amt, 0, 0).unwrap();
    }
    c.cancel_funding().unwrap();
    (c, bal, investors)
}

#[test]
fn sweep_liability_floor_allows_true_dust_after_all_refunded() {
    let fund_amount = 1_000i128;
    let (mut c, mut bal, inv) = setup_cancelled(&[fund_amount], fund_amount, b"FLOOR01");
    bal.mint(ESCROW, 1);
    refund_via(&mut c, &mut bal, inv[0]).unwrap();
    assert_eq!(sweep_via(&mut c, &mut bal, 1).unwrap(), 1);
    assert_eq!(bal.of(TREASURY), 1);
    assert_eq!(c.get_distributed_principal(), fund_amount);
}

#[test]
fn sweep_liability_floor_allows_sweep_of_excess_above_outstanding() {
    let (mut c, mut bal, inv) = setup_cancelled(&[500, 500], 1_001, b"FLOOR02");
    refund_via(&mut c, &mut bal, inv[0]).unwrap();
    assert_eq!(c.get_distributed_principal(), 500);
    assert_eq!(sweep_via(&mut c, &mut bal, 1).unwrap(), 1);
    assert_eq!(bal.of(TREASURY), 1);
}

#[test]
fn sweep_liability_floor_blocks_sweep_that_would_eat_into_outstanding() {
    let (mut c, mut bal, inv) = setup_cancelled(&[500, 500], 1_001, b"FLOOR03");
    refund_via(&mut c, &mut bal, inv[0]).unwrap();
    assert_eq!(sweep_via(&mut c, &mut bal, 2), Err(EscrowError::SweepExceedsLiabilityFloor));
    assert_eq!(EscrowError::SweepExceedsLiabilityFloor.code(), 42);
}

#[test]
fn sweep_liability_floor_blocks_sweep_when_investor_not_yet_refunded() {
    let (mut c, mut bal, _inv) = setup_cancelled(&[1_000], 1_000, b"FLOOR01");
    assert_eq!(sweep_via(&mut c, &mut bal, 1), Err(EscrowError::SweepExceedsLiabilityFloor));
}

#[test]
fn sweep_liability_floor_zero_funded_amount_allows_sweep() {
    let mut c = EscrowContract::new();
    init_plain(&mut c, b"FLOOR04", 1_000, 0, 0);
    c.cancel_funding().unwrap();
    let mut bal = Balances::new();
    bal.mint(ESCROW, 50);
    assert_eq!(sweep_via(&mut c, &mut bal, 50).unwrap(), 50);
    assert_eq!(bal.of(TREASURY), 50);
}

#[test]
fn distributed_principal_accumulates_across_multiple_refunds() {
    let (mut c, mut bal, inv) = setup_cancelled(&[300, 300, 300], 900, b"FLOOR05");
    assert_eq!(c.get_distributed_principal(), 0);
    refund_via(&mut c, &mut bal, inv[0]).unwrap();
    assert_eq!(c.get_distributed_principal(), 300);
    refund_via(&mut c, &mut bal, inv[1]).unwrap();
    assert_eq!(c.get_distributed_principal(), 600);
    refund_via(&mut c, &mut bal, inv[2]).unwrap();
    assert_eq!(c.get_distributed_principal(), 900);
    bal.mint(ESCROW, 5);
    assert_eq!(sweep_via(&mut c, &mut bal, 5).unwrap(), 5);
}

#[test]
fn sweep_liability_floor_refund_then_sweep_sequence() {
    let (mut c, mut bal, inv) = setup_cancelled(&[300, 300, 300], 900, b"FLOOR06");
    bal.mint(ESCROW, 100);
    assert_eq!(c.get_distributed_principal(), 0);
    assert_eq!(sweep_via(&mut c, &mut bal, 100).unwrap(), 100);

    refund_via(&mut c, &mut bal, inv[0]).unwrap();
    assert_eq!(c.get_distributed_principal(), 300);
    bal.mint(ESCROW, 50);
    assert_eq!(sweep_via(&mut c, &mut bal, 50).unwrap(), 50);

    refund_via(&mut c, &mut bal, inv[1]).unwrap();
    assert_eq!(c.get_distributed_principal(), 600);
    bal.mint(ESCROW, 80);
    assert_eq!(sweep_via(&mut c, &mut bal, 80).unwrap(), 80);

    refund_via(&mut c, &mut bal, inv[2]).unwrap();
    assert_eq!(c.get_distributed_principal(), 900);
    bal.mint(ESCROW, 200);
    assert_eq!(sweep_via(&mut c, &mut bal, 200).unwrap(), 200);
}

#[test]
fn sweep_liability_floor_one_unit_over_fails() {
    let (mut c, mut bal, inv) = setup_cancelled(&[500, 500], 1_000, b"FLOOR06");
    refund_via(&mut c, &mut bal, inv[0]).unwrap();
    assert_eq!(sweep_via(&mut c, &mut bal, 1), Err(EscrowError::SweepExceedsLiabilityFloor));
}

#[test]
fn sweep_liability_floor_capped_by_max_dust_sweep() {
    let (mut c, mut bal, inv) = setup_cancelled(&[500], 500, b"FLOOR06");
    refund_via(&mut c, &mut bal, inv[0]).unwrap();
    let huge_dust = MAX_DUST_SWEEP_AMOUNT * 2;
    bal.mint(ESCROW, huge_dust);
    assert_eq!(sweep_via(&mut c, &mut bal, huge_dust).unwrap(), MAX_DUST_SWEEP_AMOUNT);
    assert_eq!(bal.of(TREASURY), MAX_DUST_SWEEP_AMOUNT);
}

#[test]
fn sweep_liability_floor_all_refunded_sweep_all_dust() {
    let (mut c, mut bal, inv) = setup_cancelled(&[400, 600], 1_000, b"FLOOR06");
    refund_via(&mut c, &mut bal, inv[0]).unwrap();
    refund_via(&mut c, &mut bal, inv[1]).unwrap();
    bal.mint(ESCROW, 999);
    let expected = 999i128.min(MAX_DUST_SWEEP_AMOUNT);
    assert_eq!(sweep_via(&mut c, &mut bal, 999).unwrap(), expected);
    assert_eq!(bal.of(TREASURY), expected);
}

#[test]
fn sweep_guards_amount_status_and_hold() {
    let (mut c, mut bal, _inv) = setup_cancelled(&[500], 500, b"FLOOR07");
    assert_eq!(sweep_via(&mut c, &mut bal, 0), Err(EscrowError::SweepAmountNotPositive));
    c.set_legal_hold(true).unwrap();
    assert_eq!(sweep_via(&mut c, &mut bal, 1), Err(EscrowError::LegalHoldBlocksTreasuryDustSweep));

    let mut open = EscrowContract::new();
    init_plain(&mut open, b"FLOOR08", 1_000, 0, 0);
    assert_eq!(open.sweep_terminal_dust(1, 10), Err(EscrowError::DustSweepNotTerminal));
    let mut empty = EscrowContract::new();
    init_plain(&mut empty, b"FLOOR09", 1_000, 0, 0);
    empty.cancel_funding().unwrap();
    assert_eq!(empty.sweep_terminal_dust(1, 0), Err(EscrowError::NoFundingTokenBalanceToSweep));
    assert_eq!(EscrowError::SweepAmountNotPositive.code(), 31);
    assert_eq!(EscrowError::DustSweepNotTerminal.code(), 33);
    assert_eq!(EscrowError::NoFundingTokenBalanceToSweep.code(), 34);
    assert_eq!(EscrowError::LegalHoldBlocksTreasuryDustSweep.code(), 30);
}

#[test]
fn statuses_follow_the_documented_codes() {
    assert_eq!((STATUS_OPEN, STATUS_FUNDED, STATUS_SETTLED, STATUS_WITHDRAWN, STATUS_CANCELLED), (0, 1, 2, 3, 4));
}
