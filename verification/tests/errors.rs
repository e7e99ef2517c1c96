use liquifact_escrow::{
    label_from_bytes, Addr, EscrowContract, EscrowError, YieldTier, STATUS_OPEN,
};

const ADMIN: Addr = Addr(1);
const SME: Addr = Addr(2);
const TOKEN: Addr = Addr(3);
const TREASURY: Addr = Addr(4);

fn init_with(
    c: &mut EscrowContract,
    id: &[u8],
    amount: i128,
    yield_bps: i64,
    tiers: Option<Vec<YieldTier>>,
    min: Option<i128>,
    max_unique: Option<u32>,
    max_per: Option<i128>,
) -> Result<(), EscrowError> {
    c.init(ADMIN, id, SME, amount, yield_bps, 100, TOKEN, None, TREASURY, tiers, min, max_unique, max_per)
        .map(|_| ())
}

fn open_escrow(amount: i128) -> EscrowContract {
    let mut c = EscrowContract::new();
    init_with(&mut c, b"ERR001", amount, 800, None, None, None, None).unwrap();
    c
}

fn funded_escrow(amount: i128) -> EscrowContract {
    let mut c = open_escrow(amount);
    c.fund(Addr(100), amount, 0, 0).unwrap();
    c
}

fn tier(min_lock_secs: u64, yield_bps: i64) -> YieldTier {
    YieldTier { min_lock_secs, yield_bps }
}

fn assert_init_refused(
    id: &[u8],
    amount: i128,
    yield_bps: i64,
    tiers: Option<Vec<YieldTier>>,
    min: Option<i128>,
    max_unique: Option<u32>,
    max_per: Option<i128>,
    expected: EscrowError,
) {
    let mut c = EscrowContract::new();
    assert_eq!(init_with(&mut c, id, amount, yield_bps, tiers, min, max_unique, max_per), Err(expected));
    assert_eq!(c.get_escrow(), Err(EscrowError::EscrowNotInitialized));
}

#[test]
fn init_rejects_second_init() {
    let mut c = open_escrow(1_000);
    assert_eq!(
        init_with(&mut c, b"OTHER", 5_000, 100, None, None, None, None),
        Err(EscrowError::EscrowAlreadyInitialized)
    );
    assert_eq!(c.get_escrow().unwrap().amount, 1_000);
}

#[test]
fn init_rejects_bad_invoice_ids() {
    assert_init_refused(b"", 1_000, 800, None, None, None, None, EscrowError::InvoiceIdInvalidLength);
    let long = [b'A'; 33];
    assert_init_refused(&long, 1_000, 800, None, None, None, None, EscrowError::InvoiceIdInvalidLength);
    assert_init_refused(b"BAD ID", 1_000, 800, None, None, None, None, EscrowError::InvoiceIdInvalidCharset);
    assert_init_refused(b"INV-1", 1_000, 800, None, None, None, None, EscrowError::InvoiceIdInvalidCharset);
    let mut c = EscrowContract::new();
    let max_len = [b'z'; 32];
    assert_eq!(init_with(&mut c, &max_len, 1_000, 800, None, None, None, None), Ok(()));
}

#[test]
fn init_rejects_bad_amount_and_yield() {
    assert_init_refused(b"INV", 0, 800, None, None, None, None, EscrowError::AmountMustBePositive);
    assert_init_refused(b"INV", -5, 800, None, None, None, None, EscrowError::AmountMustBePositive);
    assert_init_refused(b"INV", 1_000, -1, None, None, None, None, EscrowError::YieldBpsOutOfRange);
    assert_init_refused(b"INV", 1_000, 10_001, None, None, None, None, EscrowError::YieldBpsOutOfRange);
    let mut c = EscrowContract::new();
    assert_eq!(init_with(&mut c, b"INV", 1_000, 10_000, None, None, None, None), Ok(()));
}

#[test]
fn init_rejects_bad_limits() {
    assert_init_refused(b"INV", 1_000, 800, None, Some(0), None, None, EscrowError::MinContributionNotPositive);
    assert_init_refused(b"INV", 1_000, 800, None, Some(1_001), None, None, EscrowError::MinContributionExceedsAmount);
    assert_init_refused(b"INV", 1_000, 800, None, None, Some(0), None, EscrowError::MaxUniqueInvestorsNotPositive);
    assert_init_refused(b"INV", 1_000, 800, None, None, None, Some(0), EscrowError::MaxPerInvestorNotPositive);
}

#[test]
fn init_rejects_bad_tier_tables() {
    assert_init_refused(b"INV", 1_000, 800, Some(vec![tier(10, 10_001)]), None, None, None, EscrowError::TierYieldOutOfRange);
    assert_init_refused(b"INV", 1_000, 800, Some(vec![tier(10, 700)]), None, None, None, EscrowError::TierYieldBelowBase);
    assert_init_refused(
        b"INV",
        1_000,
        800,
        Some(vec![tier(10, 900), tier(10, 1_000)]),
        None,
        None,
        None,
        EscrowError::TierLockNotIncreasing,
    );
    assert_init_refused(
        b"INV",
        1_000,
        800,
        Some(vec![tier(10, 1_000), tier(20, 900)]),
        None,
        None,
        None,
        EscrowError::TierYieldNotNonDecreasing,
    );
    let mut c = EscrowContract::new();
    assert_eq!(
        init_with(&mut c, b"INV", 1_000, 800, Some(vec![tier(10, 800), tier(20, 900)]), None, None, None),
        Ok(())
    );
    assert_eq!(c.get_yield_tiers(), vec![tier(10, 800), tier(20, 900)]);
}

#[test]
fn uninitialised_escrow_refuses_everything() {
    let mut c = EscrowContract::new();
    assert_eq!(c.fund(Addr(100), 10, 0, 0), Err(EscrowError::EscrowNotInitialized));
    assert_eq!(c.settle(0), Err(EscrowError::EscrowNotInitialized));
    assert_eq!(c.withdraw(10), Err(EscrowError::EscrowNotInitialized));
    assert_eq!(c.cancel_funding(), Err(EscrowError::EscrowNotInitialized));
    assert_eq!(c.refund(Addr(100)), Err(EscrowError::EscrowNotInitialized));
    assert_eq!(c.propose_admin(Addr(7)), Err(EscrowError::EscrowNotInitialized));
    assert_eq!(c.get_funding_token(), Err(EscrowError::FundingTokenNotSet));
    assert_eq!(c.get_treasury(), Err(EscrowError::TreasuryNotSet));
}

#[test]
fn fund_rejects_non_positive_amount_and_held_escrow() {
    let mut c = open_escrow(1_000);
    assert_eq!(c.fund(Addr(100), 0, 0, 0), Err(EscrowError::FundingAmountNotPositive));
    assert_eq!(c.fund(Addr(100), -3, 0, 0), Err(EscrowError::FundingAmountNotPositive));
    c.set_legal_hold(true).unwrap();
    assert_eq!(c.fund(Addr(100), 10, 0, 0), Err(EscrowError::LegalHoldBlocksFunding));
    assert_eq!(c.get_contribution(Addr(100)), 0);
}

#[test]
fn fund_rejects_after_close() {
    let mut c = funded_escrow(1_000);
    assert_eq!(c.fund(Addr(101), 10, 0, 0), Err(EscrowError::EscrowNotOpenForFunding));
}

#[test]
fn fund_enforces_minimum_and_caps() {
    let mut c = EscrowContract::new();
    init_with(&mut c, b"CAPS", 10_000, 800, None, Some(100), Some(1), Some(500)).unwrap();
    assert_eq!(c.fund(Addr(100), 99, 0, 0), Err(EscrowError::FundingBelowMinContribution));
    c.fund(Addr(100), 400, 0, 0).unwrap();
    assert_eq!(c.fund(Addr(100), 101, 0, 0), Err(EscrowError::InvestorContributionExceedsCap));
    assert_eq!(c.fund(Addr(101), 100, 0, 0), Err(EscrowError::UniqueInvestorCapReached));
    c.fund(Addr(100), 100, 0, 0).unwrap();
    assert_eq!(c.get_contribution(Addr(100)), 500);
    assert_eq!(c.get_unique_funder_count(), 1);
}

#[test]
fn fund_rejects_second_commitment() {
    let mut c = open_escrow(10_000);
    c.fund_with_commitment(Addr(100), 100, 0, 0, 0).unwrap();
    assert_eq!(c.fund_with_commitment(Addr(100), 100, 50, 0, 0), Err(EscrowError::TieredSecondDeposit));
    c.fund(Addr(101), 100, 0, 0).unwrap();
    assert_eq!(c.fund_with_commitment(Addr(101), 100, 0, 0, 0), Err(EscrowError::TieredSecondDeposit));
}

#[test]
fn fund_rejects_arithmetic_overflow() {
    let mut c = open_escrow(i128::MAX);
    c.fund(Addr(100), i128::MAX - 10, 0, 0).unwrap();
    assert_eq!(c.fund(Addr(100), 20, 0, 0), Err(EscrowError::InvestorContributionOverflow));
    assert_eq!(c.fund(Addr(101), 20, 0, 0), Err(EscrowError::FundedAmountOverflow));
    assert_eq!(c.get_escrow().unwrap().funded_amount, i128::MAX - 10);
    assert_eq!(
        c.fund_with_commitment(Addr(102), 1, u64::MAX, 1, 0),
        Err(EscrowError::InvestorClaimTimeOverflow)
    );
    assert_eq!(c.get_escrow().unwrap().status, STATUS_OPEN);
}

#[test]
fn settle_and_withdraw_guards() {
    let mut c = open_escrow(1_000);
    assert_eq!(c.settle(200), Err(EscrowError::SettlementNotFunded));
    c.fund(Addr(100), 1_000, 0, 0).unwrap();
    assert_eq!(c.settle(99), Err(EscrowError::MaturityNotReached));
    c.set_legal_hold(true).unwrap();
    assert_eq!(c.settle(200), Err(EscrowError::LegalHoldBlocksSettlement));
    assert_eq!(c.withdraw(1_000), Err(EscrowError::LegalHoldBlocksWithdrawal));
    c.set_legal_hold(false).unwrap();
    assert!(c.settle(100).is_ok());
}

#[test]
fn claim_guards() {
    let mut c = funded_escrow(1_000);
    assert_eq!(c.claim_investor_payout(Addr(100), 500), Err(EscrowError::InvestorClaimNotSettled));
    c.settle(100).unwrap();
    assert_eq!(c.claim_investor_payout(Addr(101), 500), Err(EscrowError::NoContributionToClaim));
    c.set_legal_hold(true).unwrap();
    assert_eq!(c.claim_investor_payout(Addr(100), 500), Err(EscrowError::LegalHoldBlocksInvestorClaims));
    assert!(!c.is_investor_claimed(Addr(100)));
}

#[test]
fn payout_overflow_is_reported() {
    let big = i128::MAX - 1;
    let mut c = funded_escrow(big);
    c.settle(100).unwrap();
    assert_eq!(c.compute_investor_payout(Addr(100)), Err(EscrowError::ComputePayoutArithmeticOverflow));
    assert_eq!(c.claim_investor_payout(Addr(100), 500), Err(EscrowError::ComputePayoutArithmeticOverflow));
    assert!(!c.is_investor_claimed(Addr(100)));
}

#[test]
fn cancel_and_refund_guards() {
    let mut c = open_escrow(1_000);
    c.fund(Addr(100), 300, 0, 0).unwrap();
    assert_eq!(c.refund(Addr(100)), Err(EscrowError::RefundNotCancelled));
    c.set_legal_hold(true).unwrap();
    assert_eq!(c.cancel_funding(), Err(EscrowError::LegalHoldBlocksCancelFunding));
    c.set_legal_hold(false).unwrap();
    c.cancel_funding().unwrap();
    assert_eq!(c.refund(Addr(101)), Err(EscrowError::NoContributionToRefund));
    assert_eq!(c.refund(Addr(100)).unwrap().amount, 300);
}

#[test]
fn admin_update_guards() {
    let mut c = open_escrow(1_000);
    assert_eq!(c.propose_admin(ADMIN), Err(EscrowError::NewAdminSameAsCurrent));
    assert_eq!(c.update_funding_target(0), Err(EscrowError::TargetNotPositive));
    c.fund(Addr(100), 400, 0, 0).unwrap();
    assert_eq!(c.update_funding_target(399), Err(EscrowError::TargetBelowFundedAmount));
    assert_eq!(c.update_maturity(100), Err(EscrowError::MaturityUnchanged));
    assert_eq!(c.lower_max_unique_investors(1), Err(EscrowError::NoInvestorCapConfigured));
    c.fund(Addr(100), 600, 0, 0).unwrap();
    assert_eq!(c.update_funding_target(2_000), Err(EscrowError::TargetUpdateNotOpen));
    assert_eq!(c.update_maturity(500), Err(EscrowError::MaturityUpdateNotOpen));
    assert_eq!(c.lower_max_unique_investors(1), Err(EscrowError::CapLowerNotOpen));
}

#[test]
fn lowering_the_investor_cap_guards() {
    let mut c = EscrowContract::new();
    init_with(&mut c, b"CAP", 10_000, 800, None, None, Some(5), None).unwrap();
    assert_eq!(c.lower_max_unique_investors(5), Err(EscrowError::NewCapNotLower));
    assert_eq!(c.lower_max_unique_investors(0), Err(EscrowError::MaxUniqueInvestorsNotPositive));
    c.fund(Addr(100), 10, 0, 0).unwrap();
    c.fund(Addr(101), 10, 0, 0).unwrap();
    assert_eq!(c.lower_max_unique_investors(1), Err(EscrowError::NewCapBelowCurrentFunderCount));
    assert_eq!(c.lower_max_unique_investors(2), Ok(2));
    assert_eq!(c.get_max_unique_investors_cap(), Some(2));
}

#[test]
fn beneficiary_rotation_guards() {
    let mut c = open_escrow(1_000);
    assert_eq!(c.rotate_beneficiary(SME), Err(EscrowError::NewSmeSameAsCurrent));
    c.set_legal_hold(true).unwrap();
    assert_eq!(c.rotate_beneficiary(Addr(9)), Err(EscrowError::LegalHoldBlocksBeneficiaryRotation));
    c.set_legal_hold(false).unwrap();
    c.cancel_funding().unwrap();
    assert_eq!(c.rotate_beneficiary(Addr(9)), Err(EscrowError::RotationNotOpen));
    assert_eq!(c.get_escrow().unwrap().sme_address, SME);
}

#[test]
fn attestation_guards() {
    let mut c = open_escrow(1_000);
    c.bind_primary_attestation_hash([7u8; 32]).unwrap();
    assert_eq!(c.bind_primary_attestation_hash([8u8; 32]), Err(EscrowError::PrimaryAttestationAlreadyBound));
    assert_eq!(c.get_primary_attestation_hash(), Some([7u8; 32]));
    for i in 0..32u8 {
        assert_eq!(c.append_attestation_digest([i; 32]), Ok(i as u32));
    }
    assert_eq!(c.append_attestation_digest([99u8; 32]), Err(EscrowError::AttestationAppendLogCapacityReached));
    assert_eq!(c.get_attestation_append_count(), 32);
    assert_eq!(c.get_attestation_digest(31), Some([31u8; 32]));
    assert_eq!(c.get_attestation_digest(32), None);
}

#[test]
fn collateral_guards() {
    let mut c = open_escrow(1_000);
    assert_eq!(
        c.record_sme_collateral_commitment(label_from_bytes(b"USDC"), 0, 10),
        Err(EscrowError::CollateralAmountNotPositive)
    );
    assert_eq!(
        c.record_sme_collateral_commitment(label_from_bytes(b""), 10, 10),
        Err(EscrowError::CollateralAssetEmpty)
    );
    assert_eq!(c.get_sme_collateral_commitment(), None);
}
