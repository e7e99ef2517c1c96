use vstd::prelude::*;

use crate::error::EscrowError;
use crate::invoice_id::{invoice_id_error, validate_invoice_id};
use crate::state::{EscrowContract, EscrowEvent, EscrowState};
use crate::tiers::{lemma_tiers_error_none_iff_valid, tiers_error, validate_yield_tiers_table};
use crate::types::{
    Addr, InvoiceEscrow, Label, YieldTier, MAX_YIELD_BPS, SCHEMA_VERSION, STATUS_OPEN,
};

verus! {

pub open spec fn tiers_seq(t: Option<Vec<YieldTier>>) -> Seq<YieldTier> {
    match t {
        Some(v) => v@,
        None => Seq::empty(),
    }
}

/// Why `init` refuses, checked in this order.
pub open spec fn init_error(
    s: EscrowState,
    invoice_id: Seq<u8>,
    amount: i128,
    yield_bps: i64,
    tiers: Seq<YieldTier>,
    min_contribution: Option<i128>,
    max_unique_investors: Option<u32>,
    max_per_investor: Option<i128>,
) -> Option<EscrowError> {
    if s.escrow is Some {
        Some(EscrowError::EscrowAlreadyInitialized)
    } else if invoice_id_error(invoice_id) is Some {
        invoice_id_error(invoice_id)
    } else if amount <= 0 {
        Some(EscrowError::AmountMustBePositive)
    } else if yield_bps < 0 || yield_bps > MAX_YIELD_BPS {
        Some(EscrowError::YieldBpsOutOfRange)
    } else if min_contribution matches Some(m) && m <= 0 {
        Some(EscrowError::MinContributionNotPositive)
    } else if min_contribution matches Some(m) && m > amount {
        Some(EscrowError::MinContributionExceedsAmount)
    } else if max_unique_investors == Some(0u32) {
        Some(EscrowError::MaxUniqueInvestorsNotPositive)
    } else if max_per_investor matches Some(c) && c <= 0 {
        Some(EscrowError::MaxPerInvestorNotPositive)
    } else {
        tiers_error(tiers, yield_bps)
    }
}

/// The escrow right after a successful `init`: open, unfunded, targeting
/// the invoice amount, at the current schema version.
pub open spec fn init_post(
    s: EscrowState,
    label: Label,
    admin: Addr,
    sme: Addr,
    amount: i128,
    yield_bps: i64,
    maturity: u64,
    funding_token: Addr,
    registry: Option<Addr>,
    treasury: Addr,
    tiers: Seq<YieldTier>,
    min_contribution: Option<i128>,
    max_unique_investors: Option<u32>,
    max_per_investor: Option<i128>,
) -> EscrowState {
    EscrowState {
        escrow: Some(
            InvoiceEscrow {
                invoice_id: label,
                admin,
                sme_address: sme,
                amount,
                funding_target: amount,
                funded_amount: 0,
                yield_bps,
                maturity,
                status: STATUS_OPEN,
            },
        ),
        version: SCHEMA_VERSION,
        funding_token: Some(funding_token),
        treasury: Some(treasury),
        registry,
        yield_tiers: tiers,
        min_contribution,
        max_unique_investors,
        max_per_investor,
        events: seq![EscrowEvent::EscrowInitialized { invoice_id: label, admin, sme, amount }],
        ..s
    }
}

impl EscrowContract {
    /// Creates the escrow for one invoice. `yield_tiers`, when given, is a
    /// fair ladder (see `tiers_valid`) fixed for the escrow's lifetime.
    /// Authorised by `admin`.
    pub fn init(
        &mut self,
        admin: Addr,
        invoice_id: &[u8],
        sme: Addr,
        amount: i128,
        yield_bps: i64,
        maturity: u64,
        funding_token: Addr,
        registry: Option<Addr>,
        treasury: Addr,
        yield_tiers: Option<Vec<YieldTier>>,
        min_contribution: Option<i128>,
        max_unique_investors: Option<u32>,
        max_per_investor: Option<i128>,
    ) -> (r: Result<InvoiceEscrow, EscrowError>)
        requires
            old(self).wf(),
        ensures
            final(self).wf(),
            match r {
                Ok(e) => {
                    &&& init_error(
                        old(self)@,
                        invoice_id@,
                        amount,
                        yield_bps,
                        tiers_seq(yield_tiers),
                        min_contribution,
                        max_unique_investors,
                        max_per_investor,
                    ) is None
                    &&& e.invoice_id.denotes(invoice_id@)
                    &&& final(self)@ == init_post(
                        old(self)@,
                        e.invoice_id,
                        admin,
                        sme,
                        amount,
                        yield_bps,
                        maturity,
                        funding_token,
                        registry,
                        treasury,
                        tiers_seq(yield_tiers),
                        min_contribution,
                        max_unique_investors,
                        max_per_investor,
                    )
                    &&& final(self)@.escrow == Some(e)
                },
                Err(err) => {
                    &&& init_error(
                        old(self)@,
                        invoice_id@,
                        amount,
                        yield_bps,
                        tiers_seq(yield_tiers),
                        min_contribution,
                        max_unique_investors,
                        max_per_investor,
                    ) == Some(err)
                    &&& final(self)@ == old(self)@
                },
            },
    {
        let ghost tiers_view = tiers_seq(yield_tiers);
        if self.escrow.is_some() {
            return Err(EscrowError::EscrowAlreadyInitialized);
        }
        let label = match validate_invoice_id(invoice_id) {
            Ok(l) => l,
            Err(e) => return Err(e),
        };
        if amount <= 0 {
            return Err(EscrowError::AmountMustBePositive);
        }
        if yield_bps < 0 || yield_bps > MAX_YIELD_BPS {
            return Err(EscrowError::YieldBpsOutOfRange);
        }
        if let Some(m) = min_contribution {
            if m <= 0 {
                return Err(EscrowError::MinContributionNotPositive);
            }
            if m > amount {
                return Err(EscrowError::MinContributionExceedsAmount);
            }
        }
        if let Some(c) = max_unique_investors {
            if c == 0 {
                return Err(EscrowError::MaxUniqueInvestorsNotPositive);
            }
        }
        if let Some(c) = max_per_investor {
            if c <= 0 {
                return Err(EscrowError::MaxPerInvestorNotPositive);
            }
        }
        let tiers: Vec<YieldTier> = match yield_tiers {
            Some(t) => t,
            None => Vec::new(),
        };
        assert(tiers@ == tiers_view);
        match validate_yield_tiers_table(&tiers, yield_bps) {
            Ok(()) => {},
            Err(e) => return Err(e),
        }
        proof {
            lemma_tiers_error_none_iff_valid(tiers@, yield_bps);
        }
        let e = InvoiceEscrow {
            invoice_id: label,
            admin,
            sme_address: sme,
            amount,
            funding_target: amount,
            funded_amount: 0,
            yield_bps,
            maturity,
            status: STATUS_OPEN,
        };
        self.escrow = Some(e);
        self.version = SCHEMA_VERSION;
        self.funding_token = Some(funding_token);
        self.treasury = Some(treasury);
        self.registry = registry;
        self.yield_tiers = tiers;
        self.min_contribution = min_contribution;
        self.max_unique_investors = max_unique_investors;
        self.max_per_investor = max_per_investor;
        self.events = vec![EscrowEvent::EscrowInitialized { invoice_id: label, admin, sme, amount }];
        assert(self@.events =~= seq![EscrowEvent::EscrowInitialized { invoice_id: label, admin, sme, amount }]);
        Ok(e)
    }
}

} // verus!
