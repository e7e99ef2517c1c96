use vstd::prelude::*;

use crate::error::EscrowError;
use crate::state::{EscrowContract, EscrowState};
use crate::types::Addr;

verus! {

/// The entry points of the escrow, as far as authorization is concerned.
#[derive(Clone, Copy, Debug, PartialEq, Eq, Structural)]
pub enum EscrowCall {
    Init { admin: Addr },
    Fund { investor: Addr },
    ClaimInvestorPayout { investor: Addr },
    Refund { investor: Addr },
    Settle,
    Withdraw,
    RecordSmeCollateral,
    SweepTerminalDust,
    RotateBeneficiary,
    AcceptAdmin,
    ProposeAdmin,
    CancelPendingAdmin,
    SetLegalHold,
    UpdateFundingTarget,
    UpdateMaturity,
    LowerInvestorCap,
    CancelFunding,
    SetAllowlist,
    RebindRegistry,
    Attestation,
    Migrate,
    Upgrade,
}

/// Who must authorise `call` before anything else is checked, in order.
pub open spec fn required_authorizers(s: EscrowState, call: EscrowCall) -> Result<
    Seq<Addr>,
    EscrowError,
> {
    match call {
        EscrowCall::Init { admin } => Ok(seq![admin]),
        EscrowCall::Fund { investor } => Ok(seq![investor]),
        EscrowCall::ClaimInvestorPayout { investor } => Ok(seq![investor]),
        EscrowCall::Refund { investor } => Ok(seq![investor]),
        EscrowCall::Migrate => if s.escrow is None {
            Ok(Seq::empty())
        } else {
            Ok(seq![s.esc().admin])
        },
        EscrowCall::SweepTerminalDust => if s.escrow is None {
            Err(EscrowError::EscrowNotInitialized)
        } else if s.treasury is None {
            Err(EscrowError::TreasuryNotSet)
        } else {
            Ok(seq![s.treasury.unwrap()])
        },
        EscrowCall::AcceptAdmin => if s.escrow is None {
            Err(EscrowError::EscrowNotInitialized)
        } else if s.pending_admin is None {
            Err(EscrowError::NoPendingAdmin)
        } else {
            Ok(seq![s.pending_admin.unwrap()])
        },
        _ => if s.escrow is None {
            Err(EscrowError::EscrowNotInitialized)
        } else {
            match call {
                EscrowCall::Settle => Ok(seq![s.esc().sme_address]),
                EscrowCall::Withdraw => Ok(seq![s.esc().sme_address]),
                EscrowCall::RecordSmeCollateral => Ok(seq![s.esc().sme_address]),
                EscrowCall::RotateBeneficiary => Ok(seq![s.esc().admin, s.esc().sme_address]),
                _ => Ok(seq![s.esc().admin]),
            }
        },
    }
}

fn one(a: Addr) -> (v: Vec<Addr>)
    ensures
        v@ == seq![a],
{
    let v = vec![a];
    assert(v@ =~= seq![a]);
    v
}

fn two(a: Addr, b: Addr) -> (v: Vec<Addr>)
    ensures
        v@ == seq![a, b],
{
    let v = vec![a, b];
    assert(v@ =~= seq![a, b]);
    v
}

fn none() -> (v: Vec<Addr>)
    ensures
        v@ == Seq::<Addr>::empty(),
{
    let v: Vec<Addr> = Vec::new();
    assert(v@ =~= Seq::<Addr>::empty());
    v
}

impl EscrowContract {
    /// The addresses whose authorization `call` needs, in the order they
    /// must be checked.
    pub fn required_authorizers(&self, call: EscrowCall) -> (r: Result<Vec<Addr>, EscrowError>)
        ensures
            match r {
                Ok(v) => required_authorizers(self@, call) == Ok::<Seq<Addr>, EscrowError>(v@),
                Err(e) => required_authorizers(self@, call) == Err::<Seq<Addr>, EscrowError>(e),
            },
    {
        match call {
            EscrowCall::Init { admin } => return Ok(one(admin)),
            EscrowCall::Fund { investor } => return Ok(one(investor)),
            EscrowCall::ClaimInvestorPayout { investor } => return Ok(one(investor)),
            EscrowCall::Refund { investor } => return Ok(one(investor)),
            _ => {},
        }
        let e = match self.escrow {
            Some(e) => e,
            None => {
                return match call {
                    EscrowCall::Migrate => Ok(none()),
                    _ => Err(EscrowError::EscrowNotInitialized),
                };
            },
        };
        match call {
            EscrowCall::SweepTerminalDust => match self.treasury {
                Some(t) => Ok(one(t)),
                None => Err(EscrowError::TreasuryNotSet),
            },
            EscrowCall::AcceptAdmin => match self.pending_admin {
                Some(p) => Ok(one(p)),
                None => Err(EscrowError::NoPendingAdmin),
            },
            EscrowCall::Settle | EscrowCall::Withdraw | EscrowCall::RecordSmeCollateral => Ok(one(e.sme_address)),
            EscrowCall::RotateBeneficiary => Ok(two(e.admin, e.sme_address)),
            _ => Ok(one(e.admin)),
        }
    }
}

} // verus!
