use vstd::prelude::*;

use crate::error::EscrowError;
use crate::state::{EscrowContract, EscrowEvent, EscrowState};
use crate::types::{Addr, InvoiceEscrow, SCHEMA_VERSION, STATUS_FUNDED, STATUS_OPEN};

verus! {

pub open spec fn not_initialized_error(s: EscrowState) -> Option<EscrowError> {
    if s.escrow is None {
        Some(EscrowError::EscrowNotInitialized)
    } else {
        None
    }
}

pub open spec fn legal_hold_post(s: EscrowState, active: bool) -> EscrowState {
    EscrowState {
        legal_hold: active,
        events: seq![
            EscrowEvent::LegalHoldChanged {
                invoice_id: s.esc().invoice_id,
                active: if active {
                    1u32
                } else {
                    0u32
                },
            },
        ],
        ..s
    }
}

pub open spec fn propose_admin_error(s: EscrowState, new_admin: Addr) -> Option<EscrowError> {
    if s.escrow is None {
        Some(EscrowError::EscrowNotInitialized)
    } else if new_admin == s.esc().admin {
        Some(EscrowError::NewAdminSameAsCurrent)
    } else {
        None
    }
}

pub open spec fn propose_admin_post(s: EscrowState, new_admin: Addr) -> EscrowState {
    EscrowState {
        pending_admin: Some(new_admin),
        events: seq![
            EscrowEvent::AdminProposed {
                invoice_id: s.esc().invoice_id,
                current_admin: s.esc().admin,
                pending_admin: new_admin,
            },
        ],
        ..s
    }
}

pub open spec fn pending_admin_error(s: EscrowState) -> Option<EscrowError> {
    if s.escrow is None {
        Some(EscrowError::EscrowNotInitialized)
    } else if s.pending_admin is None {
        Some(EscrowError::NoPendingAdmin)
    } else {
        None
    }
}

pub open spec fn accept_admin_post(s: EscrowState) -> EscrowState {
    let e = s.esc();
    let p = s.pending_admin.unwrap();
    EscrowState {
        escrow: Some(InvoiceEscrow { admin: p, ..e }),
        pending_admin: None,
        events: seq![EscrowEvent::AdminTransferred { invoice_id: e.invoice_id, new_admin: p }],
        ..s
    }
}

pub open spec fn cancel_pending_admin_post(s: EscrowState) -> EscrowState {
    EscrowState {
        pending_admin: None,
        events: seq![
            EscrowEvent::AdminProposalCancelled {
                invoice_id: s.esc().invoice_id,
                cancelled_admin: s.pending_admin.unwrap(),
            },
        ],
        ..s
    }
}

pub open spec fn target_error(s: EscrowState, new_target: i128) -> Option<EscrowError> {
    if s.escrow is None {
        Some(EscrowError::EscrowNotInitialized)
    } else if new_target <= 0 {
        Some(EscrowError::TargetNotPositive)
    } else if s.esc().status != STATUS_OPEN {
        Some(EscrowError::TargetUpdateNotOpen)
    } else if new_target < s.esc().funded_amount {
        Some(EscrowError::TargetBelowFundedAmount)
    } else {
        None
    }
}

pub open spec fn target_post(s: EscrowState, new_target: i128) -> EscrowState {
    let e = s.esc();
    EscrowState {
        escrow: Some(InvoiceEscrow { funding_target: new_target, ..e }),
        events: seq![
            EscrowEvent::FundingTargetUpdated {
                invoice_id: e.invoice_id,
                old_target: e.funding_target,
                new_target,
            },
        ],
        ..s
    }
}

pub open spec fn maturity_error(s: EscrowState, new_maturity: u64) -> Option<EscrowError> {
    if s.escrow is None {
        Some(EscrowError::EscrowNotInitialized)
    } else if s.esc().status != STATUS_OPEN {
        Some(EscrowError::MaturityUpdateNotOpen)
    } else if new_maturity == s.esc().maturity {
        Some(EscrowError::MaturityUnchanged)
    } else {
        None
    }
}

pub open spec fn maturity_post(s: EscrowState, new_maturity: u64) -> EscrowState {
    let e = s.esc();
    EscrowState {
        escrow: Some(InvoiceEscrow { maturity: new_maturity, ..e }),
        events: seq![
            EscrowEvent::MaturityUpdated {
                invoice_id: e.invoice_id,
                old_maturity: e.maturity,
                new_maturity,
            },
        ],
        ..s
    }
}

pub open spec fn lower_cap_error(s: EscrowState, new_cap: u32) -> Option<EscrowError> {
    if s.escrow is None {
        Some(EscrowError::EscrowNotInitialized)
    } else if s.esc().status != STATUS_OPEN {
        Some(EscrowError::CapLowerNotOpen)
    } else if s.max_unique_investors is None {
        Some(EscrowError::NoInvestorCapConfigured)
    } else if new_cap >= s.max_unique_investors.unwrap() {
        Some(EscrowError::NewCapNotLower)
    } else if new_cap < s.unique_funder_count {
        Some(EscrowError::NewCapBelowCurrentFunderCount)
    } else if new_cap == 0 {
        Some(EscrowError::MaxUniqueInvestorsNotPositive)
    } else {
        None
    }
}

pub open spec fn lower_cap_post(s: EscrowState, new_cap: u32) -> EscrowState {
    EscrowState {
        max_unique_investors: Some(new_cap),
        events: seq![
            EscrowEvent::InvestorCapLowered {
                invoice_id: s.esc().invoice_id,
                old_cap: s.max_unique_investors.unwrap(),
                new_cap,
            },
        ],
        ..s
    }
}

pub open spec fn rotate_error(s: EscrowState, new_sme: Addr) -> Option<EscrowError> {
    if s.escrow is None {
        Some(EscrowError::EscrowNotInitialized)
    } else if s.legal_hold {
        Some(EscrowError::LegalHoldBlocksBeneficiaryRotation)
    } else if s.esc().status != STATUS_OPEN && s.esc().status != STATUS_FUNDED {
        Some(EscrowError::RotationNotOpen)
    } else if new_sme == s.esc().sme_address {
        Some(EscrowError::NewSmeSameAsCurrent)
    } else {
        None
    }
}

pub open spec fn rotate_post(s: EscrowState, new_sme: Addr) -> EscrowState {
    let e = s.esc();
    EscrowState {
        escrow: Some(InvoiceEscrow { sme_address: new_sme, ..e }),
        events: seq![
            EscrowEvent::BeneficiaryRotated {
                invoice_id: e.invoice_id,
                prior_sme: e.sme_address,
                new_sme,
            },
        ],
        ..s
    }
}

/// Why `migrate(from_version)` refuses. No migration path exists, so every
/// call is refused; only the reason varies.
pub open spec fn migrate_error(s: EscrowState, from_version: u32) -> EscrowError {
    if s.version != from_version {
        EscrowError::MigrationVersionMismatch
    } else if from_version >= SCHEMA_VERSION {
        EscrowError::AlreadyCurrentSchemaVersion
    } else {
        EscrowError::NoMigrationPath
    }
}

impl EscrowContract {
    /// Turns the compliance hold on or off. While on, funding, settlement,
    /// withdrawal, claims, cancellation, rotation and sweeps are refused.
    /// Authorised by the admin.
    pub fn set_legal_hold(&mut self, active: bool) -> (r: Result<(), EscrowError>)
        requires
            old(self).wf(),
        ensures
            final(self).wf(),
            match r {
                Ok(()) => not_initialized_error(old(self)@) is None && final(self)@
                    == legal_hold_post(old(self)@, active),
                Err(err) => not_initialized_error(old(self)@) == Some(err) && final(self)@ == old(self)@,
            },
    {
        let e = match self.escrow {
            Some(e) => e,
            None => return Err(EscrowError::EscrowNotInitialized),
        };
        self.legal_hold = active;
        let ev = EscrowEvent::LegalHoldChanged {
            invoice_id: e.invoice_id,
            active: if active { 1 } else { 0 },
        };
        self.events = vec![ev];
        assert(self@.events =~= seq![ev]);
        Ok(())
    }

    /// Lifts the compliance hold. Authorised by the admin.
    pub fn clear_legal_hold(&mut self) -> (r: Result<(), EscrowError>)
        requires
            old(self).wf(),
        ensures
            final(self).wf(),
            match r {
                Ok(()) => not_initialized_error(old(self)@) is None && final(self)@
                    == legal_hold_post(old(self)@, false),
                Err(err) => not_initialized_error(old(self)@) == Some(err) && final(self)@ == old(self)@,
            },
    {
        self.set_legal_hold(false)
    }

    /// Nominates `new_admin`; the admin changes only when the nominee
    /// accepts. A new proposal replaces a pending one. Authorised by the
    /// current admin.
    pub fn propose_admin(&mut self, new_admin: Addr) -> (r: Result<Addr, EscrowError>)
        requires
            old(self).wf(),
        ensures
            final(self).wf(),
            match r {
                Ok(p) => propose_admin_error(old(self)@, new_admin) is None && final(self)@
                    == propose_admin_post(old(self)@, new_admin) && p == new_admin,
                Err(err) => propose_admin_error(old(self)@, new_admin) == Some(err) && final(self)@ == old(self)@,
            },
    {
        let e = match self.escrow {
            Some(e) => e,
            None => return Err(EscrowError::EscrowNotInitialized),
        };
        if new_admin == e.admin {
            return Err(EscrowError::NewAdminSameAsCurrent);
        }
        self.pending_admin = Some(new_admin);
        let ev = EscrowEvent::AdminProposed {
            invoice_id: e.invoice_id,
            current_admin: e.admin,
            pending_admin: new_admin,
        };
        self.events = vec![ev];
        assert(self@.events =~= seq![ev]);
        Ok(new_admin)
    }

    /// Older entry point kept for callers: proposes `new_admin` and returns
    /// the escrow, whose admin is unchanged. Authorised by the current admin.
    pub fn transfer_admin(&mut self, new_admin: Addr) -> (r: Result<InvoiceEscrow, EscrowError>)
        requires
            old(self).wf(),
        ensures
            final(self).wf(),
            match r {
                Ok(e) => propose_admin_error(old(self)@, new_admin) is None && final(self)@
                    == propose_admin_post(old(self)@, new_admin) && Some(e) == old(self)@.escrow,
                Err(err) => propose_admin_error(old(self)@, new_admin) == Some(err) && final(self)@ == old(self)@,
            },
    {
        let e = match self.escrow {
            Some(e) => e,
            None => return Err(EscrowError::EscrowNotInitialized),
        };
        match self.propose_admin(new_admin) {
            Ok(_) => Ok(e),
            Err(err) => Err(err),
        }
    }

    /// The nominee takes over as admin. Authorised by the pending admin.
    pub fn accept_admin(&mut self) -> (r: Result<InvoiceEscrow, EscrowError>)
        requires
            old(self).wf(),
        ensures
            final(self).wf(),
            match r {
                Ok(e) => pending_admin_error(old(self)@) is None && final(self)@
                    == accept_admin_post(old(self)@) && final(self)@.escrow == Some(e),
                Err(err) => pending_admin_error(old(self)@) == Some(err) && final(self)@ == old(self)@,
            },
    {
        let mut e = match self.escrow {
            Some(e) => e,
            None => return Err(EscrowError::EscrowNotInitialized),
        };
        let p = match self.pending_admin {
            Some(p) => p,
            None => return Err(EscrowError::NoPendingAdmin),
        };
        e.admin = p;
        self.escrow = Some(e);
        self.pending_admin = None;
        let ev = EscrowEvent::AdminTransferred { invoice_id: e.invoice_id, new_admin: p };
        self.events = vec![ev];
        assert(self@.events =~= seq![ev]);
        Ok(e)
    }

    /// Withdraws a pending nomination. Authorised by the current admin.
    pub fn cancel_pending_admin(&mut self) -> (r: Result<(), EscrowError>)
        requires
            old(self).wf(),
        ensures
            final(self).wf(),
            match r {
                Ok(()) => pending_admin_error(old(self)@) is None && final(self)@
                    == cancel_pending_admin_post(old(self)@),
                Err(err) => pending_admin_error(old(self)@) == Some(err) && final(self)@ == old(self)@,
            },
    {
        let e = match self.escrow {
            Some(e) => e,
            None => return Err(EscrowError::EscrowNotInitialized),
        };
        let p = match self.pending_admin {
            Some(p) => p,
            None => return Err(EscrowError::NoPendingAdmin),
        };
        self.pending_admin = None;
        let ev = EscrowEvent::AdminProposalCancelled { invoice_id: e.invoice_id, cancelled_admin: p };
        self.events = vec![ev];
        assert(self@.events =~= seq![ev]);
        Ok(())
    }

    /// Changes the funding target of an open escrow; it may not fall below
    /// what is already funded. Authorised by the admin.
    pub fn update_funding_target(&mut self, new_target: i128) -> (r: Result<
        InvoiceEscrow,
        EscrowError,
    >)
        requires
            old(self).wf(),
        ensures
            final(self).wf(),
            match r {
                Ok(e) => target_error(old(self)@, new_target) is None && final(self)@
                    == target_post(old(self)@, new_target) && final(self)@.escrow == Some(e),
                Err(err) => target_error(old(self)@, new_target) == Some(err) && final(self)@
                    == old(self)@,
            },
    {
        let mut e = match self.escrow {
            Some(e) => e,
            None => return Err(EscrowError::EscrowNotInitialized),
        };
        if new_target <= 0 {
            return Err(EscrowError::TargetNotPositive);
        }
        if e.status != STATUS_OPEN {
            return Err(EscrowError::TargetUpdateNotOpen);
        }
        if new_target < e.funded_amount {
            return Err(EscrowError::TargetBelowFundedAmount);
        }
        let old_target = e.funding_target;
        e.funding_target = new_target;
        self.escrow = Some(e);
        let ev = EscrowEvent::FundingTargetUpdated {
            invoice_id: e.invoice_id,
            old_target,
            new_target,
        };
        self.events = vec![ev];
        assert(self@.events =~= seq![ev]);
        Ok(e)
    }

    /// Changes the maturity of an open escrow; with maturity zero,
    /// settlement waits for no ledger time. Authorised by the admin.
    pub fn update_maturity(&mut self, new_maturity: u64) -> (r: Result<InvoiceEscrow, EscrowError>)
        requires
            old(self).wf(),
        ensures
            final(self).wf(),
            match r {
                Ok(e) => maturity_error(old(self)@, new_maturity) is None && final(self)@
                    == maturity_post(old(self)@, new_maturity) && final(self)@.escrow == Some(e),
                Err(err) => maturity_error(old(self)@, new_maturity) == Some(err) && final(self)@
                    == old(self)@,
            },
    {
        let mut e = match self.escrow {
            Some(e) => e,
            None => return Err(EscrowError::EscrowNotInitialized),
        };
        if e.status != STATUS_OPEN {
            return Err(EscrowError::MaturityUpdateNotOpen);
        }
        if new_maturity == e.maturity {
            return Err(EscrowError::MaturityUnchanged);
        }
        let old_maturity = e.maturity;
        e.maturity = new_maturity;
        self.escrow = Some(e);
        let ev = EscrowEvent::MaturityUpdated {
            invoice_id: e.invoice_id,
            old_maturity,
            new_maturity,
        };
        self.events = vec![ev];
        assert(self@.events =~= seq![ev]);
        Ok(e)
    }

    /// Lowers the cap on distinct funders of an open escrow, never below
    /// the funders already counted. Authorised by the admin.
    pub fn lower_max_unique_investors(&mut self, new_cap: u32) -> (r: Result<u32, EscrowError>)
        requires
            old(self).wf(),
        ensures
            final(self).wf(),
            match r {
                Ok(c) => lower_cap_error(old(self)@, new_cap) is None && final(self)@
                    == lower_cap_post(old(self)@, new_cap) && c == new_cap,
                Err(err) => lower_cap_error(old(self)@, new_cap) == Some(err) && final(self)@
                    == old(self)@,
            },
    {
        let e = match self.escrow {
            Some(e) => e,
            None => return Err(EscrowError::EscrowNotInitialized),
        };
        if e.status != STATUS_OPEN {
            return Err(EscrowError::CapLowerNotOpen);
        }
        let old_cap = match self.max_unique_investors {
            Some(c) => c,
            None => return Err(EscrowError::NoInvestorCapConfigured),
        };
        if new_cap >= old_cap {
            return Err(EscrowError::NewCapNotLower);
        }
        if new_cap < self.unique_funder_count {
            return Err(EscrowError::NewCapBelowCurrentFunderCount);
        }
        if new_cap == 0 {
            return Err(EscrowError::MaxUniqueInvestorsNotPositive);
        }
        self.max_unique_investors = Some(new_cap);
        let ev = EscrowEvent::InvestorCapLowered { invoice_id: e.invoice_id, old_cap, new_cap };
        self.events = vec![ev];
        assert(self@.events =~= seq![ev]);
        Ok(new_cap)
    }

    /// Moves the SME beneficiary to `new_sme` while the escrow is open or
    /// funded. Authorised by both the admin and the current SME.
    pub fn rotate_beneficiary(&mut self, new_sme: Addr) -> (r: Result<InvoiceEscrow, EscrowError>)
        requires
            old(self).wf(),
        ensures
            final(self).wf(),
            match r {
                Ok(e) => rotate_error(old(self)@, new_sme) is None && final(self)@ == rotate_post(
                    old(self)@,
                    new_sme,
                ) && final(self)@.escrow == Some(e),
                Err(err) => rotate_error(old(self)@, new_sme) == Some(err) && final(self)@ == old(self)@,
            },
    {
        let mut e = match self.escrow {
            Some(e) => e,
            None => return Err(EscrowError::EscrowNotInitialized),
        };
        if self.legal_hold {
            return Err(EscrowError::LegalHoldBlocksBeneficiaryRotation);
        }
        if e.status != STATUS_OPEN && e.status != STATUS_FUNDED {
            return Err(EscrowError::RotationNotOpen);
        }
        if new_sme == e.sme_address {
            return Err(EscrowError::NewSmeSameAsCurrent);
        }
        let prior_sme = e.sme_address;
        e.sme_address = new_sme;
        self.escrow = Some(e);
        let ev = EscrowEvent::BeneficiaryRotated { invoice_id: e.invoice_id, prior_sme, new_sme };
        self.events = vec![ev];
        assert(self@.events =~= seq![ev]);
        Ok(e)
    }

    /// Schema migration entry point. Stored data is already at the current
    /// schema, and no older schema has a path, so every call is refused
    /// with the reason given by [`migrate_error`]. Authorised by the admin.
    pub fn migrate(&self, from_version: u32) -> (r: Result<u32, EscrowError>)
        ensures
            r == Err::<u32, EscrowError>(migrate_error(self@, from_version)),
    {
        if self.version != from_version {
            return Err(EscrowError::MigrationVersionMismatch);
        }
        if from_version >= SCHEMA_VERSION {
            return Err(EscrowError::AlreadyCurrentSchemaVersion);
        }
        Err(EscrowError::NoMigrationPath)
    }
}

} // verus!
