use vstd::prelude::*;

use crate::error::EscrowError;
use crate::state::{EscrowContract, EscrowEvent, EscrowState};
use crate::types::{Addr, Label, SmeCollateralCommitment, MAX_ATTESTATION_APPEND_ENTRIES};

verus! {

pub open spec fn registry_post(s: EscrowState, registry: Option<Addr>) -> EscrowState {
    EscrowState {
        registry,
        events: seq![
            EscrowEvent::RegistryRefRebound { invoice_id: s.esc().invoice_id, registry },
        ],
        ..s
    }
}

pub open spec fn collateral_error(s: EscrowState, asset: Label, amount: i128, now: u64) -> Option<
    EscrowError,
> {
    if s.escrow is None {
        Some(EscrowError::EscrowNotInitialized)
    } else if amount <= 0 {
        Some(EscrowError::CollateralAmountNotPositive)
    } else if asset.len == 0 {
        Some(EscrowError::CollateralAssetEmpty)
    } else if s.collateral matches Some(c) && now < c.recorded_at {
        Some(EscrowError::CollateralTimestampBackwards)
    } else {
        None
    }
}

pub open spec fn collateral_post(s: EscrowState, asset: Label, amount: i128, now: u64) -> EscrowState {
    EscrowState {
        collateral: Some(SmeCollateralCommitment { asset, amount, recorded_at: now }),
        events: seq![
            EscrowEvent::CollateralRecorded {
                invoice_id: s.esc().invoice_id,
                amount,
                prior_amount: match s.collateral {
                    Some(c) => c.amount,
                    None => 0,
                },
            },
        ],
        ..s
    }
}

pub open spec fn bind_error(s: EscrowState) -> Option<EscrowError> {
    if s.escrow is None {
        Some(EscrowError::EscrowNotInitialized)
    } else if s.primary_attestation is Some {
        Some(EscrowError::PrimaryAttestationAlreadyBound)
    } else {
        None
    }
}

pub open spec fn bind_post(s: EscrowState, digest: [u8; 32]) -> EscrowState {
    EscrowState {
        primary_attestation: Some(digest),
        events: seq![
            EscrowEvent::PrimaryAttestationBound { invoice_id: s.esc().invoice_id, digest },
        ],
        ..s
    }
}

pub open spec fn append_error(s: EscrowState) -> Option<EscrowError> {
    if s.escrow is None {
        Some(EscrowError::EscrowNotInitialized)
    } else if s.attestation_log.len() >= MAX_ATTESTATION_APPEND_ENTRIES {
        Some(EscrowError::AttestationAppendLogCapacityReached)
    } else {
        None
    }
}

pub open spec fn append_post(s: EscrowState, digest: [u8; 32]) -> EscrowState {
    EscrowState {
        attestation_log: s.attestation_log.push(digest),
        events: seq![
            EscrowEvent::AttestationAppended {
                invoice_id: s.esc().invoice_id,
                index: s.attestation_log.len() as u32,
                digest,
            },
        ],
        ..s
    }
}

impl EscrowContract {
    /// Points the escrow at an invoice registry, or at none. Authorised by
    /// the admin.
    pub fn rebind_registry_ref(&mut self, registry: Option<Addr>) -> (r: Result<(), EscrowError>)
        requires
            old(self).wf(),
        ensures
            final(self).wf(),
            match r {
                Ok(()) => old(self)@.escrow is Some && final(self)@ == registry_post(
                    old(self)@,
                    registry,
                ),
                Err(err) => old(self)@.escrow is None && err == EscrowError::EscrowNotInitialized
                    && final(self)@ == old(self)@,
            },
    {
        let e = match self.escrow {
            Some(e) => e,
            None => return Err(EscrowError::EscrowNotInitialized),
        };
        self.registry = registry;
        let ev = EscrowEvent::RegistryRefRebound { invoice_id: e.invoice_id, registry };
        self.events = vec![ev];
        assert(self@.events =~= seq![ev]);
        Ok(())
    }

    /// Drops the registry reference. Authorised by the admin.
    pub fn clear_registry_ref(&mut self) -> (r: Result<(), EscrowError>)
        requires
            old(self).wf(),
        ensures
            final(self).wf(),
            match r {
                Ok(()) => old(self)@.escrow is Some && final(self)@ == registry_post(
                    old(self)@,
                    None,
                ),
                Err(err) => old(self)@.escrow is None && err == EscrowError::EscrowNotInitialized
                    && final(self)@ == old(self)@,
            },
    {
        self.rebind_registry_ref(None)
    }

    /// Records (or replaces) the SME's collateral commitment at ledger time
    /// `now`. Metadata only: no token moves and nothing else depends on it.
    /// Authorised by the SME.
    pub fn record_sme_collateral_commitment(&mut self, asset: Label, amount: i128, now: u64) -> (r:
        Result<SmeCollateralCommitment, EscrowError>)
        requires
            old(self).wf(),
        ensures
            final(self).wf(),
            match r {
                Ok(c) => collateral_error(old(self)@, asset, amount, now) is None && final(self)@
                    == collateral_post(old(self)@, asset, amount, now) && final(self)@.collateral
                    == Some(c),
                Err(err) => collateral_error(old(self)@, asset, amount, now) == Some(err) && final(self)@ == old(self)@,
            },
    {
        let e = match self.escrow {
            Some(e) => e,
            None => return Err(EscrowError::EscrowNotInitialized),
        };
        if amount <= 0 {
            return Err(EscrowError::CollateralAmountNotPositive);
        }
        if asset.len == 0 {
            return Err(EscrowError::CollateralAssetEmpty);
        }
        let prior_amount = match self.collateral {
            Some(c) => {
                if now < c.recorded_at {
                    return Err(EscrowError::CollateralTimestampBackwards);
                }
                c.amount
            },
            None => 0,
        };
        let c = SmeCollateralCommitment { asset, amount, recorded_at: now };
        self.collateral = Some(c);
        let ev = EscrowEvent::CollateralRecorded { invoice_id: e.invoice_id, amount, prior_amount };
        self.events = vec![ev];
        assert(self@.events =~= seq![ev]);
        Ok(c)
    }

    /// Binds the primary attestation digest, once. Authorised by the admin.
    pub fn bind_primary_attestation_hash(&mut self, digest: [u8; 32]) -> (r: Result<
        (),
        EscrowError,
    >)
        requires
            old(self).wf(),
        ensures
            final(self).wf(),
            match r {
                Ok(()) => bind_error(old(self)@) is None && final(self)@ == bind_post(
                    old(self)@,
                    digest,
                ),
                Err(err) => bind_error(old(self)@) == Some(err) && final(self)@ == old(self)@,
            },
    {
        let e = match self.escrow {
            Some(e) => e,
            None => return Err(EscrowError::EscrowNotInitialized),
        };
        if self.primary_attestation.is_some() {
            return Err(EscrowError::PrimaryAttestationAlreadyBound);
        }
        self.primary_attestation = Some(digest);
        let ev = EscrowEvent::PrimaryAttestationBound { invoice_id: e.invoice_id, digest };
        self.events = vec![ev];
        assert(self@.events =~= seq![ev]);
        Ok(())
    }

    /// Appends a digest to the bounded attestation log. Authorised by the admin.
    pub fn append_attestation_digest(&mut self, digest: [u8; 32]) -> (r: Result<u32, EscrowError>)
        requires
            old(self).wf(),
        ensures
            final(self).wf(),
            match r {
                Ok(i) => append_error(old(self)@) is None && final(self)@ == append_post(
                    old(self)@,
                    digest,
                ) && i == old(self)@.attestation_log.len(),
                Err(err) => append_error(old(self)@) == Some(err) && final(self)@ == old(self)@,
            },
    {
        let e = match self.escrow {
            Some(e) => e,
            None => return Err(EscrowError::EscrowNotInitialized),
        };
        let n = self.attestation_log.len();
        if n >= MAX_ATTESTATION_APPEND_ENTRIES {
            return Err(EscrowError::AttestationAppendLogCapacityReached);
        }
        self.attestation_log.push(digest);
        let index = n as u32;
        let ev = EscrowEvent::AttestationAppended { invoice_id: e.invoice_id, index, digest };
        self.events = vec![ev];
        assert(self@.events =~= seq![ev]);
        Ok(index)
    }
}

} // verus!
