use vstd::prelude::*;

use crate::book::{
    book_set, contributions_nonneg, keys_unique, lemma_book_set, lookup, total_contributions,
    BookEntry,
};
use crate::error::EscrowError;
use crate::state::{EscrowContract, EscrowEvent, EscrowState};
use crate::types::{Addr, InvestorRecord, Label, MAX_INVESTOR_ALLOWLIST_BATCH};

verus! {

pub open spec fn flag(b: bool) -> u32 {
    if b {
        1
    } else {
        0
    }
}

/// `a`'s record with its allowlist entry set to `allowed`.
pub open spec fn with_allowlisted(r: InvestorRecord, allowed: bool) -> InvestorRecord {
    InvestorRecord { allowlisted: allowed, ..r }
}

/// The book after setting the allowlist entry of each of `investors`, in order.
pub open spec fn allowlist_all(book: Seq<BookEntry>, investors: Seq<Addr>, allowed: bool) -> Seq<
    BookEntry,
>
    decreases investors.len(),
{
    if investors.len() == 0 {
        book
    } else {
        let prior = allowlist_all(book, investors.drop_last(), allowed);
        let a = investors.last();
        book_set(prior, a, with_allowlisted(lookup(prior, a), allowed))
    }
}

/// Setting allowlist entries changes nothing but those entries.
pub proof fn lemma_allowlist_all(book: Seq<BookEntry>, investors: Seq<Addr>, allowed: bool)
    requires
        keys_unique(book),
    ensures
        keys_unique(allowlist_all(book, investors, allowed)),
        total_contributions(allowlist_all(book, investors, allowed)) == total_contributions(book),
        contributions_nonneg(book) ==> contributions_nonneg(allowlist_all(book, investors, allowed)),
        forall|a: Addr|
            #![trigger lookup(allowlist_all(book, investors, allowed), a)]
            lookup(allowlist_all(book, investors, allowed), a) == if investors.contains(a) {
                with_allowlisted(lookup(book, a), allowed)
            } else {
                lookup(book, a)
            },
    decreases investors.len(),
{
    if investors.len() > 0 {
        let d = investors.drop_last();
        let prior = allowlist_all(book, d, allowed);
        let a = investors.last();
        lemma_allowlist_all(book, d, allowed);
        lemma_book_set(prior, a, with_allowlisted(lookup(prior, a), allowed));
        assert forall|b: Addr|
            #![trigger lookup(allowlist_all(book, investors, allowed), b)]
            lookup(allowlist_all(book, investors, allowed), b) == if investors.contains(b) {
                with_allowlisted(lookup(book, b), allowed)
            } else {
                lookup(book, b)
            } by {
            assert(investors.contains(b) <==> (d.contains(b) || b == a)) by {
                if investors.contains(b) {
                    let k = choose|k: int| 0 <= k < investors.len() && investors[k] == b;
                    if k < d.len() {
                        assert(d[k] == b);
                    }
                }
                if d.contains(b) {
                    let k = choose|k: int| 0 <= k < d.len() && d[k] == b;
                    assert(investors[k] == b);
                }
                if b == a {
                    assert(investors[investors.len() - 1] == b);
                }
            }
            if b != a {
                assert(lookup(allowlist_all(book, investors, allowed), b) == lookup(prior, b));
            }
        }
    }
}

pub open spec fn batch_error(s: EscrowState, n: int) -> Option<EscrowError> {
    if s.escrow is None {
        Some(EscrowError::EscrowNotInitialized)
    } else if n == 0 {
        Some(EscrowError::InvestorBatchEmpty)
    } else if n > MAX_INVESTOR_ALLOWLIST_BATCH {
        Some(EscrowError::InvestorBatchTooLarge)
    } else {
        None
    }
}

pub open spec fn allowlist_event(id: Label, a: Addr, allowed: bool) -> EscrowEvent {
    EscrowEvent::InvestorAllowlistChanged { invoice_id: id, investor: a, allowed: flag(allowed) }
}

/// One per-investor event per listed address, then one summary event.
pub open spec fn batch_events(id: Label, investors: Seq<Addr>, allowed: bool) -> Seq<EscrowEvent> {
    Seq::new(investors.len(), |i: int| allowlist_event(id, investors[i], allowed)).push(
        EscrowEvent::InvestorAllowlistBatchApplied {
            invoice_id: id,
            batch_size: investors.len() as u32,
            allowed: flag(allowed),
        },
    )
}

pub open spec fn batch_post(s: EscrowState, investors: Seq<Addr>, allowed: bool) -> EscrowState {
    EscrowState {
        book: allowlist_all(s.book, investors, allowed),
        events: batch_events(s.esc().invoice_id, investors, allowed),
        ..s
    }
}

pub open spec fn allowlist_active_post(s: EscrowState, active: bool) -> EscrowState {
    EscrowState {
        allowlist_active: active,
        events: seq![
            EscrowEvent::AllowlistEnabledChanged {
                invoice_id: s.esc().invoice_id,
                active: flag(active),
            },
        ],
        ..s
    }
}

pub open spec fn allowlist_one_post(s: EscrowState, investor: Addr, allowed: bool) -> EscrowState {
    EscrowState {
        book: book_set(s.book, investor, with_allowlisted(s.rec(investor), allowed)),
        events: seq![allowlist_event(s.esc().invoice_id, investor, allowed)],
        ..s
    }
}

impl EscrowContract {
    /// Turns allowlist gating of deposits on or off; entries are kept
    /// either way. Authorised by the admin.
    pub fn set_allowlist_active(&mut self, active: bool) -> (r: Result<(), EscrowError>)
        requires
            old(self).wf(),
        ensures
            final(self).wf(),
            match r {
                Ok(()) => old(self)@.escrow is Some && final(self)@ == allowlist_active_post(
                    old(self)@,
                    active,
                ),
                Err(err) => old(self)@.escrow is None && err == EscrowError::EscrowNotInitialized
                    && final(self)@ == old(self)@,
            },
    {
        let e = match self.escrow {
            Some(e) => e,
            None => return Err(EscrowError::EscrowNotInitialized),
        };
        self.allowlist_active = active;
        let ev = EscrowEvent::AllowlistEnabledChanged {
            invoice_id: e.invoice_id,
            active: if active { 1 } else { 0 },
        };
        self.events = vec![ev];
        assert(self@.events =~= seq![ev]);
        Ok(())
    }

    fn set_allowlisted_entry(&mut self, investor: Addr, allowed: bool)
        requires
            old(self).wf(),
            old(self)@.escrow is Some,
        ensures
            final(self).wf(),
            final(self)@ == (EscrowState {
                book: book_set(
                    old(self)@.book,
                    investor,
                    with_allowlisted(old(self)@.rec(investor), allowed),
                ),
                ..old(self)@
            }),
    {
        let ghost s = self@;
        let rec = self.book.get(investor);
        let nr = InvestorRecord { allowlisted: allowed, ..rec };
        proof {
            lemma_book_set(s.book, investor, nr);
        }
        self.book.set(investor, nr);
    }

    /// Sets whether `investor` may deposit while gating is on. Authorised
    /// by the admin.
    pub fn set_investor_allowlisted(&mut self, investor: Addr, allowed: bool) -> (r: Result<
        (),
        EscrowError,
    >)
        requires
            old(self).wf(),
        ensures
            final(self).wf(),
            match r {
                Ok(()) => old(self)@.escrow is Some && final(self)@ == allowlist_one_post(
                    old(self)@,
                    investor,
                    allowed,
                ),
                Err(err) => old(self)@.escrow is None && err == EscrowError::EscrowNotInitialized
                    && final(self)@ == old(self)@,
            },
    {
        let e = match self.escrow {
            Some(e) => e,
            None => return Err(EscrowError::EscrowNotInitialized),
        };
        self.set_allowlisted_entry(investor, allowed);
        let ev = EscrowEvent::InvestorAllowlistChanged {
            invoice_id: e.invoice_id,
            investor,
            allowed: if allowed { 1 } else { 0 },
        };
        self.events = vec![ev];
        assert(self@.events =~= seq![ev]);
        Ok(())
    }

    /// Sets the allowlist entry of each listed address (1 to
    /// `MAX_INVESTOR_ALLOWLIST_BATCH` of them). Authorised by the admin.
    pub fn set_investors_allowlisted(&mut self, investors: &Vec<Addr>, allowed: bool) -> (r: Result<
        (),
        EscrowError,
    >)
        requires
            old(self).wf(),
        ensures
            final(self).wf(),
            match r {
                Ok(()) => batch_error(old(self)@, investors@.len() as int) is None && final(self)@
                    == batch_post(old(self)@, investors@, allowed),
                Err(err) => batch_error(old(self)@, investors@.len() as int) == Some(err) && final(self)@ == old(self)@,
            },
    {
        let ghost s = self@;
        let e = match self.escrow {
            Some(e) => e,
            None => return Err(EscrowError::EscrowNotInitialized),
        };
        let n = investors.len();
        if n == 0 {
            return Err(EscrowError::InvestorBatchEmpty);
        }
        if n > MAX_INVESTOR_ALLOWLIST_BATCH {
            return Err(EscrowError::InvestorBatchTooLarge);
        }
        let flag_value: u32 = if allowed { 1 } else { 0 };
        let mut events: Vec<EscrowEvent> = Vec::new();
        let mut i: usize = 0;
        while i < n
            invariant
                n == investors@.len(),
                n <= MAX_INVESTOR_ALLOWLIST_BATCH,
                0 <= i <= n,
                s.wf(),
                s.escrow == Some(e),
                flag_value == flag(allowed),
                self.wf(),
                self@ == (EscrowState {
                    book: allowlist_all(s.book, investors@.take(i as int), allowed),
                    ..s
                }),
                events@ =~= Seq::new(
                    i as nat,
                    |k: int| allowlist_event(e.invoice_id, investors@[k], allowed),
                ),
            decreases n - i,
        {
            let a = investors[i];
            proof {
                let t = investors@.take(i as int + 1);
                assert(t.drop_last() =~= investors@.take(i as int));
                assert(t.last() == a);
            }
            self.set_allowlisted_entry(a, allowed);
            events.push(
                EscrowEvent::InvestorAllowlistChanged {
                    invoice_id: e.invoice_id,
                    investor: a,
                    allowed: flag_value,
                },
            );
            i = i + 1;
        }
        assert(investors@.take(n as int) =~= investors@);
        events.push(
            EscrowEvent::InvestorAllowlistBatchApplied {
                invoice_id: e.invoice_id,
                batch_size: n as u32,
                allowed: flag_value,
            },
        );
        self.events = events;
        assert(self@.events =~= batch_events(e.invoice_id, investors@, allowed));
        Ok(())
    }
}

} // verus!
