use vstd::prelude::*;

use crate::book::{
    contributions_nonneg, keys_unique, lemma_index_is_key_index, lookup, total_contributions,
    BookEntry,
};
use crate::state::EscrowContract;
use crate::tiers::{lemma_tiers_error_none_iff_valid, validate_yield_tiers_table};
use crate::types::{MAX_YIELD_BPS, STATUS_CANCELLED, STATUS_FUNDED, STATUS_SETTLED, STATUS_WITHDRAWN};

verus! {

/// Every rate recorded in the entries is a valid rate.
pub open spec fn entry_rates_in_range(s: Seq<BookEntry>) -> bool {
    forall|i: int|
        #![trigger s[i]]
        0 <= i < s.len() ==> (s[i].record.effective_yield_bps matches Some(y) ==> 0 <= y
            <= MAX_YIELD_BPS)
}

/// With unique keys, checking the entries is checking every address.
pub proof fn lemma_rates_by_entry(s: Seq<BookEntry>)
    requires
        keys_unique(s),
    ensures
        entry_rates_in_range(s) <==> forall|a: crate::types::Addr|
            #![trigger lookup(s, a)]
            lookup(s, a).effective_yield_bps matches Some(y) ==> 0 <= y <= MAX_YIELD_BPS,
{
    if entry_rates_in_range(s) {
        assert forall|a: crate::types::Addr|
            #![trigger lookup(s, a)]
            (lookup(s, a).effective_yield_bps matches Some(y) ==> 0 <= y <= MAX_YIELD_BPS) by {
            if crate::book::has_key(s, a) {
                let k = crate::book::key_index(s, a);
                assert(s[k].investor == a);
            }
        }
    }
    if forall|a: crate::types::Addr|
        #![trigger lookup(s, a)]
        lookup(s, a).effective_yield_bps matches Some(y) ==> 0 <= y <= MAX_YIELD_BPS {
        assert forall|i: int|
            #![trigger s[i]]
            0 <= i < s.len() implies (s[i].record.effective_yield_bps matches Some(y) ==> 0 <= y
                <= MAX_YIELD_BPS) by {
            lemma_index_is_key_index(s, s[i].investor, i);
            assert(lookup(s, s[i].investor) == s[i].record);
        }
    }
}

/// The sum of a prefix of non-negative contributions never exceeds the
/// whole sum.
pub proof fn lemma_total_take_le(s: Seq<BookEntry>, k: int)
    requires
        contributions_nonneg(s),
        0 <= k <= s.len(),
    ensures
        total_contributions(s.take(k)) <= total_contributions(s),
    decreases s.len(),
{
    if k == s.len() {
        assert(s.take(k) =~= s);
    } else {
        let d = s.drop_last();
        assert forall|i: int| #![trigger d[i]] 0 <= i < d.len() implies d[i].record.contribution
            >= 0 by {
            assert(d[i] == s[i]);
        }
        assert(s.take(k) =~= d.take(k));
        lemma_total_take_le(d, k);
        assert(s[s.len() - 1].record.contribution >= 0);
    }
}

/// Whether no address occurs twice among the entries.
fn keys_are_unique(entries: &Vec<BookEntry>) -> (b: bool)
    ensures
        b == keys_unique(entries@),
{
    let n = entries.len();
    let mut i: usize = 0;
    while i < n
        invariant
            n == entries@.len(),
            0 <= i <= n,
            forall|p: int, q: int|
                #![trigger entries@[p], entries@[q]]
                0 <= p < i && 0 <= q < n && p != q ==> entries@[p].investor != entries@[q].investor,
        decreases n - i,
    {
        let mut j: usize = 0;
        while j < n
            invariant
                n == entries@.len(),
                0 <= i < n,
                0 <= j <= n,
                forall|p: int, q: int|
                    #![trigger entries@[p], entries@[q]]
                    0 <= p < i && 0 <= q < n && p != q ==> entries@[p].investor
                        != entries@[q].investor,
                forall|q: int|
                    #![trigger entries@[q]]
                    0 <= q < j && q != i ==> entries@[i as int].investor != entries@[q].investor,
            decreases n - j,
        {
            if j != i && entries[i].investor.0 == entries[j].investor.0 {
                assert(entries@[i as int].investor == entries@[j as int].investor);
                return false;
            }
            j = j + 1;
        }
        i = i + 1;
    }
    true
}

/// The sum of the contributions, when all are non-negative and the sum
/// fits an `i128`.
fn sum_contributions(entries: &Vec<BookEntry>) -> (r: Option<i128>)
    ensures
        r matches Some(t) ==> contributions_nonneg(entries@) && t == total_contributions(entries@),
        r is None ==> !contributions_nonneg(entries@) || total_contributions(entries@) > i128::MAX,
{
    let n = entries.len();
    let mut sum: i128 = 0;
    let mut i: usize = 0;
    while i < n
        invariant
            n == entries@.len(),
            0 <= i <= n,
            sum == total_contributions(entries@.take(i as int)),
            forall|k: int| #![trigger entries@[k]] 0 <= k < i ==> entries@[k].record.contribution >= 0,
        decreases n - i,
    {
        let c = entries[i].record.contribution;
        if c < 0 {
            assert(entries@[i as int].record.contribution < 0);
            return None;
        }
        proof {
            assert(entries@.take(i + 1).drop_last() =~= entries@.take(i as int));
            assert(entries@.take(i + 1).last() == entries@[i as int]);
        }
        match sum.checked_add(c) {
            Some(v) => {
                sum = v;
            },
            None => {
                proof {
                    if contributions_nonneg(entries@) {
                        lemma_total_take_le(entries@, i + 1);
                    }
                }
                return None;
            },
        }
        i = i + 1;
    }
    proof {
        assert(entries@.take(n as int) =~= entries@);
    }
    Some(sum)
}

/// Whether every recorded rate is a valid rate.
fn rates_in_range(entries: &Vec<BookEntry>) -> (b: bool)
    ensures
        b == entry_rates_in_range(entries@),
{
    let n = entries.len();
    let mut i: usize = 0;
    while i < n
        invariant
            n == entries@.len(),
            0 <= i <= n,
            forall|k: int|
                #![trigger entries@[k]]
                0 <= k < i ==> (entries@[k].record.effective_yield_bps matches Some(y) ==> 0 <= y
                    <= MAX_YIELD_BPS),
        decreases n - i,
    {
        if let Some(y) = entries[i].record.effective_yield_bps {
            if y < 0 || y > MAX_YIELD_BPS {
                assert(entries@[i as int].record.effective_yield_bps == Some(y));
                return false;
            }
        }
        i = i + 1;
    }
    true
}

impl EscrowContract {
    /// Whether the escrow satisfies its invariant: unique book keys,
    /// non-negative contributions, principal conservation, the close
    /// snapshot exactly once funding closed, and a valid configuration. A
    /// host that loads a stored escrow checks this before operating on it.
    pub fn is_well_formed(&self) -> (b: bool)
        ensures
            b == self.wf(),
    {
        if !keys_are_unique(&self.book.entries) {
            return false;
        }
        let total = match sum_contributions(&self.book.entries) {
            Some(t) => t,
            None => {
                return false;
            },
        };
        if self.distributed_principal < 0 {
            return false;
        }
        let e = match self.escrow {
            None => {
                return self.book.entries.len() == 0 && self.distributed_principal == 0
                    && self.funding_close_snapshot.is_none();
            },
            Some(e) => e,
        };
        proof {
            lemma_rates_by_entry(self.book.entries@);
            lemma_tiers_error_none_iff_valid(self.yield_tiers@, e.yield_bps);
        }
        if !(e.amount > 0 && e.funding_target > 0 && 0 <= e.yield_bps && e.yield_bps
            <= MAX_YIELD_BPS && e.status <= STATUS_CANCELLED && e.funded_amount >= 0
            && e.invoice_id.len <= 32 && self.funding_token.is_some() && self.treasury.is_some()) {
            return false;
        }
        if validate_yield_tiers_table(&self.yield_tiers, e.yield_bps).is_err() {
            return false;
        }
        if !rates_in_range(&self.book.entries) {
            return false;
        }
        if let Some(m) = self.min_contribution {
            if m <= 0 {
                return false;
            }
        }
        if let Some(c) = self.max_unique_investors {
            if c == 0 {
                return false;
            }
        }
        if let Some(c) = self.max_per_investor {
            if c <= 0 {
                return false;
            }
        }
        if e.status == STATUS_WITHDRAWN {
            if !(total == e.funded_amount && self.distributed_principal == e.funded_amount) {
                return false;
            }
        } else {
            match total.checked_add(self.distributed_principal) {
                Some(v) => {
                    if v != e.funded_amount {
                        return false;
                    }
                },
                None => {
                    return false;
                },
            }
            if e.status != STATUS_CANCELLED && self.distributed_principal != 0 {
                return false;
            }
        }
        let closed = e.status == STATUS_FUNDED || e.status == STATUS_SETTLED || e.status
            == STATUS_WITHDRAWN;
        match self.funding_close_snapshot {
            None => !closed,
            Some(snap) => closed && snap.total_principal == e.funded_amount && snap.funding_target
                == e.funding_target && e.funded_amount >= e.funding_target,
        }
    }
}

} // verus!
