use vstd::prelude::*;

use crate::error::EscrowError;
use crate::types::{YieldTier, MAX_YIELD_BPS};

verus! {

/// Why tier `i` of `tiers` is refused against base rate `base`, if it is.
pub open spec fn tier_error_at(tiers: Seq<YieldTier>, i: int, base: i64) -> Option<EscrowError> {
    let t = tiers[i];
    if t.yield_bps < 0 || t.yield_bps > MAX_YIELD_BPS {
        Some(EscrowError::TierYieldOutOfRange)
    } else if t.yield_bps < base {
        Some(EscrowError::TierYieldBelowBase)
    } else if i > 0 && t.min_lock_secs <= tiers[i - 1].min_lock_secs {
        Some(EscrowError::TierLockNotIncreasing)
    } else if i > 0 && t.yield_bps < tiers[i - 1].yield_bps {
        Some(EscrowError::TierYieldNotNonDecreasing)
    } else {
        None
    }
}

/// The first reason, scanning tiers in order, why the table is refused.
pub open spec fn tiers_error(tiers: Seq<YieldTier>, base: i64) -> Option<EscrowError>
    decreases tiers.len(),
{
    if tiers.len() == 0 {
        None
    } else {
        match tiers_error(tiers.drop_last(), base) {
            Some(e) => Some(e),
            None => tier_error_at(tiers, tiers.len() - 1, base),
        }
    }
}

/// A fair ladder: every rate in range and at least the base rate, lock
/// thresholds strictly increasing, rates never decreasing.
pub open spec fn tiers_valid(tiers: Seq<YieldTier>, base: i64) -> bool {
    &&& forall|i: int|
        #![trigger tiers[i]]
        0 <= i < tiers.len() ==> 0 <= tiers[i].yield_bps <= MAX_YIELD_BPS && base
            <= tiers[i].yield_bps
    &&& forall|i: int, j: int|
        #![trigger tiers[i], tiers[j]]
        0 <= i < j < tiers.len() ==> tiers[i].min_lock_secs < tiers[j].min_lock_secs
            && tiers[i].yield_bps <= tiers[j].yield_bps
}

/// The rate and lock threshold that a commitment of `lock` seconds earns:
/// the last tier whose threshold it meets, or the base rate with threshold 0.
pub open spec fn select_tier(tiers: Seq<YieldTier>, base: i64, lock: u64) -> (i64, u64)
    decreases tiers.len(),
{
    if tiers.len() == 0 {
        (base, 0)
    } else if tiers.last().min_lock_secs <= lock {
        (tiers.last().yield_bps, tiers.last().min_lock_secs)
    } else {
        select_tier(tiers.drop_last(), base, lock)
    }
}

proof fn lemma_tier_error_at_prefix(tiers: Seq<YieldTier>, n: int, i: int, base: i64)
    requires
        0 <= i < n <= tiers.len(),
    ensures
        tier_error_at(tiers.take(n), i, base) == tier_error_at(tiers, i, base),
{
    assert(tiers.take(n)[i] == tiers[i]);
    if i > 0 {
        assert(tiers.take(n)[i - 1] == tiers[i - 1]);
    }
}

/// The validation scan accepts exactly the fair ladders.
pub proof fn lemma_tiers_error_none_iff_valid(tiers: Seq<YieldTier>, base: i64)
    ensures
        tiers_error(tiers, base) is None <==> tiers_valid(tiers, base),
    decreases tiers.len(),
{
    if tiers.len() > 0 {
        let d = tiers.drop_last();
        let n = tiers.len() - 1;
        lemma_tiers_error_none_iff_valid(d, base);
        assert(d =~= tiers.take(n));
        if tiers_error(tiers, base) is None {
            assert(tiers_valid(d, base));
            let last = tiers[n];
            assert(tier_error_at(tiers, n, base) is None);
            assert forall|i: int| #![trigger tiers[i]] 0 <= i < tiers.len() implies 0
                <= tiers[i].yield_bps <= MAX_YIELD_BPS && base <= tiers[i].yield_bps by {
                if i < n {
                    assert(d[i] == tiers[i]);
                }
            }
            assert forall|i: int, j: int|
                #![trigger tiers[i], tiers[j]]
                0 <= i < j < tiers.len() implies tiers[i].min_lock_secs < tiers[j].min_lock_secs
                && tiers[i].yield_bps <= tiers[j].yield_bps by {
                if j < n {
                    assert(d[i] == tiers[i] && d[j] == tiers[j]);
                } else if i < n - 1 {
                    assert(d[i] == tiers[i] && d[n - 1] == tiers[n - 1]);
                }
            }
        } else if tiers_valid(tiers, base) {
            assert forall|i: int| #![trigger d[i]] 0 <= i < d.len() implies 0 <= d[i].yield_bps
                <= MAX_YIELD_BPS && base <= d[i].yield_bps by {
                assert(d[i] == tiers[i]);
            }
            assert forall|i: int, j: int|
                #![trigger d[i], d[j]]
                0 <= i < j < d.len() implies d[i].min_lock_secs < d[j].min_lock_secs
                && d[i].yield_bps <= d[j].yield_bps by {
                assert(d[i] == tiers[i] && d[j] == tiers[j]);
            }
            assert(tiers[n].yield_bps >= 0);
            if n > 0 {
                assert(tiers[n - 1].min_lock_secs < tiers[n].min_lock_secs);
            }
            assert(tier_error_at(tiers, n, base) is None);
        }
    }
}

/// Under a fair ladder, the rate a commitment earns is at least the base
/// rate and at least the rate of every tier whose threshold it meets.
pub proof fn lemma_select_tier_is_best(tiers: Seq<YieldTier>, base: i64, lock: u64)
    requires
        tiers_valid(tiers, base),
    ensures
        select_tier(tiers, base, lock).0 >= base,
        forall|i: int|
            #![trigger tiers[i]]
            0 <= i < tiers.len() && tiers[i].min_lock_secs <= lock ==> tiers[i].yield_bps
                <= select_tier(tiers, base, lock).0,
        select_tier(tiers, base, lock).1 <= lock,
    decreases tiers.len(),
{
    if tiers.len() > 0 {
        let d = tiers.drop_last();
        let n = tiers.len() - 1;
        assert forall|i: int| #![trigger d[i]] 0 <= i < d.len() implies 0 <= d[i].yield_bps
            <= MAX_YIELD_BPS && base <= d[i].yield_bps by {
            assert(d[i] == tiers[i]);
        }
        assert forall|i: int, j: int|
            #![trigger d[i], d[j]]
            0 <= i < j < d.len() implies d[i].min_lock_secs < d[j].min_lock_secs && d[i].yield_bps
            <= d[j].yield_bps by {
            assert(d[i] == tiers[i] && d[j] == tiers[j]);
        }
        lemma_select_tier_is_best(d, base, lock);
        if tiers[n].min_lock_secs <= lock {
            assert(tiers[n].yield_bps >= base);
        } else {
            assert forall|i: int|
                #![trigger tiers[i]]
                0 <= i < tiers.len() && tiers[i].min_lock_secs <= lock implies tiers[i].yield_bps
                <= select_tier(tiers, base, lock).0 by {
                assert(i != n);
                assert(d[i] == tiers[i]);
            }
        }
    }
}

/// Under a fair ladder, committing to a longer lock never earns less.
pub proof fn lemma_select_tier_monotone(tiers: Seq<YieldTier>, base: i64, lock1: u64, lock2: u64)
    requires
        tiers_valid(tiers, base),
        lock1 <= lock2,
    ensures
        select_tier(tiers, base, lock1).0 <= select_tier(tiers, base, lock2).0,
    decreases tiers.len(),
{
    if tiers.len() > 0 {
        let d = tiers.drop_last();
        let n = tiers.len() - 1;
        assert forall|i: int| #![trigger d[i]] 0 <= i < d.len() implies 0 <= d[i].yield_bps
            <= MAX_YIELD_BPS && base <= d[i].yield_bps by {
            assert(d[i] == tiers[i]);
        }
        assert forall|i: int, j: int|
            #![trigger d[i], d[j]]
            0 <= i < j < d.len() implies d[i].min_lock_secs < d[j].min_lock_secs && d[i].yield_bps
            <= d[j].yield_bps by {
            assert(d[i] == tiers[i] && d[j] == tiers[j]);
        }
        lemma_select_tier_monotone(d, base, lock1, lock2);
        if tiers[n].min_lock_secs <= lock1 {
        } else if tiers[n].min_lock_secs <= lock2 {
            lemma_select_tier_is_best(tiers, base, lock1);
            lemma_select_tier_is_best(d, base, lock1);
            if d.len() > 0 {
                assert(select_tier(d, base, lock1).0 <= tiers[n].yield_bps) by {
                    lemma_select_within(d, base, lock1);
                    if select_tier(d, base, lock1).0 != base {
                        let k = choose|k: int|
                            #![trigger d[k]]
                            0 <= k < d.len() && d[k].yield_bps == select_tier(d, base, lock1).0;
                        assert(d[k] == tiers[k]);
                    }
                }
            }
        }
    }
}

/// The rate selected is either the base rate or one of the tiers' rates.
pub proof fn lemma_select_within(tiers: Seq<YieldTier>, base: i64, lock: u64)
    ensures
        select_tier(tiers, base, lock).0 == base || exists|k: int|
            #![trigger tiers[k]]
            0 <= k < tiers.len() && tiers[k].yield_bps == select_tier(tiers, base, lock).0,
    decreases tiers.len(),
{
    if tiers.len() > 0 {
        let d = tiers.drop_last();
        let n = tiers.len() - 1;
        if tiers[n].min_lock_secs <= lock {
            assert(tiers[n].yield_bps == select_tier(tiers, base, lock).0);
        } else {
            lemma_select_within(d, base, lock);
            if select_tier(d, base, lock).0 != base {
                let k = choose|k: int|
                    #![trigger d[k]]
                    0 <= k < d.len() && d[k].yield_bps == select_tier(d, base, lock).0;
                assert(d[k] == tiers[k]);
            }
        }
    }
}

/// Checks a yield ladder against the base rate; the first refused tier, in
/// order, decides the error.
pub fn validate_yield_tiers_table(tiers: &Vec<YieldTier>, base: i64) -> (r: Result<(), EscrowError>)
    ensures
        match tiers_error(tiers@, base) {
            Some(e) => r == Err::<(), EscrowError>(e),
            None => r is Ok,
        },
{
    let n = tiers.len();
    let mut i: usize = 0;
    while i < n
        invariant
            n == tiers@.len(),
            0 <= i <= n,
            tiers_error(tiers@.take(i as int), base) is None,
        decreases n - i,
    {
        let t = tiers[i];
        proof {
            let p = tiers@.take(i as int + 1);
            assert(p.drop_last() =~= tiers@.take(i as int));
            lemma_tier_error_at_prefix(tiers@, i as int + 1, i as int, base);
        }
        if t.yield_bps < 0 || t.yield_bps > MAX_YIELD_BPS {
            proof { lemma_tiers_error_prefix_some(tiers@, i as int + 1, base); }
            return Err(EscrowError::TierYieldOutOfRange);
        }
        if t.yield_bps < base {
            proof { lemma_tiers_error_prefix_some(tiers@, i as int + 1, base); }
            return Err(EscrowError::TierYieldBelowBase);
        }
        if i > 0 && t.min_lock_secs <= tiers[i - 1].min_lock_secs {
            proof { lemma_tiers_error_prefix_some(tiers@, i as int + 1, base); }
            return Err(EscrowError::TierLockNotIncreasing);
        }
        if i > 0 && t.yield_bps < tiers[i - 1].yield_bps {
            proof { lemma_tiers_error_prefix_some(tiers@, i as int + 1, base); }
            return Err(EscrowError::TierYieldNotNonDecreasing);
        }
        i = i + 1;
    }
    assert(tiers@.take(n as int) =~= tiers@);
    Ok(())
}

/// Once a prefix is refused, the whole table is refused for the same reason.
proof fn lemma_tiers_error_prefix_some(tiers: Seq<YieldTier>, n: int, base: i64)
    requires
        0 <= n <= tiers.len(),
        tiers_error(tiers.take(n), base) is Some,
    ensures
        tiers_error(tiers, base) == tiers_error(tiers.take(n), base),
    decreases tiers.len() - n,
{
    if n < tiers.len() {
        let m = n + 1;
        assert(tiers.take(m).drop_last() =~= tiers.take(n));
        lemma_tiers_error_prefix_some(tiers, m, base);
    } else {
        assert(tiers.take(n) =~= tiers);
    }
}

/// The rate and matched lock threshold that a first deposit committing to
/// `lock` seconds earns (see [`select_tier`]).
pub fn effective_yield_for_commitment(tiers: &Vec<YieldTier>, base: i64, lock: u64) -> (r: (
    i64,
    u64,
))
    ensures
        r == select_tier(tiers@, base, lock),
{
    let n = tiers.len();
    let mut best: (i64, u64) = (base, 0);
    let mut i: usize = 0;
    while i < n
        invariant
            n == tiers@.len(),
            0 <= i <= n,
            best == select_tier(tiers@.take(i as int), base, lock),
        decreases n - i,
    {
        let t = tiers[i];
        proof {
            let p = tiers@.take(i as int + 1);
            assert(p.drop_last() =~= tiers@.take(i as int));
            assert(p.last() == t);
        }
        if t.min_lock_secs <= lock {
            best = (t.yield_bps, t.min_lock_secs);
        }
        i = i + 1;
    }
    assert(tiers@.take(n as int) =~= tiers@);
    best
}

} // verus!
