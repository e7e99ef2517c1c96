use vstd::prelude::*;

use crate::types::{Addr, InvestorRecord};

verus! {

/// One address together with what the escrow keeps about it.
#[derive(Clone, Copy, Debug)]
pub struct BookEntry {
    pub investor: Addr,
    pub record: InvestorRecord,
}

/// Per-address records, in order of first appearance, each address at most once.
pub struct InvestorBook {
    pub entries: Vec<BookEntry>,
}

impl View for InvestorBook {
    type V = Seq<BookEntry>;

    open spec fn view(&self) -> Seq<BookEntry> {
        self.entries@
    }
}

/// No address appears twice.
pub open spec fn keys_unique(s: Seq<BookEntry>) -> bool {
    forall|i: int, j: int|
        #![trigger s[i], s[j]]
        0 <= i < s.len() && 0 <= j < s.len() && i != j ==> s[i].investor != s[j].investor
}

pub open spec fn has_key(s: Seq<BookEntry>, a: Addr) -> bool {
    exists|i: int| #![trigger s[i]] 0 <= i < s.len() && s[i].investor == a
}

pub open spec fn key_index(s: Seq<BookEntry>, a: Addr) -> int {
    choose|i: int| #![trigger s[i]] 0 <= i < s.len() && s[i].investor == a
}

/// The record kept for `a`, or the empty record when `a` was never seen.
pub open spec fn lookup(s: Seq<BookEntry>, a: Addr) -> InvestorRecord {
    if has_key(s, a) {
        s[key_index(s, a)].record
    } else {
        InvestorRecord::empty()
    }
}

/// The book after recording `r` for `a`: in place when `a` is known,
/// appended otherwise.
pub open spec fn book_set(s: Seq<BookEntry>, a: Addr, r: InvestorRecord) -> Seq<BookEntry> {
    if has_key(s, a) {
        s.update(key_index(s, a), BookEntry { investor: a, record: r })
    } else {
        s.push(BookEntry { investor: a, record: r })
    }
}

/// Sum of all recorded contributions.
pub open spec fn total_contributions(s: Seq<BookEntry>) -> int
    decreases s.len(),
{
    if s.len() == 0 {
        0
    } else {
        total_contributions(s.drop_last()) + s.last().record.contribution
    }
}

pub open spec fn contributions_nonneg(s: Seq<BookEntry>) -> bool {
    forall|i: int| #![trigger s[i]] 0 <= i < s.len() ==> s[i].record.contribution >= 0
}

pub proof fn lemma_index_is_key_index(s: Seq<BookEntry>, a: Addr, i: int)
    requires
        keys_unique(s),
        0 <= i < s.len(),
        s[i].investor == a,
    ensures
        has_key(s, a),
        key_index(s, a) == i,
        lookup(s, a) == s[i].record,
{
    assert(has_key(s, a));
    let k = key_index(s, a);
    assert(s[k].investor == a);
}

pub proof fn lemma_total_update(s: Seq<BookEntry>, i: int, e: BookEntry)
    requires
        0 <= i < s.len(),
    ensures
        total_contributions(s.update(i, e)) == total_contributions(s) - s[i].record.contribution
            + e.record.contribution,
    decreases s.len(),
{
    let t = s.update(i, e);
    if i == s.len() - 1 {
        assert(t.drop_last() =~= s.drop_last());
    } else {
        assert(t.drop_last() =~= s.drop_last().update(i, e));
        lemma_total_update(s.drop_last(), i, e);
    }
}

pub proof fn lemma_total_push(s: Seq<BookEntry>, e: BookEntry)
    ensures
        total_contributions(s.push(e)) == total_contributions(s) + e.record.contribution,
{
    assert(s.push(e).drop_last() =~= s);
}

pub proof fn lemma_total_nonneg(s: Seq<BookEntry>)
    requires
        contributions_nonneg(s),
    ensures
        total_contributions(s) >= 0,
    decreases s.len(),
{
    if s.len() > 0 {
        let d = s.drop_last();
        assert forall|i: int| #![trigger d[i]] 0 <= i < d.len() implies d[i].record.contribution
            >= 0 by {
            assert(d[i] == s[i]);
        }
        lemma_total_nonneg(d);
        assert(s[s.len() - 1].record.contribution >= 0);
    }
}

/// A contribution never exceeds the sum of all contributions.
pub proof fn lemma_entry_le_total(s: Seq<BookEntry>, i: int)
    requires
        contributions_nonneg(s),
        0 <= i < s.len(),
    ensures
        s[i].record.contribution <= total_contributions(s),
    decreases s.len(),
{
    let d = s.drop_last();
    assert forall|j: int| #![trigger d[j]] 0 <= j < d.len() implies d[j].record.contribution
        >= 0 by {
        assert(d[j] == s[j]);
    }
    if i == s.len() - 1 {
        lemma_total_nonneg(d);
    } else {
        assert(d[i] == s[i]);
        lemma_entry_le_total(d, i);
        assert(s[s.len() - 1].record.contribution >= 0);
    }
}

/// What recording `r` for `a` does to the book, as the escrow's proofs use it.
pub proof fn lemma_book_set(s: Seq<BookEntry>, a: Addr, r: InvestorRecord)
    requires
        keys_unique(s),
    ensures
        keys_unique(book_set(s, a, r)),
        lookup(book_set(s, a, r), a) == r,
        forall|b: Addr| b != a ==> #[trigger] lookup(book_set(s, a, r), b) == lookup(s, b),
        total_contributions(book_set(s, a, r)) == total_contributions(s) - lookup(
            s,
            a,
        ).contribution + r.contribution,
        contributions_nonneg(s) && r.contribution >= 0 ==> contributions_nonneg(
            book_set(s, a, r),
        ),
{
    let e = BookEntry { investor: a, record: r };
    let t = book_set(s, a, r);
    if has_key(s, a) {
        let k = key_index(s, a);
        assert(s[k].investor == a);
        assert(t == s.update(k, e));
        assert(keys_unique(t)) by {
            assert forall|i: int, j: int|
                #![trigger t[i], t[j]]
                0 <= i < t.len() && 0 <= j < t.len() && i != j implies t[i].investor
                != t[j].investor by {
                if i != k && j != k {
                    assert(t[i] == s[i] && t[j] == s[j]);
                } else if i == k {
                    assert(t[j] == s[j]);
                    assert(s[j].investor != s[k].investor);
                } else {
                    assert(t[i] == s[i]);
                    assert(s[i].investor != s[k].investor);
                }
            }
        }
        assert(t[k] == e);
        lemma_index_is_key_index(t, a, k);
        assert forall|b: Addr| b != a implies #[trigger] lookup(t, b) == lookup(s, b) by {
            if has_key(s, b) {
                let j = key_index(s, b);
                assert(s[j].investor == b);
                assert(j != k);
                assert(t[j] == s[j]);
                lemma_index_is_key_index(t, b, j);
            } else {
                if has_key(t, b) {
                    let j = key_index(t, b);
                    assert(t[j].investor == b);
                    assert(j != k);
                    assert(t[j] == s[j]);
                }
            }
        }
        lemma_total_update(s, k, e);
        lemma_index_is_key_index(s, a, k);
        if contributions_nonneg(s) && r.contribution >= 0 {
            assert forall|i: int| #![trigger t[i]] 0 <= i < t.len() implies t[i].record.contribution
                >= 0 by {
                if i != k {
                    assert(t[i] == s[i]);
                }
            }
        }
    } else {
        assert(t == s.push(e));
        assert(keys_unique(t)) by {
            assert forall|i: int, j: int|
                #![trigger t[i], t[j]]
                0 <= i < t.len() && 0 <= j < t.len() && i != j implies t[i].investor
                != t[j].investor by {
                if i < s.len() && j < s.len() {
                    assert(t[i] == s[i] && t[j] == s[j]);
                } else if i < s.len() {
                    assert(t[i] == s[i]);
                } else {
                    assert(t[j] == s[j]);
                }
            }
        }
        let n = s.len() as int;
        assert(t[n] == e);
        lemma_index_is_key_index(t, a, n);
        assert forall|b: Addr| b != a implies #[trigger] lookup(t, b) == lookup(s, b) by {
            if has_key(s, b) {
                let j = key_index(s, b);
                assert(s[j].investor == b);
                assert(t[j] == s[j]);
                lemma_index_is_key_index(t, b, j);
            } else {
                if has_key(t, b) {
                    let j = key_index(t, b);
                    assert(t[j].investor == b);
                    assert(j != n);
                    assert(t[j] == s[j]);
                }
            }
        }
        lemma_total_push(s, e);
        if contributions_nonneg(s) && r.contribution >= 0 {
            assert forall|i: int| #![trigger t[i]] 0 <= i < t.len() implies t[i].record.contribution
                >= 0 by {
                if i < n {
                    assert(t[i] == s[i]);
                }
            }
        }
    }
}

/// The contribution recorded for any address never exceeds the total.
pub proof fn lemma_lookup_le_total(s: Seq<BookEntry>, a: Addr)
    requires
        contributions_nonneg(s),
    ensures
        0 <= lookup(s, a).contribution <= total_contributions(s),
{
    lemma_total_nonneg(s);
    if has_key(s, a) {
        let k = key_index(s, a);
        lemma_entry_le_total(s, k);
    }
}

impl InvestorBook {
    pub fn new() -> (b: InvestorBook)
        ensures
            b@ == Seq::<BookEntry>::empty(),
    {
        InvestorBook { entries: Vec::new() }
    }

    /// Position of `a` in the book, if it is there.
    pub fn find(&self, a: Addr) -> (r: Option<usize>)
        requires
            keys_unique(self@),
        ensures
            match r {
                Some(i) => i < self@.len() && self@[i as int].investor == a && key_index(self@, a)
                    == i,
                None => !has_key(self@, a),
            },
    {
        let n = self.entries.len();
        let mut i: usize = 0;
        while i < n
            invariant
                n == self@.len(),
                0 <= i <= n,
                keys_unique(self@),
                forall|j: int| #![trigger self@[j]] 0 <= j < i ==> self@[j].investor != a,
            decreases n - i,
        {
            if self.entries[i].investor == a {
                proof {
                    lemma_index_is_key_index(self@, a, i as int);
                }
                return Some(i);
            }
            i = i + 1;
        }
        None
    }

    /// The record kept for `a`.
    pub fn get(&self, a: Addr) -> (r: InvestorRecord)
        requires
            keys_unique(self@),
        ensures
            r == lookup(self@, a),
    {
        match self.find(a) {
            Some(i) => {
                proof {
                    lemma_index_is_key_index(self@, a, i as int);
                }
                self.entries[i].record
            },
            None => InvestorRecord::new_empty(),
        }
    }

    /// Records `r` for `a`.
    pub fn set(&mut self, a: Addr, r: InvestorRecord)
        requires
            keys_unique(old(self)@),
        ensures
            final(self)@ == book_set(old(self)@, a, r),
    {
        let e = BookEntry { investor: a, record: r };
        match self.find(a) {
            Some(i) => {
                self.entries.set(i, e);
            },
            None => {
                self.entries.push(e);
            },
        }
    }
}

} // verus!
