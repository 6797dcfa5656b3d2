//! The blacklist: a mapping from keyword to its match count for the current
//! cycle. Keys are unique; the mapping is rebuilt from the three remote
//! severity tiers and every count is reset to zero at the start of a cycle.

use crate::saturating_increment;
use crate::text::{chars_eq, str_chars};
use vstd::prelude::*;

verus! {

/// The keyword-to-count mapping used by one monitoring cycle.
pub struct Blacklist {
    pub entries: Vec<(String, i32)>,
}

impl View for Blacklist {
    type V = Seq<(Seq<char>, int)>;

    open spec fn view(&self) -> Seq<(Seq<char>, int)> {
        Seq::new(self.entries@.len(), |i: int| (self.entries@[i].0@, self.entries@[i].1 as int))
    }
}

/// Some entry of `s` has key `k`.
pub open spec fn has_key(s: Seq<(Seq<char>, int)>, k: Seq<char>) -> bool {
    exists|i: int| 0 <= i < s.len() && s[i].0 == k
}

/// Some element of `v` reads `k`.
pub open spec fn has_str(v: Seq<String>, k: Seq<char>) -> bool {
    exists|i: int| 0 <= i < v.len() && v[i]@ == k
}

/// Every count of `s` is `c`.
pub open spec fn all_counts(s: Seq<(Seq<char>, int)>, c: int) -> bool {
    forall|i: int| 0 <= i < s.len() ==> s[i].1 == c
}

/// The entries with a positive count, in order.
pub open spec fn positive_entries(s: Seq<(Seq<char>, int)>) -> Seq<(Seq<char>, int)> {
    s.filter(|p: (Seq<char>, int)| p.1 > 0)
}

/// One token lands on the blacklist: the count of every entry whose key is
/// the token goes up by one, holding still at the top of the range.
pub open spec fn bump_spec(s: Seq<(Seq<char>, int)>, tok: Seq<char>) -> Seq<(Seq<char>, int)> {
    Seq::new(
        s.len(),
        |i: int|
            (
                s[i].0,
                if s[i].0 == tok {
                    if s[i].1 < i32::MAX {
                        s[i].1 + 1
                    } else {
                        s[i].1
                    }
                } else {
                    s[i].1
                },
            ),
    )
}

impl Blacklist {
    /// Keys are pairwise distinct.
    pub open spec fn wf(&self) -> bool {
        forall|i: int, j: int| 0 <= i < j < self@.len() ==> self@[i].0 != self@[j].0
    }

    /// Whether `k` is one of the keywords.
    pub fn contains_key(&self, k: &String) -> (r: bool)
        ensures
            r == has_key(self@, k@),
    {
        for i in 0..self.entries.len()
            invariant
                forall|j: int| 0 <= j < i ==> self@[j].0 != k@,
        {
            if self.entries[i].0 == *k {
                proof {
                    assert(self@[i as int].0 == k@);
                }
                return true;
            }
        }
        false
    }

    /// Appends every keyword of `ks` that is not yet present, with a zero
    /// count.
    fn absorb(&mut self, ks: &Vec<String>)
        requires
            old(self).wf(),
            all_counts(old(self)@, 0),
        ensures
            final(self).wf(),
            all_counts(final(self)@, 0),
            forall|k: Seq<char>|
                #[trigger] has_key(final(self)@, k) <==> (has_key(old(self)@, k) || has_str(
                    ks@,
                    k,
                )),
    {
        for j in 0..ks.len()
            invariant
                self.wf(),
                all_counts(self@, 0),
                forall|k: Seq<char>|
                    #[trigger] has_key(self@, k) <==> (has_key(old(self)@, k) || has_str(
                        ks@.take(j as int),
                        k,
                    )),
        {
            let ghost prev = self@;
            let present = self.contains_key(&ks[j]);
            if !present {
                let kw = ks[j].clone();
                self.entries.push((kw, 0));
                proof {
                    assert(self@.drop_last() =~= prev);
                    assert(self@.last().0 == ks@[j as int]@);
                    assert forall|k: Seq<char>| #[trigger] has_key(self@, k) implies (has_key(
                        prev,
                        k,
                    ) || k == ks@[j as int]@) by {
                        let w = choose|i: int| #![auto] 0 <= i < self@.len() && self@[i].0 == k;
                        if w < prev.len() {
                            assert(prev[w].0 == k);
                        }
                    }
                    assert forall|k: Seq<char>| has_key(prev, k) implies #[trigger] has_key(
                        self@,
                        k,
                    ) by {
                        let w = choose|i: int| #![auto] 0 <= i < prev.len() && prev[i].0 == k;
                        assert(self@[w].0 == k);
                    }
                    assert(has_key(self@, ks@[j as int]@)) by {
                        assert(self@[self@.len() - 1].0 == ks@[j as int]@);
                    }
                    assert forall|i: int| 0 <= i < prev.len() implies prev[i].0 != ks@[j as int]@ by {
                        if prev[i].0 == ks@[j as int]@ {
                            assert(has_key(prev, ks@[j as int]@));
                        }
                    }
                    assert forall|i: int| 0 <= i < self@.len() implies self@[i].1 == 0 by {
                        if i < prev.len() {
                            assert(self@[i] == prev[i]);
                        }
                    }
                    assert forall|i: int, j2: int|
                        0 <= i < j2 < self@.len() implies self@[i].0 != self@[j2].0 by {
                        if j2 < prev.len() {
                            assert(self@[i] == prev[i]);
                            assert(self@[j2] == prev[j2]);
                        } else {
                            assert(self@[i] == prev[i]);
                            assert(self@[j2].0 == ks@[j as int]@);
                        }
                    }
                }
            }
            proof {
                let tk1 = ks@.take(j + 1);
                let tk0 = ks@.take(j as int);
                assert forall|k: Seq<char>| has_str(tk1, k) implies (has_str(tk0, k) || k == ks@[j as int]@) by {
                    let w = choose|i: int| #![auto] 0 <= i < tk1.len() && tk1[i]@ == k;
                    if w < j {
                        assert(tk0[w]@ == k);
                    }
                }
                assert forall|k: Seq<char>| has_str(tk0, k) implies #[trigger] has_str(tk1, k) by {
                    let w = choose|i: int| #![auto] 0 <= i < tk0.len() && tk0[i]@ == k;
                    assert(tk1[w]@ == k);
                }
                if present {
                    assert(has_key(self@, ks@[j as int]@));
                } else {
                    assert(has_str(tk1, ks@[j as int]@)) by {
                        assert(tk1[j as int]@ == ks@[j as int]@);
                    }
                }
            }
        }
        proof {
            assert(ks@.take(ks@.len() as int) =~= ks@);
        }
    }

    /// Builds the blacklist from the three severity tiers of the remote
    /// keyword list: the keywords are flattened into one mapping with unique
    /// keys and every count starts at zero. The order of entries is not part
    /// of the contract; which tier a keyword came from does not matter.
    pub fn from_keywords(high: Vec<String>, mid: Vec<String>, low: Vec<String>) -> (r: Blacklist)
        ensures
            r.wf(),
            all_counts(r@, 0),
            forall|k: Seq<char>|
                #[trigger] has_key(r@, k) <==> (has_str(high@, k) || has_str(mid@, k) || has_str(
                    low@,
                    k,
                )),
    {
        let mut r = Blacklist { entries: Vec::new() };
        proof {
            assert(forall|k: Seq<char>| !has_key(r@, k));
        }
        r.absorb(&high);
        r.absorb(&mid);
        r.absorb(&low);
        r
    }

    /// Sets every count back to zero, keeping the keys as they are.
    pub fn reset_counts(&mut self)
        ensures
            final(self)@.len() == old(self)@.len(),
            forall|i: int|
                0 <= i < old(self)@.len() ==> final(self)@[i] == (old(self)@[i].0, 0int),
            old(self).wf() ==> final(self).wf(),
    {
        let n = self.entries.len();
        let mut fresh: Vec<(String, i32)> = Vec::new();
        for i in 0..n
            invariant
                n == self.entries@.len(),
                fresh@.len() == i,
                forall|j: int|
                    0 <= j < i ==> (fresh@[j].0@ == self@[j].0 && fresh@[j].1 == 0),
        {
            let k = self.entries[i].0.clone();
            fresh.push((k, 0));
        }
        self.entries = fresh;
    }

    /// Lands one token on the blacklist: the entry whose key is the token,
    /// if any, has its count raised by one (saturating at the top of the
    /// range); every other entry is untouched.
    pub fn bump(&mut self, token: &Vec<char>)
        ensures
            final(self)@ == bump_spec(old(self)@, token@),
    {
        let n = self.entries.len();
        let mut fresh: Vec<(String, i32)> = Vec::new();
        for i in 0..n
            invariant
                n == self.entries@.len(),
                fresh@.len() == i,
                forall|j: int|
                    0 <= j < i ==> (fresh@[j].0@, fresh@[j].1 as int) == bump_spec(
                        self@,
                        token@,
                    )[j],
        {
            let k = self.entries[i].0.clone();
            let kc = str_chars(k.as_str());
            let c = self.entries[i].1;
            if chars_eq(&kc, token) {
                fresh.push((k, saturating_increment(c)));
            } else {
                fresh.push((k, c));
            }
        }
        self.entries = fresh;
        proof {
            assert(self@ =~= bump_spec(old(self)@, token@));
        }
    }

    /// The entries with a positive count, in order: the event report for the
    /// cycle.
    pub fn build_event_report(&self) -> (r: Vec<(String, i32)>)
        ensures
            Seq::new(r@.len(), |i: int| (r@[i].0@, r@[i].1 as int)) == positive_entries(self@),
    {
        let n = self.entries.len();
        let mut r: Vec<(String, i32)> = Vec::new();
        for i in 0..n
            invariant
                n == self.entries@.len(),
                Seq::new(r@.len(), |j: int| (r@[j].0@, r@[j].1 as int)) =~= positive_entries(
                    self@.take(i as int),
                ),
        {
            proof {
                reveal(Seq::filter);
                assert(self@.take(i + 1).drop_last() =~= self@.take(i as int));
                assert(self@.take(i + 1).last() == self@[i as int]);
            }
            let c = self.entries[i].1;
            if c > 0 {
                let k = self.entries[i].0.clone();
                r.push((k, c));
            }
            proof {
                reveal(Seq::filter);
                assert(Seq::new(r@.len(), |j: int| (r@[j].0@, r@[j].1 as int)) =~= positive_entries(
                    self@.take(i + 1),
                ));
            }
        }
        proof {
            assert(self@.take(self@.len() as int) =~= self@);
        }
        r
    }
}

} // verus!
