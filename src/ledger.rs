use vstd::prelude::*;
use crate::address::Address;

verus! {

/// What the engine remembers of one sending holder.
#[derive(Clone, Copy, Debug, PartialEq, Eq, Structural)]
pub struct HolderState {
    /// Unix seconds of the holder's most recent accepted transfer.
    pub last_transaction: i64,
    /// How many transfers of the holder were accepted.
    pub total_transactions: u64,
    /// The sum of the gross amounts of those transfers.
    pub total_amount: u64,
    /// Reserved; no operation changes it.
    pub last_reflection_claim: i64,
}

impl HolderState {
    /// The record of a holder that has not transferred yet.
    pub open spec fn spec_empty() -> HolderState {
        HolderState {
            last_transaction: 0,
            total_transactions: 0,
            total_amount: 0,
            last_reflection_claim: 0,
        }
    }

    pub fn empty() -> (r: HolderState)
        ensures
            r == HolderState::spec_empty(),
    {
        HolderState {
            last_transaction: 0,
            total_transactions: 0,
            total_amount: 0,
            last_reflection_claim: 0,
        }
    }
}

/// The per-holder records, keyed by the holder's address. A holder gets a
/// record on its first accepted transfer; no record is ever removed.
pub struct CooldownLedger {
    entries: Vec<(Address, HolderState)>,
}

impl CooldownLedger {
    /// No address appears twice.
    pub closed spec fn wf(&self) -> bool {
        forall|i: int, j: int|
            0 <= i < j < self.entries@.len() ==> #[trigger] self.entries@[i].0
                != #[trigger] self.entries@[j].0
    }

    spec fn holds(&self, holder: Address) -> bool {
        exists|i: int| 0 <= i < self.entries@.len() && #[trigger] self.entries@[i].0 == holder
    }

    spec fn index_of(&self, holder: Address) -> int {
        choose|i: int| 0 <= i < self.entries@.len() && #[trigger] self.entries@[i].0 == holder
    }

    /// The records, as a map from holder to record.
    pub closed spec fn view(&self) -> Map<Address, HolderState> {
        Map::new(|a: Address| self.holds(a), |a: Address| self.entries@[self.index_of(a)].1)
    }

    /// The record the engine works with for `holder`: the stored one, or an
    /// empty one where the holder has none yet.
    pub open spec fn spec_record(&self, holder: Address) -> HolderState {
        if self@.contains_key(holder) {
            self@[holder]
        } else {
            HolderState::spec_empty()
        }
    }

    proof fn lemma_entry_is_view(&self, i: int)
        requires
            self.wf(),
            0 <= i < self.entries@.len(),
        ensures
            self@.contains_key(self.entries@[i].0),
            self@[self.entries@[i].0] == self.entries@[i].1,
    {
        let a = self.entries@[i].0;
        assert(self.holds(a));
        let k = self.index_of(a);
        if k != i {
            if k < i {
                assert(self.entries@[k].0 != self.entries@[i].0);
            } else {
                assert(self.entries@[i].0 != self.entries@[k].0);
            }
        }
    }

    pub fn new() -> (r: CooldownLedger)
        ensures
            r.wf(),
            r@ == Map::<Address, HolderState>::empty(),
    {
        let r = CooldownLedger { entries: Vec::new() };
        assert(r@ =~= Map::<Address, HolderState>::empty());
        r
    }

    /// The position of `holder`'s entry, if it has one.
    fn find(&self, holder: &Address) -> (r: Option<usize>)
        requires
            self.wf(),
        ensures
            r matches Some(i) ==> i < self.entries@.len() && self.entries@[i as int].0 == *holder,
            r is None ==> !self@.contains_key(*holder),
    {
        let mut i: usize = 0;
        while i < self.entries.len()
            invariant
                i <= self.entries@.len(),
                forall|j: int| 0 <= j < i ==> #[trigger] self.entries@[j].0 != *holder,
            decreases self.entries@.len() - i,
        {
            if self.entries[i].0.same_as(holder) {
                return Some(i);
            }
            i = i + 1;
        }
        None
    }

    /// The stored record of `holder`, if any.
    pub fn get(&self, holder: &Address) -> (r: Option<HolderState>)
        requires
            self.wf(),
        ensures
            self@.contains_key(*holder) ==> r == Some(self@[*holder]),
            !self@.contains_key(*holder) ==> r is None,
    {
        match self.find(holder) {
            Some(i) => {
                proof {
                    self.lemma_entry_is_view(i as int);
                }
                Some(self.entries[i].1)
            },
            None => None,
        }
    }

    /// The record of `holder`, empty where none is stored.
    pub fn record(&self, holder: &Address) -> (r: HolderState)
        requires
            self.wf(),
        ensures
            r == self.spec_record(*holder),
    {
        match self.get(holder) {
            Some(s) => s,
            None => HolderState::empty(),
        }
    }

    /// Stores `state` as the record of `holder`, replacing any earlier one.
    pub fn put(&mut self, holder: Address, state: HolderState)
        requires
            old(self).wf(),
        ensures
            final(self).wf(),
            final(self)@ == old(self)@.insert(holder, state),
    {
        let ghost mut idx: int = 0;
        match self.find(&holder) {
            Some(i) => {
                self.entries.set(i, (holder, state));
                proof {
                    idx = i as int;
                }
            },
            None => {
                proof {
                    idx = self.entries@.len() as int;
                    assert forall|j: int| 0 <= j < self.entries@.len() implies #[trigger] self.entries@[j].0
                        != holder by {
                        if self.entries@[j].0 == holder {
                            assert(self.holds(holder));
                        }
                    }
                }
                self.entries.push((holder, state));
            },
        }
        proof {
            let pre = *old(self);
            assert(0 <= idx < self.entries@.len());
            assert(self.entries@[idx] == (holder, state));
            assert forall|j: int| 0 <= j < self.entries@.len() && j != idx implies #[trigger] self.entries@[j]
                == pre.entries@[j] by {}
            assert(self.wf()) by {
                assert forall|a: int, b: int| 0 <= a < b < self.entries@.len() implies #[trigger] self.entries@[a].0
                    != #[trigger] self.entries@[b].0 by {
                    if a != idx && b != idx {
                        assert(pre.entries@[a].0 != pre.entries@[b].0);
                    }
                }
            }
            self.lemma_entry_is_view(idx);
            assert forall|a: Address| #[trigger] self@.contains_key(a) <==> pre@.insert(
                holder,
                state,
            ).contains_key(a) by {
                if a != holder {
                    if pre@.contains_key(a) {
                        let j = pre.index_of(a);
                        assert(self.entries@[j] == pre.entries@[j]);
                        assert(self.holds(a));
                    }
                    if self@.contains_key(a) {
                        let j = self.index_of(a);
                        assert(pre.entries@[j] == self.entries@[j]);
                        assert(pre.holds(a));
                    }
                }
            }
            assert forall|a: Address| #[trigger] self@.contains_key(a) implies self@[a] == pre@.insert(
                holder,
                state,
            )[a] by {
                if a != holder {
                    let j = self.index_of(a);
                    self.lemma_entry_is_view(j);
                    pre.lemma_entry_is_view(j);
                }
            }
            assert(self@ =~= pre@.insert(holder, state));
        }
    }
}

} // verus!
