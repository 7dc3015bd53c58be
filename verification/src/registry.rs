use vstd::prelude::*;

use crate::errors::ContractError;
use crate::filter::{RegisteredFilter, RegisteredFilterView};

verus! {

/// The store of registered query filters, keyed by the opaque query
/// identifier. Registration itself is an external concern; the verified core
/// only ever reads it, and the store is provided so hosts and tests can set
/// up the filters a call is checked against.
pub struct QueryRegistry {
    entries: Vec<(u64, RegisteredFilter)>,
}

/// The map that an entry sequence denotes.
pub open spec fn registry_map(s: Seq<(u64, RegisteredFilter)>) -> Map<u64, RegisteredFilterView>
    decreases s.len(),
{
    if s.len() == 0 {
        Map::<u64, RegisteredFilterView>::empty()
    } else {
        registry_map(s.drop_last()).insert(s.last().0, s.last().1@)
    }
}

pub open spec fn registry_keys_unique(s: Seq<(u64, RegisteredFilter)>) -> bool {
    forall|i: int, j: int| 0 <= i < j < s.len() ==> s[i].0 != s[j].0
}

impl View for QueryRegistry {
    type V = Map<u64, RegisteredFilterView>;

    closed spec fn view(&self) -> Map<u64, RegisteredFilterView> {
        registry_map(self.entries@)
    }
}

proof fn lemma_registry_map_entry(s: Seq<(u64, RegisteredFilter)>, i: int)
    requires
        registry_keys_unique(s),
        0 <= i < s.len(),
    ensures
        registry_map(s).dom().contains(s[i].0),
        registry_map(s)[s[i].0] == s[i].1@,
    decreases s.len(),
{
    if i < s.len() - 1 {
        assert(s.drop_last()[i] == s[i]);
        lemma_registry_map_entry(s.drop_last(), i);
    }
}

proof fn lemma_registry_map_no_key(s: Seq<(u64, RegisteredFilter)>, k: u64)
    requires
        forall|i: int| 0 <= i < s.len() ==> s[i].0 != k,
    ensures
        !registry_map(s).dom().contains(k),
    decreases s.len(),
{
    if s.len() > 0 {
        lemma_registry_map_no_key(s.drop_last(), k);
    }
}

proof fn lemma_registry_map_update(s: Seq<(u64, RegisteredFilter)>, i: int, e: (u64, RegisteredFilter))
    requires
        registry_keys_unique(s),
        0 <= i < s.len(),
        e.0 == s[i].0,
    ensures
        registry_map(s.update(i, e)) == registry_map(s).insert(e.0, e.1@),
    decreases s.len(),
{
    let t = s.update(i, e);
    if i == s.len() - 1 {
        assert(t.drop_last() =~= s.drop_last());
        assert(t.last() == e);
        assert(registry_map(s).insert(e.0, e.1@) =~= registry_map(s.drop_last()).insert(
            e.0,
            e.1@,
        ));
    } else {
        assert(t.drop_last() =~= s.drop_last().update(i, e));
        assert(t.last() == s.last());
        assert(s.drop_last()[i] == s[i]);
        lemma_registry_map_update(s.drop_last(), i, e);
        assert(s[i].0 != s.last().0);
        assert(registry_map(s.drop_last()).insert(e.0, e.1@).insert(s.last().0, s.last().1@)
            =~= registry_map(s).insert(e.0, e.1@));
    }
}

impl QueryRegistry {
    /// Well-formedness: no query identifier appears under two entries.
    pub closed spec fn wf(&self) -> bool {
        registry_keys_unique(self.entries@)
    }

    /// An empty registry, with no filter under any identifier.
    pub fn new() -> (r: QueryRegistry)
        ensures
            r.wf(),
            r@ == Map::<u64, RegisteredFilterView>::empty(),
    {
        QueryRegistry { entries: Vec::new() }
    }

    /// Registers a filter under an identifier, replacing any earlier filter
    /// under the same identifier.
    pub fn register(&mut self, query_id: u64, filter: RegisteredFilter)
        requires
            old(self).wf(),
        ensures
            final(self).wf(),
            final(self)@ == old(self)@.insert(query_id, filter@),
    {
        let n = self.entries.len();
        let mut i: usize = 0;
        while i < n
            invariant
                *self == *old(self),
                self.wf(),
                n == self.entries.len(),
                i <= n,
                forall|j: int| 0 <= j < i ==> self.entries@[j].0 != query_id,
            decreases n - i,
        {
            if self.entries[i].0 == query_id {
                let ghost s0 = self.entries@;
                let _ = self.entries.remove(i);
                self.entries.insert(i, (query_id, filter));
                proof {
                    assert(self.entries@ =~= s0.update(i as int, self.entries@[i as int]));
                    lemma_registry_map_update(s0, i as int, self.entries@[i as int]);
                    assert(self.wf()) by {
                        assert forall|p: int, q: int|
                            0 <= p < q < self.entries@.len() implies self.entries@[p].0
                            != self.entries@[q].0 by {
                            assert(s0[p].0 != s0[q].0);
                        }
                    }
                }
                return ;
            }
            i = i + 1;
        }
        proof {
            lemma_registry_map_no_key(self.entries@, query_id);
        }
        let ghost s0 = self.entries@;
        self.entries.push((query_id, filter));
        proof {
            assert(self.entries@.drop_last() =~= s0);
            assert(self.wf()) by {
                assert forall|p: int, q: int|
                    0 <= p < q < self.entries@.len() implies self.entries@[p].0
                    != self.entries@[q].0 by {
                    if q < self.entries@.len() - 1 {
                        assert(s0[p].0 != s0[q].0);
                    } else {
                        assert(s0[p].0 != query_id);
                    }
                }
            }
        }
    }

    /// Looks up the filter registered under an identifier; an identifier
    /// with no filter is `NotFound`. Read-only.
    pub fn lookup(&self, query_id: u64) -> (r: Result<RegisteredFilter, ContractError>)
        requires
            self.wf(),
        ensures
            match r {
                Ok(f) => self@.dom().contains(query_id) && f@ == self@[query_id],
                Err(e) => e == ContractError::NotFound && !self@.dom().contains(query_id),
            },
    {
        let n = self.entries.len();
        let mut i: usize = 0;
        while i < n
            invariant
                n == self.entries.len(),
                i <= n,
                self.wf(),
                forall|j: int| 0 <= j < i ==> self.entries@[j].0 != query_id,
            decreases n - i,
        {
            if self.entries[i].0 == query_id {
                proof {
                    lemma_registry_map_entry(self.entries@, i as int);
                }
                return Ok(self.entries[i].1.duplicate());
            }
            i = i + 1;
        }
        proof {
            lemma_registry_map_no_key(self.entries@, query_id);
        }
        Err(ContractError::NotFound)
    }
}

} // verus!
