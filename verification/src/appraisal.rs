//! The store of query appraisals: what the indexer itself decided a query
//! costs, kept until the receipt that pays for the query is checked.

use vstd::prelude::*;
use crate::ident::QueryId;
use crate::table::Table;

verus! {

/// The fee appraised for one query, with the store's clock at the time it was
/// made.
#[derive(Clone, Copy, Debug, PartialEq, Eq)]
pub struct Appraisal {
    pub value: u128,
    pub made_at_ns: u64,
}

/// Why an appraisal was not stored.
#[derive(Clone, Copy, Debug, PartialEq, Eq)]
pub enum AppraisalError {
    /// The query already has an appraisal; it is kept as it was.
    AlreadyAppraised,
}

/// Whether an appraisal has waited for its receipt longer than `ttl_ns` when
/// the time is `now_ns`.
pub open spec fn expired(appraisal: Appraisal, ttl_ns: u64, now_ns: u64) -> bool {
    appraisal.made_at_ns + ttl_ns < now_ns
}

/// The appraisals of `held` that have not expired at `now_ns`.
pub open spec fn unexpired(held: Map<QueryId, Appraisal>, ttl_ns: u64, now_ns: u64) -> Map<
    QueryId,
    Appraisal,
> {
    Map::new(
        |id: QueryId| held.contains_key(id) && !expired(held[id], ttl_ns, now_ns),
        |id: QueryId| held[id],
    )
}

/// What `take` returns on a store that holds `held`.
pub open spec fn taken(held: Map<QueryId, Appraisal>, id: QueryId) -> Option<u128> {
    if held.contains_key(id) {
        Some(held[id].value)
    } else {
        None
    }
}

/// What `put` answers on a store that holds `held`: a query is appraised once.
pub open spec fn put_result(held: Map<QueryId, Appraisal>, id: QueryId) -> Result<
    (),
    AppraisalError,
> {
    if held.contains_key(id) {
        Err(AppraisalError::AlreadyAppraised)
    } else {
        Ok(())
    }
}

/// What a store that held `held` holds after `put`, when its clock stands at
/// `clock_ns`: the new appraisal beside the others, unless the query had one.
pub open spec fn after_put(
    held: Map<QueryId, Appraisal>,
    id: QueryId,
    value: u128,
    clock_ns: u64,
) -> Map<QueryId, Appraisal> {
    if held.contains_key(id) {
        held
    } else {
        held.insert(id, Appraisal { value, made_at_ns: clock_ns })
    }
}

/// The later of two times.
pub open spec fn later(a: u64, b: u64) -> u64 {
    if a < b {
        b
    } else {
        a
    }
}

/// The appraisals of `held` without the expired ones among `swept`.
spec fn swept_of(
    held: Map<QueryId, Appraisal>,
    swept: Seq<QueryId>,
    ttl_ns: u64,
    now_ns: u64,
) -> Map<QueryId, Appraisal> {
    Map::new(
        |id: QueryId|
            held.contains_key(id) && !(swept.contains(id) && expired(held[id], ttl_ns, now_ns)),
        |id: QueryId| held[id],
    )
}

/// Appraisals by query. Each query is appraised at most once, and its
/// appraisal leaves the store when it is taken or when it expires.
pub struct AppraisalStore {
    entries: Table<QueryId, Appraisal>,
    ttl_ns: u64,
    clock_ns: u64,
}

impl View for AppraisalStore {
    type V = Map<QueryId, Appraisal>;

    closed spec fn view(&self) -> Map<QueryId, Appraisal> {
        self.entries@
    }
}

impl AppraisalStore {
    /// How long an appraisal is kept while no receipt arrives for it.
    pub closed spec fn ttl_ns(&self) -> u64 {
        self.ttl_ns
    }

    /// The latest time the store was told of; new appraisals are stamped with it.
    pub closed spec fn clock_ns(&self) -> u64 {
        self.clock_ns
    }

    /// An empty store whose clock stands at 0.
    pub fn new(ttl_ns: u64) -> (store: Self)
        ensures
            store@ == Map::<QueryId, Appraisal>::empty(),
            store.ttl_ns() == ttl_ns,
            store.clock_ns() == 0,
    {
        AppraisalStore { entries: Table::new(), ttl_ns, clock_ns: 0 }
    }

    /// Stores the appraisal of a query that has none yet. A second appraisal
    /// for the same query is refused and changes nothing.
    pub fn put(&mut self, query_id: QueryId, value: u128) -> (done: Result<(), AppraisalError>)
        ensures
            done == put_result(old(self)@, query_id),
            final(self)@ == after_put(old(self)@, query_id, value, old(self).clock_ns()),
            final(self).ttl_ns() == old(self).ttl_ns(),
            final(self).clock_ns() == old(self).clock_ns(),
    {
        if self.entries.contains_key(&query_id) {
            Err(AppraisalError::AlreadyAppraised)
        } else {
            self.entries.insert(query_id, Appraisal { value, made_at_ns: self.clock_ns });
            Ok(())
        }
    }

    /// The value appraised for a query, which stays in the store.
    pub fn get(&self, query_id: &QueryId) -> (value: Option<u128>)
        ensures
            value == taken(self@, *query_id),
    {
        match self.entries.get(query_id) {
            Some(appraisal) => Some(appraisal.value),
            None => None,
        }
    }

    /// Removes the appraisal of a query and returns its value.
    pub fn take(&mut self, query_id: &QueryId) -> (value: Option<u128>)
        ensures
            value == taken(old(self)@, *query_id),
            final(self)@ == old(self)@.remove(*query_id),
            final(self).ttl_ns() == old(self).ttl_ns(),
            final(self).clock_ns() == old(self).clock_ns(),
    {
        match self.entries.remove(query_id) {
            Some(appraisal) => Some(appraisal.value),
            None => None,
        }
    }

    /// Moves the clock on to `now_ns`, unless it is already later, and drops
    /// the appraisals that have expired at `now_ns`.
    pub fn expire(&mut self, now_ns: u64)
        ensures
            final(self)@ == unexpired(old(self)@, old(self).ttl_ns(), now_ns),
            final(self).ttl_ns() == old(self).ttl_ns(),
            final(self).clock_ns() == later(old(self).clock_ns(), now_ns),
    {
        if self.clock_ns < now_ns {
            self.clock_ns = now_ns;
        }
        let ttl_ns = self.ttl_ns;
        let ids = self.entries.keys();
        let ghost held = self.entries@;
        let mut i: usize = 0;
        assert(self.entries@ =~= swept_of(held, ids@.take(0), ttl_ns, now_ns));
        while i < ids.len()
            invariant
                i <= ids.len(),
                self.ttl_ns == ttl_ns,
                self.clock_ns == later(old(self).clock_ns(), now_ns),
                forall|id: QueryId| ids@.contains(id) <==> held.contains_key(id),
                self.entries@ == swept_of(held, ids@.take(i as int), ttl_ns, now_ns),
            decreases ids.len() - i,
        {
            let id = ids[i];
            let ghost before = self.entries@;
            let stale = match self.entries.get(&id) {
                Some(appraisal) => now_ns > appraisal.made_at_ns && now_ns - appraisal.made_at_ns
                    > ttl_ns,
                None => false,
            };
            if stale {
                self.entries.remove(&id);
            }
            proof {
                let done = ids@.take(i as int);
                let next = ids@.take(i + 1);
                assert(next =~= done.push(id));
                assert(ids@.contains(id));
                assert forall|q: QueryId| next.contains(q) <==> (done.contains(q) || q == id) by {
                    if done.contains(q) {
                        let j = choose|j: int| 0 <= j < done.len() && done[j] == q;
                        assert(next[j] == q);
                    }
                    if q == id {
                        assert(next[i as int] == q);
                    }
                }
                assert(self.entries@ =~= swept_of(held, next, ttl_ns, now_ns));
            }
            i = i + 1;
        }
        proof {
            assert(ids@.take(ids.len() as int) =~= ids@);
            assert(self.entries@ =~= unexpired(held, ttl_ns, now_ns));
        }
    }
}

} // verus!
