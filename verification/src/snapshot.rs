//! Reference tables: the latest published snapshot of a fact that is
//! refreshed from outside, such as the escrow balances or the open
//! allocations.

use vstd::prelude::*;
use crate::ident::Address;
use crate::table::Table;

verus! {

/// An allocation that is open for this indexer.
#[derive(Clone, Copy, Debug, PartialEq, Eq)]
pub struct Allocation {
    /// The account that the allocation pays.
    pub recipient: Address,
    /// The first and the last moment at which receipts for it are taken.
    pub active_from_ns: u64,
    pub active_until_ns: u64,
}

/// The balance that each payer holds in escrow.
pub type EscrowAccounts = Table<Address, u128>;

/// The open allocations, by allocation.
pub type Allocations = Table<Address, Allocation>;

/// The signer that is authorised for each allocation.
pub type Signers = Table<Address, Address>;

/// Why a refresh brought no snapshot.
#[derive(Clone, Copy, Debug, PartialEq, Eq)]
pub enum RefreshError {
    /// The source of the table could not be reached.
    SourceUnreachable,
}

/// The counter of published snapshots after one more; it stays at its
/// greatest value once it has reached it.
pub open spec fn next_generation(generation: u64) -> u64 {
    if generation < u64::MAX {
        (generation + 1) as u64
    } else {
        generation
    }
}

/// The latest snapshot of a table that is refreshed from outside. Readers
/// take what was published last; a snapshot is replaced as a whole and never
/// changed in place. Before the first snapshot there is none.
pub struct ReferenceTable<T> {
    latest: Option<T>,
    generation: u64,
}

impl<T> ReferenceTable<T> {
    /// The snapshot that was published last, if any was.
    pub closed spec fn snapshot(&self) -> Option<T> {
        self.latest
    }

    /// How many snapshots have been published.
    pub closed spec fn published(&self) -> u64 {
        self.generation
    }

    /// A table that has no snapshot yet.
    pub fn new() -> (table: Self)
        ensures
            table.snapshot() is None,
            table.published() == 0,
    {
        ReferenceTable { latest: None, generation: 0 }
    }

    /// The latest snapshot, or `None` before the first one.
    pub fn current(&self) -> (latest: Option<&T>)
        ensures
            latest is Some == self.snapshot() is Some,
            latest matches Some(t) ==> self.snapshot() == Some(*t),
    {
        self.latest.as_ref()
    }

    /// Whether a snapshot has been published.
    pub fn is_ready(&self) -> (ready: bool)
        ensures
            ready == self.snapshot() is Some,
    {
        self.latest.is_some()
    }

    /// The number of snapshots published so far. A reader that remembers it
    /// learns by comparing that the table has changed.
    pub fn generation(&self) -> (generation: u64)
        ensures
            generation == self.published(),
    {
        self.generation
    }

    /// Replaces the snapshot.
    pub fn publish(&mut self, snapshot: T)
        ensures
            final(self).snapshot() == Some(snapshot),
            final(self).published() == next_generation(old(self).published()),
    {
        self.latest = Some(snapshot);
        if self.generation < u64::MAX {
            self.generation = self.generation + 1;
        }
    }

    /// Takes the outcome of one refresh: a new snapshot is published, a
    /// failure leaves the table as it was. Returns whether the table changed.
    pub fn refresh(&mut self, polled: Result<T, RefreshError>) -> (changed: bool)
        ensures
            changed == polled is Ok,
            polled matches Ok(snapshot) ==> final(self).snapshot() == Some(snapshot)
                && final(self).published() == next_generation(old(self).published()),
            polled is Err ==> final(self).snapshot() == old(self).snapshot()
                && final(self).published() == old(self).published(),
    {
        match polled {
            Ok(snapshot) => {
                self.publish(snapshot);
                true
            },
            Err(_) => false,
        }
    }
}

/// What a reference table says of one key.
#[derive(Debug, PartialEq, Eq)]
pub enum Lookup<V> {
    /// The table has no snapshot yet.
    NotReady,
    /// The latest snapshot does not hold the key.
    Missing,
    /// The latest snapshot holds this value under the key.
    Found(V),
}

impl<V: Copy> Clone for Lookup<V> {
    fn clone(&self) -> (copy: Self)
        ensures
            copy == *self,
    {
        *self
    }
}

impl<V: Copy> Copy for Lookup<V> {

}

/// What a table in the state `snapshot` says of `key`.
pub open spec fn lookup_in<V>(snapshot: Option<Map<Address, V>>, key: Address) -> Lookup<V> {
    match snapshot {
        None => Lookup::NotReady,
        Some(held) => if held.contains_key(key) {
            Lookup::Found(held[key])
        } else {
            Lookup::Missing
        },
    }
}

/// The contents of the latest snapshot of a table, if it has one.
pub open spec fn contents<V>(table: ReferenceTable<Table<Address, V>>) -> Option<
    Map<Address, V>,
> {
    match table.snapshot() {
        Some(held) => Some(held@),
        None => None,
    }
}

/// Looks `key` up in the latest snapshot of `table`.
pub fn lookup<V: Copy>(table: &ReferenceTable<Table<Address, V>>, key: &Address) -> (found:
    Lookup<V>)
    ensures
        found == lookup_in(contents(*table), *key),
{
    match table.current() {
        None => Lookup::NotReady,
        Some(held) => match held.get(key) {
            Some(value) => Lookup::Found(*value),
            None => Lookup::Missing,
        },
    }
}

} // verus!
