//! Identities: addresses, query identifiers and the key of a stored receipt.

use vstd::prelude::*;

verus! {

/// A value that can serve as the key of a [`crate::table::Table`].
pub trait Key: Sized {
    /// Whether `self` and `other` are the same key.
    fn same(&self, other: &Self) -> (r: bool)
        ensures
            r == (*self == *other),
    ;
}

/// Compares two byte arrays of one length.
pub fn bytes_equal<const N: usize>(a: &[u8; N], b: &[u8; N]) -> (r: bool)
    ensures
        r == (a@ == b@),
{
    let mut i: usize = 0;
    while i < N
        invariant
            i <= N,
            forall|j: int| 0 <= j < i ==> a@[j] == b@[j],
        decreases N - i,
    {
        if a[i] != b[i] {
            return false;
        }
        i = i + 1;
    }
    assert(a@ =~= b@);
    true
}

/// A 20-byte account address: a payer, an allocation, a signer.
#[derive(Clone, Copy, Debug, PartialEq, Eq)]
pub struct Address {
    pub bytes: [u8; 20],
}

impl Address {
    /// The address with these bytes.
    pub fn new(bytes: [u8; 20]) -> (a: Address)
        ensures
            a.bytes == bytes,
    {
        Address { bytes }
    }
}

impl Key for Address {
    fn same(&self, other: &Self) -> (r: bool) {
        let r = bytes_equal(&self.bytes, &other.bytes);
        assert(r == (self.bytes =~= other.bytes));
        r
    }
}

/// The 32-byte identifier of one query, under which its appraisal is kept and
/// by which the receipt that pays for it is paired with it.
#[derive(Clone, Copy, Debug, PartialEq, Eq)]
pub struct QueryId {
    pub bytes: [u8; 32],
}

impl QueryId {
    /// The identifier with these bytes.
    pub fn new(bytes: [u8; 32]) -> (q: QueryId)
        ensures
            q.bytes == bytes,
    {
        QueryId { bytes }
    }
}

impl Key for QueryId {
    fn same(&self, other: &Self) -> (r: bool) {
        let r = bytes_equal(&self.bytes, &other.bytes);
        assert(r == (self.bytes =~= other.bytes));
        r
    }
}

/// What makes a stored receipt unique: its payer and its nonce.
#[derive(Clone, Copy, Debug, PartialEq, Eq)]
pub struct ReceiptKey {
    pub payer: Address,
    pub nonce: u64,
}

impl Key for ReceiptKey {
    fn same(&self, other: &Self) -> (r: bool) {
        self.payer.same(&other.payer) && self.nonce == other.nonce
    }
}

} // verus!
