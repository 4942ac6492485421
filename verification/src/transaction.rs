//! Amounts and transactions, as far as a spend carries them.

use crate::hash::sha3_256;
use vstd::bytes::{spec_u64_to_le_bytes, u64_to_le_bytes};
use vstd::prelude::*;

verus! {

/// An amount of tokens, counted in the smallest unit.
#[derive(Clone, Copy, Debug, PartialEq, Eq, Structural, Hash)]
pub struct NanoTokens(pub u64);

impl View for NanoTokens {
    type V = u64;

    open spec fn view(&self) -> u64 {
        self.0
    }
}

impl NanoTokens {
    /// The amount of `value` units.
    pub fn from(value: u64) -> (amount: NanoTokens)
        ensures
            amount@ == value,
    {
        NanoTokens(value)
    }

    /// The number of units.
    pub fn as_nano(&self) -> (value: u64)
        ensures
            value == self@,
    {
        self.0
    }

    /// The amount as eight bytes, lowest byte first.
    pub fn to_bytes(&self) -> (bytes: Vec<u8>)
        ensures
            bytes@ == spec_u64_to_le_bytes(self@),
    {
        u64_to_le_bytes(self.0)
    }
}

/// A transaction, held as the bytes that identify it: the encoding over
/// which its hash is taken. What the transaction says is of no concern here.
#[derive(Debug, Hash)]
pub struct Transaction {
    bytes: Vec<u8>,
}

impl View for Transaction {
    type V = Seq<u8>;

    closed spec fn view(&self) -> Seq<u8> {
        self.bytes@
    }
}

impl Transaction {
    /// The transaction with the given encoding.
    pub fn from_bytes(bytes: Vec<u8>) -> (transaction: Transaction)
        ensures
            transaction@ == bytes@,
    {
        Transaction { bytes }
    }

    /// The encoding of the transaction.
    pub fn as_bytes(&self) -> (bytes: &[u8])
        ensures
            bytes@ == self@,
    {
        self.bytes.as_slice()
    }

    /// The hash that stands for the transaction.
    pub fn hash(&self) -> (digest: crate::hash::Hash)
        ensures
            digest@ == sha3_256(self@),
    {
        crate::hash::Hash::hash(self.bytes.as_slice())
    }
}

impl Clone for Transaction {
    fn clone(&self) -> (copy: Transaction)
        ensures
            copy@ == self@,
    {
        Transaction { bytes: self.bytes.clone() }
    }
}

impl PartialEq for Transaction {
    /// Two transactions are equal when their encodings are.
    fn eq(&self, other: &Transaction) -> (equal: bool) {
        let equal = self.bytes == other.bytes;
        assert(equal == (self.bytes@ =~= other.bytes@));
        equal
    }
}

impl vstd::std_specs::cmp::PartialEqSpecImpl for Transaction {
    open spec fn obeys_eq_spec() -> bool {
        true
    }

    open spec fn eq_spec(&self, other: &Transaction) -> bool {
        self@ == other@
    }
}

impl Eq for Transaction {

}

} // verus!
