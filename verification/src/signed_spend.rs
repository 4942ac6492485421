//! Spends and their verification.
//!
//! A [`Spend`] says that the value named by a key was consumed by one
//! transaction. Signed with that key it becomes a [`SignedSpend`], which
//! anyone can check with [`SignedSpend::verify`]. One signed spend is either
//! valid or not; that two valid ones exist for one key is for the store to
//! notice, which can group them by key with the order defined here.

use crate::hash::sha3_256;
use crate::keys::{key_order, precedes, signature_is_valid, Signature, UniquePubkey};
use crate::transaction::{NanoTokens, Transaction};
use std::cmp::Ordering;
use vstd::bytes::spec_u64_to_le_bytes;
use vstd::prelude::*;
use vstd::std_specs::cmp::{PartialEqSpec, PartialOrdSpec};

verus! {

/// Why a signed spend was refused.
#[derive(Debug, Clone, Copy, PartialEq, Eq)]
pub enum Error {
    /// The spend was made in another transaction than the one it was checked
    /// against.
    InvalidTransactionHash,
    /// The signature is not one over the spend under the spend's own key,
    /// which is given.
    InvalidSpendSignature(UniquePubkey),
}

/// What is signed when a value is spent.
#[derive(Debug, Hash)]
pub struct Spend {
    /// The key of the value that is spent.
    pub unique_pubkey: UniquePubkey,
    /// The transaction that the value is spent in.
    pub spent_tx: Transaction,
    /// Why the value was spent.
    pub reason: crate::hash::Hash,
    /// The amount of the value.
    pub token: NanoTokens,
    /// The transaction that the value was created in.
    pub cashnote_creation_tx: Transaction,
}

/// A spend together with the signature over it.
#[derive(Debug, Hash)]
pub struct SignedSpend {
    /// What was signed.
    pub spend: Spend,
    /// The signature over the bytes of `spend`, made with the secret key
    /// that belongs to `spend.unique_pubkey`.
    pub derived_key_sig: Signature,
}

/// The verdict on a signed spend, from what the two checks found. The
/// transaction is looked at first: a spend for another transaction is
/// refused as such, whatever its signature is worth.
pub open spec fn spend_verdict(
    tx_hash_matches: bool,
    signature_valid: bool,
    unique_pubkey: UniquePubkey,
) -> Result<(), Error> {
    if !tx_hash_matches {
        Err(Error::InvalidTransactionHash)
    } else if !signature_valid {
        Err(Error::InvalidSpendSignature(unique_pubkey))
    } else {
        Ok(())
    }
}

/// The verdict on a signed spend with the given key, from what the two
/// checks found.
pub fn verdict(tx_hash_matches: bool, signature_valid: bool, unique_pubkey: &UniquePubkey) -> (verdict:
    Result<(), Error>)
    ensures
        verdict == spend_verdict(tx_hash_matches, signature_valid, *unique_pubkey),
{
    if !tx_hash_matches {
        Err(Error::InvalidTransactionHash)
    } else if !signature_valid {
        Err(Error::InvalidSpendSignature(*unique_pubkey))
    } else {
        Ok(())
    }
}

impl Spend {
    /// The number of bytes that are signed: those of a key, of three digests
    /// and of an amount.
    pub const SIZE: usize = 152;

    /// The bytes that are signed: the key, the hash of the transaction that
    /// spends, the reason, the amount, and the hash of the transaction that
    /// created the value, in this order. The transactions enter by their
    /// hashes only, so the length does not depend on theirs.
    pub open spec fn signable_bytes(&self) -> Seq<u8> {
        self.unique_pubkey@ + sha3_256(self.spent_tx@) + self.reason@ + spec_u64_to_le_bytes(
            self.token@,
        ) + sha3_256(self.cashnote_creation_tx@)
    }

    /// Whether two spends say the same in every field.
    pub open spec fn same_as(&self, other: &Spend) -> bool {
        &&& self.unique_pubkey@ == other.unique_pubkey@
        &&& self.spent_tx@ == other.spent_tx@
        &&& self.reason@ == other.reason@
        &&& self.token@ == other.token@
        &&& self.cashnote_creation_tx@ == other.cashnote_creation_tx@
    }

    /// The spend as the bytes that are signed. There is no way back from
    /// them, as the transactions enter by their hashes.
    pub fn to_bytes(&self) -> (bytes: Vec<u8>)
        ensures
            bytes@ == self.signable_bytes(),
            bytes@.len() == Spend::SIZE,
    {
        let mut bytes: Vec<u8> = Vec::new();
        let key = self.unique_pubkey.to_bytes();
        bytes.extend_from_slice(key.as_slice());
        let spent_tx_hash = self.spent_tx.hash();
        bytes.extend_from_slice(spent_tx_hash.as_bytes().as_slice());
        bytes.extend_from_slice(self.reason.as_bytes().as_slice());
        let token = self.token.to_bytes();
        bytes.extend_from_slice(token.as_slice());
        let creation_tx_hash = self.cashnote_creation_tx.hash();
        bytes.extend_from_slice(creation_tx_hash.as_bytes().as_slice());
        proof {
            vstd::bytes::lemma_auto_spec_u64_to_from_le_bytes();
            self.unique_pubkey.has_fixed_size();
            self.reason.has_fixed_size();
            spent_tx_hash.has_fixed_size();
            creation_tx_hash.has_fixed_size();
        }
        bytes
    }

    /// The hash of the spend, under which it can be found.
    pub fn hash(&self) -> (digest: crate::hash::Hash)
        ensures
            digest@ == sha3_256(self.signable_bytes()),
    {
        let bytes = self.to_bytes();
        crate::hash::Hash::hash(bytes.as_slice())
    }

    /// How this spend stands to `other` in the order of spends, which is the
    /// order of their keys.
    pub fn cmp(&self, other: &Spend) -> (ordering: Ordering)
        ensures
            ordering == key_order(self.unique_pubkey@, other.unique_pubkey@),
    {
        match self.unique_pubkey.partial_cmp(&other.unique_pubkey) {
            Some(ordering) => ordering,
            None => Ordering::Equal,
        }
    }
}

impl Clone for Spend {
    fn clone(&self) -> (copy: Spend)
        ensures
            copy.same_as(self),
    {
        Spend {
            unique_pubkey: self.unique_pubkey,
            spent_tx: self.spent_tx.clone(),
            reason: self.reason,
            token: self.token,
            cashnote_creation_tx: self.cashnote_creation_tx.clone(),
        }
    }
}

impl PartialEq for Spend {
    /// Two spends are equal when they say the same in every field.
    fn eq(&self, other: &Spend) -> (equal: bool) {
        self.unique_pubkey == other.unique_pubkey && self.spent_tx == other.spent_tx && self.reason
            == other.reason && self.token == other.token && self.cashnote_creation_tx
            == other.cashnote_creation_tx
    }
}

impl vstd::std_specs::cmp::PartialEqSpecImpl for Spend {
    open spec fn obeys_eq_spec() -> bool {
        true
    }

    open spec fn eq_spec(&self, other: &Spend) -> bool {
        self.same_as(other)
    }
}

impl Eq for Spend {

}

impl PartialOrd for Spend {
    /// Spends are ordered by their keys alone.
    fn partial_cmp(&self, other: &Spend) -> (ordering: Option<Ordering>) {
        Some(self.cmp(other))
    }
}

impl vstd::std_specs::cmp::PartialOrdSpecImpl for Spend {
    open spec fn obeys_partial_cmp_spec() -> bool {
        true
    }

    open spec fn partial_cmp_spec(&self, other: &Spend) -> Option<Ordering> {
        Some(key_order(self.unique_pubkey@, other.unique_pubkey@))
    }
}

impl SignedSpend {
    /// The number of bytes of a signed spend: those of the spend and of a
    /// signature.
    pub const SIZE: usize = 248;

    /// The bytes that stand for the signed spend: the bytes of the spend,
    /// then the signature.
    pub open spec fn bytes(&self) -> Seq<u8> {
        self.spend.signable_bytes() + self.derived_key_sig@
    }

    /// Whether two signed spends hold the same spend and the same signature.
    pub open spec fn same_as(&self, other: &SignedSpend) -> bool {
        self.spend.same_as(&other.spend) && self.derived_key_sig@ == other.derived_key_sig@
    }

    /// The key of the value that is spent.
    pub fn unique_pubkey(&self) -> (key: &UniquePubkey)
        ensures
            *key == self.spend.unique_pubkey,
    {
        &self.spend.unique_pubkey
    }

    /// The hash of the transaction that the value is spent in.
    pub fn spent_tx_hash(&self) -> (digest: crate::hash::Hash)
        ensures
            digest@ == sha3_256(self.spend.spent_tx@),
    {
        self.spend.spent_tx.hash()
    }

    /// The transaction that the value is spent in.
    pub fn spent_tx(&self) -> (transaction: Transaction)
        ensures
            transaction@ == self.spend.spent_tx@,
    {
        self.spend.spent_tx.clone()
    }

    /// The hash of the transaction that the value was created in.
    pub fn cashnote_creation_tx_hash(&self) -> (digest: crate::hash::Hash)
        ensures
            digest@ == sha3_256(self.spend.cashnote_creation_tx@),
    {
        self.spend.cashnote_creation_tx.hash()
    }

    /// The amount of the value.
    pub fn token(&self) -> (amount: &NanoTokens)
        ensures
            *amount == self.spend.token,
    {
        &self.spend.token
    }

    /// Why the value was spent.
    pub fn reason(&self) -> (reason: crate::hash::Hash)
        ensures
            reason == self.spend.reason,
    {
        self.spend.reason
    }

    /// The signed spend as bytes: the bytes of the spend, then the signature.
    pub fn to_bytes(&self) -> (bytes: Vec<u8>)
        ensures
            bytes@ == self.bytes(),
            bytes@.len() == SignedSpend::SIZE,
    {
        let mut bytes: Vec<u8> = self.spend.to_bytes();
        let signature = self.derived_key_sig.to_bytes();
        bytes.extend_from_slice(signature.as_slice());
        proof {
            self.derived_key_sig.has_fixed_size();
        }
        bytes
    }

    /// Verifies the signed spend against the hash of the transaction that
    /// the caller takes it to be spent in.
    ///
    /// The spend must have been made in that transaction: the hash of its
    /// `spent_tx` must be `spent_tx_hash`. And the signature must be one over
    /// the bytes of the spend under the spend's own key. See
    /// [`spend_verdict`] for the answer in each case.
    pub fn verify(&self, spent_tx_hash: crate::hash::Hash) -> (verdict: Result<(), Error>)
        ensures
            verdict == spend_verdict(
                spent_tx_hash@ == sha3_256(self.spend.spent_tx@),
                signature_is_valid(
                    self.spend.unique_pubkey@,
                    self.derived_key_sig@,
                    self.spend.signable_bytes(),
                ),
                self.spend.unique_pubkey,
            ),
    {
        if spent_tx_hash != self.spent_tx_hash() {
            return verdict(false, false, self.unique_pubkey());
        }
        let message = self.spend.to_bytes();
        let signature_valid = self.spend.unique_pubkey.verify(
            &self.derived_key_sig,
            message.as_slice(),
        );
        verdict(true, signature_valid, self.unique_pubkey())
    }

    /// How this signed spend stands to `other` in the order of signed
    /// spends, which is the order of their keys.
    pub fn cmp(&self, other: &SignedSpend) -> (ordering: Ordering)
        ensures
            ordering == key_order(self.spend.unique_pubkey@, other.spend.unique_pubkey@),
    {
        self.spend.cmp(&other.spend)
    }
}

impl Clone for SignedSpend {
    fn clone(&self) -> (copy: SignedSpend)
        ensures
            copy.same_as(self),
    {
        SignedSpend { spend: self.spend.clone(), derived_key_sig: self.derived_key_sig }
    }
}

impl PartialEq for SignedSpend {
    /// Two signed spends are equal when their spends and their signatures
    /// are.
    fn eq(&self, other: &SignedSpend) -> (equal: bool) {
        self.spend == other.spend && self.derived_key_sig == other.derived_key_sig
    }
}

impl vstd::std_specs::cmp::PartialEqSpecImpl for SignedSpend {
    open spec fn obeys_eq_spec() -> bool {
        true
    }

    open spec fn eq_spec(&self, other: &SignedSpend) -> bool {
        self.same_as(other)
    }
}

impl Eq for SignedSpend {

}

impl PartialOrd for SignedSpend {
    /// Signed spends are ordered by their keys alone.
    fn partial_cmp(&self, other: &SignedSpend) -> (ordering: Option<Ordering>) {
        Some(self.cmp(other))
    }
}

impl vstd::std_specs::cmp::PartialOrdSpecImpl for SignedSpend {
    open spec fn obeys_partial_cmp_spec() -> bool {
        true
    }

    open spec fn partial_cmp_spec(&self, other: &SignedSpend) -> Option<Ordering> {
        Some(key_order(self.spend.unique_pubkey@, other.spend.unique_pubkey@))
    }
}

/// A signed spend is accepted exactly when both checks pass. If the
/// transaction does not match, that is the answer, whatever the signature. If
/// it matches and the signature does not, the answer names the key.
pub proof fn verdict_follows_both_checks(
    tx_hash_matches: bool,
    signature_valid: bool,
    unique_pubkey: UniquePubkey,
)
    ensures
        spend_verdict(tx_hash_matches, signature_valid, unique_pubkey) is Ok <==> tx_hash_matches
            && signature_valid,
        !tx_hash_matches ==> spend_verdict(tx_hash_matches, signature_valid, unique_pubkey) == Err::<
            (),
            Error,
        >(Error::InvalidTransactionHash),
        tx_hash_matches && !signature_valid ==> spend_verdict(
            tx_hash_matches,
            signature_valid,
            unique_pubkey,
        ) == Err::<(), Error>(Error::InvalidSpendSignature(unique_pubkey)),
{
}

/// Two signed spends of one key in two transactions are not equal, and yet
/// neither comes before the other: sorted by key they lie side by side.
pub proof fn spends_of_one_key_differ_and_rank_equal(a: SignedSpend, b: SignedSpend)
    requires
        a.spend.unique_pubkey@ == b.spend.unique_pubkey@,
        a.spend.spent_tx@ != b.spend.spent_tx@,
    ensures
        !a.eq_spec(&b),
        !a.spend.eq_spec(&b.spend),
        a.partial_cmp_spec(&b) == Some(Ordering::Equal),
        a.spend.partial_cmp_spec(&b.spend) == Some(Ordering::Equal),
{
}

/// Equal signed spends have equal bytes, so whatever is computed from the
/// bytes, a hash for one, is the same for both.
pub proof fn equal_spends_have_equal_bytes(a: SignedSpend, b: SignedSpend)
    requires
        a.eq_spec(&b),
    ensures
        a.spend.signable_bytes() == b.spend.signable_bytes(),
        a.bytes() == b.bytes(),
{
}

/// Signed spends are in the order of their keys: one comes before another
/// exactly when its key does, and they rank equal exactly when they have the
/// same key, whatever else they hold.
pub proof fn order_is_by_key_alone(a: SignedSpend, b: SignedSpend)
    ensures
        a.partial_cmp_spec(&b) == Some(Ordering::Equal) <==> a.spend.unique_pubkey@
            == b.spend.unique_pubkey@,
        a.partial_cmp_spec(&b) == Some(Ordering::Less) <==> precedes(
            a.spend.unique_pubkey@,
            b.spend.unique_pubkey@,
        ),
        a.partial_cmp_spec(&b) is Some,
{
    if a.spend.unique_pubkey@ == b.spend.unique_pubkey@ {
        crate::keys::nothing_precedes_itself(a.spend.unique_pubkey@);
    }
}

} // verus!
