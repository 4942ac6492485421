//! The key that names a spendable value, and signatures made with it.
//!
//! Keys and signatures are held as the bytes that travel on the wire. Whether
//! such bytes are a key or a signature at all is found out when a signature
//! is checked, by the `blsttc` crate.

use std::cmp::Ordering;
use vstd::prelude::*;

verus! {

/// The public key that names one spendable value: 48 bytes.
#[derive(Clone, Copy, Debug, Hash, Ord)]
pub struct UniquePubkey {
    bytes: [u8; 48],
}

impl View for UniquePubkey {
    type V = Seq<u8>;

    closed spec fn view(&self) -> Seq<u8> {
        self.bytes@
    }
}

/// A signature: 96 bytes.
#[derive(Clone, Copy, Debug, Hash)]
pub struct Signature {
    bytes: [u8; 96],
}

impl View for Signature {
    type V = Seq<u8>;

    closed spec fn view(&self) -> Seq<u8> {
        self.bytes@
    }
}

/// What `blsttc` finds when it checks `signature` over `message` under
/// `public_key`: `None` if the 48 or the 96 bytes are not the compressed form
/// of a key or of a signature, else whether the signature matches.
pub uninterp spec fn bls_verification(
    public_key: Seq<u8>,
    signature: Seq<u8>,
    message: Seq<u8>,
) -> Option<bool>;

/// Checks a signature with `blsttc`: the key is read by
/// `PublicKey::from_bytes`, the signature by `Signature::from_bytes`, and the
/// two are handed to `PublicKey::verify` with the message.
///
/// Assumed: the outcome is a function of the three byte strings alone, the
/// one named [`bls_verification`]; it is `None` exactly when one of the two
/// `from_bytes` refuses its bytes.
#[verifier::external_body]
fn bls_verify(public_key: &[u8; 48], signature: &[u8; 96], message: &[u8]) -> (outcome: Option<
    bool,
>)
    ensures
        outcome == bls_verification(public_key@, signature@, message@),
{
    let key = blsttc::PublicKey::from_bytes(*public_key).ok()?;
    let sig = blsttc::Signature::from_bytes(*signature).ok()?;
    Some(key.verify(&sig, message))
}

/// Whether `signature` is a signature over `message` made with the secret
/// key that belongs to `public_key`.
pub open spec fn signature_is_valid(
    public_key: Seq<u8>,
    signature: Seq<u8>,
    message: Seq<u8>,
) -> bool {
    bls_verification(public_key, signature, message) == Some(true)
}

/// `a` and `b` agree on their first `k` bytes.
pub open spec fn same_up_to(a: Seq<u8>, b: Seq<u8>, k: int) -> bool {
    &&& 0 <= k <= a.len()
    &&& k <= b.len()
    &&& forall|j: int| 0 <= j < k ==> a[j] == b[j]
}

/// `a` comes before `b` as words do in a dictionary: at the first place
/// where the two differ `a` has the smaller byte, or `a` ends there and `b`
/// goes on.
pub open spec fn precedes(a: Seq<u8>, b: Seq<u8>) -> bool {
    exists|k: int| #[trigger]
        same_up_to(a, b, k) && k < b.len() && (k == a.len() || a[k] < b[k])
}

/// How the key with bytes `a` stands to the key with bytes `b`: keys are
/// ordered as their bytes are, first byte first.
pub open spec fn key_order(a: Seq<u8>, b: Seq<u8>) -> Ordering {
    if a == b {
        Ordering::Equal
    } else if precedes(a, b) {
        Ordering::Less
    } else {
        Ordering::Greater
    }
}

/// No string comes before itself.
pub proof fn nothing_precedes_itself(a: Seq<u8>)
    ensures
        !precedes(a, a),
{
}

/// The first place from `from` on at which two strings of one length
/// differ, or their length if there is none.
proof fn first_difference_from(a: Seq<u8>, b: Seq<u8>, from: int) -> (k: int)
    requires
        a.len() == b.len(),
        same_up_to(a, b, from),
    ensures
        same_up_to(a, b, k),
        k == a.len() || a[k] != b[k],
    decreases a.len() - from,
{
    if from == a.len() || a[from] != b[from] {
        from
    } else {
        first_difference_from(a, b, from + 1)
    }
}

/// Of two keys either one comes before the other or they are the same key,
/// and only one of the three holds.
pub proof fn keys_are_totally_ordered(a: Seq<u8>, b: Seq<u8>)
    requires
        a.len() == b.len(),
    ensures
        a == b || precedes(a, b) || precedes(b, a),
        !(a == b && precedes(a, b)),
        !(a == b && precedes(b, a)),
        !(precedes(a, b) && precedes(b, a)),
{
    let k = first_difference_from(a, b, 0);
    first_difference_decides(a, b, k);
    first_difference_decides(b, a, k);
}

/// What comes before a string that comes before a third comes before the
/// third.
pub proof fn precedes_is_transitive(a: Seq<u8>, b: Seq<u8>, c: Seq<u8>)
    requires
        precedes(a, b),
        precedes(b, c),
    ensures
        precedes(a, c),
{
    let i = choose|i: int| #[trigger]
        same_up_to(a, b, i) && i < b.len() && (i == a.len() || a[i] < b[i]);
    let j = choose|j: int| #[trigger]
        same_up_to(b, c, j) && j < c.len() && (j == b.len() || b[j] < c[j]);
    let k = if i < j {
        i
    } else {
        j
    };
    assert(same_up_to(a, c, k));
}

/// Where two strings first differ decides their order.
proof fn first_difference_decides(a: Seq<u8>, b: Seq<u8>, k: int)
    requires
        a.len() == b.len(),
        same_up_to(a, b, k),
        k == a.len() || a[k] != b[k],
    ensures
        k == a.len() ==> a == b && !precedes(a, b),
        k < a.len() ==> a != b && (precedes(a, b) <==> a[k] < b[k]),
{
    if k == a.len() {
        assert(a =~= b);
    }
    if precedes(a, b) {
        let m = choose|m: int| #[trigger]
            same_up_to(a, b, m) && m < b.len() && (m == a.len() || a[m] < b[m]);
        if m < k {
            assert(a[m] == b[m]);
        }
        if k < m {
            assert(a[k] == b[k]);
        }
    }
}

/// The first place at which two keys differ, or 48 if they are equal. The
/// bytes at that place say which key comes first.
fn first_key_difference(a: &[u8; 48], b: &[u8; 48]) -> (k: usize)
    ensures
        k <= 48,
        same_up_to(a@, b@, k as int),
        k == 48 <==> a@ == b@,
        k < 48 ==> a@[k as int] != b@[k as int],
        k < 48 ==> (precedes(a@, b@) <==> a@[k as int] < b@[k as int]),
        k == 48 ==> !precedes(a@, b@),
{
    let mut i: usize = 0;
    while i < 48
        invariant
            i <= 48,
            same_up_to(a@, b@, i as int),
        decreases 48 - i,
    {
        if a[i] != b[i] {
            proof {
                first_difference_decides(a@, b@, i as int);
            }
            return i;
        }
        i += 1;
    }
    proof {
        first_difference_decides(a@, b@, i as int);
    }
    i
}

/// How two keys stand to each other, by the first byte in which they differ.
fn key_bytes_ordering(a: &[u8; 48], b: &[u8; 48]) -> (ordering: Ordering)
    ensures
        ordering is Equal <==> a@ == b@,
        ordering is Less <==> precedes(a@, b@),
{
    let k = first_key_difference(a, b);
    if k == 48 {
        Ordering::Equal
    } else if a[k] < b[k] {
        Ordering::Less
    } else {
        Ordering::Greater
    }
}

impl UniquePubkey {
    /// The number of bytes of a key.
    pub const SIZE: usize = 48;

    /// The key with the given bytes.
    pub fn from_bytes(bytes: [u8; 48]) -> (key: UniquePubkey)
        ensures
            key@ == bytes@,
    {
        UniquePubkey { bytes }
    }

    /// The bytes of the key.
    pub fn to_bytes(&self) -> (bytes: [u8; 48])
        ensures
            bytes@ == self@,
    {
        self.bytes
    }

    /// Whether `signature` is a signature over `message` under this key.
    /// Bytes that are no key, or no signature, verify nothing.
    pub fn verify(&self, signature: &Signature, message: &[u8]) -> (valid: bool)
        ensures
            valid == signature_is_valid(self@, signature@, message@),
    {
        signature_outcome_is_valid(bls_verify(&self.bytes, &signature.bytes, message))
    }

    /// A key has [`SIZE`](Self::SIZE) bytes.
    pub proof fn has_fixed_size(&self)
        ensures
            self@.len() == 48,
    {
    }
}

/// Whether the outcome of a check says that the signature is valid: the
/// bytes were a key and a signature, and they matched.
pub fn signature_outcome_is_valid(outcome: Option<bool>) -> (valid: bool)
    ensures
        valid == (outcome == Some(true)),
{
    match outcome {
        Some(matches) => matches,
        None => false,
    }
}

impl Signature {
    /// The number of bytes of a signature.
    pub const SIZE: usize = 96;

    /// The signature with the given bytes.
    pub fn from_bytes(bytes: [u8; 96]) -> (signature: Signature)
        ensures
            signature@ == bytes@,
    {
        Signature { bytes }
    }

    /// The bytes of the signature.
    pub fn to_bytes(&self) -> (bytes: [u8; 96])
        ensures
            bytes@ == self@,
    {
        self.bytes
    }

    /// A signature has [`SIZE`](Self::SIZE) bytes.
    pub proof fn has_fixed_size(&self)
        ensures
            self@.len() == 96,
    {
    }
}

impl PartialEq for UniquePubkey {
    /// Two keys are equal when all their bytes are.
    fn eq(&self, other: &UniquePubkey) -> (equal: bool) {
        first_key_difference(&self.bytes, &other.bytes) == 48
    }
}

impl vstd::std_specs::cmp::PartialEqSpecImpl for UniquePubkey {
    open spec fn obeys_eq_spec() -> bool {
        true
    }

    open spec fn eq_spec(&self, other: &UniquePubkey) -> bool {
        self@ == other@
    }
}

impl Eq for UniquePubkey {

}

impl PartialOrd for UniquePubkey {
    /// Keys are ordered as their bytes are, first byte first.
    fn partial_cmp(&self, other: &UniquePubkey) -> (ordering: Option<Ordering>) {
        Some(key_bytes_ordering(&self.bytes, &other.bytes))
    }
}

impl vstd::std_specs::cmp::PartialOrdSpecImpl for UniquePubkey {
    open spec fn obeys_partial_cmp_spec() -> bool {
        true
    }

    open spec fn partial_cmp_spec(&self, other: &UniquePubkey) -> Option<Ordering> {
        Some(key_order(self@, other@))
    }
}

impl PartialEq for Signature {
    /// Two signatures are equal when all their bytes are.
    fn eq(&self, other: &Signature) -> (equal: bool) {
        let mut i: usize = 0;
        while i < 96
            invariant
                i <= 96,
                forall|j: int| 0 <= j < i ==> self.bytes@[j] == other.bytes@[j],
            decreases 96 - i,
        {
            if self.bytes[i] != other.bytes[i] {
                return false;
            }
            i += 1;
        }
        assert(self.bytes@ =~= other.bytes@);
        true
    }
}

impl vstd::std_specs::cmp::PartialEqSpecImpl for Signature {
    open spec fn obeys_eq_spec() -> bool {
        true
    }

    open spec fn eq_spec(&self, other: &Signature) -> bool {
        self@ == other@
    }
}

impl Eq for Signature {

}

} // verus!
