//! Record admission and network-membership maintenance for a node of a
//! peer-to-peer, content-addressed storage network.
//!
//! Three independent parts:
//!
//! * [`bootstrap`] paces the node's "find more peers" queries as its routing
//!   table fills up or stops growing, with spans of time from [`time`];
//! * [`header`] frames the values stored in the network: a two-byte header
//!   that tags the kind of record, followed by the payload;
//! * [`signed_spend`] checks the evidence that a uniquely keyed value was
//!   spent in one particular transaction, over the keys and signatures of
//!   [`keys`], the digests of [`hash`] and the amounts and transactions of
//!   [`transaction`].
//!
//! Every function is verified against the contract written on it. The few
//! places that rest on outside code (the clock, the content hash, the
//! signature scheme) are private wrappers whose doc comments say what is
//! assumed of them.

pub mod bootstrap;
pub mod hash;
pub mod header;
pub mod keys;
pub mod signed_spend;
pub mod time;
pub mod transaction;
