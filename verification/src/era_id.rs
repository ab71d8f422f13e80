//! The consensus era identifier: a value type over an unsigned counter with
//! explicit checked and saturating arithmetic, a genesis predicate, and a
//! byte-level encoding shared with the rest of the chain.

use vstd::prelude::*;

verus! {

/// A consensus message addressed to one era.
#[derive(Clone, Debug, PartialEq, Eq)]
pub enum ConsensusMessage {
    Protocol { era_id: EraId, payload: Vec<u8> },
}

/// Identifier of a consensus era: a plain counter starting at genesis (zero).
#[derive(Clone, Copy, Debug, Hash, PartialEq, Eq, PartialOrd, Ord, Structural)]
pub struct EraId(pub u64);

/// The value whose little-endian encoding is the first eight bytes of `s`.
pub open spec fn le_u64_of(s: Seq<u8>) -> u64 {
    (s[0] as u64)
        | ((s[1] as u64) << 8)
        | ((s[2] as u64) << 16)
        | ((s[3] as u64) << 24)
        | ((s[4] as u64) << 32)
        | ((s[5] as u64) << 40)
        | ((s[6] as u64) << 48)
        | ((s[7] as u64) << 56)
}

/// Relies on `casper_types::bytesrepr::ToBytes` for `u64`: the encoding is
/// the value's eight little-endian bytes, and serialization never fails.
#[verifier::external_body]
fn serialize_u64(x: u64) -> (r: Vec<u8>)
    ensures
        r@.len() == 8,
        le_u64_of(r@) == x,
{
    casper_types::bytesrepr::ToBytes::to_bytes(&x).unwrap()
}

/// Relies on `casper_types::bytesrepr::FromBytes` for `u64`: reads the first
/// eight bytes little-endian and returns the remainder; fails exactly when
/// fewer than eight bytes are given.
#[verifier::external_body]
fn deserialize_u64(bytes: &[u8]) -> (r: Option<(u64, Vec<u8>)>)
    ensures
        r is Some <==> bytes@.len() >= 8,
        bytes@.len() >= 8 ==> r.unwrap().0 == le_u64_of(bytes@.take(8)),
        bytes@.len() >= 8 ==> r.unwrap().1@ == bytes@.skip(8),
{
    match <u64 as casper_types::bytesrepr::FromBytes>::from_bytes(bytes) {
        Ok((value, remainder)) => Some((value, remainder.to_vec())),
        Err(_) => None,
    }
}

impl EraId {
    /// Wraps this era's identifier and a payload as a protocol message.
    pub fn message(self, payload: Vec<u8>) -> (r: ConsensusMessage)
        ensures
            r == (ConsensusMessage::Protocol { era_id: self, payload }),
    {
        ConsensusMessage::Protocol { era_id: self, payload }
    }

    /// Returns the era after this one.
    pub fn successor(self) -> (r: EraId)
        requires
            self.0 < u64::MAX,
        ensures
            r.0 == self.0 + 1,
    {
        EraId(self.0 + 1)
    }

    /// Returns the current era minus `x`, or `None` if that would be less
    /// than zero.
    pub fn checked_sub(&self, x: u64) -> (r: Option<EraId>)
        ensures
            self.0 >= x ==> r == Some(EraId((self.0 - x) as u64)),
            self.0 < x ==> r is None,
    {
        if self.0 >= x {
            Some(EraId(self.0 - x))
        } else {
            None
        }
    }

    /// Returns the current era minus `x`, or zero if that would be less
    /// than zero.
    pub fn saturating_sub(&self, x: u64) -> (r: EraId)
        ensures
            r.0 == if self.0 >= x { self.0 - x } else { 0 },
    {
        if self.0 >= x {
            EraId(self.0 - x)
        } else {
            EraId(0)
        }
    }

    /// Returns the current era plus `x`, or `u64::MAX` if that would be more
    /// than `u64::MAX`.
    pub fn saturating_add(&self, x: u64) -> (r: EraId)
        ensures
            r.0 == if self.0 + x <= u64::MAX { self.0 + x } else { u64::MAX as int },
    {
        if self.0 <= u64::MAX - x {
            EraId(self.0 + x)
        } else {
            EraId(u64::MAX)
        }
    }

    /// Returns whether this is era zero.
    pub fn is_genesis(&self) -> (r: bool)
        ensures
            r == (self.0 == 0),
    {
        self.0 == 0
    }

    /// The identifier as a plain integer.
    pub fn value(&self) -> (r: u64)
        ensures
            r == self.0,
    {
        self.0
    }

    /// Encodes the identifier as its eight little-endian bytes.
    pub fn to_bytes(&self) -> (r: Vec<u8>)
        ensures
            r@.len() == 8,
            le_u64_of(r@) == self.0,
    {
        serialize_u64(self.0)
    }

    /// The length of the encoding produced by `to_bytes`.
    pub fn serialized_length(&self) -> (r: usize)
        ensures
            r == 8,
    {
        8
    }

    /// Decodes an identifier from the first eight little-endian bytes and
    /// returns it with the remaining bytes; fails exactly when fewer than
    /// eight bytes are given.
    pub fn from_bytes(bytes: &[u8]) -> (r: Option<(EraId, Vec<u8>)>)
        ensures
            bytes@.len() < 8 ==> r is None,
            bytes@.len() >= 8 ==> (r matches Some(p)
                && p.0 == EraId(le_u64_of(bytes@.take(8)))
                && p.1@ == bytes@.skip(8)),
    {
        match deserialize_u64(bytes) {
            Some((value, remainder)) => Some((EraId(value), remainder)),
            None => None,
        }
    }
}

} // verus!
