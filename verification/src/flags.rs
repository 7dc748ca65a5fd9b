//! The set of flags a connection is configured with.
use vstd::prelude::*;

use crate::types::{
    XMPP_CONN_FLAG_COMPRESSION_DONT_RESET, XMPP_CONN_FLAG_DISABLE_SM, XMPP_CONN_FLAG_ENABLE_COMPRESSION, XMPP_CONN_FLAG_DISABLE_TLS, XMPP_CONN_FLAG_LEGACY_AUTH,
    XMPP_CONN_FLAG_LEGACY_SSL, XMPP_CONN_FLAG_MANDATORY_TLS, XMPP_CONN_FLAG_TRUST_TLS,
};

verus! {

/// The bits of every known connection flag.
pub const CONNECTION_FLAGS_ALL_BITS: i64 = 255;

/// `bits` holds only bits of known connection flags.
pub open spec fn known_flag_bits(bits: i64) -> bool {
    0 <= bits <= CONNECTION_FLAGS_ALL_BITS
}

/// A set of connection flags; it only ever holds known flags.
#[derive(Debug, Clone, Copy, PartialEq, Eq, Structural)]
pub struct ConnectionFlags {
    bits: i64,
}

impl View for ConnectionFlags {
    type V = i64;

    /// The flag bits of the set.
    closed spec fn view(&self) -> i64 {
        self.bits
    }
}

impl ConnectionFlags {
    #[verifier::type_invariant]
    spec fn inv(self) -> bool {
        known_flag_bits(self.bits)
    }

    /// Never use TLS.
    #[allow(non_snake_case)]
    pub fn DISABLE_TLS() -> (r: Self)
        ensures
            r@ == XMPP_CONN_FLAG_DISABLE_TLS,
    {
        ConnectionFlags { bits: XMPP_CONN_FLAG_DISABLE_TLS }
    }

    /// Refuse to connect without TLS.
    #[allow(non_snake_case)]
    pub fn MANDATORY_TLS() -> (r: Self)
        ensures
            r@ == XMPP_CONN_FLAG_MANDATORY_TLS,
    {
        ConnectionFlags { bits: XMPP_CONN_FLAG_MANDATORY_TLS }
    }

    /// Use legacy SSL.
    #[allow(non_snake_case)]
    pub fn LEGACY_SSL() -> (r: Self)
        ensures
            r@ == XMPP_CONN_FLAG_LEGACY_SSL,
    {
        ConnectionFlags { bits: XMPP_CONN_FLAG_LEGACY_SSL }
    }

    /// Trust the server certificate.
    #[allow(non_snake_case)]
    pub fn TRUST_TLS() -> (r: Self)
        ensures
            r@ == XMPP_CONN_FLAG_TRUST_TLS,
    {
        ConnectionFlags { bits: XMPP_CONN_FLAG_TRUST_TLS }
    }

    /// Allow legacy authentication.
    #[allow(non_snake_case)]
    pub fn LEGACY_AUTH() -> (r: Self)
        ensures
            r@ == XMPP_CONN_FLAG_LEGACY_AUTH,
    {
        ConnectionFlags { bits: XMPP_CONN_FLAG_LEGACY_AUTH }
    }

    /// Disable stream management.
    #[allow(non_snake_case)]
    pub fn DISABLE_SM() -> (r: Self)
        ensures
            r@ == XMPP_CONN_FLAG_DISABLE_SM,
    {
        ConnectionFlags { bits: XMPP_CONN_FLAG_DISABLE_SM }
    }

    /// Enable stream compression.
    #[allow(non_snake_case)]
    pub fn ENABLE_COMPRESSION() -> (r: Self)
        ensures
            r@ == XMPP_CONN_FLAG_ENABLE_COMPRESSION,
    {
        ConnectionFlags { bits: XMPP_CONN_FLAG_ENABLE_COMPRESSION }
    }

    /// Do not reset the compression state after each stanza.
    #[allow(non_snake_case)]
    pub fn COMPRESSION_DONT_RESET() -> (r: Self)
        ensures
            r@ == XMPP_CONN_FLAG_COMPRESSION_DONT_RESET,
    {
        ConnectionFlags { bits: XMPP_CONN_FLAG_COMPRESSION_DONT_RESET }
    }

    /// The set with no flag.
    pub fn empty() -> (r: Self)
        ensures
            r@ == 0,
    {
        ConnectionFlags { bits: 0 }
    }

    /// The set of every known flag.
    pub fn all() -> (r: Self)
        ensures
            r@ == CONNECTION_FLAGS_ALL_BITS,
    {
        ConnectionFlags { bits: CONNECTION_FLAGS_ALL_BITS }
    }

    /// The flag bits, as the C library takes them.
    pub fn bits(&self) -> (r: i64)
        ensures
            r == self@,
            known_flag_bits(r),
    {
        proof {
            use_type_invariant(self);
        }
        self.bits
    }

    /// The set with the given bits, or `None` when a bit of an unknown flag is set.
    pub fn from_bits(bits: i64) -> (r: Option<Self>)
        ensures
            r is Some <==> known_flag_bits(bits),
            r matches Some(f) ==> f@ == bits,
    {
        if 0 <= bits && bits <= CONNECTION_FLAGS_ALL_BITS {
            Some(ConnectionFlags { bits })
        } else {
            None
        }
    }

    /// Every flag of `other` is in this set.
    pub fn contains(&self, other: Self) -> (r: bool)
        ensures
            r == (self@ & other@ == other@),
    {
        self.bits & other.bits == other.bits
    }

    /// The flags of both sets.
    pub fn union(self, other: Self) -> (r: Self)
        ensures
            r@ == self@ | other@,
    {
        proof {
            use_type_invariant(&self);
            use_type_invariant(&other);
            lemma_ops_in_range(self.bits, other.bits);
        }
        ConnectionFlags { bits: self.bits | other.bits }
    }

    /// The flags in both sets.
    pub fn intersection(self, other: Self) -> (r: Self)
        ensures
            r@ == self@ & other@,
    {
        proof {
            use_type_invariant(&self);
            use_type_invariant(&other);
            lemma_ops_in_range(self.bits, other.bits);
        }
        ConnectionFlags { bits: self.bits & other.bits }
    }

    /// The flags of this set that are not in `other`.
    pub fn difference(self, other: Self) -> (r: Self)
        ensures
            r@ == self@ & !other@,
    {
        proof {
            use_type_invariant(&self);
            use_type_invariant(&other);
            lemma_ops_in_range(self.bits, other.bits);
        }
        ConnectionFlags { bits: self.bits & !other.bits }
    }

    /// The flags in exactly one of the two sets.
    pub fn symmetric_difference(self, other: Self) -> (r: Self)
        ensures
            r@ == self@ ^ other@,
    {
        proof {
            use_type_invariant(&self);
            use_type_invariant(&other);
            lemma_ops_in_range(self.bits, other.bits);
        }
        ConnectionFlags { bits: self.bits ^ other.bits }
    }

    /// The known flags that are not in this set.
    pub fn complement(self) -> (r: Self)
        ensures
            r@ == !self@ & CONNECTION_FLAGS_ALL_BITS,
    {
        ConnectionFlags::from_bits_truncate(!self.bits)
    }

    /// The set with the known flags among `bits`; other bits are dropped.
    pub fn from_bits_truncate(bits: i64) -> (r: Self)
        ensures
            r@ == bits & CONNECTION_FLAGS_ALL_BITS,
    {
        let b = bits & CONNECTION_FLAGS_ALL_BITS;
        assert(0 <= b <= 255) by (bit_vector)
            requires
                b == bits & 255i64,
        ;
        ConnectionFlags { bits: b }
    }

    /// The set holds no flag.
    pub fn is_empty(&self) -> (r: bool)
        ensures
            r == (self@ == 0),
    {
        self.bits == 0
    }

    /// The set holds every known flag.
    pub fn is_all(&self) -> (r: bool)
        ensures
            r == (self@ == CONNECTION_FLAGS_ALL_BITS),
    {
        self.bits == CONNECTION_FLAGS_ALL_BITS
    }

    /// Some flag is in both sets.
    pub fn intersects(&self, other: Self) -> (r: bool)
        ensures
            r == (self@ & other@ != 0),
    {
        self.bits & other.bits != 0
    }

    /// Adds the flags of `other`.
    pub fn insert(&mut self, other: Self)
        ensures
            final(self)@ == old(self)@ | other@,
    {
        *self = self.union(other);
    }

    /// Removes the flags of `other`.
    pub fn remove(&mut self, other: Self)
        ensures
            final(self)@ == old(self)@ & !other@,
    {
        *self = self.difference(other);
    }

    /// Flips the flags of `other`.
    pub fn toggle(&mut self, other: Self)
        ensures
            final(self)@ == old(self)@ ^ other@,
    {
        *self = self.symmetric_difference(other);
    }

    /// Adds the flags of `other` when `value` holds, else removes them.
    pub fn set(&mut self, other: Self, value: bool)
        ensures
            final(self)@ == if value {
                old(self)@ | other@
            } else {
                old(self)@ & !other@
            },
    {
        if value {
            self.insert(other);
        } else {
            self.remove(other);
        }
    }
}

proof fn lemma_ops_in_range(a: i64, b: i64)
    by (bit_vector)
    requires
        0 <= a <= 255,
        0 <= b <= 255,
    ensures
        0 <= (a | b) <= 255,
        0 <= (a & b) <= 255,
        0 <= (a & !b) <= 255,
        0 <= (a ^ b) <= 255,
{
}

/// Flag bits survive a round trip through `bits` and `from_bits`, and a union contains both
/// of its parts.
pub proof fn law_flag_bits(a: i64, b: i64)
    requires
        known_flag_bits(a),
        known_flag_bits(b),
    ensures
        known_flag_bits(a | b),
        (a | b) & a == a,
        (a | b) & b == b,
{
    assert(0 <= (a | b) <= 255 && (a | b) & a == a && (a | b) & b == b) by (bit_vector)
        requires
            0 <= a <= 255,
            0 <= b <= 255,
    ;
}

} // verus!
