use vstd::prelude::*;

verus! {

/// The bit pattern of an IEEE 754 binary64 value with only its sign bit set,
/// that is, negative zero.
pub const SIGN_BIT: u64 = 0x8000_0000_0000_0000;

/// A binary64 value is sign-negative exactly when its top bit is set.
/// This counts negative zero (and NaNs with the sign bit set) as negative.
pub open spec fn sign_negative(bits: u64) -> bool {
    bits >= SIGN_BIT
}

/// The circuit families, one per combination of signs of gain and offset.
#[derive(Clone, Copy, Debug, PartialEq, Eq, Structural)]
pub enum Topology {
    /// Non-negative gain, non-negative offset.
    TopologyA,
    /// Non-negative gain, negative offset.
    TopologyB,
    /// Negative gain, non-negative offset.
    TopologyC,
    /// Negative gain, negative offset.
    TopologyD,
}

/// The topology that serves a gain and an offset of the given signs.
pub open spec fn topology_of(gain_negative: bool, offset_negative: bool) -> Topology {
    match (gain_negative, offset_negative) {
        (false, false) => Topology::TopologyA,
        (false, true) => Topology::TopologyB,
        (true, false) => Topology::TopologyC,
        (true, true) => Topology::TopologyD,
    }
}

/// Whether the binary64 value with bit pattern `bits` has its sign bit set.
pub fn is_sign_negative_bits(bits: u64) -> (r: bool)
    ensures
        r == sign_negative(bits),
{
    bits >= SIGN_BIT
}

impl Topology {
    /// Selects the topology from the signs of gain and offset.
    pub fn select(gain_negative: bool, offset_negative: bool) -> (t: Topology)
        ensures
            t == topology_of(gain_negative, offset_negative),
    {
        if gain_negative {
            if offset_negative {
                Topology::TopologyD
            } else {
                Topology::TopologyC
            }
        } else if offset_negative {
            Topology::TopologyB
        } else {
            Topology::TopologyA
        }
    }

    /// Selects the topology from the binary64 bit patterns of gain and offset.
    pub fn select_from_bits(gain_bits: u64, offset_bits: u64) -> (t: Topology)
        ensures
            t == topology_of(sign_negative(gain_bits), sign_negative(offset_bits)),
    {
        Topology::select(is_sign_negative_bits(gain_bits), is_sign_negative_bits(offset_bits))
    }

    /// Whether the gain of this topology is negative.
    pub open spec fn gain_negative(self) -> bool {
        self is TopologyC || self is TopologyD
    }

    /// Whether the offset of this topology is negative.
    pub open spec fn offset_negative(self) -> bool {
        self is TopologyB || self is TopologyD
    }
}

/// Selection is a bijection between sign pairs and the four topologies:
/// every topology is chosen by exactly one pair of signs, namely its own,
/// and two pairs choose the same topology only when they are equal.
pub proof fn lemma_selection_bijective(g1: bool, o1: bool, g2: bool, o2: bool, t: Topology)
    ensures
        topology_of(g1, o1).gain_negative() == g1,
        topology_of(g1, o1).offset_negative() == o1,
        topology_of(t.gain_negative(), t.offset_negative()) == t,
        topology_of(g1, o1) == topology_of(g2, o2) <==> (g1 == g2 && o1 == o2),
{
}

/// Negative zero counts as negative and positive zero as non-negative, so a
/// zero gain or offset picks its topology by the sign of the zero.
pub proof fn lemma_zero_signs()
    ensures
        sign_negative(SIGN_BIT),
        !sign_negative(0),
        topology_of(sign_negative(SIGN_BIT), sign_negative(SIGN_BIT)) == Topology::TopologyD,
        topology_of(sign_negative(0), sign_negative(0)) == Topology::TopologyA,
{
}

} // verus!
