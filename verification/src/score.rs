//! Confidence and relevance scores.
use vstd::prelude::*;

verus! {

/// The magnitude of positive infinity; every larger magnitude is a NaN.
pub const INFINITE_MAGNITUDE: u32 = 0x7F80_0000;

/// The weight of the sign bit.
pub const SIGN_WEIGHT: u32 = 0x8000_0000;

/// A single-precision score, held as its IEEE 754 bit pattern (what
/// `f32::to_bits` gives and `f32::from_bits` takes).
#[derive(Clone, Copy, Debug)]
pub struct Score {
    pub bits: u32,
}

impl Score {
    /// The bit pattern without its sign.
    pub open spec fn magnitude(self) -> int {
        self.bits as int % SIGN_WEIGHT as int
    }

    /// Whether the pattern is one of those that stand for no number.
    pub open spec fn not_a_number(self) -> bool {
        self.magnitude() > INFINITE_MAGNITUDE
    }

    /// Where the score stands among the numbers: IEEE 754 orders patterns of one
    /// sign by magnitude, the negative ones downwards, and has both zeros equal.
    pub open spec fn rank(self) -> int {
        if self.bits < SIGN_WEIGHT {
            self.magnitude()
        } else {
            -self.magnitude()
        }
    }

    /// Whether the score is a number greater than `other`, also a number.
    pub open spec fn outranks(self, other: Score) -> bool {
        &&& !self.not_a_number()
        &&& !other.not_a_number()
        &&& self.rank() > other.rank()
    }

    /// The score with the given bit pattern.
    pub fn from_bits(bits: u32) -> (score: Score)
        ensures
            score.bits == bits,
    {
        Score { bits }
    }

    /// The bit pattern of the score.
    pub fn to_bits(&self) -> (bits: u32)
        ensures
            bits == self.bits,
    {
        self.bits
    }

    /// Whether the score is a NaN.
    pub fn is_nan(&self) -> (nan: bool)
        ensures
            nan == self.not_a_number(),
            nan <==> (0x7F80_0000 < self.bits < 0x8000_0000 || self.bits > 0xFF80_0000),
    {
        self.bits % SIGN_WEIGHT > INFINITE_MAGNITUDE
    }

    /// Compares as `>` does on the floating-point values: false where either is a NaN.
    pub fn exceeds(&self, other: &Score) -> (greater: bool)
        ensures
            greater == self.outranks(*other),
            greater <==> ({
                &&& self.bits <= 0x7F80_0000 || 0x8000_0000 <= self.bits <= 0xFF80_0000
                &&& other.bits <= 0x7F80_0000 || 0x8000_0000 <= other.bits <= 0xFF80_0000
                &&& if self.bits < 0x8000_0000 && other.bits < 0x8000_0000 {
                    self.bits > other.bits
                } else if self.bits >= 0x8000_0000 && other.bits >= 0x8000_0000 {
                    self.bits < other.bits
                } else {
                    self.bits < 0x8000_0000 && (self.bits != 0 || other.bits != 0x8000_0000)
                }
            }),
    {
        if self.is_nan() || other.is_nan() {
            false
        } else if self.bits < SIGN_WEIGHT {
            if other.bits < SIGN_WEIGHT {
                self.bits > other.bits
            } else {
                // Only the two zeros meet here as equals.
                self.bits > 0 || other.bits > SIGN_WEIGHT
            }
        } else {
            other.bits >= SIGN_WEIGHT && self.bits < other.bits
        }
    }
}

/// Scores order strictly as the numbers that their bits stand for. A pattern with a magnitude
/// beyond infinity compares with nothing. Of two patterns without the sign bit the
/// greater is above, of two with it the smaller; one without it is above
/// one with it, but for the two zeros, which are equal.
pub proof fn law_scores_order_as_their_bits(a: Score, b: Score)
    ensures
        a.not_a_number() <==> (0x7F80_0000 < a.bits < 0x8000_0000 || a.bits > 0xFF80_0000),
        a.not_a_number() || b.not_a_number() ==> !a.outranks(b),
        a.bits <= 0x7F80_0000 && b.bits <= 0x7F80_0000 ==> (a.outranks(b) <==> a.bits > b.bits),
        0x8000_0000 <= a.bits <= 0xFF80_0000 && 0x8000_0000 <= b.bits <= 0xFF80_0000 ==> (
        a.outranks(b) <==> a.bits < b.bits),
        a.bits <= 0x7F80_0000 && 0x8000_0000 <= b.bits <= 0xFF80_0000 ==> (a.outranks(b) <==> (
        a.bits != 0 || b.bits != 0x8000_0000)),
        a.bits >= 0x8000_0000 && b.bits < 0x8000_0000 ==> !a.outranks(b),
{
}

/// Of two numbers exactly one is above the other, or they are equal in rank; equal
/// in rank are only equal patterns and the two zeros.
pub proof fn law_scores_are_totally_ordered(a: Score, b: Score, c: Score)
    requires
        !a.not_a_number(),
        !b.not_a_number(),
        !c.not_a_number(),
    ensures
        a.outranks(b) ==> !b.outranks(a),
        a.outranks(b) && b.outranks(c) ==> a.outranks(c),
        !a.outranks(b) && !b.outranks(a) <==> (a.bits == b.bits || (a.bits == 0 && b.bits
            == 0x8000_0000) || (a.bits == 0x8000_0000 && b.bits == 0)),
        a.rank() <= b.rank() <==> !a.outranks(b),
{
}

} // verus!
