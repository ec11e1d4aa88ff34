use vstd::prelude::*;

verus! {

/// Two to the power 63: the sign bit of a binary64 bit pattern.
pub const SIGN_BIT: u64 = 0x8000_0000_0000_0000;

/// Two to the power 52: the weight of the lowest exponent bit.
pub const EXPONENT_UNIT: u64 = 0x0010_0000_0000_0000;

/// All eleven exponent bits set, once shifted down.
pub const EXPONENT_ALL_ONES: u64 = 0x7FF;

/// An IEEE-754 binary64 number held as its bit pattern: a noise value, a
/// rule's threshold, or a noise parameter passed through to the sampler.
/// The library never does floating-point arithmetic; it only orders such
/// values, exactly as the binary64 comparison operators do.
#[derive(Clone, Copy, Debug, PartialEq, Eq, Structural)]
pub struct Level {
    pub bits: u64,
}

/// Whether a bit pattern is a NaN: every exponent bit set, fraction non-zero.
pub open spec fn bits_are_nan(b: u64) -> bool {
    &&& (b / EXPONENT_UNIT) % 2048 == EXPONENT_ALL_ONES
    &&& b % EXPONENT_UNIT != 0
}

/// The position of a non-NaN bit pattern on the number line: the magnitude
/// bits, negated when the sign bit is set. Both zeros map to zero, and the
/// magnitude bits grow with the absolute value, infinities included.
pub open spec fn bits_key(b: u64) -> int {
    if b >= SIGN_BIT {
        -((b - SIGN_BIT) as int)
    } else {
        b as int
    }
}

impl Level {
    pub open spec fn is_nan(self) -> bool {
        bits_are_nan(self.bits)
    }

    pub open spec fn key(self) -> int {
        bits_key(self.bits)
    }

    /// `self <= other` as binary64 numbers: false whenever either is NaN.
    pub open spec fn spec_le(self, other: Level) -> bool {
        !self.is_nan() && !other.is_nan() && self.key() <= other.key()
    }

    /// `self < other` as binary64 numbers: false whenever either is NaN.
    pub open spec fn spec_lt(self, other: Level) -> bool {
        !self.is_nan() && !other.is_nan() && self.key() < other.key()
    }

    /// A level from its binary64 bit pattern.
    pub fn from_bits(bits: u64) -> (r: Level)
        ensures
            r.bits == bits,
    {
        Level { bits }
    }

    /// The binary64 bit pattern of this level.
    pub fn to_bits(self) -> (r: u64)
        ensures
            r == self.bits,
    {
        self.bits
    }

    pub fn is_nan_exec(self) -> (r: bool)
        ensures
            r == self.is_nan(),
    {
        (self.bits / EXPONENT_UNIT) % 2048 == EXPONENT_ALL_ONES && self.bits % EXPONENT_UNIT != 0
    }

    fn key_exec(self) -> (r: i64)
        ensures
            r as int == self.key(),
    {
        if self.bits >= SIGN_BIT {
            -((self.bits - SIGN_BIT) as i64)
        } else {
            self.bits as i64
        }
    }

    /// Whether `self <= other` holds of the two binary64 numbers.
    pub fn le(self, other: Level) -> (r: bool)
        ensures
            r == self.spec_le(other),
    {
        !self.is_nan_exec() && !other.is_nan_exec() && self.key_exec() <= other.key_exec()
    }

    /// Whether `self < other` holds of the two binary64 numbers.
    pub fn lt(self, other: Level) -> (r: bool)
        ensures
            r == self.spec_lt(other),
    {
        !self.is_nan_exec() && !other.is_nan_exec() && self.key_exec() < other.key_exec()
    }
}

} // verus!
