use vstd::prelude::*;

verus! {

/// The features that the native engine was built with, one bit for each.
#[derive(Clone, Copy, Debug, PartialEq, Eq, Structural)]
pub struct ConfigurationFeatures {
    /// The raw mask, one bit per flag, as the native engine reads and writes it.
    pub bits: u32,
}

impl ConfigurationFeatures {
    /// Positions are held in double precision.
    pub const DOUBLE_PRECISION: u32 = 0x1;

    /// Built with NEON instructions.
    pub const NEON: u32 = 0x2;

    /// Built with SSE instructions.
    pub const SSE: u32 = 0x4;

    /// Built with SSE4.1 instructions.
    pub const SSE4_1: u32 = 0x8;

    /// Built with SSE4.2 instructions.
    pub const SSE4_2: u32 = 0x10;

    /// Built with AVX instructions.
    pub const AVX: u32 = 0x20;

    /// Built with AVX2 instructions.
    pub const AVX2: u32 = 0x40;

    /// Built with AVX-512 instructions.
    pub const AVX512: u32 = 0x80;

    /// Built with half-float conversion instructions.
    pub const F16C: u32 = 0x100;

    /// Built with the leading-zero count instruction.
    pub const LZCNT: u32 = 0x200;

    /// Built with the trailing-zero count instruction.
    pub const TZCNT: u32 = 0x400;

    /// Built with fused multiply-add instructions.
    pub const FMADD: u32 = 0x800;

    /// Results are the same on every platform.
    pub const PLATFORM_DETERMINISTIC: u32 = 0x1000;

    /// Floating-point exceptions are enabled.
    pub const FLOATING_POINT_EXCEPTIONS: u32 = 0x2000;

    /// Built with debug checks.
    pub const DEBUG: u32 = 0x4000;

    /// The mask of all bits that name a flag.
    pub open spec fn known_bits() -> u32 {
        0x7fff
    }

    /// Whether no bit outside the named flags is set.
    pub open spec fn is_known(self) -> bool {
        self.bits & !Self::known_bits() == 0
    }

    /// The set with no flag.
    pub fn empty() -> (flags: Self)
        ensures
            flags.bits == 0,
    {
        ConfigurationFeatures { bits: 0 }
    }

    /// The set with every named flag.
    pub fn all() -> (flags: Self)
        ensures
            flags.bits == Self::known_bits(),
    {
        ConfigurationFeatures { bits: 0x7fff }
    }

    /// The raw mask.
    pub fn bits(&self) -> (bits: u32)
        ensures
            bits == self.bits,
    {
        self.bits
    }

    /// The set for a raw mask, or `None` where the mask has a bit that names no flag.
    pub fn from_bits(bits: u32) -> (flags: Option<Self>)
        ensures
            flags == (if bits & !Self::known_bits() == 0 {
                Some(ConfigurationFeatures { bits })
            } else {
                None
            }),
    {
        if bits & !0x7fff == 0 {
            Some(ConfigurationFeatures { bits })
        } else {
            None
        }
    }

    /// The set for a raw mask, without the bits that name no flag.
    pub fn from_bits_truncate(bits: u32) -> (flags: Self)
        ensures
            flags.bits == bits & Self::known_bits(),
    {
        ConfigurationFeatures { bits: bits & 0x7fff }
    }

    /// The set for a raw mask, kept bit for bit, whatever the bits name.
    pub fn from_bits_retain(bits: u32) -> (flags: Self)
        ensures
            flags.bits == bits,
    {
        ConfigurationFeatures { bits }
    }

    /// Whether no bit is set.
    pub fn is_empty(&self) -> (empty: bool)
        ensures
            empty == (self.bits == 0),
    {
        self.bits == 0
    }

    /// Whether every named flag is set.
    pub fn is_all(&self) -> (full: bool)
        ensures
            full == (self.bits & Self::known_bits() == Self::known_bits()),
    {
        self.bits & 0x7fff == 0x7fff
    }

    /// Whether every bit of `other` is set in `self`.
    pub fn contains(&self, other: Self) -> (held: bool)
        ensures
            held == (self.bits & other.bits == other.bits),
    {
        self.bits & other.bits == other.bits
    }

    /// Whether `self` and `other` share a bit.
    pub fn intersects(&self, other: Self) -> (shared: bool)
        ensures
            shared == (self.bits & other.bits != 0),
    {
        self.bits & other.bits != 0
    }

    /// The bits set in `self` or in `other`.
    pub fn union(self, other: Self) -> (flags: Self)
        ensures
            flags.bits == self.bits | other.bits,
    {
        ConfigurationFeatures { bits: self.bits | other.bits }
    }

    /// The bits set in both `self` and `other`.
    pub fn intersection(self, other: Self) -> (flags: Self)
        ensures
            flags.bits == self.bits & other.bits,
    {
        ConfigurationFeatures { bits: self.bits & other.bits }
    }

    /// The bits set in `self` and not in `other`.
    pub fn difference(self, other: Self) -> (flags: Self)
        ensures
            flags.bits == self.bits & !other.bits,
    {
        ConfigurationFeatures { bits: self.bits & !other.bits }
    }

    /// The named flags that are not set in `self`.
    pub fn complement(self) -> (flags: Self)
        ensures
            flags.bits == !self.bits & Self::known_bits(),
    {
        ConfigurationFeatures { bits: !self.bits & 0x7fff }
    }

    /// Sets the bits of `other`.
    pub fn insert(&mut self, other: Self)
        ensures
            final(self).bits == old(self).bits | other.bits,
    {
        self.bits = self.bits | other.bits;
    }

    /// Clears the bits of `other`.
    pub fn remove(&mut self, other: Self)
        ensures
            final(self).bits == old(self).bits & !other.bits,
    {
        self.bits = self.bits & !other.bits;
    }

    /// A set of named flags alone loses nothing when it is truncated to the named
    /// flags, and the full set contains it.
    pub proof fn lemma_known_is_kept(self)
        requires
            self.is_known(),
        ensures
            self.bits & Self::known_bits() == self.bits,
            Self::known_bits() & self.bits == self.bits,
    {
        let bits = self.bits;
        assert(bits & !0x7fff == 0 ==> bits & 0x7fff == bits && 0x7fff & bits == bits)
            by (bit_vector);
    }

    /// A union contains both of its operands, and an intersection is contained in
    /// each of them.
    pub proof fn lemma_union_intersection(self, other: Self)
        ensures
            (self.bits | other.bits) & self.bits == self.bits,
            (self.bits | other.bits) & other.bits == other.bits,
            self.bits & (self.bits & other.bits) == self.bits & other.bits,
            other.bits & (self.bits & other.bits) == self.bits & other.bits,
    {
        let a = self.bits;
        let b = other.bits;
        assert((a | b) & a == a && (a | b) & b == b) by (bit_vector);
        assert(a & (a & b) == a & b && b & (a & b) == a & b) by (bit_vector);
    }
}

} // verus!
