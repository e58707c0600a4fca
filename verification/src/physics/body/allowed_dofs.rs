use vstd::prelude::*;

verus! {

/// The degrees of freedom that a body may move in, one bit for each axis of
/// translation and of rotation.
#[derive(Clone, Copy, Debug, PartialEq, Eq, Structural)]
pub struct AllowedDOFs {
    /// The raw mask, one bit per flag, as the native engine reads and writes it.
    pub bits: u8,
}

impl AllowedDOFs {
    /// Translation along the x axis.
    pub const TRANSLATION_X: u8 = 0b000001;

    /// Translation along the y axis.
    pub const TRANSLATION_Y: u8 = 0b000010;

    /// Translation along the z axis.
    pub const TRANSLATION_Z: u8 = 0b000100;

    /// Rotation around the x axis.
    pub const ROTATION_X: u8 = 0b001000;

    /// Rotation around the y axis.
    pub const ROTATION_Y: u8 = 0b010000;

    /// Rotation around the z axis.
    pub const ROTATION_Z: u8 = 0b100000;

    /// Translation along all three axes.
    pub const ALL_TRANSLATIONS: u8 = 0b000111;

    /// Rotation around all three axes.
    pub const ALL_ROTATIONS: u8 = 0b111000;

    /// The mask of all bits that name a flag.
    pub open spec fn known_bits() -> u8 {
        0b111111
    }

    /// Whether no bit outside the named flags is set.
    pub open spec fn is_known(self) -> bool {
        self.bits & !Self::known_bits() == 0
    }

    /// The set with no flag.
    pub fn empty() -> (flags: Self)
        ensures
            flags.bits == 0,
    {
        AllowedDOFs { bits: 0 }
    }

    /// The set with every named flag.
    pub fn all() -> (flags: Self)
        ensures
            flags.bits == Self::known_bits(),
    {
        AllowedDOFs { bits: 0b111111 }
    }

    /// The raw mask.
    pub fn bits(&self) -> (bits: u8)
        ensures
            bits == self.bits,
    {
        self.bits
    }

    /// The set for a raw mask, or `None` where the mask has a bit that names no flag.
    pub fn from_bits(bits: u8) -> (flags: Option<Self>)
        ensures
            flags == (if bits & !Self::known_bits() == 0 {
                Some(AllowedDOFs { bits })
            } else {
                None
            }),
    {
        if bits & !0b111111 == 0 {
            Some(AllowedDOFs { bits })
        } else {
            None
        }
    }

    /// The set for a raw mask, without the bits that name no flag.
    pub fn from_bits_truncate(bits: u8) -> (flags: Self)
        ensures
            flags.bits == bits & Self::known_bits(),
    {
        AllowedDOFs { bits: bits & 0b111111 }
    }

    /// The set for a raw mask, kept bit for bit, whatever the bits name.
    pub fn from_bits_retain(bits: u8) -> (flags: Self)
        ensures
            flags.bits == bits,
    {
        AllowedDOFs { bits }
    }

    /// Whether no bit is set.
    pub fn is_empty(&self) -> (empty: bool)
        ensures
            empty == (self.bits == 0),
    {
        self.bits == 0
    }

    /// Whether every named flag is set.
    pub fn is_all(&self) -> (full: bool)
        ensures
            full == (self.bits & Self::known_bits() == Self::known_bits()),
    {
        self.bits & 0b111111 == 0b111111
    }

    /// Whether every bit of `other` is set in `self`.
    pub fn contains(&self, other: Self) -> (held: bool)
        ensures
            held == (self.bits & other.bits == other.bits),
    {
        self.bits & other.bits == other.bits
    }

    /// Whether `self` and `other` share a bit.
    pub fn intersects(&self, other: Self) -> (shared: bool)
        ensures
            shared == (self.bits & other.bits != 0),
    {
        self.bits & other.bits != 0
    }

    /// The bits set in `self` or in `other`.
    pub fn union(self, other: Self) -> (flags: Self)
        ensures
            flags.bits == self.bits | other.bits,
    {
        AllowedDOFs { bits: self.bits | other.bits }
    }

    /// The bits set in both `self` and `other`.
    pub fn intersection(self, other: Self) -> (flags: Self)
        ensures
            flags.bits == self.bits & other.bits,
    {
        AllowedDOFs { bits: self.bits & other.bits }
    }

    /// The bits set in `self` and not in `other`.
    pub fn difference(self, other: Self) -> (flags: Self)
        ensures
            flags.bits == self.bits & !other.bits,
    {
        AllowedDOFs { bits: self.bits & !other.bits }
    }

    /// The named flags that are not set in `self`.
    pub fn complement(self) -> (flags: Self)
        ensures
            flags.bits == !self.bits & Self::known_bits(),
    {
        AllowedDOFs { bits: !self.bits & 0b111111 }
    }

    /// Sets the bits of `other`.
    pub fn insert(&mut self, other: Self)
        ensures
            final(self).bits == old(self).bits | other.bits,
    {
        self.bits = self.bits | other.bits;
    }

    /// Clears the bits of `other`.
    pub fn remove(&mut self, other: Self)
        ensures
            final(self).bits == old(self).bits & !other.bits,
    {
        self.bits = self.bits & !other.bits;
    }

    /// A set of named flags alone loses nothing when it is truncated to the named
    /// flags, and the full set contains it.
    pub proof fn lemma_known_is_kept(self)
        requires
            self.is_known(),
        ensures
            self.bits & Self::known_bits() == self.bits,
            Self::known_bits() & self.bits == self.bits,
    {
        let bits = self.bits;
        assert(bits & !0b111111 == 0 ==> bits & 0b111111 == bits && 0b111111 & bits == bits)
            by (bit_vector);
    }

    /// A union contains both of its operands, and an intersection is contained in
    /// each of them.
    pub proof fn lemma_union_intersection(self, other: Self)
        ensures
            (self.bits | other.bits) & self.bits == self.bits,
            (self.bits | other.bits) & other.bits == other.bits,
            self.bits & (self.bits & other.bits) == self.bits & other.bits,
            other.bits & (self.bits & other.bits) == self.bits & other.bits,
    {
        let a = self.bits;
        let b = other.bits;
        assert((a | b) & a == a && (a | b) & b == b) by (bit_vector);
        assert(a & (a & b) == a & b && b & (a & b) == a & b) by (bit_vector);
    }
}

} // verus!
