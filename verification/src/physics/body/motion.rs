use vstd::prelude::*;

verus! {

/// How a body moves: not at all, by its velocity alone, or under forces.
#[derive(Clone, Copy, Debug, PartialEq, Eq, Structural)]
pub enum MotionType {
    Static,
    Kinematic,
    Dynamic,
}

impl MotionType {
    /// The code under which the native engine knows this motion type.
    pub open spec fn code(self) -> u8 {
        match self {
            MotionType::Static => 0,
            MotionType::Kinematic => 1,
            MotionType::Dynamic => 2,
        }
    }

    /// The motion type that a native code stands for; `None` for a code the engine
    /// does not define.
    pub open spec fn decode(raw: u8) -> Option<Self> {
        if raw == 0 {
            Some(MotionType::Static)
        } else if raw == 1 {
            Some(MotionType::Kinematic)
        } else if raw == 2 {
            Some(MotionType::Dynamic)
        } else {
            None
        }
    }

    /// Encodes the motion type for a call into the native engine.
    pub fn to_raw(self) -> (raw: u8)
        ensures
            raw == self.code(),
    {
        match self {
            MotionType::Static => 0,
            MotionType::Kinematic => 1,
            MotionType::Dynamic => 2,
        }
    }

    /// Decodes a code that the native engine handed back. A code outside the
    /// engine's enumeration gives `None`.
    pub fn from_raw(raw: u8) -> (found: Option<Self>)
        ensures
            found == Self::decode(raw),
    {
        match raw {
            0 => Some(MotionType::Static),
            1 => Some(MotionType::Kinematic),
            2 => Some(MotionType::Dynamic),
            _ => None,
        }
    }

    /// Decoding the code of a motion type gives that motion type back.
    pub proof fn lemma_decode_inverts_code(self)
        ensures
            Self::decode(self.code()) == Some(self),
    {
    }

    /// A code decodes exactly when it is below 3, and then it is the code of
    /// what it decodes to.
    pub proof fn lemma_code_inverts_decode(raw: u8)
        ensures
            Self::decode(raw) is Some <==> raw < 3,
            Self::decode(raw) matches Some(value) ==> value.code() == raw,
    {
    }
}

/// How a body's movement is swept for collisions within one step.
#[derive(Clone, Copy, Debug, PartialEq, Eq, Structural)]
pub enum MotionQuality {
    Discrete,
    LinearCast,
}

impl MotionQuality {
    /// The code under which the native engine knows this motion quality.
    pub open spec fn code(self) -> u8 {
        match self {
            MotionQuality::Discrete => 0,
            MotionQuality::LinearCast => 1,
        }
    }

    /// The motion quality that a native code stands for; `None` for a code the engine
    /// does not define.
    pub open spec fn decode(raw: u8) -> Option<Self> {
        if raw == 0 {
            Some(MotionQuality::Discrete)
        } else if raw == 1 {
            Some(MotionQuality::LinearCast)
        } else {
            None
        }
    }

    /// Encodes the motion quality for a call into the native engine.
    pub fn to_raw(self) -> (raw: u8)
        ensures
            raw == self.code(),
    {
        match self {
            MotionQuality::Discrete => 0,
            MotionQuality::LinearCast => 1,
        }
    }

    /// Decodes a code that the native engine handed back. A code outside the
    /// engine's enumeration gives `None`.
    pub fn from_raw(raw: u8) -> (found: Option<Self>)
        ensures
            found == Self::decode(raw),
    {
        match raw {
            0 => Some(MotionQuality::Discrete),
            1 => Some(MotionQuality::LinearCast),
            _ => None,
        }
    }

    /// Decoding the code of a motion quality gives that motion quality back.
    pub proof fn lemma_decode_inverts_code(self)
        ensures
            Self::decode(self.code()) == Some(self),
    {
    }

    /// A code decodes exactly when it is below 2, and then it is the code of
    /// what it decodes to.
    pub proof fn lemma_code_inverts_decode(raw: u8)
        ensures
            Self::decode(raw) is Some <==> raw < 2,
            Self::decode(raw) matches Some(value) ==> value.code() == raw,
    {
    }
}

} // verus!
