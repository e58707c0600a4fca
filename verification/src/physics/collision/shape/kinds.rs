use vstd::prelude::*;

verus! {

/// The family that a shape belongs to.
#[derive(Clone, Copy, Debug, PartialEq, Eq, Structural)]
pub enum ShapeType {
    Convex,
    Compound,
    Decorated,
    Mesh,
    HeightField,
    User1,
    User2,
    User3,
    User4,
}

impl ShapeType {
    /// The code under which the native engine knows this shape type.
    pub open spec fn code(self) -> u8 {
        match self {
            ShapeType::Convex => 0,
            ShapeType::Compound => 1,
            ShapeType::Decorated => 2,
            ShapeType::Mesh => 3,
            ShapeType::HeightField => 4,
            ShapeType::User1 => 5,
            ShapeType::User2 => 6,
            ShapeType::User3 => 7,
            ShapeType::User4 => 8,
        }
    }

    /// The shape type that a native code stands for; `None` for a code the engine
    /// does not define.
    pub open spec fn decode(raw: u8) -> Option<Self> {
        if raw == 0 {
            Some(ShapeType::Convex)
        } else if raw == 1 {
            Some(ShapeType::Compound)
        } else if raw == 2 {
            Some(ShapeType::Decorated)
        } else if raw == 3 {
            Some(ShapeType::Mesh)
        } else if raw == 4 {
            Some(ShapeType::HeightField)
        } else if raw == 5 {
            Some(ShapeType::User1)
        } else if raw == 6 {
            Some(ShapeType::User2)
        } else if raw == 7 {
            Some(ShapeType::User3)
        } else if raw == 8 {
            Some(ShapeType::User4)
        } else {
            None
        }
    }

    /// Encodes the shape type for a call into the native engine.
    pub fn to_raw(self) -> (raw: u8)
        ensures
            raw == self.code(),
    {
        match self {
            ShapeType::Convex => 0,
            ShapeType::Compound => 1,
            ShapeType::Decorated => 2,
            ShapeType::Mesh => 3,
            ShapeType::HeightField => 4,
            ShapeType::User1 => 5,
            ShapeType::User2 => 6,
            ShapeType::User3 => 7,
            ShapeType::User4 => 8,
        }
    }

    /// Decodes a code that the native engine handed back. A code outside the
    /// engine's enumeration gives `None`.
    pub fn from_raw(raw: u8) -> (found: Option<Self>)
        ensures
            found == Self::decode(raw),
    {
        match raw {
            0 => Some(ShapeType::Convex),
            1 => Some(ShapeType::Compound),
            2 => Some(ShapeType::Decorated),
            3 => Some(ShapeType::Mesh),
            4 => Some(ShapeType::HeightField),
            5 => Some(ShapeType::User1),
            6 => Some(ShapeType::User2),
            7 => Some(ShapeType::User3),
            8 => Some(ShapeType::User4),
            _ => None,
        }
    }

    /// Decoding the code of a shape type gives that shape type back.
    pub proof fn lemma_decode_inverts_code(self)
        ensures
            Self::decode(self.code()) == Some(self),
    {
    }

    /// A code decodes exactly when it is below 9, and then it is the code of
    /// what it decodes to.
    pub proof fn lemma_code_inverts_decode(raw: u8)
        ensures
            Self::decode(raw) is Some <==> raw < 9,
            Self::decode(raw) matches Some(value) ==> value.code() == raw,
    {
    }
}

/// The concrete kind of a shape within its family.
#[derive(Clone, Copy, Debug, PartialEq, Eq, Structural)]
pub enum ShapeSubType {
    Sphere,
    Box,
    Triangle,
    Capsule,
    TaperedCapsule,
    Cylinder,
    ConvexHull,
    StaticCompound,
    MutableCompound,
    RotatedTranslated,
    Scaled,
    OffsetCenterOfMass,
    Mesh,
    HeightField,
    User1,
    User2,
    User3,
    User4,
    User5,
    User6,
    User7,
    User8,
    UserConvex1,
    UserConvex2,
    UserConvex3,
    UserConvex4,
    UserConvex5,
    UserConvex6,
    UserConvex7,
    UserConvex8,
}

impl ShapeSubType {
    /// The code under which the native engine knows this shape subtype.
    pub open spec fn code(self) -> u8 {
        match self {
            ShapeSubType::Sphere => 0,
            ShapeSubType::Box => 1,
            ShapeSubType::Triangle => 2,
            ShapeSubType::Capsule => 3,
            ShapeSubType::TaperedCapsule => 4,
            ShapeSubType::Cylinder => 5,
            ShapeSubType::ConvexHull => 6,
            ShapeSubType::StaticCompound => 7,
            ShapeSubType::MutableCompound => 8,
            ShapeSubType::RotatedTranslated => 9,
            ShapeSubType::Scaled => 10,
            ShapeSubType::OffsetCenterOfMass => 11,
            ShapeSubType::Mesh => 12,
            ShapeSubType::HeightField => 13,
            ShapeSubType::User1 => 14,
            ShapeSubType::User2 => 15,
            ShapeSubType::User3 => 16,
            ShapeSubType::User4 => 17,
            ShapeSubType::User5 => 18,
            ShapeSubType::User6 => 19,
            ShapeSubType::User7 => 20,
            ShapeSubType::User8 => 21,
            ShapeSubType::UserConvex1 => 22,
            ShapeSubType::UserConvex2 => 23,
            ShapeSubType::UserConvex3 => 24,
            ShapeSubType::UserConvex4 => 25,
            ShapeSubType::UserConvex5 => 26,
            ShapeSubType::UserConvex6 => 27,
            ShapeSubType::UserConvex7 => 28,
            ShapeSubType::UserConvex8 => 29,
        }
    }

    /// The shape subtype that a native code stands for; `None` for a code the engine
    /// does not define.
    pub open spec fn decode(raw: u8) -> Option<Self> {
        if raw == 0 {
            Some(ShapeSubType::Sphere)
        } else if raw == 1 {
            Some(ShapeSubType::Box)
        } else if raw == 2 {
            Some(ShapeSubType::Triangle)
        } else if raw == 3 {
            Some(ShapeSubType::Capsule)
        } else if raw == 4 {
            Some(ShapeSubType::TaperedCapsule)
        } else if raw == 5 {
            Some(ShapeSubType::Cylinder)
        } else if raw == 6 {
            Some(ShapeSubType::ConvexHull)
        } else if raw == 7 {
            Some(ShapeSubType::StaticCompound)
        } else if raw == 8 {
            Some(ShapeSubType::MutableCompound)
        } else if raw == 9 {
            Some(ShapeSubType::RotatedTranslated)
        } else if raw == 10 {
            Some(ShapeSubType::Scaled)
        } else if raw == 11 {
            Some(ShapeSubType::OffsetCenterOfMass)
        } else if raw == 12 {
            Some(ShapeSubType::Mesh)
        } else if raw == 13 {
            Some(ShapeSubType::HeightField)
        } else if raw == 14 {
            Some(ShapeSubType::User1)
        } else if raw == 15 {
            Some(ShapeSubType::User2)
        } else if raw == 16 {
            Some(ShapeSubType::User3)
        } else if raw == 17 {
            Some(ShapeSubType::User4)
        } else if raw == 18 {
            Some(ShapeSubType::User5)
        } else if raw == 19 {
            Some(ShapeSubType::User6)
        } else if raw == 20 {
            Some(ShapeSubType::User7)
        } else if raw == 21 {
            Some(ShapeSubType::User8)
        } else if raw == 22 {
            Some(ShapeSubType::UserConvex1)
        } else if raw == 23 {
            Some(ShapeSubType::UserConvex2)
        } else if raw == 24 {
            Some(ShapeSubType::UserConvex3)
        } else if raw == 25 {
            Some(ShapeSubType::UserConvex4)
        } else if raw == 26 {
            Some(ShapeSubType::UserConvex5)
        } else if raw == 27 {
            Some(ShapeSubType::UserConvex6)
        } else if raw == 28 {
            Some(ShapeSubType::UserConvex7)
        } else if raw == 29 {
            Some(ShapeSubType::UserConvex8)
        } else {
            None
        }
    }

    /// Encodes the shape subtype for a call into the native engine.
    pub fn to_raw(self) -> (raw: u8)
        ensures
            raw == self.code(),
    {
        match self {
            ShapeSubType::Sphere => 0,
            ShapeSubType::Box => 1,
            ShapeSubType::Triangle => 2,
            ShapeSubType::Capsule => 3,
            ShapeSubType::TaperedCapsule => 4,
            ShapeSubType::Cylinder => 5,
            ShapeSubType::ConvexHull => 6,
            ShapeSubType::StaticCompound => 7,
            ShapeSubType::MutableCompound => 8,
            ShapeSubType::RotatedTranslated => 9,
            ShapeSubType::Scaled => 10,
            ShapeSubType::OffsetCenterOfMass => 11,
            ShapeSubType::Mesh => 12,
            ShapeSubType::HeightField => 13,
            ShapeSubType::User1 => 14,
            ShapeSubType::User2 => 15,
            ShapeSubType::User3 => 16,
            ShapeSubType::User4 => 17,
            ShapeSubType::User5 => 18,
            ShapeSubType::User6 => 19,
            ShapeSubType::User7 => 20,
            ShapeSubType::User8 => 21,
            ShapeSubType::UserConvex1 => 22,
            ShapeSubType::UserConvex2 => 23,
            ShapeSubType::UserConvex3 => 24,
            ShapeSubType::UserConvex4 => 25,
            ShapeSubType::UserConvex5 => 26,
            ShapeSubType::UserConvex6 => 27,
            ShapeSubType::UserConvex7 => 28,
            ShapeSubType::UserConvex8 => 29,
        }
    }

    /// Decodes a code that the native engine handed back. A code outside the
    /// engine's enumeration gives `None`.
    pub fn from_raw(raw: u8) -> (found: Option<Self>)
        ensures
            found == Self::decode(raw),
    {
        match raw {
            0 => Some(ShapeSubType::Sphere),
            1 => Some(ShapeSubType::Box),
            2 => Some(ShapeSubType::Triangle),
            3 => Some(ShapeSubType::Capsule),
            4 => Some(ShapeSubType::TaperedCapsule),
            5 => Some(ShapeSubType::Cylinder),
            6 => Some(ShapeSubType::ConvexHull),
            7 => Some(ShapeSubType::StaticCompound),
            8 => Some(ShapeSubType::MutableCompound),
            9 => Some(ShapeSubType::RotatedTranslated),
            10 => Some(ShapeSubType::Scaled),
            11 => Some(ShapeSubType::OffsetCenterOfMass),
            12 => Some(ShapeSubType::Mesh),
            13 => Some(ShapeSubType::HeightField),
            14 => Some(ShapeSubType::User1),
            15 => Some(ShapeSubType::User2),
            16 => Some(ShapeSubType::User3),
            17 => Some(ShapeSubType::User4),
            18 => Some(ShapeSubType::User5),
            19 => Some(ShapeSubType::User6),
            20 => Some(ShapeSubType::User7),
            21 => Some(ShapeSubType::User8),
            22 => Some(ShapeSubType::UserConvex1),
            23 => Some(ShapeSubType::UserConvex2),
            24 => Some(ShapeSubType::UserConvex3),
            25 => Some(ShapeSubType::UserConvex4),
            26 => Some(ShapeSubType::UserConvex5),
            27 => Some(ShapeSubType::UserConvex6),
            28 => Some(ShapeSubType::UserConvex7),
            29 => Some(ShapeSubType::UserConvex8),
            _ => None,
        }
    }

    /// Decoding the code of a shape subtype gives that shape subtype back.
    pub proof fn lemma_decode_inverts_code(self)
        ensures
            Self::decode(self.code()) == Some(self),
    {
    }

    /// A code decodes exactly when it is below 30, and then it is the code of
    /// what it decodes to.
    pub proof fn lemma_code_inverts_decode(raw: u8)
        ensures
            Self::decode(raw) is Some <==> raw < 30,
            Self::decode(raw) matches Some(value) ==> value.code() == raw,
    {
    }
}

} // verus!
