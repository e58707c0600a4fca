use vstd::prelude::*;

verus! {

/// Which of mass and inertia the engine computes from the shape, and which the
/// creation settings provide.
#[derive(Clone, Copy, Debug, PartialEq, Eq, Structural)]
pub enum OverrideMassProperties {
    CalculateMassAndInertia,
    CalculateInertia,
    MassAndInertiaProvided,
}

impl OverrideMassProperties {
    /// The code under which the native engine knows this mass override.
    pub open spec fn code(self) -> u8 {
        match self {
            OverrideMassProperties::CalculateMassAndInertia => 0,
            OverrideMassProperties::CalculateInertia => 1,
            OverrideMassProperties::MassAndInertiaProvided => 2,
        }
    }

    /// The mass override that a native code stands for; `None` for a code the engine
    /// does not define.
    pub open spec fn decode(raw: u8) -> Option<Self> {
        if raw == 0 {
            Some(OverrideMassProperties::CalculateMassAndInertia)
        } else if raw == 1 {
            Some(OverrideMassProperties::CalculateInertia)
        } else if raw == 2 {
            Some(OverrideMassProperties::MassAndInertiaProvided)
        } else {
            None
        }
    }

    /// Encodes the mass override for a call into the native engine.
    pub fn to_raw(self) -> (raw: u8)
        ensures
            raw == self.code(),
    {
        match self {
            OverrideMassProperties::CalculateMassAndInertia => 0,
            OverrideMassProperties::CalculateInertia => 1,
            OverrideMassProperties::MassAndInertiaProvided => 2,
        }
    }

    /// Decodes a code that the native engine handed back. A code outside the
    /// engine's enumeration gives `None`.
    pub fn from_raw(raw: u8) -> (found: Option<Self>)
        ensures
            found == Self::decode(raw),
    {
        match raw {
            0 => Some(OverrideMassProperties::CalculateMassAndInertia),
            1 => Some(OverrideMassProperties::CalculateInertia),
            2 => Some(OverrideMassProperties::MassAndInertiaProvided),
            _ => None,
        }
    }

    /// Decoding the code of a mass override gives that mass override back.
    pub proof fn lemma_decode_inverts_code(self)
        ensures
            Self::decode(self.code()) == Some(self),
    {
    }

    /// A code decodes exactly when it is below 3, and then it is the code of
    /// what it decodes to.
    pub proof fn lemma_code_inverts_decode(raw: u8)
        ensures
            Self::decode(raw) is Some <==> raw < 3,
            Self::decode(raw) matches Some(value) ==> value.code() == raw,
    {
    }
}

} // verus!
