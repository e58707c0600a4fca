use vstd::prelude::*;

verus! {

/// Whether a call that changes a body also wakes it.
#[derive(Clone, Copy, Debug, PartialEq, Eq, Structural)]
pub enum Activation {
    Activate,
    DontActivate,
}

impl Activation {
    /// The code under which the native engine knows this activation choice.
    pub open spec fn code(self) -> u8 {
        match self {
            Activation::Activate => 0,
            Activation::DontActivate => 1,
        }
    }

    /// The activation choice that a native code stands for; `None` for a code the engine
    /// does not define.
    pub open spec fn decode(raw: u8) -> Option<Self> {
        if raw == 0 {
            Some(Activation::Activate)
        } else if raw == 1 {
            Some(Activation::DontActivate)
        } else {
            None
        }
    }

    /// Encodes the activation choice for a call into the native engine.
    pub fn to_raw(self) -> (raw: u8)
        ensures
            raw == self.code(),
    {
        match self {
            Activation::Activate => 0,
            Activation::DontActivate => 1,
        }
    }

    /// Decodes a code that the native engine handed back. A code outside the
    /// engine's enumeration gives `None`.
    pub fn from_raw(raw: u8) -> (found: Option<Self>)
        ensures
            found == Self::decode(raw),
    {
        match raw {
            0 => Some(Activation::Activate),
            1 => Some(Activation::DontActivate),
            _ => None,
        }
    }

    /// Decoding the code of a activation choice gives that activation choice back.
    pub proof fn lemma_decode_inverts_code(self)
        ensures
            Self::decode(self.code()) == Some(self),
    {
    }

    /// A code decodes exactly when it is below 2, and then it is the code of
    /// what it decodes to.
    pub proof fn lemma_code_inverts_decode(raw: u8)
        ensures
            Self::decode(raw) is Some <==> raw < 2,
            Self::decode(raw) matches Some(value) ==> value.code() == raw,
    {
    }
}

} // verus!
