use vstd::prelude::*;

verus! {

/// What a contact listener decides about a candidate contact: to accept or reject
/// this contact alone, or every contact of the body pair.
#[derive(Clone, Copy, Debug, PartialEq, Eq, Structural)]
pub enum ValidateResult {
    AcceptAllContactsForThisBodyPair,
    AcceptContact,
    RejectContact,
    RejectAllContactsForThisBodyPair,
}

impl ValidateResult {
    /// The code under which the native engine knows this decision.
    pub open spec fn code(self) -> u32 {
        match self {
            ValidateResult::AcceptAllContactsForThisBodyPair => 0,
            ValidateResult::AcceptContact => 1,
            ValidateResult::RejectContact => 2,
            ValidateResult::RejectAllContactsForThisBodyPair => 3,
        }
    }

    /// The decision that a native code stands for; `None` for a code the engine
    /// does not define.
    pub open spec fn decode(raw: u32) -> Option<Self> {
        if raw == 0 {
            Some(ValidateResult::AcceptAllContactsForThisBodyPair)
        } else if raw == 1 {
            Some(ValidateResult::AcceptContact)
        } else if raw == 2 {
            Some(ValidateResult::RejectContact)
        } else if raw == 3 {
            Some(ValidateResult::RejectAllContactsForThisBodyPair)
        } else {
            None
        }
    }

    /// Encodes the decision for a call into the native engine.
    pub fn to_raw(self) -> (raw: u32)
        ensures
            raw == self.code(),
    {
        match self {
            ValidateResult::AcceptAllContactsForThisBodyPair => 0,
            ValidateResult::AcceptContact => 1,
            ValidateResult::RejectContact => 2,
            ValidateResult::RejectAllContactsForThisBodyPair => 3,
        }
    }

    /// Decodes a code that the native engine handed back. A code outside the
    /// engine's enumeration gives `None`.
    pub fn from_raw(raw: u32) -> (found: Option<Self>)
        ensures
            found == Self::decode(raw),
    {
        match raw {
            0 => Some(ValidateResult::AcceptAllContactsForThisBodyPair),
            1 => Some(ValidateResult::AcceptContact),
            2 => Some(ValidateResult::RejectContact),
            3 => Some(ValidateResult::RejectAllContactsForThisBodyPair),
            _ => None,
        }
    }

    /// Decoding the code of a decision gives that decision back.
    pub proof fn lemma_decode_inverts_code(self)
        ensures
            Self::decode(self.code()) == Some(self),
    {
    }

    /// A code decodes exactly when it is below 4, and then it is the code of
    /// what it decodes to.
    pub proof fn lemma_code_inverts_decode(raw: u32)
        ensures
            Self::decode(raw) is Some <==> raw < 4,
            Self::decode(raw) matches Some(value) ==> value.code() == raw,
    {
    }
}

} // verus!
