//! The failures a call can end in, and the code each one has at the
//! boundary.
//!
//! A call fails in one of three ways. The buffers it was given are
//! malformed (a structural failure), something it asks for is not among the
//! accounts it was given (a lookup failure), or the engine rejects the
//! computation (a domain failure). The first two are this library's own and
//! have fixed codes; a domain failure keeps the code the engine gave it.

use vstd::prelude::*;

verus! {

/// What can be wrong with the account buffers of a call.
#[derive(Clone, Copy, Debug, PartialEq, Eq, Structural)]
pub enum StructuralError {
    /// A buffer is shorter than the record it should hold.
    AccountTooSmall,
    /// A buffer does not start with the tag of the record it should hold.
    DiscriminatorMismatch,
    /// Two accounts of one list claim the same key.
    DuplicateKey,
}

/// What a call can ask for in vain.
#[derive(Clone, Copy, Debug, PartialEq, Eq, Structural)]
pub enum LookupError {
    /// No market of the list has the index asked for.
    MarketNotFound,
    /// No oracle of the list has the key asked for.
    OracleNotFound,
}

/// Why a call failed.
#[derive(Clone, Copy, Debug, PartialEq, Eq, Structural)]
pub enum CallError {
    /// The account buffers are malformed.
    Malformed(StructuralError),
    /// A market or an oracle is missing.
    Missing(LookupError),
    /// The engine rejected the computation, with this code.
    Domain(u32),
}

/// The largest code that this library gives to a failure of its own.
pub const LAST_OWN_CODE: u32 = 5;

impl CallError {
    /// Where a failure of this library stands among its failures, in the
    /// order in which they are declared; a domain failure stands after all
    /// of them.
    pub open spec fn rank(self) -> int {
        match self {
            CallError::Malformed(StructuralError::AccountTooSmall) => 0,
            CallError::Malformed(StructuralError::DiscriminatorMismatch) => 1,
            CallError::Malformed(StructuralError::DuplicateKey) => 2,
            CallError::Missing(LookupError::MarketNotFound) => 3,
            CallError::Missing(LookupError::OracleNotFound) => 4,
            CallError::Domain(_) => 5,
        }
    }

    /// The code of a failure at the boundary.
    pub open spec fn spec_code(self) -> u32 {
        match self {
            CallError::Malformed(StructuralError::AccountTooSmall) => 1,
            CallError::Malformed(StructuralError::DiscriminatorMismatch) => 2,
            CallError::Malformed(StructuralError::DuplicateKey) => 3,
            CallError::Missing(LookupError::MarketNotFound) => 4,
            CallError::Missing(LookupError::OracleNotFound) => 5,
            CallError::Domain(code) => code,
        }
    }

    /// The code of a failure at the boundary. Every failure has one, and
    /// the match below names every variant, so a new variant does not
    /// build until it is given a code.
    #[verifier::when_used_as_spec(spec_code)]
    pub fn code(self) -> (r: u32)
        ensures
            r == self.spec_code(),
    {
        match self {
            CallError::Malformed(e) => match e {
                StructuralError::AccountTooSmall => 1,
                StructuralError::DiscriminatorMismatch => 2,
                StructuralError::DuplicateKey => 3,
            },
            CallError::Missing(e) => match e {
                LookupError::MarketNotFound => 4,
                LookupError::OracleNotFound => 5,
            },
            CallError::Domain(code) => code,
        }
    }
}

/// The codes of this library's own failures follow the order in which the
/// failures are declared: a failure declared earlier has the smaller code.
pub proof fn lemma_own_codes_order_preserving(a: CallError, b: CallError)
    requires
        !(a is Domain),
        !(b is Domain),
    ensures
        a.rank() < b.rank() <==> a.spec_code() < b.spec_code(),
        0 < a.spec_code() <= LAST_OWN_CODE,
{
}

/// A domain failure keeps the engine's code, so the engine's codes keep
/// their order and their identity.
pub proof fn lemma_domain_codes_verbatim(x: u32, y: u32)
    ensures
        CallError::Domain(x).spec_code() == x,
        x < y <==> CallError::Domain(x).spec_code() < CallError::Domain(y).spec_code(),
{
}

/// As long as the engine's codes lie above this library's own, no two
/// failures share a code.
pub proof fn lemma_codes_distinct(a: CallError, b: CallError)
    requires
        a matches CallError::Domain(x) ==> x > LAST_OWN_CODE,
        b matches CallError::Domain(y) ==> y > LAST_OWN_CODE,
        a.spec_code() == b.spec_code(),
    ensures
        a == b,
{
}

} // verus!
