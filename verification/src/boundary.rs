//! Results and optional values in the shape they have at the boundary.
//!
//! A value that crosses the boundary cannot be one of the language's own
//! sum types, whose layout is not fixed. Each of the two types here is a
//! one-byte tag followed by a payload, and converts to and from the
//! language's own type without loss. Every conversion names both tags, so
//! none can leave a tag out.

use vstd::prelude::*;

verus! {

/// The tag of a success and of a present value.
pub const TAG_FIRST: u8 = 0;

/// The tag of a failure and of an absent value.
pub const TAG_SECOND: u8 = 1;

/// A success with its value, or a failure with its code.
#[derive(Clone, Copy, Debug, PartialEq, Eq)]
pub enum FfiResult<T> {
    /// The call succeeded, with this value.
    ROk(T),
    /// The call failed, with this code.
    RErr(u32),
}

/// A value that is present, or none.
#[derive(Clone, Copy, Debug, PartialEq, Eq)]
pub enum FfiOption<T> {
    /// A value is present.
    RSome(T),
    /// No value is present.
    RNone,
}

impl<T> FfiResult<T> {
    /// The boundary form of `result`.
    pub open spec fn of(result: Result<T, u32>) -> FfiResult<T> {
        match result {
            Ok(value) => FfiResult::ROk(value),
            Err(code) => FfiResult::RErr(code),
        }
    }

    /// The language's own form of this result.
    pub open spec fn as_result(self) -> Result<T, u32> {
        match self {
            FfiResult::ROk(value) => Ok(value),
            FfiResult::RErr(code) => Err(code),
        }
    }

    /// The tag of this result.
    pub open spec fn spec_tag(&self) -> u8 {
        match self {
            FfiResult::ROk(_) => TAG_FIRST,
            FfiResult::RErr(_) => TAG_SECOND,
        }
    }

    /// Brings `result` into its boundary form.
    pub fn from_result(result: Result<T, u32>) -> (r: FfiResult<T>)
        ensures
            r == FfiResult::of(result),
    {
        match result {
            Ok(value) => FfiResult::ROk(value),
            Err(code) => FfiResult::RErr(code),
        }
    }

    /// Brings this result back into the language's own form.
    pub fn into_result(self) -> (r: Result<T, u32>)
        ensures
            r == self.as_result(),
    {
        match self {
            FfiResult::ROk(value) => Ok(value),
            FfiResult::RErr(code) => Err(code),
        }
    }

    /// The tag of this result.
    #[verifier::when_used_as_spec(spec_tag)]
    pub fn tag(&self) -> (r: u8)
        ensures
            r == self.spec_tag(),
    {
        match self {
            FfiResult::ROk(_) => TAG_FIRST,
            FfiResult::RErr(_) => TAG_SECOND,
        }
    }
}

impl<T> FfiOption<T> {
    /// The boundary form of `option`.
    pub open spec fn of(option: Option<T>) -> FfiOption<T> {
        match option {
            Some(value) => FfiOption::RSome(value),
            None => FfiOption::RNone,
        }
    }

    /// The language's own form of this value.
    pub open spec fn as_option(self) -> Option<T> {
        match self {
            FfiOption::RSome(value) => Some(value),
            FfiOption::RNone => None,
        }
    }

    /// The tag of this value.
    pub open spec fn spec_tag(&self) -> u8 {
        match self {
            FfiOption::RSome(_) => TAG_FIRST,
            FfiOption::RNone => TAG_SECOND,
        }
    }

    /// Brings `option` into its boundary form.
    pub fn from_option(option: Option<T>) -> (r: FfiOption<T>)
        ensures
            r == FfiOption::of(option),
    {
        match option {
            Some(value) => FfiOption::RSome(value),
            None => FfiOption::RNone,
        }
    }

    /// Brings this value back into the language's own form.
    pub fn into_option(self) -> (r: Option<T>)
        ensures
            r == self.as_option(),
    {
        match self {
            FfiOption::RSome(value) => Some(value),
            FfiOption::RNone => None,
        }
    }

    /// The tag of this value.
    #[verifier::when_used_as_spec(spec_tag)]
    pub fn tag(&self) -> (r: u8)
        ensures
            r == self.spec_tag(),
    {
        match self {
            FfiOption::RSome(_) => TAG_FIRST,
            FfiOption::RNone => TAG_SECOND,
        }
    }
}

/// A result that goes to the boundary and back is unchanged, and so is one
/// that comes from the boundary and returns to it. A success keeps the
/// first tag and a failure the second.
pub proof fn lemma_result_round_trip<T>(result: Result<T, u32>, boundary: FfiResult<T>)
    ensures
        FfiResult::of(result).as_result() == result,
        FfiResult::of(boundary.as_result()) == boundary,
        FfiResult::of(result).spec_tag() == TAG_FIRST <==> result is Ok,
        FfiResult::of(result).spec_tag() == TAG_SECOND <==> result is Err,
{
}

/// An optional value that goes to the boundary and back is unchanged, and
/// so is one that comes from the boundary and returns to it. A present
/// value keeps the first tag and an absent one the second.
pub proof fn lemma_option_round_trip<T>(option: Option<T>, boundary: FfiOption<T>)
    ensures
        FfiOption::of(option).as_option() == option,
        FfiOption::of(boundary.as_option()) == boundary,
        FfiOption::of(option).spec_tag() == TAG_FIRST <==> option is Some,
        FfiOption::of(option).spec_tag() == TAG_SECOND <==> option is None,
{
}

} // verus!
