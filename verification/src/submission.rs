//! A contract submission and its validation: the source text and the
//! manifest text must each contain something other than whitespace before
//! any workspace is materialized or any subprocess is launched.

use vstd::prelude::*;
use crate::text::{blank, is_blank};

verus! {

/// One submitted contract: the Move source text and the package manifest
/// text, as they arrive in a request body.
pub struct ContractCode {
    pub code: String,
    pub move_toml: String,
}

/// Why a submission was rejected before any tool ran.
#[derive(Clone, Copy, PartialEq, Eq, Structural, Debug)]
pub enum ValidationError {
    EmptyCode,
    EmptyManifest,
}

impl ValidationError {
    /// The message the service reports for this rejection.
    pub fn message(&self) -> (r: &'static str)
        ensures
            *self == ValidationError::EmptyCode ==> r@ == "Empty code"@,
            *self == ValidationError::EmptyManifest ==> r@ == "Empty manifest"@,
    {
        match self {
            ValidationError::EmptyCode => "Empty code",
            ValidationError::EmptyManifest => "Empty manifest",
        }
    }
}

/// A submission is acceptable when neither field is empty or
/// whitespace-only.
pub open spec fn submission_acceptable(sub: ContractCode) -> bool {
    !is_blank(sub.code@) && !is_blank(sub.move_toml@)
}

/// Checks the two required fields of a submission, the code first, and
/// reports the first one found blank. No subprocess may be launched for a
/// submission this function rejects.
pub fn validate_submission(sub: &ContractCode) -> (r: Result<(), ValidationError>)
    ensures
        r is Ok <==> submission_acceptable(*sub),
        r == Err::<(), ValidationError>(ValidationError::EmptyCode) <==> is_blank(sub.code@),
        r == Err::<(), ValidationError>(ValidationError::EmptyManifest) <==> (!is_blank(
            sub.code@,
        ) && is_blank(sub.move_toml@)),
{
    if blank(sub.code.as_str()) {
        Err(ValidationError::EmptyCode)
    } else if blank(sub.move_toml.as_str()) {
        Err(ValidationError::EmptyManifest)
    } else {
        Ok(())
    }
}

} // verus!
