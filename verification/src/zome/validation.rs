use vstd::prelude::*;

verus! {

/// The verdict of the zome's validation of an operation.
#[derive(Clone, Debug, PartialEq)]
pub enum ValidateCallbackResult {
    Valid,
    Invalid(String),
}

/// The zome's validation: every operation is valid.
pub fn validate<Op>(op: Op) -> (v: ValidateCallbackResult)
    ensures
        v is Valid,
{
    ValidateCallbackResult::Valid
}

} // verus!
