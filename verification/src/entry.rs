//! What a function must look like to be the entry point of an async program.

use vstd::prelude::*;

verus! {

/// Why a function cannot be the entry point.
#[derive(Debug, Clone, Copy, PartialEq, Eq, Structural)]
pub enum EntryError {
    /// The function is not `async`.
    NotAsync,
    /// The function takes parameters.
    HasParameters,
}

impl EntryError {
    /// The text that tells the author of the function what is wrong.
    pub open spec fn spec_message(&self) -> Seq<char> {
        match self {
            EntryError::NotAsync => "entry point function must be async"@,
            EntryError::HasParameters => "entry point function must not have any parameters"@,
        }
    }

    /// The text that tells the author of the function what is wrong.
    pub fn message(&self) -> (text: &'static str)
        ensures
            text@ == self.spec_message(),
    {
        match self {
            EntryError::NotAsync => "entry point function must be async",
            EntryError::HasParameters => "entry point function must not have any parameters",
        }
    }
}

/// The verdict on a function that is or is not `async` and takes `parameters`
/// parameters: that it is not `async` is found first.
pub open spec fn spec_check_entry(is_async: bool, parameters: usize) -> Result<(), EntryError> {
    if !is_async {
        Err(EntryError::NotAsync)
    } else if parameters != 0 {
        Err(EntryError::HasParameters)
    } else {
        Ok(())
    }
}

/// Checks that a function can be the entry point: it must be `async` and take
/// no parameters.
#[verifier::when_used_as_spec(spec_check_entry)]
pub fn check_entry(is_async: bool, parameters: usize) -> (verdict: Result<(), EntryError>)
    ensures
        verdict == spec_check_entry(is_async, parameters),
{
    if !is_async {
        return Err(EntryError::NotAsync);
    }
    if parameters != 0 {
        return Err(EntryError::HasParameters);
    }
    Ok(())
}

} // verus!
