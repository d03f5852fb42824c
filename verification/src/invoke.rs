//! Calling the function behind a tool, with any failure brought to one
//! shape.

use vstd::prelude::*;
use vstd::string::to_string_from_display_ensures;

verus! {

/// The failure of a tool: the text of what went wrong in the call.
#[derive(Debug, PartialEq, Eq)]
pub enum ToolError {
    ExecutionError(String),
}

impl ToolError {
    /// The text of the failure that was normalized.
    pub open spec fn text(self) -> Seq<char> {
        self->ExecutionError_0@
    }

    /// The message of the error: `Tool execution failed: ` and the text of
    /// the failure.
    pub fn message(&self) -> (r: String)
        ensures
            r@ == "Tool execution failed: "@ + self.text(),
    {
        match self {
            ToolError::ExecutionError(text) => String::from_str("Tool execution failed: ").concat(
                text.as_str(),
            ),
        }
    }
}

/// Brings the outcome of a call to the tool's shape: a success stays as it
/// is, a failure becomes its text.
pub fn normalize<T, E: core::fmt::Display>(outcome: Result<T, E>) -> (r: Result<T, ToolError>)
    ensures
        match outcome {
            Ok(value) => r == Ok::<T, ToolError>(value),
            Err(failure) => r is Err && to_string_from_display_ensures::<E>(
                &failure,
                r->Err_0->ExecutionError_0,
            ),
        },
{
    match outcome {
        Ok(value) => Ok(value),
        Err(failure) => Err(ToolError::ExecutionError(failure.to_string())),
    }
}

/// Calls `function` on `args` and normalizes the outcome.
pub fn invoke<A, T, E: core::fmt::Display, F: FnOnce(A) -> Result<T, E>>(function: F, args: A) -> (r:
    Result<T, ToolError>)
    requires
        function.requires((args,)),
    ensures
        match r {
            Ok(value) => function.ensures((args,), Ok(value)),
            Err(error) => exists|failure: E|
                function.ensures((args,), Err(failure)) && to_string_from_display_ensures::<E>(
                    &failure,
                    error->ExecutionError_0,
                ),
        },
{
    normalize(function(args))
}

} // verus!
