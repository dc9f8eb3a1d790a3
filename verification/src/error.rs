//! Error taxonomy of the plotting pipeline.
//!
//! Every failure is terminal for the invocation: nothing partial is ever
//! returned. Numeric degeneracies during sampling are never errors; they
//! are filtered out point by point instead.

use vstd::prelude::*;

verus! {

/// The three required arguments, by their semantic role. An error that
/// reports a missing or ill-typed argument names one of these.
#[derive(Clone, Copy, Debug, PartialEq, Eq, Structural)]
pub enum ArgRole {
    /// The formula text.
    Formula,
    /// The pair of x-axis bounds.
    XRange,
    /// The sample count.
    Samples,
}

/// What can abort an invocation before any point is produced.
#[derive(Clone, Copy, Debug, PartialEq, Eq, Structural)]
pub enum ChartError {
    /// A required argument is absent, or present with the wrong type.
    /// Absence and type mismatch are deliberately not distinguished.
    MissingOrInvalidArgument(ArgRole),
    /// The formula text does not conform to the expression grammar.
    FormulaParseError,
    /// The formula parses but cannot be bound to the single variable `x`.
    FormulaBindError,
}

impl ChartError {
    /// The user-visible message of this error.
    pub open spec fn spec_message(self) -> Seq<char> {
        match self {
            ChartError::MissingOrInvalidArgument(ArgRole::Formula) => {
                "`get_function_points` require function formula"@
            },
            ChartError::MissingOrInvalidArgument(ArgRole::XRange) => {
                "`get_function_points` require range for x-axis"@
            },
            ChartError::MissingOrInvalidArgument(ArgRole::Samples) => {
                "`get_function_points` require number of samples/points"@
            },
            ChartError::FormulaParseError => "Could not parse the formula"@,
            ChartError::FormulaBindError => {
                "Could not find the 'x' variable in the formula"@
            },
        }
    }

    /// Renders the message that identifies this failure to the host.
    pub fn message(&self) -> (r: &'static str)
        ensures
            r@ == self.spec_message(),
    {
        match self {
            ChartError::MissingOrInvalidArgument(ArgRole::Formula) => {
                "`get_function_points` require function formula"
            },
            ChartError::MissingOrInvalidArgument(ArgRole::XRange) => {
                "`get_function_points` require range for x-axis"
            },
            ChartError::MissingOrInvalidArgument(ArgRole::Samples) => {
                "`get_function_points` require number of samples/points"
            },
            ChartError::FormulaParseError => "Could not parse the formula",
            ChartError::FormulaBindError => {
                "Could not find the 'x' variable in the formula"
            },
        }
    }
}

} // verus!
