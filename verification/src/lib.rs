//! Turns a textual single-variable formula, an x-axis range and a sample
//! count into a comma-separated list of plot-point records.
//!
//! The pipeline has four stages: validate the loosely-typed arguments,
//! compile the formula, sample it across the range, and serialize the
//! surviving points. Floating-point evaluation itself happens outside the
//! verified library; the library receives each sample's y bit pattern and
//! its fixed-precision rendering, and owns every decision made about them.

use vstd::prelude::*;

pub mod args;
pub mod error;
pub mod formula;
pub mod points;

use crate::args::{spec_validate, validate_args, ArgValue};
use crate::error::ChartError;
use crate::formula::{compile, formula_binds_x, formula_parses, is_blank};

verus! {

/// The plotting capability. It is stateless: every invocation is
/// independent, and the construction parameter is kept only for the host.
pub struct FunctionCalculator;

/// Opaque construction parameter supplied by the host at registration
/// time; no stage of the pipeline consults it.
pub struct HostConfig;

impl FunctionCalculator {
    /// Builds the capability; the configuration is accepted and ignored.
    pub fn new(_config: HostConfig) -> (r: Self) {
        FunctionCalculator
    }
}

/// Everything the sampling stage needs: the compiled expression, the
/// two range bounds as bit patterns, and how many abscissas to take.
#[derive(Debug)]
pub struct Plan {
    /// The formula, parsed and known to bind to `x`.
    pub expr: meval::Expr,
    /// Bit pattern of the range's first bound.
    pub x_min_bits: u64,
    /// Bit pattern of the range's second bound.
    pub x_max_bits: u64,
    /// The number of samples; zero means an empty plot.
    pub samples: u32,
}

/// What planning an invocation yields, stated over views: the validated
/// argument values once the formula text both parses and binds to `x`,
/// else the error of the first stage that failed. Blank formula text —
/// non-empty, nothing but whitespace — is malformed without consulting
/// the grammar.
pub open spec fn spec_plan(args: Seq<(String, ArgValue)>) -> Result<
    (Seq<char>, u64, u64, u32),
    ChartError,
> {
    match spec_validate(args) {
        Err(e) => Err(e),
        Ok(t) => if is_blank(t.0) {
            Err(ChartError::FormulaParseError)
        } else if !formula_parses(t.0) {
            Err(ChartError::FormulaParseError)
        } else if !formula_binds_x(t.0) {
            Err(ChartError::FormulaBindError)
        } else {
            Ok(t)
        },
    }
}

/// Runs the validator and the compiler: the part of an invocation that
/// comes before any floating-point work. On success the returned plan
/// carries exactly the validated range bits and sample count.
pub fn plan_invocation(args: &Vec<(String, ArgValue)>) -> (r: Result<Plan, ChartError>)
    ensures
        match (r, spec_plan(args@)) {
            (Ok(p), Ok(t)) => p.x_min_bits == t.1 && p.x_max_bits == t.2 && p.samples == t.3,
            (Err(e), Err(f)) => e == f,
            _ => false,
        },
{
    let v = match validate_args(args) {
        Ok(v) => v,
        Err(e) => {
            return Err(e);
        },
    };
    let expr = match compile(v.formula.as_str()) {
        Ok(e) => e,
        Err(e) => {
            return Err(e);
        },
    };
    Ok(Plan { expr, x_min_bits: v.x_min_bits, x_max_bits: v.x_max_bits, samples: v.samples })
}

} // verus!
