//! Validation of the loosely-typed invocation arguments.
//!
//! The host hands the pipeline an unordered mapping from argument name to
//! a loosely-typed value. Exactly three names matter: `formula`, `xrange`
//! and `samples`; every other entry is ignored. A name that is absent and
//! a name that is present with the wrong shape fail identically, with an
//! error naming the argument's role.

use vstd::prelude::*;

use crate::error::{ArgRole, ChartError};

verus! {

/// One argument value, reduced to the shapes the pipeline distinguishes.
/// A 64-bit floating-point bound travels as its IEEE 754 bit pattern, so
/// the verified code can hold and compare it as a plain integer.
pub enum ArgValue {
    /// A value convertible to text.
    Text(String),
    /// A value convertible to an ordered pair of 64-bit floats; each
    /// component is carried as its bit pattern.
    Pair(u64, u64),
    /// A value convertible to a non-negative 32-bit integer.
    Count(u32),
    /// A value of any other shape: never accepted for a required name.
    Other,
}

/// The three arguments after validation, ready for the later stages.
#[derive(Debug)]
pub struct ValidArgs {
    /// The formula text.
    pub formula: String,
    /// Bit pattern of the lower x-axis bound (first pair component).
    pub x_min_bits: u64,
    /// Bit pattern of the upper x-axis bound (second pair component).
    pub x_max_bits: u64,
    /// How many abscissas to sample.
    pub samples: u32,
}

/// The value under the first entry whose name is `key`, if any.
pub open spec fn spec_lookup(args: Seq<(String, ArgValue)>, key: Seq<char>) -> Option<ArgValue>
    decreases args.len(),
{
    if args.len() == 0 {
        None
    } else if args[0].0@ == key {
        Some(args[0].1)
    } else {
        spec_lookup(args.drop_first(), key)
    }
}

/// The `formula` entry of the mapping.
pub open spec fn formula_arg(args: Seq<(String, ArgValue)>) -> Option<ArgValue> {
    spec_lookup(args, "formula"@)
}

/// The `xrange` entry of the mapping.
pub open spec fn xrange_arg(args: Seq<(String, ArgValue)>) -> Option<ArgValue> {
    spec_lookup(args, "xrange"@)
}

/// The `samples` entry of the mapping.
pub open spec fn samples_arg(args: Seq<(String, ArgValue)>) -> Option<ArgValue> {
    spec_lookup(args, "samples"@)
}

/// Whether the mapping carries a usable formula text.
pub open spec fn formula_ok(args: Seq<(String, ArgValue)>) -> bool {
    formula_arg(args) matches Some(ArgValue::Text(_))
}

/// Whether the mapping carries a usable x-axis range.
pub open spec fn xrange_ok(args: Seq<(String, ArgValue)>) -> bool {
    xrange_arg(args) matches Some(ArgValue::Pair(_, _))
}

/// Whether the mapping carries a usable sample count.
pub open spec fn samples_ok(args: Seq<(String, ArgValue)>) -> bool {
    samples_arg(args) matches Some(ArgValue::Count(_))
}

/// What validation returns, stated over views: either the formula text,
/// the two range bit patterns and the count, or the error for the first
/// required name (in the order formula, xrange, samples) that is absent
/// or ill-shaped.
pub open spec fn spec_validate(args: Seq<(String, ArgValue)>) -> Result<
    (Seq<char>, u64, u64, u32),
    ChartError,
> {
    if !formula_ok(args) {
        Err(ChartError::MissingOrInvalidArgument(ArgRole::Formula))
    } else if !xrange_ok(args) {
        Err(ChartError::MissingOrInvalidArgument(ArgRole::XRange))
    } else if !samples_ok(args) {
        Err(ChartError::MissingOrInvalidArgument(ArgRole::Samples))
    } else {
        Ok(
            (
                formula_arg(args)->Some_0->Text_0@,
                xrange_arg(args)->Some_0->Pair_0,
                xrange_arg(args)->Some_0->Pair_1,
                samples_arg(args)->Some_0->Count_0,
            ),
        )
    }
}

/// Position of the first entry whose name is `key`.
fn lookup_index(args: &Vec<(String, ArgValue)>, key: &String) -> (r: Option<usize>)
    ensures
        match r {
            Some(i) => i < args@.len() && args@[i as int].0@ == key@ && spec_lookup(args@, key@)
                == Some(args@[i as int].1),
            None => spec_lookup(args@, key@) is None,
        },
{
    let n = args.len();
    let mut i: usize = 0;
    assert(args@.skip(0) =~= args@);
    while i < n
        invariant
            n == args@.len(),
            i <= n,
            spec_lookup(args@, key@) == spec_lookup(args@.skip(i as int), key@),
        decreases n - i,
    {
        if args[i].0 == *key {
            assert(args@.skip(i as int)[0] == args@[i as int]);
            return Some(i);
        }
        assert(args@.skip(i as int).drop_first() =~= args@.skip(i + 1));
        assert(args@.skip(i as int)[0] == args@[i as int]);
        i += 1;
    }
    assert(args@.skip(n as int).len() == 0);
    None
}

/// Extracts and type-checks the three required arguments, in the order
/// formula, xrange, samples; the first failure aborts the invocation.
pub fn validate_args(args: &Vec<(String, ArgValue)>) -> (r: Result<ValidArgs, ChartError>)
    ensures
        match (r, spec_validate(args@)) {
            (Ok(v), Ok(t)) => v.formula@ == t.0 && v.x_min_bits == t.1 && v.x_max_bits == t.2
                && v.samples == t.3,
            (Err(e), Err(f)) => e == f,
            _ => false,
        },
{
    let formula_key: String = "formula".to_owned();
    let formula: String = match lookup_index(args, &formula_key) {
        Some(i) => match &args[i].1 {
            ArgValue::Text(s) => s.clone(),
            _ => {
                return Err(ChartError::MissingOrInvalidArgument(ArgRole::Formula));
            },
        },
        None => {
            return Err(ChartError::MissingOrInvalidArgument(ArgRole::Formula));
        },
    };
    let xrange_key: String = "xrange".to_owned();
    let (x_min_bits, x_max_bits): (u64, u64) = match lookup_index(args, &xrange_key) {
        Some(i) => match &args[i].1 {
            ArgValue::Pair(lo, hi) => (*lo, *hi),
            _ => {
                return Err(ChartError::MissingOrInvalidArgument(ArgRole::XRange));
            },
        },
        None => {
            return Err(ChartError::MissingOrInvalidArgument(ArgRole::XRange));
        },
    };
    let samples_key: String = "samples".to_owned();
    let samples: u32 = match lookup_index(args, &samples_key) {
        Some(i) => match &args[i].1 {
            ArgValue::Count(n) => *n,
            _ => {
                return Err(ChartError::MissingOrInvalidArgument(ArgRole::Samples));
            },
        },
        None => {
            return Err(ChartError::MissingOrInvalidArgument(ArgRole::Samples));
        },
    };
    Ok(ValidArgs { formula, x_min_bits, x_max_bits, samples })
}

} // verus!
