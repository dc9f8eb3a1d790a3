//! Compilation of the formula text into an evaluable expression.
//!
//! Parsing and variable binding are the work of the `meval` crate. Both
//! outcomes are functions of the formula text alone, so the library gives
//! each a name and states the compiler's contract over those names; what
//! the names hold on a given text is settled only by running `meval`.
//!
//! One class of text never reaches `meval` at all: a non-empty text made
//! only of spaces, tabs and line breaks. `meval`'s tokenizer does not
//! return normally from such a text, so the compiler rejects it up front
//! as malformed, and the trusted wrapper requires it away.

use vstd::prelude::*;
use vstd::string::StrSliceExecFns;

use crate::error::ChartError;

verus! {

/// A parsed arithmetic expression of the `meval` crate, opaque to the
/// verified code: it is produced by the compiler stage and only handed
/// on to the evaluation of the samples.
#[verifier::external_type_specification]
#[verifier::external_body]
pub struct ExExpr(meval::Expr);

/// A token of `meval`'s parsed representation. The library never looks
/// at one; the declaration only lets Verus accept `meval::Expr`, whose
/// impls mention the token type.
#[verifier::external_type_specification]
#[verifier::external_body]
pub struct ExToken(meval::tokenizer::Token);

/// The whitespace that `meval`'s tokenizer skips between tokens.
pub open spec fn blank_char(c: char) -> bool {
    c == ' ' || c == '\t' || c == '\r' || c == '\n'
}

/// A text that holds at least one character and nothing but tokenizer
/// whitespace. Such a text is the one input `meval`'s parser does not
/// answer for, so the compiler never hands it over.
pub open spec fn is_blank(s: Seq<char>) -> bool {
    s.len() > 0 && forall|i: int| 0 <= i < s.len() ==> blank_char(s[i])
}

/// Whether `meval`'s expression grammar accepts the text `s`.
pub uninterp spec fn formula_parses(s: Seq<char>) -> bool;

/// Whether the expression parsed from `s` binds to the single free
/// variable `x`: every identifier in it is `x` or a builtin name.
pub uninterp spec fn formula_binds_x(s: Seq<char>) -> bool;

/// How one attempt to compile a formula text ended.
enum CompileOutcome {
    /// The text parsed and bound to `x`; the expression is kept.
    Compiled(meval::Expr),
    /// The text does not conform to the expression grammar.
    NoParse,
    /// The text parsed but does not bind to `x` alone.
    NoBind,
}

/// Decides whether the text is non-empty, all-whitespace blank.
fn text_is_blank(s: &str) -> (r: bool)
    ensures
        r == is_blank(s@),
{
    let n = s.unicode_len();
    if n == 0 {
        return false;
    }
    let mut i: usize = 0;
    while i < n
        invariant
            n == s@.len(),
            n > 0,
            i <= n,
            forall|j: int| 0 <= j < i ==> blank_char(s@[j]),
        decreases n - i,
    {
        let c = s.get_char(i);
        if !(c == ' ' || c == '\t' || c == '\r' || c == '\n') {
            assert(!blank_char(s@[i as int]));
            return false;
        }
        i += 1;
    }
    true
}

/// Relies on `str::parse::<meval::Expr>` and `meval::Expr::bind`: parsing
/// reads nothing but the text, and binding to `"x"` reads nothing but the
/// parsed expression and the fixed builtin context, so both outcomes are
/// functions of the text alone; `bind` fails exactly when the expression
/// holds an identifier that is neither `x` nor a builtin. A non-empty
/// all-whitespace text is kept out by `requires`: on it the parser does
/// not return normally.
#[verifier::external_body]
fn compile_formula_raw(s: &str) -> (r: CompileOutcome)
    requires
        !is_blank(s@),
    ensures
        (r is NoParse) == !formula_parses(s@),
        (r is NoBind) == (formula_parses(s@) && !formula_binds_x(s@)),
        (r is Compiled) == (formula_parses(s@) && formula_binds_x(s@)),
{
    match s.parse::<meval::Expr>() {
        Ok(e) => match e.clone().bind("x") {
            Ok(_) => CompileOutcome::Compiled(e),
            Err(_) => CompileOutcome::NoBind,
        },
        Err(_) => CompileOutcome::NoParse,
    }
}

/// Turns formula text into an expression bound to `x`, or reports
/// exactly why it cannot: a grammar failure as a parse error, a text
/// whose identifiers are not `x` and builtins as a bind error. Blank
/// text — non-empty, nothing but whitespace — is malformed by
/// classification and is rejected as a parse error without consulting
/// the grammar.
pub fn compile(formula: &str) -> (r: Result<meval::Expr, ChartError>)
    ensures
        is_blank(formula@) ==> r == Err::<meval::Expr, ChartError>(ChartError::FormulaParseError),
        !is_blank(formula@) ==> (r is Ok <==> formula_parses(formula@) && formula_binds_x(
            formula@,
        )),
        !is_blank(formula@) ==> (r == Err::<meval::Expr, ChartError>(ChartError::FormulaParseError)
            <==> !formula_parses(formula@)),
        !is_blank(formula@) ==> (r == Err::<meval::Expr, ChartError>(ChartError::FormulaBindError)
            <==> formula_parses(formula@) && !formula_binds_x(formula@)),
{
    if text_is_blank(formula) {
        return Err(ChartError::FormulaParseError);
    }
    match compile_formula_raw(formula) {
        CompileOutcome::Compiled(e) => Ok(e),
        CompileOutcome::NoParse => Err(ChartError::FormulaParseError),
        CompileOutcome::NoBind => Err(ChartError::FormulaBindError),
    }
}

} // verus!
