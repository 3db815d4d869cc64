//! Trusted boundary to the expression crate: the parsed form of a formula
//! and the one parse call the curve types rely on.  Evaluation of a parsed
//! formula yields a floating-point number and therefore stays with the
//! callers outside this library.

use vstd::prelude::*;

verus! {

#[verifier::external_type_specification]
#[verifier::external_body]
pub struct ExExpr(meval::Expr);

#[verifier::external_type_specification]
#[verifier::external_body]
pub struct ExError(meval::Error);

#[verifier::external_type_specification]
#[verifier::external_body]
pub struct ExToken(meval::tokenizer::Token);

/// Whether the expression crate accepts `s` as a formula.
pub uninterp spec fn expr_parses(s: Seq<char>) -> bool;

/// Relies on meval::Expr::from_str: parsing is a function of the text
/// alone (a tokenizer and the shunting-yard pass, no environment), so
/// whether it succeeds is a function of `s`.
#[verifier::external_body]
pub(crate) fn parse_expression(s: &str) -> (r: Result<meval::Expr, meval::Error>)
    ensures
        r is Ok <==> expr_parses(s@),
{
    <meval::Expr as core::str::FromStr>::from_str(s)
}

/// Relies on meval::Expr::clone; the copy is carried opaquely, so nothing
/// is claimed of it.
#[verifier::external_body]
pub(crate) fn clone_expr(e: &meval::Expr) -> meval::Expr {
    e.clone()
}

/// Relies on meval::Error::clone; the copy is carried opaquely, so nothing
/// is claimed of it.
#[verifier::external_body]
pub(crate) fn clone_error(e: &meval::Error) -> meval::Error {
    e.clone()
}

} // verus!
