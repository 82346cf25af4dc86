//! The entry point for GQL (ISO/IEC 39075). A text is matched against the
//! grammar; no syntax tree is built for it yet.

use vstd::prelude::*;

use crate::ast::GqlProgram;

verus! {

/// The text is not a GQL program: the span at which matching it against the
/// GQL grammar failed.
#[derive(Clone, Copy, Debug, PartialEq, Eq, Structural)]
pub struct GqlSyntaxError {
    pub start: usize,
    pub end: usize,
}

/// Why a GQL program was rejected.
#[derive(Clone, Copy, Debug, PartialEq, Eq, Structural)]
pub enum GqlError {
    /// The text does not match the GQL grammar.
    Syntax(GqlSyntaxError),
    /// The text matches the grammar; no syntax tree is built for GQL yet.
    Unsupported,
}

/// The error [`parse`] returns for each outcome of matching a text against
/// the GQL grammar.
pub open spec fn spec_parse(matched: Result<(), GqlSyntaxError>) -> GqlError {
    match matched {
        Err(e) => GqlError::Syntax(e),
        Ok(_) => GqlError::Unsupported,
    }
}

/// Turns the outcome of matching a text against the GQL grammar into a
/// result. A syntax error is handed on as it came. For a text that matches,
/// no program is built yet, and the result says so.
pub fn parse(matched: Result<(), GqlSyntaxError>) -> (r: Result<GqlProgram, GqlError>)
    ensures
        r matches Err(e) && e == spec_parse(matched),
{
    match matched {
        Err(e) => Err(GqlError::Syntax(e)),
        Ok(_) => Err(GqlError::Unsupported),
    }
}

} // verus!
