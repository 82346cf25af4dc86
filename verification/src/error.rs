//! The ways in which a query is rejected, and how an executable result is
//! held against a specified one.

use vstd::prelude::*;

use crate::tree::{NodeView, ParseNode, Rule};

verus! {

/// The ways in which a parse tree can disagree with what the elaborator
/// expects of the grammar.
#[derive(Clone, Copy, Debug, PartialEq, Eq, Structural)]
pub enum FaultKind {
    /// A node carries a rule that is not expected at its position.
    UnexpectedRule,
    /// A node lacks a child that the grammar should have produced.
    MissingChild,
    /// A terminal's text is not of the form its rule promises.
    MalformedText,
}

/// An internal consistency fault: the text matched the grammar, but the tree
/// has a shape the elaborator does not know. `rule` is the rule that was being
/// elaborated; `found`, `start` and `end` are the rule and span of the node at
/// which the fault was detected.
#[derive(Clone, Copy, Debug, PartialEq, Eq, Structural)]
pub struct Fault {
    pub kind: FaultKind,
    pub rule: Rule,
    pub found: Rule,
    pub start: usize,
    pub end: usize,
}

/// A construct that the grammar accepts and the elaborator does not build yet.
#[derive(Clone, Copy, Debug, PartialEq, Eq, Structural)]
pub struct Unsupported {
    pub rule: Rule,
    pub start: usize,
    pub end: usize,
}

/// Why the elaboration of a parse tree failed. A tree never yields a syntax
/// error: those come from the grammar engine alone.
#[derive(Clone, Copy, Debug, PartialEq, Eq, Structural)]
pub enum ElaborationError {
    Internal(Fault),
    Unsupported(Unsupported),
}

/// The text does not match the grammar: the rule that was being matched where
/// matching failed, and the span of the failure in the text.
#[derive(Clone, Copy, Debug, PartialEq, Eq, Structural)]
pub struct SyntaxError {
    pub rule: Rule,
    pub start: usize,
    pub end: usize,
}

/// Why a query was rejected.
#[derive(Clone, Copy, Debug, PartialEq, Eq, Structural)]
pub enum ParseError {
    /// The text is not a query; the caller reports it and carries on.
    Syntax(SyntaxError),
    /// Grammar and elaborator disagree; not the user's mistake.
    Internal(Fault),
    /// The query uses a construct that is not elaborated yet.
    Unsupported(Unsupported),
}

/// What an elaborator returns: the elaborated value, or why there is none.
pub type Elaborated<T> = Result<T, ElaborationError>;

/// A fault of the given kind, met at node `at` while elaborating `rule`.
pub open spec fn fault(kind: FaultKind, rule: Rule, at: NodeView) -> ElaborationError {
    ElaborationError::Internal(Fault { kind, rule, found: at.rule, start: at.start, end: at.end })
}

/// Node `at` is not expected while elaborating `rule`.
pub open spec fn unexpected(rule: Rule, at: NodeView) -> ElaborationError {
    fault(FaultKind::UnexpectedRule, rule, at)
}

/// Node `at`, of rule `rule`, lacks a required child.
pub open spec fn missing(rule: Rule, at: NodeView) -> ElaborationError {
    fault(FaultKind::MissingChild, rule, at)
}

/// The text of node `at` is not what `rule` promises.
pub open spec fn malformed(rule: Rule, at: NodeView) -> ElaborationError {
    fault(FaultKind::MalformedText, rule, at)
}

/// Node `at` is a construct that is not elaborated yet.
pub open spec fn unsupported(at: NodeView) -> ElaborationError {
    ElaborationError::Unsupported(Unsupported { rule: at.rule, start: at.start, end: at.end })
}

/// The error a caller of the library sees for an elaboration error.
pub open spec fn parse_error_of(e: ElaborationError) -> ParseError {
    match e {
        ElaborationError::Internal(f) => ParseError::Internal(f),
        ElaborationError::Unsupported(u) => ParseError::Unsupported(u),
    }
}

/// An executable result agrees with a specified one: the same error, or a
/// value whose view is the specified value.
pub open spec fn agrees<T: View>(r: Elaborated<T>, s: Elaborated<T::V>) -> bool {
    match r {
        Ok(v) => s == Ok::<T::V, ElaborationError>(v@),
        Err(e) => s == Err::<T::V, ElaborationError>(e),
    }
}

/// An executable result agrees with a specified one, for a result whose value
/// is taken by the given function.
pub open spec fn agrees_by<T, V>(
    r: Elaborated<T>,
    s: Elaborated<V>,
    value: spec_fn(T) -> V,
) -> bool {
    match r {
        Ok(v) => s == Ok::<V, ElaborationError>(value(v)),
        Err(e) => s == Err::<V, ElaborationError>(e),
    }
}

/// The view of an optional value.
pub open spec fn view_option<T: View>(o: Option<T>) -> Option<T::V> {
    match o {
        Some(v) => Some(v@),
        None => None,
    }
}

/// The views of a sequence of strings.
pub open spec fn view_strings(s: Seq<String>) -> Seq<Seq<char>> {
    s.map_values(|x: String| x@)
}

/// The view of an optional list of strings.
pub open spec fn view_option_strings(o: Option<Vec<String>>) -> Option<Seq<Seq<char>>> {
    match o {
        Some(v) => Some(view_strings(v@)),
        None => None,
    }
}

/// The fault for a node that is not expected while elaborating `rule`.
pub fn fault_unexpected(rule: Rule, at: &ParseNode) -> (e: ElaborationError)
    ensures
        e == unexpected(rule, at@),
{
    let kind = FaultKind::UnexpectedRule;
    ElaborationError::Internal(Fault { kind, rule, found: at.rule, start: at.start, end: at.end })
}

/// The fault for a node of rule `rule` that lacks a required child.
pub fn fault_missing(rule: Rule, at: &ParseNode) -> (e: ElaborationError)
    ensures
        e == missing(rule, at@),
{
    let kind = FaultKind::MissingChild;
    ElaborationError::Internal(Fault { kind, rule, found: at.rule, start: at.start, end: at.end })
}

/// The fault for a node whose text is not what `rule` promises.
pub fn fault_malformed(rule: Rule, at: &ParseNode) -> (e: ElaborationError)
    ensures
        e == malformed(rule, at@),
{
    let kind = FaultKind::MalformedText;
    ElaborationError::Internal(Fault { kind, rule, found: at.rule, start: at.start, end: at.end })
}

/// The error for a node whose construct is not elaborated yet.
pub fn not_supported(at: &ParseNode) -> (e: ElaborationError)
    ensures
        e == unsupported(at@),
{
    ElaborationError::Unsupported(Unsupported { rule: at.rule, start: at.start, end: at.end })
}

impl ParseError {
    /// Lifts an elaboration error to the error a caller sees.
    pub fn from_elaboration(e: ElaborationError) -> (r: ParseError)
        ensures
            r == parse_error_of(e),
            !(r is Syntax),
    {
        match e {
            ElaborationError::Internal(f) => ParseError::Internal(f),
            ElaborationError::Unsupported(u) => ParseError::Unsupported(u),
        }
    }
}

} // verus!
