//! Elaboration of the reading and updating clauses of a query.

use vstd::prelude::*;

use crate::ast::cypher::{
    Create, Delete, Expression, InQueryCall, Match, Merge, MergeAction, Pattern, PatternPart,
    ProjectionBody, PropertyExpression, ReadingClause, Remove, RemoveItem, SetClause, SetItem,
    Unwind, UpdatingClause, With,
};
use crate::ast::model::{
    CreateView, DeleteView, ExpressionView, MatchView, MergeActionView, MergeView,
    PatternPartView, PatternView, ProjectionBodyView, PropertyExpressionView, ReadingClauseView,
    RemoveItemView, RemoveView, SetClauseView, SetItemView, UnwindView, UpdatingClauseView,
    WithView, view_expression_seq, view_merge_action_seq, view_remove_item_seq,
    view_set_item_seq,
};
use crate::error::{
    Elaborated, agrees, fault_missing, fault_unexpected, missing, unexpected, view_option,
};
use crate::parser::pattern::{
    parse_node_labels, parse_variable, spec_parse_node_labels, spec_parse_variable,
};
use crate::tree::{NodeView, ParseNode, Rule, lemma_children};

verus! {

impl ReadingClause {
    /// The elaboration of a `ReadingClause` node by its first child: `MATCH`,
    /// `UNWIND`, or a `CALL` inside a query.
    pub open spec fn spec_parse(n: NodeView) -> Elaborated<ReadingClauseView>
        decreases n, n.children.len() + 1,
    {
        if n.rule != Rule::ReadingClause {
            Err(unexpected(Rule::ReadingClause, n))
        } else if n.children.len() == 0 {
            Err(missing(n.rule, n))
        } else {
            let c = n.children[0];
            match c.rule {
                Rule::Match => match Match::spec_parse(c) {
                    Ok(v) => Ok(ReadingClauseView::Match(v)),
                    Err(e) => Err(e),
                },
                Rule::Unwind => match Unwind::spec_parse(c) {
                    Ok(v) => Ok(ReadingClauseView::Unwind(v)),
                    Err(e) => Err(e),
                },
                Rule::InQueryCall => match InQueryCall::spec_parse(c) {
                    Ok(v) => Ok(ReadingClauseView::InQueryCall(v)),
                    Err(e) => Err(e),
                },
                _ => Err(unexpected(n.rule, c)),
            }
        }
    }

    /// Elaborates a `ReadingClause` node by its first child: `MATCH`, `UNWIND`, or
    /// a `CALL` inside a query.
    pub fn parse(n: &ParseNode) -> (r: Elaborated<ReadingClause>)
        ensures
            agrees(r, ReadingClause::spec_parse(n@)),
        decreases n,
    {
        match n.rule {
            Rule::ReadingClause => {},
            _ => {
                return Err(fault_unexpected(Rule::ReadingClause, n));
            },
        }
        proof {
            lemma_children(*n);
        }
        if n.children.len() == 0 {
            return Err(fault_missing(n.rule, n));
        }
        let c = &n.children[0];
        match c.rule {
            Rule::Match => {
                return match Match::parse(c) {
                    Ok(v) => Ok(ReadingClause::Match(v)),
                    Err(e) => Err(e),
                };
            },
            Rule::Unwind => {
                return match Unwind::parse(c) {
                    Ok(v) => Ok(ReadingClause::Unwind(v)),
                    Err(e) => Err(e),
                };
            },
            Rule::InQueryCall => {
                return match InQueryCall::parse(c) {
                    Ok(v) => Ok(ReadingClause::InQueryCall(v)),
                    Err(e) => Err(e),
                };
            },
            _ => {
                return Err(fault_unexpected(n.rule, c));
            },
        }
    }
}

impl Match {
    /// The elaboration of a `Match` node: whether `OPTIONAL` was written, the
    /// pattern, which is required, and the `WHERE` filter, which is absent unless
    /// the node has a `Where` child.
    pub open spec fn spec_parse(n: NodeView) -> Elaborated<MatchView>
        decreases n, n.children.len() + 1,
    {
        if n.rule != Rule::Match {
            Err(unexpected(Rule::Match, n))
        } else {
            Self::scan(n, 0, false, None, None)
        }
    }

    /// What [`Match::spec_parse`] yields once the children before position `i` have
    /// been taken in, with what was gathered from them.
    pub open spec fn scan(
        n: NodeView,
        i: int,
        optional: bool,
        pattern: Option<PatternView>,
        where_: Option<ExpressionView>,
    ) -> Elaborated<MatchView>
        decreases n, n.children.len() - i,
    {
        if !(0 <= i < n.children.len()) {
            match pattern {
                None => Err(missing(n.rule, n)),
                Some(pattern) => Ok(MatchView { optional, pattern, where_ }),
            }
        } else {
            let c = n.children[i];
            match c.rule {
                Rule::MATCH | Rule::SP => Self::scan(n, i + 1, optional, pattern, where_),
                Rule::OPTIONAL => Self::scan(n, i + 1, true, pattern, where_),
                Rule::Pattern => match Pattern::spec_parse(c) {
                    Ok(v) => Self::scan(n, i + 1, optional, Some(v), where_),
                    Err(e) => Err(e),
                },
                Rule::Where => match spec_parse_where(c) {
                    Ok(v) => Self::scan(n, i + 1, optional, pattern, Some(v)),
                    Err(e) => Err(e),
                },
                _ => Err(unexpected(n.rule, c)),
            }
        }
    }

    /// Elaborates a `Match` node: whether `OPTIONAL` was written, the pattern,
    /// which is required, and the `WHERE` filter, which is absent unless the node
    /// has a `Where` child.
    pub fn parse(n: &ParseNode) -> (r: Elaborated<Match>)
        ensures
            agrees(r, Match::spec_parse(n@)),
        decreases n,
    {
        match n.rule {
            Rule::Match => {},
            _ => {
                return Err(fault_unexpected(Rule::Match, n));
            },
        }
        let mut optional: bool = false;
        let mut pattern: Option<Pattern> = None;
        let mut where_: Option<Expression> = None;
        let mut i: usize = 0;
        while i < n.children.len()
            invariant
                i <= n.children.len(),
                Match::spec_parse(n@) == Match::scan(
                    n@,
                    i as int,
                    optional,
                    view_option(pattern),
                    view_option(where_),
                ),
            decreases n.children.len() - i,
        {
            proof {
                lemma_children(*n);
            }
            let c = &n.children[i];
            match c.rule {
                Rule::MATCH | Rule::SP => {},
                Rule::OPTIONAL => {
                    optional = true;
                },
                Rule::Pattern => match Pattern::parse(c) {
                    Ok(v) => {
                        pattern = Some(v);
                    },
                    Err(e) => {
                        return Err(e);
                    },
                },
                Rule::Where => match parse_where(c) {
                    Ok(v) => {
                        where_ = Some(v);
                    },
                    Err(e) => {
                        return Err(e);
                    },
                },
                _ => {
                    return Err(fault_unexpected(n.rule, c));
                },
            }
            i += 1;
        }
        proof {
            lemma_children(*n);
        }
        match pattern {
            None => Err(fault_missing(n.rule, n)),
            Some(pattern) => Ok(Match { optional, pattern, where_ }),
        }
    }
}

/// The elaboration of a `Where` node: the filter expression after the keyword.
pub open spec fn spec_parse_where(n: NodeView) -> Elaborated<ExpressionView>
    decreases n, n.children.len() + 1,
{
    if n.rule != Rule::Where {
        Err(unexpected(Rule::Where, n))
    } else {
        scan_where(n, 0)
    }
}

/// What [`spec_parse_where`] yields once the children before position `i` have
/// been taken in, with what was gathered from them.
pub open spec fn scan_where(n: NodeView, i: int) -> Elaborated<ExpressionView>
    decreases n, n.children.len() - i,
{
    if !(0 <= i < n.children.len()) {
        Err(missing(n.rule, n))
    } else {
        let c = n.children[i];
        match c.rule {
            Rule::Expression => match Expression::spec_parse(c) {
                Ok(v) => Ok(v),
                Err(e) => Err(e),
            },
            Rule::WHERE | Rule::SP => scan_where(n, i + 1),
            _ => Err(unexpected(n.rule, c)),
        }
    }
}

/// Elaborates a `Where` node: the filter expression after the keyword.
pub fn parse_where(n: &ParseNode) -> (r: Elaborated<Expression>)
    ensures
        agrees(r, spec_parse_where(n@)),
    decreases n,
{
    match n.rule {
        Rule::Where => {},
        _ => {
            return Err(fault_unexpected(Rule::Where, n));
        },
    }
    let mut i: usize = 0;
    while i < n.children.len()
        invariant
            i <= n.children.len(),
            spec_parse_where(n@) == scan_where(n@, i as int),
        decreases n.children.len() - i,
    {
        proof {
            lemma_children(*n);
        }
        let c = &n.children[i];
        match c.rule {
            Rule::Expression => {
                return match Expression::parse(c) {
                    Ok(v) => Ok(v),
                    Err(e) => Err(e),
                };
            },
            Rule::WHERE | Rule::SP => {},
            _ => {
                return Err(fault_unexpected(n.rule, c));
            },
        }
        i += 1;
    }
    proof {
        lemma_children(*n);
    }
    Err(fault_missing(n.rule, n))
}

impl Unwind {
    /// The elaboration of an `Unwind` node: the expression, which must come first,
    /// and the variable its elements are bound to.
    pub open spec fn spec_parse(n: NodeView) -> Elaborated<UnwindView>
        decreases n, n.children.len() + 1,
    {
        if n.rule != Rule::Unwind {
            Err(unexpected(Rule::Unwind, n))
        } else {
            Self::scan(n, 0, None)
        }
    }

    /// What [`Unwind::spec_parse`] yields once the children before position `i`
    /// have been taken in, with what was gathered from them.
    pub open spec fn scan(
        n: NodeView,
        i: int,
        expression: Option<ExpressionView>,
    ) -> Elaborated<UnwindView>
        decreases n, n.children.len() - i,
    {
        if !(0 <= i < n.children.len()) {
            Err(missing(n.rule, n))
        } else {
            let c = n.children[i];
            match c.rule {
                Rule::Expression => match Expression::spec_parse(c) {
                    Ok(v) => Self::scan(n, i + 1, Some(v)),
                    Err(e) => Err(e),
                },
                Rule::Variable => match expression {
                    None => Err(missing(n.rule, n)),
                    Some(expression) => match spec_parse_variable(c) {
                        Ok(v) => Ok(UnwindView { expression, variable: v }),
                        Err(e) => Err(e),
                    },
                },
                Rule::SP | Rule::UNWIND | Rule::AS => Self::scan(n, i + 1, expression),
                _ => Err(unexpected(n.rule, c)),
            }
        }
    }

    /// Elaborates an `Unwind` node: the expression, which must come first, and the
    /// variable its elements are bound to.
    pub fn parse(n: &ParseNode) -> (r: Elaborated<Unwind>)
        ensures
            agrees(r, Unwind::spec_parse(n@)),
        decreases n,
    {
        match n.rule {
            Rule::Unwind => {},
            _ => {
                return Err(fault_unexpected(Rule::Unwind, n));
            },
        }
        let mut expression: Option<Expression> = None;
        let mut i: usize = 0;
        while i < n.children.len()
            invariant
                i <= n.children.len(),
                Unwind::spec_parse(n@) == Unwind::scan(n@, i as int, view_option(expression)),
            decreases n.children.len() - i,
        {
            proof {
                lemma_children(*n);
            }
            let c = &n.children[i];
            match c.rule {
                Rule::Expression => match Expression::parse(c) {
                    Ok(v) => {
                        expression = Some(v);
                    },
                    Err(e) => {
                        return Err(e);
                    },
                },
                Rule::Variable => {
                    return match expression {
                        None => Err(fault_missing(n.rule, n)),
                        Some(expression) => match parse_variable(c) {
                            Ok(v) => Ok(Unwind { expression, variable: v }),
                            Err(e) => Err(e),
                        },
                    };
                },
                Rule::SP | Rule::UNWIND | Rule::AS => {},
                _ => {
                    return Err(fault_unexpected(n.rule, c));
                },
            }
            i += 1;
        }
        proof {
            lemma_children(*n);
        }
        Err(fault_missing(n.rule, n))
    }
}

impl UpdatingClause {
    /// The elaboration of an `UpdatingClause` node by its first child: `CREATE`,
    /// `MERGE`, `DELETE`, `SET` or `REMOVE`.
    pub open spec fn spec_parse(n: NodeView) -> Elaborated<UpdatingClauseView>
        decreases n, n.children.len() + 1,
    {
        if n.rule != Rule::UpdatingClause {
            Err(unexpected(Rule::UpdatingClause, n))
        } else if n.children.len() == 0 {
            Err(missing(n.rule, n))
        } else {
            let c = n.children[0];
            match c.rule {
                Rule::Create => match Create::spec_parse(c) {
                    Ok(v) => Ok(UpdatingClauseView::Create(v)),
                    Err(e) => Err(e),
                },
                Rule::Merge => match Merge::spec_parse(c) {
                    Ok(v) => Ok(UpdatingClauseView::Merge(v)),
                    Err(e) => Err(e),
                },
                Rule::Delete => match Delete::spec_parse(c) {
                    Ok(v) => Ok(UpdatingClauseView::Delete(v)),
                    Err(e) => Err(e),
                },
                Rule::SetClause => match SetClause::spec_parse(c) {
                    Ok(v) => Ok(UpdatingClauseView::SetClause(v)),
                    Err(e) => Err(e),
                },
                Rule::Remove => match Remove::spec_parse(c) {
                    Ok(v) => Ok(UpdatingClauseView::Remove(v)),
                    Err(e) => Err(e),
                },
                _ => Err(unexpected(n.rule, c)),
            }
        }
    }

    /// Elaborates an `UpdatingClause` node by its first child: `CREATE`, `MERGE`,
    /// `DELETE`, `SET` or `REMOVE`.
    pub fn parse(n: &ParseNode) -> (r: Elaborated<UpdatingClause>)
        ensures
            agrees(r, UpdatingClause::spec_parse(n@)),
        decreases n,
    {
        match n.rule {
            Rule::UpdatingClause => {},
            _ => {
                return Err(fault_unexpected(Rule::UpdatingClause, n));
            },
        }
        proof {
            lemma_children(*n);
        }
        if n.children.len() == 0 {
            return Err(fault_missing(n.rule, n));
        }
        let c = &n.children[0];
        match c.rule {
            Rule::Create => {
                return match Create::parse(c) {
                    Ok(v) => Ok(UpdatingClause::Create(v)),
                    Err(e) => Err(e),
                };
            },
            Rule::Merge => {
                return match Merge::parse(c) {
                    Ok(v) => Ok(UpdatingClause::Merge(v)),
                    Err(e) => Err(e),
                };
            },
            Rule::Delete => {
                return match Delete::parse(c) {
                    Ok(v) => Ok(UpdatingClause::Delete(v)),
                    Err(e) => Err(e),
                };
            },
            Rule::SetClause => {
                return match SetClause::parse(c) {
                    Ok(v) => Ok(UpdatingClause::SetClause(v)),
                    Err(e) => Err(e),
                };
            },
            Rule::Remove => {
                return match Remove::parse(c) {
                    Ok(v) => Ok(UpdatingClause::Remove(v)),
                    Err(e) => Err(e),
                };
            },
            _ => {
                return Err(fault_unexpected(n.rule, c));
            },
        }
    }
}

impl Create {
    /// The elaboration of a `Create` node: the pattern to create.
    pub open spec fn spec_parse(n: NodeView) -> Elaborated<CreateView>
        decreases n, n.children.len() + 1,
    {
        if n.rule != Rule::Create {
            Err(unexpected(Rule::Create, n))
        } else {
            Self::scan(n, 0)
        }
    }

    /// What [`Create::spec_parse`] yields once the children before position `i`
    /// have been taken in, with what was gathered from them.
    pub open spec fn scan(n: NodeView, i: int) -> Elaborated<CreateView>
        decreases n, n.children.len() - i,
    {
        if !(0 <= i < n.children.len()) {
            Err(missing(n.rule, n))
        } else {
            let c = n.children[i];
            match c.rule {
                Rule::Pattern => match Pattern::spec_parse(c) {
                    Ok(v) => Ok(CreateView { pattern: v }),
                    Err(e) => Err(e),
                },
                Rule::SP | Rule::CREATE => Self::scan(n, i + 1),
                _ => Err(unexpected(n.rule, c)),
            }
        }
    }

    /// Elaborates a `Create` node: the pattern to create.
    pub fn parse(n: &ParseNode) -> (r: Elaborated<Create>)
        ensures
            agrees(r, Create::spec_parse(n@)),
        decreases n,
    {
        match n.rule {
            Rule::Create => {},
            _ => {
                return Err(fault_unexpected(Rule::Create, n));
            },
        }
        let mut i: usize = 0;
        while i < n.children.len()
            invariant
                i <= n.children.len(),
                Create::spec_parse(n@) == Create::scan(n@, i as int),
            decreases n.children.len() - i,
        {
            proof {
                lemma_children(*n);
            }
            let c = &n.children[i];
            match c.rule {
                Rule::Pattern => {
                    return match Pattern::parse(c) {
                        Ok(v) => Ok(Create { pattern: v }),
                        Err(e) => Err(e),
                    };
                },
                Rule::SP | Rule::CREATE => {},
                _ => {
                    return Err(fault_unexpected(n.rule, c));
                },
            }
            i += 1;
        }
        proof {
            lemma_children(*n);
        }
        Err(fault_missing(n.rule, n))
    }
}

impl Merge {
    /// The elaboration of a `Merge` node: the pattern part, which is required, and
    /// the `ON MATCH` and `ON CREATE` actions in exactly the order written.
    pub open spec fn spec_parse(n: NodeView) -> Elaborated<MergeView>
        decreases n, n.children.len() + 1,
    {
        if n.rule != Rule::Merge {
            Err(unexpected(Rule::Merge, n))
        } else {
            Self::scan(n, 0, None, Seq::empty())
        }
    }

    /// What [`Merge::spec_parse`] yields once the children before position `i` have
    /// been taken in, with what was gathered from them.
    pub open spec fn scan(
        n: NodeView,
        i: int,
        pattern_part: Option<PatternPartView>,
        actions: Seq<MergeActionView>,
    ) -> Elaborated<MergeView>
        decreases n, n.children.len() - i,
    {
        if !(0 <= i < n.children.len()) {
            match pattern_part {
                None => Err(missing(n.rule, n)),
                Some(pattern_part) => Ok(MergeView { pattern_part, actions }),
            }
        } else {
            let c = n.children[i];
            match c.rule {
                Rule::PatternPart => match PatternPart::spec_parse(c) {
                    Ok(v) => Self::scan(n, i + 1, Some(v), actions),
                    Err(e) => Err(e),
                },
                Rule::MergeAction => match MergeAction::spec_parse(c) {
                    Ok(v) => Self::scan(n, i + 1, pattern_part, actions.push(v)),
                    Err(e) => Err(e),
                },
                Rule::SP | Rule::MERGE => Self::scan(n, i + 1, pattern_part, actions),
                _ => Err(unexpected(n.rule, c)),
            }
        }
    }

    /// Elaborates a `Merge` node: the pattern part, which is required, and the `ON
    /// MATCH` and `ON CREATE` actions in exactly the order written.
    pub fn parse(n: &ParseNode) -> (r: Elaborated<Merge>)
        ensures
            agrees(r, Merge::spec_parse(n@)),
        decreases n,
    {
        match n.rule {
            Rule::Merge => {},
            _ => {
                return Err(fault_unexpected(Rule::Merge, n));
            },
        }
        let mut pattern_part: Option<PatternPart> = None;
        let mut actions: Vec<MergeAction> = Vec::new();
        proof {
            assert(view_merge_action_seq(actions@) =~= Seq::empty());
        }
        let mut i: usize = 0;
        while i < n.children.len()
            invariant
                i <= n.children.len(),
                Merge::spec_parse(n@) == Merge::scan(
                    n@,
                    i as int,
                    view_option(pattern_part),
                    view_merge_action_seq(actions@),
                ),
            decreases n.children.len() - i,
        {
            proof {
                lemma_children(*n);
            }
            let c = &n.children[i];
            match c.rule {
                Rule::PatternPart => match PatternPart::parse(c) {
                    Ok(v) => {
                        pattern_part = Some(v);
                    },
                    Err(e) => {
                        return Err(e);
                    },
                },
                Rule::MergeAction => match MergeAction::parse(c) {
                    Ok(v) => {
                        let ghost before = actions@;
                        let ghost item = v@;
                        actions.push(v);
                        assert(view_merge_action_seq(actions@)
                            =~= view_merge_action_seq(before).push(item));
                    },
                    Err(e) => {
                        return Err(e);
                    },
                },
                Rule::SP | Rule::MERGE => {},
                _ => {
                    return Err(fault_unexpected(n.rule, c));
                },
            }
            i += 1;
        }
        proof {
            lemma_children(*n);
        }
        match pattern_part {
            None => Err(fault_missing(n.rule, n)),
            Some(pattern_part) => Ok(Merge { pattern_part, actions }),
        }
    }
}

impl MergeAction {
    /// The elaboration of a `MergeAction` node: the `SET` to perform, on creation
    /// when `CREATE` stands before it and on a match otherwise.
    pub open spec fn spec_parse(n: NodeView) -> Elaborated<MergeActionView>
        decreases n, n.children.len() + 1,
    {
        if n.rule != Rule::MergeAction {
            Err(unexpected(Rule::MergeAction, n))
        } else {
            Self::scan(n, 0, false)
        }
    }

    /// What [`MergeAction::spec_parse`] yields once the children before position
    /// `i` have been taken in, with what was gathered from them.
    pub open spec fn scan(n: NodeView, i: int, create: bool) -> Elaborated<MergeActionView>
        decreases n, n.children.len() - i,
    {
        if !(0 <= i < n.children.len()) {
            Err(missing(n.rule, n))
        } else {
            let c = n.children[i];
            match c.rule {
                Rule::CREATE => Self::scan(n, i + 1, true),
                Rule::SetClause => match SetClause::spec_parse(c) {
                    Ok(v) => Ok(
                        if create {
                            MergeActionView::Create(v)
                        } else {
                            MergeActionView::Match(v)
                        },
                    ),
                    Err(e) => Err(e),
                },
                Rule::SP | Rule::ON | Rule::MATCH => Self::scan(n, i + 1, create),
                _ => Err(unexpected(n.rule, c)),
            }
        }
    }

    /// Elaborates a `MergeAction` node: the `SET` to perform, on creation when
    /// `CREATE` stands before it and on a match otherwise.
    pub fn parse(n: &ParseNode) -> (r: Elaborated<MergeAction>)
        ensures
            agrees(r, MergeAction::spec_parse(n@)),
        decreases n,
    {
        match n.rule {
            Rule::MergeAction => {},
            _ => {
                return Err(fault_unexpected(Rule::MergeAction, n));
            },
        }
        let mut create: bool = false;
        let mut i: usize = 0;
        while i < n.children.len()
            invariant
                i <= n.children.len(),
                MergeAction::spec_parse(n@) == MergeAction::scan(n@, i as int, create),
            decreases n.children.len() - i,
        {
            proof {
                lemma_children(*n);
            }
            let c = &n.children[i];
            match c.rule {
                Rule::CREATE => {
                    create = true;
                },
                Rule::SetClause => {
                    return match SetClause::parse(c) {
                        Ok(v) => if create {
                            Ok(MergeAction::Create(v))
                        } else {
                            Ok(MergeAction::Match(v))
                        },
                        Err(e) => Err(e),
                    };
                },
                Rule::SP | Rule::ON | Rule::MATCH => {},
                _ => {
                    return Err(fault_unexpected(n.rule, c));
                },
            }
            i += 1;
        }
        proof {
            lemma_children(*n);
        }
        Err(fault_missing(n.rule, n))
    }
}

impl Delete {
    /// The elaboration of a `Delete` node: whether `DETACH` was written, and the
    /// expressions to delete, in order.
    pub open spec fn spec_parse(n: NodeView) -> Elaborated<DeleteView>
        decreases n, n.children.len() + 1,
    {
        if n.rule != Rule::Delete {
            Err(unexpected(Rule::Delete, n))
        } else {
            Self::scan(n, 0, false, Seq::empty())
        }
    }

    /// What [`Delete::spec_parse`] yields once the children before position `i`
    /// have been taken in, with what was gathered from them.
    pub open spec fn scan(
        n: NodeView,
        i: int,
        detach: bool,
        expressions: Seq<ExpressionView>,
    ) -> Elaborated<DeleteView>
        decreases n, n.children.len() - i,
    {
        if !(0 <= i < n.children.len()) {
            Ok(DeleteView { detach, expressions })
        } else {
            let c = n.children[i];
            match c.rule {
                Rule::DETACH => Self::scan(n, i + 1, true, expressions),
                Rule::Expression => match Expression::spec_parse(c) {
                    Ok(v) => Self::scan(n, i + 1, detach, expressions.push(v)),
                    Err(e) => Err(e),
                },
                Rule::SP | Rule::DELETE => Self::scan(n, i + 1, detach, expressions),
                _ => Err(unexpected(n.rule, c)),
            }
        }
    }

    /// Elaborates a `Delete` node: whether `DETACH` was written, and the
    /// expressions to delete, in order.
    pub fn parse(n: &ParseNode) -> (r: Elaborated<Delete>)
        ensures
            agrees(r, Delete::spec_parse(n@)),
        decreases n,
    {
        match n.rule {
            Rule::Delete => {},
            _ => {
                return Err(fault_unexpected(Rule::Delete, n));
            },
        }
        let mut detach: bool = false;
        let mut expressions: Vec<Expression> = Vec::new();
        proof {
            assert(view_expression_seq(expressions@) =~= Seq::empty());
        }
        let mut i: usize = 0;
        while i < n.children.len()
            invariant
                i <= n.children.len(),
                Delete::spec_parse(n@) == Delete::scan(
                    n@,
                    i as int,
                    detach,
                    view_expression_seq(expressions@),
                ),
            decreases n.children.len() - i,
        {
            proof {
                lemma_children(*n);
            }
            let c = &n.children[i];
            match c.rule {
                Rule::DETACH => {
                    detach = true;
                },
                Rule::Expression => match Expression::parse(c) {
                    Ok(v) => {
                        let ghost before = expressions@;
                        let ghost item = v@;
                        expressions.push(v);
                        assert(view_expression_seq(expressions@)
                            =~= view_expression_seq(before).push(item));
                    },
                    Err(e) => {
                        return Err(e);
                    },
                },
                Rule::SP | Rule::DELETE => {},
                _ => {
                    return Err(fault_unexpected(n.rule, c));
                },
            }
            i += 1;
        }
        proof {
            lemma_children(*n);
        }
        Ok(Delete { detach, expressions })
    }
}

impl SetClause {
    /// The elaboration of a `SET` clause: its items, in order.
    pub open spec fn spec_parse(n: NodeView) -> Elaborated<SetClauseView>
        decreases n, n.children.len() + 1,
    {
        if n.rule != Rule::SetClause {
            Err(unexpected(Rule::SetClause, n))
        } else {
            Self::scan(n, 0, Seq::empty())
        }
    }

    /// What [`SetClause::spec_parse`] yields once the children before position `i`
    /// have been taken in, with what was gathered from them.
    pub open spec fn scan(n: NodeView, i: int, items: Seq<SetItemView>) -> Elaborated<SetClauseView>
        decreases n, n.children.len() - i,
    {
        if !(0 <= i < n.children.len()) {
            Ok(SetClauseView { items })
        } else {
            let c = n.children[i];
            match c.rule {
                Rule::SetItem => match SetItem::spec_parse(c) {
                    Ok(v) => Self::scan(n, i + 1, items.push(v)),
                    Err(e) => Err(e),
                },
                Rule::SP | Rule::SET => Self::scan(n, i + 1, items),
                _ => Err(unexpected(n.rule, c)),
            }
        }
    }

    /// Elaborates a `SET` clause: its items, in order.
    pub fn parse(n: &ParseNode) -> (r: Elaborated<SetClause>)
        ensures
            agrees(r, SetClause::spec_parse(n@)),
        decreases n,
    {
        match n.rule {
            Rule::SetClause => {},
            _ => {
                return Err(fault_unexpected(Rule::SetClause, n));
            },
        }
        let mut items: Vec<SetItem> = Vec::new();
        proof {
            assert(view_set_item_seq(items@) =~= Seq::empty());
        }
        let mut i: usize = 0;
        while i < n.children.len()
            invariant
                i <= n.children.len(),
                SetClause::spec_parse(n@) == SetClause::scan(
                    n@,
                    i as int,
                    view_set_item_seq(items@),
                ),
            decreases n.children.len() - i,
        {
            proof {
                lemma_children(*n);
            }
            let c = &n.children[i];
            match c.rule {
                Rule::SetItem => match SetItem::parse(c) {
                    Ok(v) => {
                        let ghost before = items@;
                        let ghost item = v@;
                        items.push(v);
                        assert(view_set_item_seq(items@) =~= view_set_item_seq(before).push(item));
                    },
                    Err(e) => {
                        return Err(e);
                    },
                },
                Rule::SP | Rule::SET => {},
                _ => {
                    return Err(fault_unexpected(n.rule, c));
                },
            }
            i += 1;
        }
        proof {
            lemma_children(*n);
        }
        Ok(SetClause { items })
    }
}

impl SetItem {
    /// The elaboration of a `SetItem` node. What came before decides the kind once
    /// the expression or the labels are reached: an expression after a property
    /// expression assigns that property; after a variable it assigns the variable
    /// when `=` was written and adds to it otherwise; labels after a variable set
    /// its labels.
    pub open spec fn spec_parse(n: NodeView) -> Elaborated<SetItemView>
        decreases n, n.children.len() + 1,
    {
        if n.rule != Rule::SetItem {
            Err(unexpected(Rule::SetItem, n))
        } else {
            Self::scan(n, 0, None, None, false)
        }
    }

    /// What [`SetItem::spec_parse`] yields once the children before position `i`
    /// have been taken in, with what was gathered from them.
    pub open spec fn scan(
        n: NodeView,
        i: int,
        property_expression: Option<PropertyExpressionView>,
        variable: Option<Seq<char>>,
        eq: bool,
    ) -> Elaborated<SetItemView>
        decreases n, n.children.len() - i,
    {
        if !(0 <= i < n.children.len()) {
            Err(missing(n.rule, n))
        } else {
            let c = n.children[i];
            match c.rule {
                Rule::Variable => Self::scan(n, i + 1, property_expression, Some(c.text), eq),
                Rule::PropertyExpression => match PropertyExpression::spec_parse(c) {
                    Ok(v) => Self::scan(n, i + 1, Some(v), variable, eq),
                    Err(e) => Err(e),
                },
                Rule::Expression => match property_expression {
                    Some(property_expression) => match Expression::spec_parse(c) {
                        Ok(v) => Ok(
                            SetItemView::AssignPropertyExpression { property_expression, expression: v },
                        ),
                        Err(e) => Err(e),
                    },
                    None => match variable {
                        None => Err(missing(n.rule, n)),
                        Some(variable) => match Expression::spec_parse(c) {
                            Ok(v) => Ok(
                                if eq {
                                    SetItemView::AssignVariable { variable, expression: v }
                                } else {
                                    SetItemView::IncrementVariable { variable, expression: v }
                                },
                            ),
                            Err(e) => Err(e),
                        },
                    },
                },
                Rule::NodeLabels => match variable {
                    None => Err(missing(n.rule, n)),
                    Some(variable) => match spec_parse_node_labels(c) {
                        Ok(v) => Ok(SetItemView::VariableNodeLabels { variable, node_labels: v }),
                        Err(e) => Err(e),
                    },
                },
                Rule::EQ => Self::scan(n, i + 1, property_expression, variable, true),
                Rule::SP | Rule::SET | Rule::INCREMENT => Self::scan(
                    n,
                    i + 1,
                    property_expression,
                    variable,
                    eq,
                ),
                _ => Err(unexpected(n.rule, c)),
            }
        }
    }

    /// Elaborates a `SetItem` node. What came before decides the kind once the
    /// expression or the labels are reached: an expression after a property
    /// expression assigns that property; after a variable it assigns the variable
    /// when `=` was written and adds to it otherwise; labels after a variable set
    /// its labels.
    pub fn parse(n: &ParseNode) -> (r: Elaborated<SetItem>)
        ensures
            agrees(r, SetItem::spec_parse(n@)),
        decreases n,
    {
        match n.rule {
            Rule::SetItem => {},
            _ => {
                return Err(fault_unexpected(Rule::SetItem, n));
            },
        }
        let mut property_expression: Option<PropertyExpression> = None;
        let mut variable: Option<String> = None;
        let mut eq: bool = false;
        let mut i: usize = 0;
        while i < n.children.len()
            invariant
                i <= n.children.len(),
                SetItem::spec_parse(n@) == SetItem::scan(
                    n@,
                    i as int,
                    view_option(property_expression),
                    view_option(variable),
                    eq,
                ),
            decreases n.children.len() - i,
        {
            proof {
                lemma_children(*n);
            }
            let c = &n.children[i];
            match c.rule {
                Rule::Variable => match parse_variable(c) {
                    Ok(v) => {
                        variable = Some(v);
                    },
                    Err(e) => {
                        return Err(e);
                    },
                },
                Rule::PropertyExpression => match PropertyExpression::parse(c) {
                    Ok(v) => {
                        property_expression = Some(v);
                    },
                    Err(e) => {
                        return Err(e);
                    },
                },
                Rule::Expression => {
                    return match property_expression {
                        Some(property_expression) => match Expression::parse(c) {
                            Ok(v) => Ok(
                                SetItem::AssignPropertyExpression { property_expression, expression: v },
                            ),
                            Err(e) => Err(e),
                        },
                        None => match variable {
                            None => Err(fault_missing(n.rule, n)),
                            Some(variable) => match Expression::parse(c) {
                                Ok(v) => if eq {
                                    Ok(SetItem::AssignVariable { variable, expression: v })
                                } else {
                                    Ok(SetItem::IncrementVariable { variable, expression: v })
                                },
                                Err(e) => Err(e),
                            },
                        },
                    };
                },
                Rule::NodeLabels => {
                    return match variable {
                        None => Err(fault_missing(n.rule, n)),
                        Some(variable) => match parse_node_labels(c) {
                            Ok(v) => Ok(SetItem::VariableNodeLabels { variable, node_labels: v }),
                            Err(e) => Err(e),
                        },
                    };
                },
                Rule::EQ => {
                    eq = true;
                },
                Rule::SP | Rule::SET | Rule::INCREMENT => {},
                _ => {
                    return Err(fault_unexpected(n.rule, c));
                },
            }
            i += 1;
        }
        proof {
            lemma_children(*n);
        }
        Err(fault_missing(n.rule, n))
    }
}

impl Remove {
    /// The elaboration of a `Remove` node: its items, in order.
    pub open spec fn spec_parse(n: NodeView) -> Elaborated<RemoveView>
        decreases n, n.children.len() + 1,
    {
        if n.rule != Rule::Remove {
            Err(unexpected(Rule::Remove, n))
        } else {
            Self::scan(n, 0, Seq::empty())
        }
    }

    /// What [`Remove::spec_parse`] yields once the children before position `i`
    /// have been taken in, with what was gathered from them.
    pub open spec fn scan(n: NodeView, i: int, items: Seq<RemoveItemView>) -> Elaborated<RemoveView>
        decreases n, n.children.len() - i,
    {
        if !(0 <= i < n.children.len()) {
            Ok(RemoveView { items })
        } else {
            let c = n.children[i];
            match c.rule {
                Rule::RemoveItem => match RemoveItem::spec_parse(c) {
                    Ok(v) => Self::scan(n, i + 1, items.push(v)),
                    Err(e) => Err(e),
                },
                Rule::SP | Rule::REMOVE => Self::scan(n, i + 1, items),
                _ => Err(unexpected(n.rule, c)),
            }
        }
    }

    /// Elaborates a `Remove` node: its items, in order.
    pub fn parse(n: &ParseNode) -> (r: Elaborated<Remove>)
        ensures
            agrees(r, Remove::spec_parse(n@)),
        decreases n,
    {
        match n.rule {
            Rule::Remove => {},
            _ => {
                return Err(fault_unexpected(Rule::Remove, n));
            },
        }
        let mut items: Vec<RemoveItem> = Vec::new();
        proof {
            assert(view_remove_item_seq(items@) =~= Seq::empty());
        }
        let mut i: usize = 0;
        while i < n.children.len()
            invariant
                i <= n.children.len(),
                Remove::spec_parse(n@) == Remove::scan(n@, i as int, view_remove_item_seq(items@)),
            decreases n.children.len() - i,
        {
            proof {
                lemma_children(*n);
            }
            let c = &n.children[i];
            match c.rule {
                Rule::RemoveItem => match RemoveItem::parse(c) {
                    Ok(v) => {
                        let ghost before = items@;
                        let ghost item = v@;
                        items.push(v);
                        assert(view_remove_item_seq(items@)
                            =~= view_remove_item_seq(before).push(item));
                    },
                    Err(e) => {
                        return Err(e);
                    },
                },
                Rule::SP | Rule::REMOVE => {},
                _ => {
                    return Err(fault_unexpected(n.rule, c));
                },
            }
            i += 1;
        }
        proof {
            lemma_children(*n);
        }
        Ok(Remove { items })
    }
}

impl RemoveItem {
    /// The elaboration of a `RemoveItem` node by the child that follows the
    /// variable: labels after a variable remove those labels from it; a property
    /// expression removes that property.
    pub open spec fn spec_parse(n: NodeView) -> Elaborated<RemoveItemView>
        decreases n, n.children.len() + 1,
    {
        if n.rule != Rule::RemoveItem {
            Err(unexpected(Rule::RemoveItem, n))
        } else {
            Self::scan(n, 0, None)
        }
    }

    /// What [`RemoveItem::spec_parse`] yields once the children before position `i`
    /// have been taken in, with what was gathered from them.
    pub open spec fn scan(
        n: NodeView,
        i: int,
        variable: Option<Seq<char>>,
    ) -> Elaborated<RemoveItemView>
        decreases n, n.children.len() - i,
    {
        if !(0 <= i < n.children.len()) {
            Err(missing(n.rule, n))
        } else {
            let c = n.children[i];
            match c.rule {
                Rule::Variable => Self::scan(n, i + 1, Some(c.text)),
                Rule::NodeLabels => match variable {
                    None => Err(missing(n.rule, n)),
                    Some(variable) => match spec_parse_node_labels(c) {
                        Ok(v) => Ok(
                            RemoveItemView::VariableNodeLabels { variable, node_labels: v },
                        ),
                        Err(e) => Err(e),
                    },
                },
                Rule::PropertyExpression => match PropertyExpression::spec_parse(c) {
                    Ok(v) => Ok(RemoveItemView::PropertyExpression(v)),
                    Err(e) => Err(e),
                },
                Rule::SP => Self::scan(n, i + 1, variable),
                _ => Err(unexpected(n.rule, c)),
            }
        }
    }

    /// Elaborates a `RemoveItem` node by the child that follows the variable:
    /// labels after a variable remove those labels from it; a property expression
    /// removes that property.
    pub fn parse(n: &ParseNode) -> (r: Elaborated<RemoveItem>)
        ensures
            agrees(r, RemoveItem::spec_parse(n@)),
        decreases n,
    {
        match n.rule {
            Rule::RemoveItem => {},
            _ => {
                return Err(fault_unexpected(Rule::RemoveItem, n));
            },
        }
        let mut variable: Option<String> = None;
        let mut i: usize = 0;
        while i < n.children.len()
            invariant
                i <= n.children.len(),
                RemoveItem::spec_parse(n@) == RemoveItem::scan(n@, i as int, view_option(variable)),
            decreases n.children.len() - i,
        {
            proof {
                lemma_children(*n);
            }
            let c = &n.children[i];
            match c.rule {
                Rule::Variable => match parse_variable(c) {
                    Ok(v) => {
                        variable = Some(v);
                    },
                    Err(e) => {
                        return Err(e);
                    },
                },
                Rule::NodeLabels => {
                    return match variable {
                        None => Err(fault_missing(n.rule, n)),
                        Some(variable) => match parse_node_labels(c) {
                            Ok(v) => Ok(
                                RemoveItem::VariableNodeLabels { variable, node_labels: v },
                            ),
                            Err(e) => Err(e),
                        },
                    };
                },
                Rule::PropertyExpression => {
                    return match PropertyExpression::parse(c) {
                        Ok(v) => Ok(RemoveItem::PropertyExpression(v)),
                        Err(e) => Err(e),
                    };
                },
                Rule::SP => {},
                _ => {
                    return Err(fault_unexpected(n.rule, c));
                },
            }
            i += 1;
        }
        proof {
            lemma_children(*n);
        }
        Err(fault_missing(n.rule, n))
    }
}

impl With {
    /// The elaboration of a `With` node: the projection, which is required, and the
    /// optional `WHERE` filter.
    pub open spec fn spec_parse(n: NodeView) -> Elaborated<WithView>
        decreases n, n.children.len() + 1,
    {
        if n.rule != Rule::With {
            Err(unexpected(Rule::With, n))
        } else {
            Self::scan(n, 0, None, None)
        }
    }

    /// What [`With::spec_parse`] yields once the children before position `i` have
    /// been taken in, with what was gathered from them.
    pub open spec fn scan(
        n: NodeView,
        i: int,
        projection_body: Option<ProjectionBodyView>,
        where_: Option<ExpressionView>,
    ) -> Elaborated<WithView>
        decreases n, n.children.len() - i,
    {
        if !(0 <= i < n.children.len()) {
            match projection_body {
                None => Err(missing(n.rule, n)),
                Some(projection_body) => Ok(WithView { projection_body, where_ }),
            }
        } else {
            let c = n.children[i];
            match c.rule {
                Rule::ProjectionBody => match ProjectionBody::spec_parse(c) {
                    Ok(v) => Self::scan(n, i + 1, Some(v), where_),
                    Err(e) => Err(e),
                },
                Rule::Where => match spec_parse_where(c) {
                    Ok(v) => Self::scan(n, i + 1, projection_body, Some(v)),
                    Err(e) => Err(e),
                },
                Rule::SP | Rule::WITH => Self::scan(n, i + 1, projection_body, where_),
                _ => Err(unexpected(n.rule, c)),
            }
        }
    }

    /// Elaborates a `With` node: the projection, which is required, and the
    /// optional `WHERE` filter.
    pub fn parse(n: &ParseNode) -> (r: Elaborated<With>)
        ensures
            agrees(r, With::spec_parse(n@)),
        decreases n,
    {
        match n.rule {
            Rule::With => {},
            _ => {
                return Err(fault_unexpected(Rule::With, n));
            },
        }
        let mut projection_body: Option<ProjectionBody> = None;
        let mut where_: Option<Expression> = None;
        let mut i: usize = 0;
        while i < n.children.len()
            invariant
                i <= n.children.len(),
                With::spec_parse(n@) == With::scan(
                    n@,
                    i as int,
                    view_option(projection_body),
                    view_option(where_),
                ),
            decreases n.children.len() - i,
        {
            proof {
                lemma_children(*n);
            }
            let c = &n.children[i];
            match c.rule {
                Rule::ProjectionBody => match ProjectionBody::parse(c) {
                    Ok(v) => {
                        projection_body = Some(v);
                    },
                    Err(e) => {
                        return Err(e);
                    },
                },
                Rule::Where => match parse_where(c) {
                    Ok(v) => {
                        where_ = Some(v);
                    },
                    Err(e) => {
                        return Err(e);
                    },
                },
                Rule::SP | Rule::WITH => {},
                _ => {
                    return Err(fault_unexpected(n.rule, c));
                },
            }
            i += 1;
        }
        proof {
            lemma_children(*n);
        }
        match projection_body {
            None => Err(fault_missing(n.rule, n)),
            Some(projection_body) => Ok(With { projection_body, where_ }),
        }
    }
}

} // verus!
