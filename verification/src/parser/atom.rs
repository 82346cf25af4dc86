//! Elaboration of atoms, the leaves of expressions, and of the constructs that
//! only occur inside them.

use vstd::prelude::*;

use crate::ast::cypher::{
    Atom, CaseExpression, ExistentialSubquery, Expression, FilterExpression, FunctionInvocation,
    IdInColl, ListComprehension, Literal, Pattern, PatternComprehension, RegularQuery,
    RelationshipsPattern,
};
use crate::ast::model::{
    AtomView, CaseExpressionView, ExistentialSubqueryView, ExpressionView, FilterExpressionView,
    FunctionInvocationView, IdInCollView, ListComprehensionView, PatternComprehensionView,
    PatternView, view_alternatives, view_expression_seq,
};
use crate::error::{
    Elaborated, agrees, agrees_by, fault_missing, fault_unexpected, missing, not_supported,
    unexpected, unsupported, view_option,
};
use crate::parser::clause::{parse_where, spec_parse_where};
use crate::parser::pattern::{parse_variable, spec_parse_variable};
use crate::tree::{NodeView, ParseNode, Rule, lemma_children};

verus! {

impl Atom {
    /// The elaboration of an `Atom` node by its first child that is not blank: a
    /// literal, a parameter, `CASE`, `COUNT(*)`, a list or pattern comprehension,
    /// one of the quantifiers `ALL`, `ANY`, `NONE` and `SINGLE`, a path, a
    /// parenthesised expression, a function call, an existential subquery, or a
    /// variable.
    pub open spec fn spec_parse(n: NodeView) -> Elaborated<AtomView>
        decreases n, n.children.len() + 1,
    {
        if n.rule != Rule::Atom {
            Err(unexpected(Rule::Atom, n))
        } else {
            Self::scan(n, 0)
        }
    }

    /// What [`Atom::spec_parse`] yields once the children before position `i` have
    /// been taken in, with what was gathered from them.
    pub open spec fn scan(n: NodeView, i: int) -> Elaborated<AtomView>
        decreases n, n.children.len() - i,
    {
        if !(0 <= i < n.children.len()) {
            Err(missing(n.rule, n))
        } else {
            let c = n.children[i];
            match c.rule {
                Rule::Literal => match Literal::spec_parse(c) {
                    Ok(v) => Ok(AtomView::Literal(v)),
                    Err(e) => Err(e),
                },
                Rule::Parameter => match spec_parse_parameter(c) {
                    Ok(v) => Ok(AtomView::Parameter(v)),
                    Err(e) => Err(e),
                },
                Rule::CaseExpression => match CaseExpression::spec_parse(c) {
                    Ok(v) => Ok(AtomView::CaseExpression(v)),
                    Err(e) => Err(e),
                },
                Rule::CountStarExpression => Ok(AtomView::CountStar),
                Rule::ListComprehension => match ListComprehension::spec_parse(c) {
                    Ok(v) => Ok(AtomView::ListComprehension(v)),
                    Err(e) => Err(e),
                },
                Rule::PatternComprehension => match PatternComprehension::spec_parse(c) {
                    Ok(v) => Ok(AtomView::PatternComprehension(v)),
                    Err(e) => Err(e),
                },
                Rule::AllFilterExpression => match spec_parse_all_any_none_single_filter_expression(c) {
                    Ok(v) => Ok(AtomView::All(v)),
                    Err(e) => Err(e),
                },
                Rule::AnyFilterExpression => match spec_parse_all_any_none_single_filter_expression(c) {
                    Ok(v) => Ok(AtomView::Any(v)),
                    Err(e) => Err(e),
                },
                Rule::NoneFilterExpression => match spec_parse_all_any_none_single_filter_expression(c) {
                    Ok(v) => Ok(AtomView::NoneOf(v)),
                    Err(e) => Err(e),
                },
                Rule::SingleFilterExpression => match spec_parse_all_any_none_single_filter_expression(c) {
                    Ok(v) => Ok(AtomView::Single(v)),
                    Err(e) => Err(e),
                },
                Rule::RelationshipsPattern => match RelationshipsPattern::spec_parse(c) {
                    Ok(v) => Ok(AtomView::RelationshipsPattern(v)),
                    Err(e) => Err(e),
                },
                Rule::ParenthesizedExpression => match spec_parse_parenthesized_expression(c) {
                    Ok(v) => Ok(AtomView::ParenthesizedExpression(v)),
                    Err(e) => Err(e),
                },
                Rule::FunctionInvocation => match FunctionInvocation::spec_parse(c) {
                    Ok(v) => Ok(AtomView::FunctionInvocation(v)),
                    Err(e) => Err(e),
                },
                Rule::ExistentialSubquery => match ExistentialSubquery::spec_parse(c) {
                    Ok(v) => Ok(AtomView::ExistentialSubquery(v)),
                    Err(e) => Err(e),
                },
                Rule::Variable => match spec_parse_variable(c) {
                    Ok(v) => Ok(AtomView::Variable(v)),
                    Err(e) => Err(e),
                },
                Rule::SP => Self::scan(n, i + 1),
                _ => Err(unexpected(n.rule, c)),
            }
        }
    }

    /// Elaborates an `Atom` node by its first child that is not blank: a literal, a
    /// parameter, `CASE`, `COUNT(*)`, a list or pattern comprehension, one of the
    /// quantifiers `ALL`, `ANY`, `NONE` and `SINGLE`, a path, a parenthesised
    /// expression, a function call, an existential subquery, or a variable.
    pub fn parse(n: &ParseNode) -> (r: Elaborated<Atom>)
        ensures
            agrees(r, Atom::spec_parse(n@)),
        decreases n,
    {
        match n.rule {
            Rule::Atom => {},
            _ => {
                return Err(fault_unexpected(Rule::Atom, n));
            },
        }
        let mut i: usize = 0;
        while i < n.children.len()
            invariant
                i <= n.children.len(),
                Atom::spec_parse(n@) == Atom::scan(n@, i as int),
            decreases n.children.len() - i,
        {
            proof {
                lemma_children(*n);
            }
            let c = &n.children[i];
            match c.rule {
                Rule::Literal => {
                    return match Literal::parse(c) {
                        Ok(v) => Ok(Atom::Literal(v)),
                        Err(e) => Err(e),
                    };
                },
                Rule::Parameter => {
                    return match parse_parameter(c) {
                        Ok(v) => Ok(Atom::Parameter(v)),
                        Err(e) => Err(e),
                    };
                },
                Rule::CaseExpression => {
                    return match CaseExpression::parse(c) {
                        Ok(v) => Ok(Atom::CaseExpression(v)),
                        Err(e) => Err(e),
                    };
                },
                Rule::CountStarExpression => {
                    return Ok(Atom::CountStar);
                },
                Rule::ListComprehension => {
                    return match ListComprehension::parse(c) {
                        Ok(v) => Ok(Atom::ListComprehension(v)),
                        Err(e) => Err(e),
                    };
                },
                Rule::PatternComprehension => {
                    return match PatternComprehension::parse(c) {
                        Ok(v) => Ok(Atom::PatternComprehension(v)),
                        Err(e) => Err(e),
                    };
                },
                Rule::AllFilterExpression => {
                    return match parse_all_any_none_single_filter_expression(c) {
                        Ok(v) => Ok(Atom::All(v)),
                        Err(e) => Err(e),
                    };
                },
                Rule::AnyFilterExpression => {
                    return match parse_all_any_none_single_filter_expression(c) {
                        Ok(v) => Ok(Atom::Any(v)),
                        Err(e) => Err(e),
                    };
                },
                Rule::NoneFilterExpression => {
                    return match parse_all_any_none_single_filter_expression(c) {
                        Ok(v) => Ok(Atom::NoneOf(v)),
                        Err(e) => Err(e),
                    };
                },
                Rule::SingleFilterExpression => {
                    return match parse_all_any_none_single_filter_expression(c) {
                        Ok(v) => Ok(Atom::Single(v)),
                        Err(e) => Err(e),
                    };
                },
                Rule::RelationshipsPattern => {
                    return match RelationshipsPattern::parse(c) {
                        Ok(v) => Ok(Atom::RelationshipsPattern(v)),
                        Err(e) => Err(e),
                    };
                },
                Rule::ParenthesizedExpression => {
                    return match parse_parenthesized_expression(c) {
                        Ok(v) => Ok(Atom::ParenthesizedExpression(v)),
                        Err(e) => Err(e),
                    };
                },
                Rule::FunctionInvocation => {
                    return match FunctionInvocation::parse(c) {
                        Ok(v) => Ok(Atom::FunctionInvocation(v)),
                        Err(e) => Err(e),
                    };
                },
                Rule::ExistentialSubquery => {
                    return match ExistentialSubquery::parse(c) {
                        Ok(v) => Ok(Atom::ExistentialSubquery(v)),
                        Err(e) => Err(e),
                    };
                },
                Rule::Variable => {
                    return match parse_variable(c) {
                        Ok(v) => Ok(Atom::Variable(v)),
                        Err(e) => Err(e),
                    };
                },
                Rule::SP => {},
                _ => {
                    return Err(fault_unexpected(n.rule, c));
                },
            }
            i += 1;
        }
        proof {
            lemma_children(*n);
        }
        Err(fault_missing(n.rule, n))
    }
}

/// The parameter a `Parameter` node names: its text, `$` included.
pub open spec fn spec_parse_parameter(n: NodeView) -> Elaborated<Seq<char>> {
    if n.rule != Rule::Parameter {
        Err(unexpected(Rule::Parameter, n))
    } else {
        Ok(n.text)
    }
}

/// The parameter a `Parameter` node names: its text, `$` included.
pub fn parse_parameter(n: &ParseNode) -> (r: Elaborated<String>)
    ensures
        agrees(r, spec_parse_parameter(n@)),
{
    match n.rule {
        Rule::Parameter => Ok(n.text.clone()),
        _ => Err(fault_unexpected(Rule::Parameter, n)),
    }
}

/// The elaboration of the node of a quantifier, `ALL`, `ANY`, `NONE` or
/// `SINGLE`: the four share one shape, the `FilterExpression` child.
pub open spec fn spec_parse_all_any_none_single_filter_expression(
    n: NodeView,
) -> Elaborated<FilterExpressionView>
    decreases n, n.children.len() + 1,
{
    if n.rule != Rule::AllFilterExpression && n.rule != Rule::AnyFilterExpression && n.rule != Rule::NoneFilterExpression && n.rule != Rule::SingleFilterExpression {
        Err(unexpected(Rule::AllFilterExpression, n))
    } else {
        scan_all_any_none_single_filter_expression(n, 0)
    }
}

/// What [`spec_parse_all_any_none_single_filter_expression`] yields once the
/// children before position `i` have been taken in, with what was gathered from
/// them.
pub open spec fn scan_all_any_none_single_filter_expression(
    n: NodeView,
    i: int,
) -> Elaborated<FilterExpressionView>
    decreases n, n.children.len() - i,
{
    if !(0 <= i < n.children.len()) {
        Err(missing(n.rule, n))
    } else {
        let c = n.children[i];
        match c.rule {
            Rule::FilterExpression => match FilterExpression::spec_parse(c) {
                Ok(v) => Ok(v),
                Err(e) => Err(e),
            },
            Rule::SP | Rule::ANY_ | Rule::ALL | Rule::NONE | Rule::SINGLE =>
                scan_all_any_none_single_filter_expression(n, i + 1),
            _ => Err(unexpected(n.rule, c)),
        }
    }
}

/// Elaborates the node of a quantifier, `ALL`, `ANY`, `NONE` or `SINGLE`: the
/// four share one shape, the `FilterExpression` child.
pub fn parse_all_any_none_single_filter_expression(
    n: &ParseNode,
) -> (r: Elaborated<FilterExpression>)
    ensures
        agrees(r, spec_parse_all_any_none_single_filter_expression(n@)),
    decreases n,
{
    match n.rule {
        Rule::AllFilterExpression | Rule::AnyFilterExpression | Rule::NoneFilterExpression | Rule::SingleFilterExpression => {},
        _ => {
            return Err(fault_unexpected(Rule::AllFilterExpression, n));
        },
    }
    let mut i: usize = 0;
    while i < n.children.len()
        invariant
            i <= n.children.len(),
            spec_parse_all_any_none_single_filter_expression(n@) == scan_all_any_none_single_filter_expression(
                n@,
                i as int,
            ),
        decreases n.children.len() - i,
    {
        proof {
            lemma_children(*n);
        }
        let c = &n.children[i];
        match c.rule {
            Rule::FilterExpression => {
                return match FilterExpression::parse(c) {
                    Ok(v) => Ok(v),
                    Err(e) => Err(e),
                };
            },
            Rule::SP | Rule::ANY_ | Rule::ALL | Rule::NONE | Rule::SINGLE => {},
            _ => {
                return Err(fault_unexpected(n.rule, c));
            },
        }
        i += 1;
    }
    proof {
        lemma_children(*n);
    }
    Err(fault_missing(n.rule, n))
}

impl FilterExpression {
    /// The elaboration of a `FilterExpression` node: a variable ranging over a
    /// collection, which is required, and an optional `WHERE` filter.
    pub open spec fn spec_parse(n: NodeView) -> Elaborated<FilterExpressionView>
        decreases n, n.children.len() + 1,
    {
        if n.rule != Rule::FilterExpression {
            Err(unexpected(Rule::FilterExpression, n))
        } else {
            Self::scan(n, 0, None, None)
        }
    }

    /// What [`FilterExpression::spec_parse`] yields once the children before
    /// position `i` have been taken in, with what was gathered from them.
    pub open spec fn scan(
        n: NodeView,
        i: int,
        id_in_coll: Option<IdInCollView>,
        where_: Option<ExpressionView>,
    ) -> Elaborated<FilterExpressionView>
        decreases n, n.children.len() - i,
    {
        if !(0 <= i < n.children.len()) {
            match id_in_coll {
                None => Err(missing(n.rule, n)),
                Some(id_in_coll) => Ok(FilterExpressionView { id_in_coll, where_ }),
            }
        } else {
            let c = n.children[i];
            match c.rule {
                Rule::IdInColl => match IdInColl::spec_parse(c) {
                    Ok(v) => Self::scan(n, i + 1, Some(v), where_),
                    Err(e) => Err(e),
                },
                Rule::Where => match spec_parse_where(c) {
                    Ok(v) => Self::scan(n, i + 1, id_in_coll, Some(v)),
                    Err(e) => Err(e),
                },
                Rule::SP => Self::scan(n, i + 1, id_in_coll, where_),
                _ => Err(unexpected(n.rule, c)),
            }
        }
    }

    /// Elaborates a `FilterExpression` node: a variable ranging over a collection,
    /// which is required, and an optional `WHERE` filter.
    pub fn parse(n: &ParseNode) -> (r: Elaborated<FilterExpression>)
        ensures
            agrees(r, FilterExpression::spec_parse(n@)),
        decreases n,
    {
        match n.rule {
            Rule::FilterExpression => {},
            _ => {
                return Err(fault_unexpected(Rule::FilterExpression, n));
            },
        }
        let mut id_in_coll: Option<IdInColl> = None;
        let mut where_: Option<Expression> = None;
        let mut i: usize = 0;
        while i < n.children.len()
            invariant
                i <= n.children.len(),
                FilterExpression::spec_parse(n@) == FilterExpression::scan(
                    n@,
                    i as int,
                    view_option(id_in_coll),
                    view_option(where_),
                ),
            decreases n.children.len() - i,
        {
            proof {
                lemma_children(*n);
            }
            let c = &n.children[i];
            match c.rule {
                Rule::IdInColl => match IdInColl::parse(c) {
                    Ok(v) => {
                        id_in_coll = Some(v);
                    },
                    Err(e) => {
                        return Err(e);
                    },
                },
                Rule::Where => match parse_where(c) {
                    Ok(v) => {
                        where_ = Some(v);
                    },
                    Err(e) => {
                        return Err(e);
                    },
                },
                Rule::SP => {},
                _ => {
                    return Err(fault_unexpected(n.rule, c));
                },
            }
            i += 1;
        }
        proof {
            lemma_children(*n);
        }
        match id_in_coll {
            None => Err(fault_missing(n.rule, n)),
            Some(id_in_coll) => Ok(FilterExpression { id_in_coll, where_ }),
        }
    }
}

impl IdInColl {
    /// The elaboration of an `IdInColl` node: the variable, which must come first,
    /// and the expression it ranges over.
    pub open spec fn spec_parse(n: NodeView) -> Elaborated<IdInCollView>
        decreases n, n.children.len() + 1,
    {
        if n.rule != Rule::IdInColl {
            Err(unexpected(Rule::IdInColl, n))
        } else {
            Self::scan(n, 0, None)
        }
    }

    /// What [`IdInColl::spec_parse`] yields once the children before position `i`
    /// have been taken in, with what was gathered from them.
    pub open spec fn scan(
        n: NodeView,
        i: int,
        variable: Option<Seq<char>>,
    ) -> Elaborated<IdInCollView>
        decreases n, n.children.len() - i,
    {
        if !(0 <= i < n.children.len()) {
            Err(missing(n.rule, n))
        } else {
            let c = n.children[i];
            match c.rule {
                Rule::Variable => Self::scan(n, i + 1, Some(c.text)),
                Rule::Expression => match variable {
                    None => Err(missing(n.rule, n)),
                    Some(variable) => match Expression::spec_parse(c) {
                        Ok(v) => Ok(IdInCollView { variable, expression: v }),
                        Err(e) => Err(e),
                    },
                },
                Rule::SP | Rule::IN => Self::scan(n, i + 1, variable),
                _ => Err(unexpected(n.rule, c)),
            }
        }
    }

    /// Elaborates an `IdInColl` node: the variable, which must come first, and the
    /// expression it ranges over.
    pub fn parse(n: &ParseNode) -> (r: Elaborated<IdInColl>)
        ensures
            agrees(r, IdInColl::spec_parse(n@)),
        decreases n,
    {
        match n.rule {
            Rule::IdInColl => {},
            _ => {
                return Err(fault_unexpected(Rule::IdInColl, n));
            },
        }
        let mut variable: Option<String> = None;
        let mut i: usize = 0;
        while i < n.children.len()
            invariant
                i <= n.children.len(),
                IdInColl::spec_parse(n@) == IdInColl::scan(n@, i as int, view_option(variable)),
            decreases n.children.len() - i,
        {
            proof {
                lemma_children(*n);
            }
            let c = &n.children[i];
            match c.rule {
                Rule::Variable => match parse_variable(c) {
                    Ok(v) => {
                        variable = Some(v);
                    },
                    Err(e) => {
                        return Err(e);
                    },
                },
                Rule::Expression => {
                    return match variable {
                        None => Err(fault_missing(n.rule, n)),
                        Some(variable) => match Expression::parse(c) {
                            Ok(v) => Ok(IdInColl { variable, expression: v }),
                            Err(e) => Err(e),
                        },
                    };
                },
                Rule::SP | Rule::IN => {},
                _ => {
                    return Err(fault_unexpected(n.rule, c));
                },
            }
            i += 1;
        }
        proof {
            lemma_children(*n);
        }
        Err(fault_missing(n.rule, n))
    }
}

impl ListComprehension {
    /// The elaboration of a `ListComprehension` node: the filter, which is
    /// required, and the optional expression that each element is mapped to.
    pub open spec fn spec_parse(n: NodeView) -> Elaborated<ListComprehensionView>
        decreases n, n.children.len() + 1,
    {
        if n.rule != Rule::ListComprehension {
            Err(unexpected(Rule::ListComprehension, n))
        } else {
            Self::scan(n, 0, None, None)
        }
    }

    /// What [`ListComprehension::spec_parse`] yields once the children before
    /// position `i` have been taken in, with what was gathered from them.
    pub open spec fn scan(
        n: NodeView,
        i: int,
        filter_expression: Option<FilterExpressionView>,
        expression: Option<ExpressionView>,
    ) -> Elaborated<ListComprehensionView>
        decreases n, n.children.len() - i,
    {
        if !(0 <= i < n.children.len()) {
            match filter_expression {
                None => Err(missing(n.rule, n)),
                Some(filter_expression) => Ok(
                    ListComprehensionView { filter_expression, expression },
                ),
            }
        } else {
            let c = n.children[i];
            match c.rule {
                Rule::FilterExpression => match FilterExpression::spec_parse(c) {
                    Ok(v) => Self::scan(n, i + 1, Some(v), expression),
                    Err(e) => Err(e),
                },
                Rule::Expression => match Expression::spec_parse(c) {
                    Ok(v) => Self::scan(n, i + 1, filter_expression, Some(v)),
                    Err(e) => Err(e),
                },
                Rule::SP => Self::scan(n, i + 1, filter_expression, expression),
                _ => Err(unexpected(n.rule, c)),
            }
        }
    }

    /// Elaborates a `ListComprehension` node: the filter, which is required, and
    /// the optional expression that each element is mapped to.
    pub fn parse(n: &ParseNode) -> (r: Elaborated<ListComprehension>)
        ensures
            agrees(r, ListComprehension::spec_parse(n@)),
        decreases n,
    {
        match n.rule {
            Rule::ListComprehension => {},
            _ => {
                return Err(fault_unexpected(Rule::ListComprehension, n));
            },
        }
        let mut filter_expression: Option<FilterExpression> = None;
        let mut expression: Option<Expression> = None;
        let mut i: usize = 0;
        while i < n.children.len()
            invariant
                i <= n.children.len(),
                ListComprehension::spec_parse(n@) == ListComprehension::scan(
                    n@,
                    i as int,
                    view_option(filter_expression),
                    view_option(expression),
                ),
            decreases n.children.len() - i,
        {
            proof {
                lemma_children(*n);
            }
            let c = &n.children[i];
            match c.rule {
                Rule::FilterExpression => match FilterExpression::parse(c) {
                    Ok(v) => {
                        filter_expression = Some(v);
                    },
                    Err(e) => {
                        return Err(e);
                    },
                },
                Rule::Expression => match Expression::parse(c) {
                    Ok(v) => {
                        expression = Some(v);
                    },
                    Err(e) => {
                        return Err(e);
                    },
                },
                Rule::SP => {},
                _ => {
                    return Err(fault_unexpected(n.rule, c));
                },
            }
            i += 1;
        }
        proof {
            lemma_children(*n);
        }
        match filter_expression {
            None => Err(fault_missing(n.rule, n)),
            Some(filter_expression) => Ok(ListComprehension { filter_expression, expression }),
        }
    }
}

impl PatternComprehension {
    /// What [`PatternComprehension::parse`] returns: pattern comprehensions are
    /// not elaborated yet, so a `PatternComprehension` node is reported as
    /// unsupported, which is neither a syntax error nor an internal fault.
    pub open spec fn spec_parse(n: NodeView) -> Elaborated<PatternComprehensionView> {
        if n.rule != Rule::PatternComprehension {
            Err(unexpected(Rule::PatternComprehension, n))
        } else {
            Err(unsupported(n))
        }
    }

    /// Pattern comprehensions are not elaborated yet: a `PatternComprehension`
    /// node is reported as unsupported, which is neither a syntax error nor an
    /// internal fault.
    pub fn parse(n: &ParseNode) -> (r: Elaborated<PatternComprehension>)
        ensures
            agrees(r, PatternComprehension::spec_parse(n@)),
    {
        match n.rule {
            Rule::PatternComprehension => Err(not_supported(n)),
            _ => Err(fault_unexpected(Rule::PatternComprehension, n)),
        }
    }
}

/// The elaboration of a `ParenthesizedExpression` node: the expression between
/// the parentheses.
pub open spec fn spec_parse_parenthesized_expression(n: NodeView) -> Elaborated<ExpressionView>
    decreases n, n.children.len() + 1,
{
    if n.rule != Rule::ParenthesizedExpression {
        Err(unexpected(Rule::ParenthesizedExpression, n))
    } else {
        scan_parenthesized_expression(n, 0)
    }
}

/// What [`spec_parse_parenthesized_expression`] yields once the children before
/// position `i` have been taken in, with what was gathered from them.
pub open spec fn scan_parenthesized_expression(
    n: NodeView,
    i: int,
) -> Elaborated<ExpressionView>
    decreases n, n.children.len() - i,
{
    if !(0 <= i < n.children.len()) {
        Err(missing(n.rule, n))
    } else {
        let c = n.children[i];
        match c.rule {
            Rule::Expression => match Expression::spec_parse(c) {
                Ok(v) => Ok(v),
                Err(e) => Err(e),
            },
            Rule::SP => scan_parenthesized_expression(n, i + 1),
            _ => Err(unexpected(n.rule, c)),
        }
    }
}

/// Elaborates a `ParenthesizedExpression` node: the expression between the
/// parentheses.
pub fn parse_parenthesized_expression(n: &ParseNode) -> (r: Elaborated<Expression>)
    ensures
        agrees(r, spec_parse_parenthesized_expression(n@)),
    decreases n,
{
    match n.rule {
        Rule::ParenthesizedExpression => {},
        _ => {
            return Err(fault_unexpected(Rule::ParenthesizedExpression, n));
        },
    }
    let mut i: usize = 0;
    while i < n.children.len()
        invariant
            i <= n.children.len(),
            spec_parse_parenthesized_expression(n@) == scan_parenthesized_expression(n@, i as int),
        decreases n.children.len() - i,
    {
        proof {
            lemma_children(*n);
        }
        let c = &n.children[i];
        match c.rule {
            Rule::Expression => {
                return match Expression::parse(c) {
                    Ok(v) => Ok(v),
                    Err(e) => Err(e),
                };
            },
            Rule::SP => {},
            _ => {
                return Err(fault_unexpected(n.rule, c));
            },
        }
        i += 1;
    }
    proof {
        lemma_children(*n);
    }
    Err(fault_missing(n.rule, n))
}

impl FunctionInvocation {
    /// The elaboration of a `FunctionInvocation` node: the function's name, which
    /// is required, whether `DISTINCT` was written, and the arguments in order.
    pub open spec fn spec_parse(n: NodeView) -> Elaborated<FunctionInvocationView>
        decreases n, n.children.len() + 1,
    {
        if n.rule != Rule::FunctionInvocation {
            Err(unexpected(Rule::FunctionInvocation, n))
        } else {
            Self::scan(n, 0, None, false, Seq::empty())
        }
    }

    /// What [`FunctionInvocation::spec_parse`] yields once the children before
    /// position `i` have been taken in, with what was gathered from them.
    pub open spec fn scan(
        n: NodeView,
        i: int,
        function_name: Option<Seq<char>>,
        distinct: bool,
        arguments: Seq<ExpressionView>,
    ) -> Elaborated<FunctionInvocationView>
        decreases n, n.children.len() - i,
    {
        if !(0 <= i < n.children.len()) {
            match function_name {
                None => Err(missing(n.rule, n)),
                Some(function_name) => Ok(
                    FunctionInvocationView { function_name, distinct, arguments },
                ),
            }
        } else {
            let c = n.children[i];
            match c.rule {
                Rule::FunctionName => Self::scan(n, i + 1, Some(c.text), distinct, arguments),
                Rule::DISTINCT => Self::scan(n, i + 1, function_name, true, arguments),
                Rule::Expression => match Expression::spec_parse(c) {
                    Ok(v) => Self::scan(n, i + 1, function_name, distinct, arguments.push(v)),
                    Err(e) => Err(e),
                },
                Rule::SP => Self::scan(n, i + 1, function_name, distinct, arguments),
                _ => Err(unexpected(n.rule, c)),
            }
        }
    }

    /// Elaborates a `FunctionInvocation` node: the function's name, which is
    /// required, whether `DISTINCT` was written, and the arguments in order.
    pub fn parse(n: &ParseNode) -> (r: Elaborated<FunctionInvocation>)
        ensures
            agrees(r, FunctionInvocation::spec_parse(n@)),
        decreases n,
    {
        match n.rule {
            Rule::FunctionInvocation => {},
            _ => {
                return Err(fault_unexpected(Rule::FunctionInvocation, n));
            },
        }
        let mut function_name: Option<String> = None;
        let mut distinct: bool = false;
        let mut arguments: Vec<Expression> = Vec::new();
        proof {
            assert(view_expression_seq(arguments@) =~= Seq::empty());
        }
        let mut i: usize = 0;
        while i < n.children.len()
            invariant
                i <= n.children.len(),
                FunctionInvocation::spec_parse(n@) == FunctionInvocation::scan(
                    n@,
                    i as int,
                    view_option(function_name),
                    distinct,
                    view_expression_seq(arguments@),
                ),
            decreases n.children.len() - i,
        {
            proof {
                lemma_children(*n);
            }
            let c = &n.children[i];
            match c.rule {
                Rule::FunctionName => {
                    function_name = Some(c.text.clone());
                },
                Rule::DISTINCT => {
                    distinct = true;
                },
                Rule::Expression => match Expression::parse(c) {
                    Ok(v) => {
                        let ghost before = arguments@;
                        let ghost item = v@;
                        arguments.push(v);
                        assert(view_expression_seq(arguments@)
                            =~= view_expression_seq(before).push(item));
                    },
                    Err(e) => {
                        return Err(e);
                    },
                },
                Rule::SP => {},
                _ => {
                    return Err(fault_unexpected(n.rule, c));
                },
            }
            i += 1;
        }
        proof {
            lemma_children(*n);
        }
        match function_name {
            None => Err(fault_missing(n.rule, n)),
            Some(function_name) => Ok(FunctionInvocation { function_name, distinct, arguments }),
        }
    }
}

impl CaseExpression {
    /// The elaboration of a `CaseExpression` node. An expression before `ELSE` is
    /// the subject, one after `ELSE` the default; the `CaseAlternative` children
    /// are the `WHEN`/`THEN` pairs, in order.
    pub open spec fn spec_parse(n: NodeView) -> Elaborated<CaseExpressionView>
        decreases n, n.children.len() + 1,
    {
        if n.rule != Rule::CaseExpression {
            Err(unexpected(Rule::CaseExpression, n))
        } else {
            Self::scan(n, 0, None, Seq::empty(), None, false)
        }
    }

    /// What [`CaseExpression::spec_parse`] yields once the children before position
    /// `i` have been taken in, with what was gathered from them.
    pub open spec fn scan(
        n: NodeView,
        i: int,
        expression: Option<ExpressionView>,
        alternatives: Seq<(ExpressionView, ExpressionView)>,
        else_: Option<ExpressionView>,
        in_else: bool,
    ) -> Elaborated<CaseExpressionView>
        decreases n, n.children.len() - i,
    {
        if !(0 <= i < n.children.len()) {
            Ok(CaseExpressionView { expression, alternatives, else_ })
        } else {
            let c = n.children[i];
            match c.rule {
                Rule::Expression => match Expression::spec_parse(c) {
                    Err(e) => Err(e),
                    Ok(v) => if in_else {
                        Self::scan(n, i + 1, expression, alternatives, Some(v), in_else)
                    } else {
                        Self::scan(n, i + 1, Some(v), alternatives, else_, in_else)
                    },
                },
                Rule::CaseAlternative => match spec_parse_case_alternative(c) {
                    Ok(v) => Self::scan(n, i + 1, expression, alternatives.push(v), else_, in_else),
                    Err(e) => Err(e),
                },
                Rule::ELSE => Self::scan(n, i + 1, expression, alternatives, else_, true),
                Rule::SP | Rule::CASE | Rule::END => Self::scan(
                    n,
                    i + 1,
                    expression,
                    alternatives,
                    else_,
                    in_else,
                ),
                _ => Err(unexpected(n.rule, c)),
            }
        }
    }

    /// Elaborates a `CaseExpression` node. An expression before `ELSE` is the
    /// subject, one after `ELSE` the default; the `CaseAlternative` children are
    /// the `WHEN`/`THEN` pairs, in order.
    pub fn parse(n: &ParseNode) -> (r: Elaborated<CaseExpression>)
        ensures
            agrees(r, CaseExpression::spec_parse(n@)),
        decreases n,
    {
        match n.rule {
            Rule::CaseExpression => {},
            _ => {
                return Err(fault_unexpected(Rule::CaseExpression, n));
            },
        }
        let mut expression: Option<Expression> = None;
        let mut alternatives: Vec<(Expression, Expression)> = Vec::new();
        let mut else_: Option<Expression> = None;
        let mut in_else: bool = false;
        proof {
            assert(view_alternatives(alternatives@) =~= Seq::empty());
        }
        let mut i: usize = 0;
        while i < n.children.len()
            invariant
                i <= n.children.len(),
                CaseExpression::spec_parse(n@) == CaseExpression::scan(
                    n@,
                    i as int,
                    view_option(expression),
                    view_alternatives(alternatives@),
                    view_option(else_),
                    in_else,
                ),
            decreases n.children.len() - i,
        {
            proof {
                lemma_children(*n);
            }
            let c = &n.children[i];
            match c.rule {
                Rule::Expression => match Expression::parse(c) {
                    Err(e) => {
                        return Err(e);
                    },
                    Ok(v) => {
                        if in_else {
                            else_ = Some(v);
                        } else {
                            expression = Some(v);
                        }
                    },
                },
                Rule::CaseAlternative => match parse_case_alternative(c) {
                    Ok(v) => {
                        let ghost before = alternatives@;
                        let ghost item = (v.0@, v.1@);
                        alternatives.push(v);
                        assert(view_alternatives(alternatives@)
                            =~= view_alternatives(before).push(item));
                    },
                    Err(e) => {
                        return Err(e);
                    },
                },
                Rule::ELSE => {
                    in_else = true;
                },
                Rule::SP | Rule::CASE | Rule::END => {},
                _ => {
                    return Err(fault_unexpected(n.rule, c));
                },
            }
            i += 1;
        }
        proof {
            lemma_children(*n);
        }
        Ok(CaseExpression { expression, alternatives, else_ })
    }
}

/// The elaboration of a `CaseAlternative` node: the expression after `WHEN` and
/// the one after `THEN`. `THEN` must follow the first of them, and the second
/// ends the node.
pub open spec fn spec_parse_case_alternative(
    n: NodeView,
) -> Elaborated<(ExpressionView, ExpressionView)>
    decreases n, n.children.len() + 1,
{
    if n.rule != Rule::CaseAlternative {
        Err(unexpected(Rule::CaseAlternative, n))
    } else {
        scan_case_alternative(n, 0, None, false)
    }
}

/// What [`spec_parse_case_alternative`] yields once the children before
/// position `i` have been taken in, with what was gathered from them.
pub open spec fn scan_case_alternative(
    n: NodeView,
    i: int,
    when: Option<ExpressionView>,
    in_when: bool,
) -> Elaborated<(ExpressionView, ExpressionView)>
    decreases n, n.children.len() - i,
{
    if !(0 <= i < n.children.len()) {
        Err(missing(n.rule, n))
    } else {
        let c = n.children[i];
        match c.rule {
            Rule::WHEN => scan_case_alternative(n, i + 1, when, true),
            Rule::THEN => match when {
                None => Err(missing(n.rule, n)),
                Some(_) => scan_case_alternative(n, i + 1, when, in_when),
            },
            Rule::Expression => if in_when {
                match Expression::spec_parse(c) {
                    Ok(v) => scan_case_alternative(n, i + 1, Some(v), false),
                    Err(e) => Err(e),
                }
            } else {
                match when {
                    None => Err(missing(n.rule, n)),
                    Some(when) => match Expression::spec_parse(c) {
                        Ok(v) => Ok((when, v)),
                        Err(e) => Err(e),
                    },
                }
            },
            Rule::SP => scan_case_alternative(n, i + 1, when, in_when),
            _ => Err(unexpected(n.rule, c)),
        }
    }
}

/// Elaborates a `CaseAlternative` node: the expression after `WHEN` and the one
/// after `THEN`. `THEN` must follow the first of them, and the second ends the
/// node.
pub fn parse_case_alternative(n: &ParseNode) -> (r: Elaborated<(Expression, Expression)>)
    ensures
        agrees_by(r, spec_parse_case_alternative(n@), |v: (Expression, Expression)| (v.0@, v.1@)),
    decreases n,
{
    match n.rule {
        Rule::CaseAlternative => {},
        _ => {
            return Err(fault_unexpected(Rule::CaseAlternative, n));
        },
    }
    let mut when: Option<Expression> = None;
    let mut in_when: bool = false;
    let mut i: usize = 0;
    while i < n.children.len()
        invariant
            i <= n.children.len(),
            spec_parse_case_alternative(n@) == scan_case_alternative(
                n@,
                i as int,
                view_option(when),
                in_when,
            ),
        decreases n.children.len() - i,
    {
        proof {
            lemma_children(*n);
        }
        let c = &n.children[i];
        match c.rule {
            Rule::WHEN => {
                in_when = true;
            },
            Rule::THEN => {
                if when.is_none() {
                    return Err(fault_missing(n.rule, n));
                }
            },
            Rule::Expression => {
                if in_when {
                    match Expression::parse(c) {
                        Ok(v) => {
                            when = Some(v);
                            in_when = false;
                        },
                        Err(e) => {
                            return Err(e);
                        },
                    }
                } else {
                    return match when {
                        None => Err(fault_missing(n.rule, n)),
                        Some(when) => match Expression::parse(c) {
                            Ok(v) => Ok((when, v)),
                            Err(e) => Err(e),
                        },
                    };
                }
            },
            Rule::SP => {},
            _ => {
                return Err(fault_unexpected(n.rule, c));
            },
        }
        i += 1;
    }
    proof {
        lemma_children(*n);
    }
    Err(fault_missing(n.rule, n))
}

impl ExistentialSubquery {
    /// The elaboration of an `ExistentialSubquery` node. A `RegularQuery` child
    /// makes it a subquery over that query. Otherwise the `Pattern` child, which is
    /// required, and the optional `WHERE` filter make it a test for the pattern.
    pub open spec fn spec_parse(n: NodeView) -> Elaborated<ExistentialSubqueryView>
        decreases n, n.children.len() + 1,
    {
        if n.rule != Rule::ExistentialSubquery {
            Err(unexpected(Rule::ExistentialSubquery, n))
        } else {
            Self::scan(n, 0, None, None)
        }
    }

    /// What [`ExistentialSubquery::spec_parse`] yields once the children before
    /// position `i` have been taken in, with what was gathered from them.
    pub open spec fn scan(
        n: NodeView,
        i: int,
        pattern: Option<PatternView>,
        where_: Option<ExpressionView>,
    ) -> Elaborated<ExistentialSubqueryView>
        decreases n, n.children.len() - i,
    {
        if !(0 <= i < n.children.len()) {
            match pattern {
                None => Err(missing(n.rule, n)),
                Some(pattern) => Ok(ExistentialSubqueryView::PatternWhere { pattern, where_ }),
            }
        } else {
            let c = n.children[i];
            match c.rule {
                Rule::RegularQuery => match RegularQuery::spec_parse(c) {
                    Ok(v) => Ok(ExistentialSubqueryView::RegularQuery(v)),
                    Err(e) => Err(e),
                },
                Rule::Pattern => match Pattern::spec_parse(c) {
                    Ok(v) => Self::scan(n, i + 1, Some(v), where_),
                    Err(e) => Err(e),
                },
                Rule::Where => match spec_parse_where(c) {
                    Ok(v) => Self::scan(n, i + 1, pattern, Some(v)),
                    Err(e) => Err(e),
                },
                Rule::SP | Rule::EXISTS => Self::scan(n, i + 1, pattern, where_),
                _ => Err(unexpected(n.rule, c)),
            }
        }
    }

    /// Elaborates an `ExistentialSubquery` node. A `RegularQuery` child makes it a
    /// subquery over that query. Otherwise the `Pattern` child, which is required,
    /// and the optional `WHERE` filter make it a test for the pattern.
    pub fn parse(n: &ParseNode) -> (r: Elaborated<ExistentialSubquery>)
        ensures
            agrees(r, ExistentialSubquery::spec_parse(n@)),
        decreases n,
    {
        match n.rule {
            Rule::ExistentialSubquery => {},
            _ => {
                return Err(fault_unexpected(Rule::ExistentialSubquery, n));
            },
        }
        let mut pattern: Option<Pattern> = None;
        let mut where_: Option<Expression> = None;
        let mut i: usize = 0;
        while i < n.children.len()
            invariant
                i <= n.children.len(),
                ExistentialSubquery::spec_parse(n@) == ExistentialSubquery::scan(
                    n@,
                    i as int,
                    view_option(pattern),
                    view_option(where_),
                ),
            decreases n.children.len() - i,
        {
            proof {
                lemma_children(*n);
            }
            let c = &n.children[i];
            match c.rule {
                Rule::RegularQuery => {
                    return match RegularQuery::parse(c) {
                        Ok(v) => Ok(ExistentialSubquery::RegularQuery(v)),
                        Err(e) => Err(e),
                    };
                },
                Rule::Pattern => match Pattern::parse(c) {
                    Ok(v) => {
                        pattern = Some(v);
                    },
                    Err(e) => {
                        return Err(e);
                    },
                },
                Rule::Where => match parse_where(c) {
                    Ok(v) => {
                        where_ = Some(v);
                    },
                    Err(e) => {
                        return Err(e);
                    },
                },
                Rule::SP | Rule::EXISTS => {},
                _ => {
                    return Err(fault_unexpected(n.rule, c));
                },
            }
            i += 1;
        }
        proof {
            lemma_children(*n);
        }
        match pattern {
            None => Err(fault_missing(n.rule, n)),
            Some(pattern) => Ok(ExistentialSubquery::PatternWhere { pattern, where_ }),
        }
    }
}

} // verus!
