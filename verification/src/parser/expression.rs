//! Elaboration of expressions: the cascade of precedence levels from `OR`, the
//! loosest, down to the operand with its property lookups and labels. Every
//! level is built whether or not its operator was written.

use vstd::prelude::*;

use crate::ast::cypher::{
    AddOrSubtractExpression, AndExpression, Atom, ComparisonExpression, ComparisonOperator,
    Expression, ListOperatorExpression, MultiplyDivideModuloExpression,
    MultiplyDivideModuloOperator, NotExpression, NullOperatorExpression, OrExpression,
    PlusMinusOperator, PowerOfExpression, PropertyExpression, PropertyOrLabelsExpression,
    StringListNullOperatorExpression, StringListNullOperatorExpressionInner, StringOperator,
    StringOperatorExpression, UnaryAddOrSubtractExpression, XorExpression,
};
use crate::ast::model::{
    AddOrSubtractExpressionView, AndExpressionView, AtomView, ComparisonExpressionView,
    ExpressionView, ListOperatorExpressionView, MultiplyDivideModuloExpressionView,
    NotExpressionView, OrExpressionView, PowerOfExpressionView, PropertyExpressionView,
    PropertyOrLabelsExpressionView, StringListNullOperatorExpressionInnerView,
    StringListNullOperatorExpressionView, StringOperatorExpressionView,
    UnaryAddOrSubtractExpressionView, XorExpressionView, view_additions,
    view_and_expression_seq, view_comparisons, view_multiplications, view_not_expression_seq,
    view_string_list_null_operator_expression_inner_seq,
    view_unary_add_or_subtract_expression_seq, view_xor_expression_seq,
};
use crate::error::{
    Elaborated, agrees, agrees_by, fault_missing, fault_unexpected, missing, unexpected,
    view_option, view_option_strings, view_strings,
};
use crate::parser::pattern::{parse_node_labels, spec_parse_node_labels};
use crate::tree::{NodeView, ParseNode, Rule, lemma_children};

verus! {

impl OrExpression {
    /// The elaboration of an `Expression` node, or an `OrExpression` node, to the
    /// operands of `OR`. The operands of an `OrExpression` child are taken in where
    /// that child stands; an `XorExpression` child is one operand.
    pub open spec fn spec_parse(n: NodeView) -> Elaborated<OrExpressionView>
        decreases n, n.children.len() + 1,
    {
        if n.rule != Rule::Expression && n.rule != Rule::OrExpression {
            Err(unexpected(Rule::Expression, n))
        } else {
            Self::scan(n, 0, Seq::empty())
        }
    }

    /// What [`OrExpression::spec_parse`] yields once the children before position
    /// `i` have been taken in, with what was gathered from them.
    pub open spec fn scan(
        n: NodeView,
        i: int,
        xor_expressions: Seq<XorExpressionView>,
    ) -> Elaborated<OrExpressionView>
        decreases n, n.children.len() - i,
    {
        if !(0 <= i < n.children.len()) {
            Ok(OrExpressionView(xor_expressions))
        } else {
            let c = n.children[i];
            match c.rule {
                Rule::OrExpression => match spec_parse_or_operands(c) {
                    Ok(v) => Self::scan(n, i + 1, xor_expressions + v),
                    Err(e) => Err(e),
                },
                Rule::XorExpression => match XorExpression::spec_parse(c) {
                    Ok(v) => Self::scan(n, i + 1, xor_expressions.push(v)),
                    Err(e) => Err(e),
                },
                Rule::SP | Rule::XOR => Self::scan(n, i + 1, xor_expressions),
                _ => Err(unexpected(n.rule, c)),
            }
        }
    }

    /// Elaborates an `Expression` node, or an `OrExpression` node, to the operands
    /// of `OR`. The operands of an `OrExpression` child are taken in where that
    /// child stands; an `XorExpression` child is one operand.
    pub fn parse(n: &ParseNode) -> (r: Elaborated<OrExpression>)
        ensures
            agrees(r, OrExpression::spec_parse(n@)),
        decreases n,
    {
        match n.rule {
            Rule::Expression | Rule::OrExpression => {},
            _ => {
                return Err(fault_unexpected(Rule::Expression, n));
            },
        }
        let mut xor_expressions: Vec<XorExpression> = Vec::new();
        proof {
            assert(view_xor_expression_seq(xor_expressions@) =~= Seq::empty());
        }
        let mut i: usize = 0;
        while i < n.children.len()
            invariant
                i <= n.children.len(),
                OrExpression::spec_parse(n@) == OrExpression::scan(
                    n@,
                    i as int,
                    view_xor_expression_seq(xor_expressions@),
                ),
            decreases n.children.len() - i,
        {
            proof {
                lemma_children(*n);
            }
            let c = &n.children[i];
            match c.rule {
                Rule::OrExpression => match parse_or_operands(c) {
                    Ok(v) => {
                        let ghost before = xor_expressions@;
                        let ghost items = v@;
                        let mut v = v;
                        xor_expressions.append(&mut v);
                        assert(view_xor_expression_seq(xor_expressions@)
                            =~= view_xor_expression_seq(before)
                            + view_xor_expression_seq(items));
                    },
                    Err(e) => {
                        return Err(e);
                    },
                },
                Rule::XorExpression => match XorExpression::parse(c) {
                    Ok(v) => {
                        let ghost before = xor_expressions@;
                        let ghost item = v@;
                        xor_expressions.push(v);
                        assert(view_xor_expression_seq(xor_expressions@)
                            =~= view_xor_expression_seq(before).push(item));
                    },
                    Err(e) => {
                        return Err(e);
                    },
                },
                Rule::SP | Rule::XOR => {},
                _ => {
                    return Err(fault_unexpected(n.rule, c));
                },
            }
            i += 1;
        }
        proof {
            lemma_children(*n);
        }
        Ok(OrExpression(xor_expressions))
    }
}

/// The elaboration of the children of an `OrExpression` node: each
/// `XorExpression` child is an operand; the keywords between them are passed
/// over.
pub open spec fn spec_parse_or_operands(n: NodeView) -> Elaborated<Seq<XorExpressionView>>
    decreases n, n.children.len() + 1,
{
    if n.rule != Rule::OrExpression {
        Err(unexpected(Rule::OrExpression, n))
    } else {
        scan_or_operands(n, 0, Seq::empty())
    }
}

/// What [`spec_parse_or_operands`] yields once the children before position `i`
/// have been taken in, with what was gathered from them.
pub open spec fn scan_or_operands(
    n: NodeView,
    i: int,
    xor_expressions: Seq<XorExpressionView>,
) -> Elaborated<Seq<XorExpressionView>>
    decreases n, n.children.len() - i,
{
    if !(0 <= i < n.children.len()) {
        Ok(xor_expressions)
    } else {
        let c = n.children[i];
        match c.rule {
            Rule::XorExpression => match XorExpression::spec_parse(c) {
                Ok(v) => scan_or_operands(n, i + 1, xor_expressions.push(v)),
                Err(e) => Err(e),
            },
            Rule::SP | Rule::XOR | Rule::OR => scan_or_operands(n, i + 1, xor_expressions),
            _ => Err(unexpected(n.rule, c)),
        }
    }
}

/// Elaborates the children of an `OrExpression` node: each `XorExpression`
/// child is an operand; the keywords between them are passed over.
pub fn parse_or_operands(n: &ParseNode) -> (r: Elaborated<Vec<XorExpression>>)
    ensures
        agrees_by(
            r,
            spec_parse_or_operands(n@),
            |v: Vec<XorExpression>| view_xor_expression_seq(v@),
        ),
    decreases n,
{
    match n.rule {
        Rule::OrExpression => {},
        _ => {
            return Err(fault_unexpected(Rule::OrExpression, n));
        },
    }
    let mut xor_expressions: Vec<XorExpression> = Vec::new();
    proof {
        assert(view_xor_expression_seq(xor_expressions@) =~= Seq::empty());
    }
    let mut i: usize = 0;
    while i < n.children.len()
        invariant
            i <= n.children.len(),
            spec_parse_or_operands(n@) == scan_or_operands(
                n@,
                i as int,
                view_xor_expression_seq(xor_expressions@),
            ),
        decreases n.children.len() - i,
    {
        proof {
            lemma_children(*n);
        }
        let c = &n.children[i];
        match c.rule {
            Rule::XorExpression => match XorExpression::parse(c) {
                Ok(v) => {
                    let ghost before = xor_expressions@;
                    let ghost item = v@;
                    xor_expressions.push(v);
                    assert(view_xor_expression_seq(xor_expressions@)
                        =~= view_xor_expression_seq(before).push(item));
                },
                Err(e) => {
                    return Err(e);
                },
            },
            Rule::SP | Rule::XOR | Rule::OR => {},
            _ => {
                return Err(fault_unexpected(n.rule, c));
            },
        }
        i += 1;
    }
    proof {
        lemma_children(*n);
    }
    Ok(xor_expressions)
}

impl XorExpression {
    /// The elaboration of an `XorExpression` node: every `AndExpression` child is
    /// an operand of `XOR`, in the order written. No operand is dropped.
    pub open spec fn spec_parse(n: NodeView) -> Elaborated<XorExpressionView>
        decreases n, n.children.len() + 1,
    {
        if n.rule != Rule::XorExpression {
            Err(unexpected(Rule::XorExpression, n))
        } else {
            Self::scan(n, 0, Seq::empty())
        }
    }

    /// What [`XorExpression::spec_parse`] yields once the children before position
    /// `i` have been taken in, with what was gathered from them.
    pub open spec fn scan(
        n: NodeView,
        i: int,
        and_expressions: Seq<AndExpressionView>,
    ) -> Elaborated<XorExpressionView>
        decreases n, n.children.len() - i,
    {
        if !(0 <= i < n.children.len()) {
            Ok(XorExpressionView(and_expressions))
        } else {
            let c = n.children[i];
            match c.rule {
                Rule::AndExpression => match AndExpression::spec_parse(c) {
                    Ok(v) => Self::scan(n, i + 1, and_expressions.push(v)),
                    Err(e) => Err(e),
                },
                Rule::SP | Rule::XOR | Rule::AND => Self::scan(n, i + 1, and_expressions),
                _ => Err(unexpected(n.rule, c)),
            }
        }
    }

    /// Elaborates an `XorExpression` node: every `AndExpression` child is an
    /// operand of `XOR`, in the order written. No operand is dropped.
    pub fn parse(n: &ParseNode) -> (r: Elaborated<XorExpression>)
        ensures
            agrees(r, XorExpression::spec_parse(n@)),
        decreases n,
    {
        match n.rule {
            Rule::XorExpression => {},
            _ => {
                return Err(fault_unexpected(Rule::XorExpression, n));
            },
        }
        let mut and_expressions: Vec<AndExpression> = Vec::new();
        proof {
            assert(view_and_expression_seq(and_expressions@) =~= Seq::empty());
        }
        let mut i: usize = 0;
        while i < n.children.len()
            invariant
                i <= n.children.len(),
                XorExpression::spec_parse(n@) == XorExpression::scan(
                    n@,
                    i as int,
                    view_and_expression_seq(and_expressions@),
                ),
            decreases n.children.len() - i,
        {
            proof {
                lemma_children(*n);
            }
            let c = &n.children[i];
            match c.rule {
                Rule::AndExpression => match AndExpression::parse(c) {
                    Ok(v) => {
                        let ghost before = and_expressions@;
                        let ghost item = v@;
                        and_expressions.push(v);
                        assert(view_and_expression_seq(and_expressions@)
                            =~= view_and_expression_seq(before).push(item));
                    },
                    Err(e) => {
                        return Err(e);
                    },
                },
                Rule::SP | Rule::XOR | Rule::AND => {},
                _ => {
                    return Err(fault_unexpected(n.rule, c));
                },
            }
            i += 1;
        }
        proof {
            lemma_children(*n);
        }
        Ok(XorExpression(and_expressions))
    }
}

impl AndExpression {
    /// The elaboration of an `AndExpression` node: every `NotExpression` child is
    /// an operand of `AND`, in the order written.
    pub open spec fn spec_parse(n: NodeView) -> Elaborated<AndExpressionView>
        decreases n, n.children.len() + 1,
    {
        if n.rule != Rule::AndExpression {
            Err(unexpected(Rule::AndExpression, n))
        } else {
            Self::scan(n, 0, Seq::empty())
        }
    }

    /// What [`AndExpression::spec_parse`] yields once the children before position
    /// `i` have been taken in, with what was gathered from them.
    pub open spec fn scan(
        n: NodeView,
        i: int,
        not_expressions: Seq<NotExpressionView>,
    ) -> Elaborated<AndExpressionView>
        decreases n, n.children.len() - i,
    {
        if !(0 <= i < n.children.len()) {
            Ok(AndExpressionView(not_expressions))
        } else {
            let c = n.children[i];
            match c.rule {
                Rule::NotExpression => match NotExpression::spec_parse(c) {
                    Ok(v) => Self::scan(n, i + 1, not_expressions.push(v)),
                    Err(e) => Err(e),
                },
                Rule::SP | Rule::AND => Self::scan(n, i + 1, not_expressions),
                _ => Err(unexpected(n.rule, c)),
            }
        }
    }

    /// Elaborates an `AndExpression` node: every `NotExpression` child is an
    /// operand of `AND`, in the order written.
    pub fn parse(n: &ParseNode) -> (r: Elaborated<AndExpression>)
        ensures
            agrees(r, AndExpression::spec_parse(n@)),
        decreases n,
    {
        match n.rule {
            Rule::AndExpression => {},
            _ => {
                return Err(fault_unexpected(Rule::AndExpression, n));
            },
        }
        let mut not_expressions: Vec<NotExpression> = Vec::new();
        proof {
            assert(view_not_expression_seq(not_expressions@) =~= Seq::empty());
        }
        let mut i: usize = 0;
        while i < n.children.len()
            invariant
                i <= n.children.len(),
                AndExpression::spec_parse(n@) == AndExpression::scan(
                    n@,
                    i as int,
                    view_not_expression_seq(not_expressions@),
                ),
            decreases n.children.len() - i,
        {
            proof {
                lemma_children(*n);
            }
            let c = &n.children[i];
            match c.rule {
                Rule::NotExpression => match NotExpression::parse(c) {
                    Ok(v) => {
                        let ghost before = not_expressions@;
                        let ghost item = v@;
                        not_expressions.push(v);
                        assert(view_not_expression_seq(not_expressions@)
                            =~= view_not_expression_seq(before).push(item));
                    },
                    Err(e) => {
                        return Err(e);
                    },
                },
                Rule::SP | Rule::AND => {},
                _ => {
                    return Err(fault_unexpected(n.rule, c));
                },
            }
            i += 1;
        }
        proof {
            lemma_children(*n);
        }
        Ok(AndExpression(not_expressions))
    }
}

impl NotExpression {
    /// The elaboration of a `NotExpression` node. Each `NOT` child flips the flag,
    /// so the flag is set when their number is odd. The `ComparisonExpression`
    /// child is required.
    pub open spec fn spec_parse(n: NodeView) -> Elaborated<NotExpressionView>
        decreases n, n.children.len() + 1,
    {
        if n.rule != Rule::NotExpression {
            Err(unexpected(Rule::NotExpression, n))
        } else {
            Self::scan(n, 0, false, None)
        }
    }

    /// What [`NotExpression::spec_parse`] yields once the children before position
    /// `i` have been taken in, with what was gathered from them.
    pub open spec fn scan(
        n: NodeView,
        i: int,
        not: bool,
        expression: Option<ComparisonExpressionView>,
    ) -> Elaborated<NotExpressionView>
        decreases n, n.children.len() - i,
    {
        if !(0 <= i < n.children.len()) {
            match expression {
                None => Err(missing(n.rule, n)),
                Some(expression) => Ok(NotExpressionView { not, expression }),
            }
        } else {
            let c = n.children[i];
            match c.rule {
                Rule::NOT => Self::scan(n, i + 1, !not, expression),
                Rule::ComparisonExpression => match ComparisonExpression::spec_parse(c) {
                    Ok(v) => Self::scan(n, i + 1, not, Some(v)),
                    Err(e) => Err(e),
                },
                Rule::SP => Self::scan(n, i + 1, not, expression),
                _ => Err(unexpected(n.rule, c)),
            }
        }
    }

    /// Elaborates a `NotExpression` node. Each `NOT` child flips the flag, so the
    /// flag is set when their number is odd. The `ComparisonExpression` child is
    /// required.
    pub fn parse(n: &ParseNode) -> (r: Elaborated<NotExpression>)
        ensures
            agrees(r, NotExpression::spec_parse(n@)),
        decreases n,
    {
        match n.rule {
            Rule::NotExpression => {},
            _ => {
                return Err(fault_unexpected(Rule::NotExpression, n));
            },
        }
        let mut not: bool = false;
        let mut expression: Option<ComparisonExpression> = None;
        let mut i: usize = 0;
        while i < n.children.len()
            invariant
                i <= n.children.len(),
                NotExpression::spec_parse(n@) == NotExpression::scan(
                    n@,
                    i as int,
                    not,
                    view_option(expression),
                ),
            decreases n.children.len() - i,
        {
            proof {
                lemma_children(*n);
            }
            let c = &n.children[i];
            match c.rule {
                Rule::NOT => {
                    not = !not;
                },
                Rule::ComparisonExpression => match ComparisonExpression::parse(c) {
                    Ok(v) => {
                        expression = Some(v);
                    },
                    Err(e) => {
                        return Err(e);
                    },
                },
                Rule::SP => {},
                _ => {
                    return Err(fault_unexpected(n.rule, c));
                },
            }
            i += 1;
        }
        proof {
            lemma_children(*n);
        }
        match expression {
            None => Err(fault_missing(n.rule, n)),
            Some(expression) => Ok(NotExpression { not, expression }),
        }
    }
}

impl ComparisonExpression {
    /// The elaboration of a `ComparisonExpression` node: the
    /// `AddOrSubtractExpression` child is the first operand, and each
    /// `PartialComparisonExpression` child adds an (operator, operand) pair, in the
    /// order written. A chain such as `a < b > c` is kept as it stands.
    pub open spec fn spec_parse(n: NodeView) -> Elaborated<ComparisonExpressionView>
        decreases n, n.children.len() + 1,
    {
        if n.rule != Rule::ComparisonExpression {
            Err(unexpected(Rule::ComparisonExpression, n))
        } else {
            Self::scan(n, 0, None, Seq::empty())
        }
    }

    /// What [`ComparisonExpression::spec_parse`] yields once the children before
    /// position `i` have been taken in, with what was gathered from them.
    pub open spec fn scan(
        n: NodeView,
        i: int,
        expression: Option<AddOrSubtractExpressionView>,
        comparisons: Seq<(ComparisonOperator, AddOrSubtractExpressionView)>,
    ) -> Elaborated<ComparisonExpressionView>
        decreases n, n.children.len() - i,
    {
        if !(0 <= i < n.children.len()) {
            match expression {
                None => Err(missing(n.rule, n)),
                Some(expression) => Ok(ComparisonExpressionView { expression, comparisons }),
            }
        } else {
            let c = n.children[i];
            match c.rule {
                Rule::SP => Self::scan(n, i + 1, expression, comparisons),
                Rule::AddOrSubtractExpression => match AddOrSubtractExpression::spec_parse(c) {
                    Ok(v) => Self::scan(n, i + 1, Some(v), comparisons),
                    Err(e) => Err(e),
                },
                Rule::PartialComparisonExpression => match spec_parse_partial_comparison(c) {
                    Ok(v) => Self::scan(n, i + 1, expression, comparisons.push(v)),
                    Err(e) => Err(e),
                },
                _ => Err(unexpected(n.rule, c)),
            }
        }
    }

    /// Elaborates a `ComparisonExpression` node: the `AddOrSubtractExpression`
    /// child is the first operand, and each `PartialComparisonExpression` child
    /// adds an (operator, operand) pair, in the order written. A chain such as `a <
    /// b > c` is kept as it stands.
    pub fn parse(n: &ParseNode) -> (r: Elaborated<ComparisonExpression>)
        ensures
            agrees(r, ComparisonExpression::spec_parse(n@)),
        decreases n,
    {
        match n.rule {
            Rule::ComparisonExpression => {},
            _ => {
                return Err(fault_unexpected(Rule::ComparisonExpression, n));
            },
        }
        let mut expression: Option<AddOrSubtractExpression> = None;
        let mut comparisons: Vec<(ComparisonOperator, AddOrSubtractExpression)> = Vec::new();
        proof {
            assert(view_comparisons(comparisons@) =~= Seq::empty());
        }
        let mut i: usize = 0;
        while i < n.children.len()
            invariant
                i <= n.children.len(),
                ComparisonExpression::spec_parse(n@) == ComparisonExpression::scan(
                    n@,
                    i as int,
                    view_option(expression),
                    view_comparisons(comparisons@),
                ),
            decreases n.children.len() - i,
        {
            proof {
                lemma_children(*n);
            }
            let c = &n.children[i];
            match c.rule {
                Rule::SP => {},
                Rule::AddOrSubtractExpression => match AddOrSubtractExpression::parse(c) {
                    Ok(v) => {
                        expression = Some(v);
                    },
                    Err(e) => {
                        return Err(e);
                    },
                },
                Rule::PartialComparisonExpression => match parse_partial_comparison(c) {
                    Ok(v) => {
                        let ghost before = comparisons@;
                        let ghost item = (v.0, v.1@);
                        comparisons.push(v);
                        assert(view_comparisons(comparisons@)
                            =~= view_comparisons(before).push(item));
                    },
                    Err(e) => {
                        return Err(e);
                    },
                },
                _ => {
                    return Err(fault_unexpected(n.rule, c));
                },
            }
            i += 1;
        }
        proof {
            lemma_children(*n);
        }
        match expression {
            None => Err(fault_missing(n.rule, n)),
            Some(expression) => Ok(ComparisonExpression { expression, comparisons }),
        }
    }
}

/// The elaboration of a `PartialComparisonExpression` node: the operator token
/// among its children and the right-hand operand. Both are required.
pub open spec fn spec_parse_partial_comparison(
    n: NodeView,
) -> Elaborated<(ComparisonOperator, AddOrSubtractExpressionView)>
    decreases n, n.children.len() + 1,
{
    if n.rule != Rule::PartialComparisonExpression {
        Err(unexpected(Rule::PartialComparisonExpression, n))
    } else {
        scan_partial_comparison(n, 0, None, None)
    }
}

/// What [`spec_parse_partial_comparison`] yields once the children before
/// position `i` have been taken in, with what was gathered from them.
pub open spec fn scan_partial_comparison(
    n: NodeView,
    i: int,
    operator: Option<ComparisonOperator>,
    expression: Option<AddOrSubtractExpressionView>,
) -> Elaborated<(ComparisonOperator, AddOrSubtractExpressionView)>
    decreases n, n.children.len() - i,
{
    if !(0 <= i < n.children.len()) {
        match operator {
            None => Err(missing(n.rule, n)),
            Some(operator) => match expression {
                None => Err(missing(n.rule, n)),
                Some(expression) => Ok((operator, expression)),
            },
        }
    } else {
        let c = n.children[i];
        match c.rule {
            Rule::GE => scan_partial_comparison(
                n,
                i + 1,
                Some(ComparisonOperator::GreaterEqual),
                expression,
            ),
            Rule::GT => scan_partial_comparison(
                n,
                i + 1,
                Some(ComparisonOperator::GreaterThan),
                expression,
            ),
            Rule::LE => scan_partial_comparison(
                n,
                i + 1,
                Some(ComparisonOperator::LessEqual),
                expression,
            ),
            Rule::LT => scan_partial_comparison(
                n,
                i + 1,
                Some(ComparisonOperator::LessThan),
                expression,
            ),
            Rule::EQ => scan_partial_comparison(
                n,
                i + 1,
                Some(ComparisonOperator::Equal),
                expression,
            ),
            Rule::NE => scan_partial_comparison(
                n,
                i + 1,
                Some(ComparisonOperator::NotEqual),
                expression,
            ),
            Rule::SP => scan_partial_comparison(n, i + 1, operator, expression),
            Rule::AddOrSubtractExpression => match AddOrSubtractExpression::spec_parse(c) {
                Ok(v) => scan_partial_comparison(n, i + 1, operator, Some(v)),
                Err(e) => Err(e),
            },
            _ => Err(unexpected(n.rule, c)),
        }
    }
}

/// Elaborates a `PartialComparisonExpression` node: the operator token among
/// its children and the right-hand operand. Both are required.
pub fn parse_partial_comparison(
    n: &ParseNode,
) -> (r: Elaborated<(ComparisonOperator, AddOrSubtractExpression)>)
    ensures
        agrees_by(
            r,
            spec_parse_partial_comparison(n@),
            |v: (ComparisonOperator, AddOrSubtractExpression)| (v.0, v.1@),
        ),
    decreases n,
{
    match n.rule {
        Rule::PartialComparisonExpression => {},
        _ => {
            return Err(fault_unexpected(Rule::PartialComparisonExpression, n));
        },
    }
    let mut operator: Option<ComparisonOperator> = None;
    let mut expression: Option<AddOrSubtractExpression> = None;
    let mut i: usize = 0;
    while i < n.children.len()
        invariant
            i <= n.children.len(),
            spec_parse_partial_comparison(n@) == scan_partial_comparison(
                n@,
                i as int,
                operator,
                view_option(expression),
            ),
        decreases n.children.len() - i,
    {
        proof {
            lemma_children(*n);
        }
        let c = &n.children[i];
        match c.rule {
            Rule::GE => {
                operator = Some(ComparisonOperator::GreaterEqual);
            },
            Rule::GT => {
                operator = Some(ComparisonOperator::GreaterThan);
            },
            Rule::LE => {
                operator = Some(ComparisonOperator::LessEqual);
            },
            Rule::LT => {
                operator = Some(ComparisonOperator::LessThan);
            },
            Rule::EQ => {
                operator = Some(ComparisonOperator::Equal);
            },
            Rule::NE => {
                operator = Some(ComparisonOperator::NotEqual);
            },
            Rule::SP => {},
            Rule::AddOrSubtractExpression => match AddOrSubtractExpression::parse(c) {
                Ok(v) => {
                    expression = Some(v);
                },
                Err(e) => {
                    return Err(e);
                },
            },
            _ => {
                return Err(fault_unexpected(n.rule, c));
            },
        }
        i += 1;
    }
    proof {
        lemma_children(*n);
    }
    match operator {
        None => Err(fault_missing(n.rule, n)),
        Some(operator) => match expression {
            None => Err(fault_missing(n.rule, n)),
            Some(expression) => Ok((operator, expression)),
        },
    }
}

impl AddOrSubtractExpression {
    /// The elaboration of an `AddOrSubtractExpression` node. The first operand
    /// stands alone; each later operand is paired with the `+` or `-` written
    /// before it, and the pairs keep their order, so the operators apply left to
    /// right. An operand that follows no operator replaces the first operand.
    pub open spec fn spec_parse(n: NodeView) -> Elaborated<AddOrSubtractExpressionView>
        decreases n, n.children.len() + 1,
    {
        if n.rule != Rule::AddOrSubtractExpression {
            Err(unexpected(Rule::AddOrSubtractExpression, n))
        } else {
            Self::scan(n, 0, None, Seq::empty(), None)
        }
    }

    /// What [`AddOrSubtractExpression::spec_parse`] yields once the children before
    /// position `i` have been taken in, with what was gathered from them.
    pub open spec fn scan(
        n: NodeView,
        i: int,
        expression: Option<MultiplyDivideModuloExpressionView>,
        operations: Seq<(PlusMinusOperator, MultiplyDivideModuloExpressionView)>,
        operator: Option<PlusMinusOperator>,
    ) -> Elaborated<AddOrSubtractExpressionView>
        decreases n, n.children.len() - i,
    {
        if !(0 <= i < n.children.len()) {
            match expression {
                None => Err(missing(n.rule, n)),
                Some(expression) => Ok(AddOrSubtractExpressionView { expression, operations }),
            }
        } else {
            let c = n.children[i];
            match c.rule {
                Rule::SP => Self::scan(n, i + 1, expression, operations, operator),
                Rule::MultiplyDivideModuloExpression => match MultiplyDivideModuloExpression::spec_parse(c) {
                    Err(e) => Err(e),
                    Ok(v) => match operator {
                        Some(op) => Self::scan(
                            n,
                            i + 1,
                            expression,
                            operations.push((op, v)),
                            None,
                        ),
                        None => Self::scan(n, i + 1, Some(v), operations, operator),
                    },
                },
                Rule::PLUS => Self::scan(
                    n,
                    i + 1,
                    expression,
                    operations,
                    Some(PlusMinusOperator::Plus),
                ),
                Rule::MINUS => Self::scan(
                    n,
                    i + 1,
                    expression,
                    operations,
                    Some(PlusMinusOperator::Minus),
                ),
                _ => Err(unexpected(n.rule, c)),
            }
        }
    }

    /// Elaborates an `AddOrSubtractExpression` node. The first operand stands
    /// alone; each later operand is paired with the `+` or `-` written before it,
    /// and the pairs keep their order, so the operators apply left to right. An
    /// operand that follows no operator replaces the first operand.
    pub fn parse(n: &ParseNode) -> (r: Elaborated<AddOrSubtractExpression>)
        ensures
            agrees(r, AddOrSubtractExpression::spec_parse(n@)),
        decreases n,
    {
        match n.rule {
            Rule::AddOrSubtractExpression => {},
            _ => {
                return Err(fault_unexpected(Rule::AddOrSubtractExpression, n));
            },
        }
        let mut expression: Option<MultiplyDivideModuloExpression> = None;
        let mut operations: Vec<(PlusMinusOperator, MultiplyDivideModuloExpression)> = Vec::new();
        let mut operator: Option<PlusMinusOperator> = None;
        proof {
            assert(view_additions(operations@) =~= Seq::empty());
        }
        let mut i: usize = 0;
        while i < n.children.len()
            invariant
                i <= n.children.len(),
                AddOrSubtractExpression::spec_parse(n@) == AddOrSubtractExpression::scan(
                    n@,
                    i as int,
                    view_option(expression),
                    view_additions(operations@),
                    operator,
                ),
            decreases n.children.len() - i,
        {
            proof {
                lemma_children(*n);
            }
            let c = &n.children[i];
            match c.rule {
                Rule::SP => {},
                Rule::MultiplyDivideModuloExpression => match MultiplyDivideModuloExpression::parse(c) {
                    Err(e) => {
                        return Err(e);
                    },
                    Ok(v) => match operator {
                        Some(op) => {
                            let ghost before = operations@;
                            let ghost item = (op, v@);
                            operations.push((op, v));
                            operator = None;
                            assert(view_additions(operations@)
                                =~= view_additions(before).push(item));
                        },
                        None => {
                            expression = Some(v);
                        },
                    },
                },
                Rule::PLUS => {
                    operator = Some(PlusMinusOperator::Plus);
                },
                Rule::MINUS => {
                    operator = Some(PlusMinusOperator::Minus);
                },
                _ => {
                    return Err(fault_unexpected(n.rule, c));
                },
            }
            i += 1;
        }
        proof {
            lemma_children(*n);
        }
        match expression {
            None => Err(fault_missing(n.rule, n)),
            Some(expression) => Ok(AddOrSubtractExpression { expression, operations }),
        }
    }
}

impl MultiplyDivideModuloExpression {
    /// The elaboration of a `MultiplyDivideModuloExpression` node. The first
    /// operand stands alone; each later operand is paired with the `*`, `/` or `%`
    /// written before it, and the pairs keep their order. An operand that follows
    /// no operator replaces the first operand.
    pub open spec fn spec_parse(n: NodeView) -> Elaborated<MultiplyDivideModuloExpressionView>
        decreases n, n.children.len() + 1,
    {
        if n.rule != Rule::MultiplyDivideModuloExpression {
            Err(unexpected(Rule::MultiplyDivideModuloExpression, n))
        } else {
            Self::scan(n, 0, None, Seq::empty(), None)
        }
    }

    /// What [`MultiplyDivideModuloExpression::spec_parse`] yields once the children
    /// before position `i` have been taken in, with what was gathered from them.
    pub open spec fn scan(
        n: NodeView,
        i: int,
        expression: Option<PowerOfExpressionView>,
        operations: Seq<(MultiplyDivideModuloOperator, PowerOfExpressionView)>,
        operator: Option<MultiplyDivideModuloOperator>,
    ) -> Elaborated<MultiplyDivideModuloExpressionView>
        decreases n, n.children.len() - i,
    {
        if !(0 <= i < n.children.len()) {
            match expression {
                None => Err(missing(n.rule, n)),
                Some(expression) => Ok(
                    MultiplyDivideModuloExpressionView { expression, operations },
                ),
            }
        } else {
            let c = n.children[i];
            match c.rule {
                Rule::SP => Self::scan(n, i + 1, expression, operations, operator),
                Rule::PowerOfExpression => match PowerOfExpression::spec_parse(c) {
                    Err(e) => Err(e),
                    Ok(v) => match operator {
                        Some(op) => Self::scan(
                            n,
                            i + 1,
                            expression,
                            operations.push((op, v)),
                            None,
                        ),
                        None => Self::scan(n, i + 1, Some(v), operations, operator),
                    },
                },
                Rule::MULTIPLY => Self::scan(
                    n,
                    i + 1,
                    expression,
                    operations,
                    Some(MultiplyDivideModuloOperator::Multiply),
                ),
                Rule::DIVIDE => Self::scan(
                    n,
                    i + 1,
                    expression,
                    operations,
                    Some(MultiplyDivideModuloOperator::Divide),
                ),
                Rule::MODULO => Self::scan(
                    n,
                    i + 1,
                    expression,
                    operations,
                    Some(MultiplyDivideModuloOperator::Modulo),
                ),
                _ => Err(unexpected(n.rule, c)),
            }
        }
    }

    /// Elaborates a `MultiplyDivideModuloExpression` node. The first operand stands
    /// alone; each later operand is paired with the `*`, `/` or `%` written before
    /// it, and the pairs keep their order. An operand that follows no operator
    /// replaces the first operand.
    pub fn parse(n: &ParseNode) -> (r: Elaborated<MultiplyDivideModuloExpression>)
        ensures
            agrees(r, MultiplyDivideModuloExpression::spec_parse(n@)),
        decreases n,
    {
        match n.rule {
            Rule::MultiplyDivideModuloExpression => {},
            _ => {
                return Err(fault_unexpected(Rule::MultiplyDivideModuloExpression, n));
            },
        }
        let mut expression: Option<PowerOfExpression> = None;
        let mut operations: Vec<(MultiplyDivideModuloOperator, PowerOfExpression)> = Vec::new();
        let mut operator: Option<MultiplyDivideModuloOperator> = None;
        proof {
            assert(view_multiplications(operations@) =~= Seq::empty());
        }
        let mut i: usize = 0;
        while i < n.children.len()
            invariant
                i <= n.children.len(),
                MultiplyDivideModuloExpression::spec_parse(n@) == MultiplyDivideModuloExpression::scan(
                    n@,
                    i as int,
                    view_option(expression),
                    view_multiplications(operations@),
                    operator,
                ),
            decreases n.children.len() - i,
        {
            proof {
                lemma_children(*n);
            }
            let c = &n.children[i];
            match c.rule {
                Rule::SP => {},
                Rule::PowerOfExpression => match PowerOfExpression::parse(c) {
                    Err(e) => {
                        return Err(e);
                    },
                    Ok(v) => match operator {
                        Some(op) => {
                            let ghost before = operations@;
                            let ghost item = (op, v@);
                            operations.push((op, v));
                            operator = None;
                            assert(view_multiplications(operations@)
                                =~= view_multiplications(before).push(item));
                        },
                        None => {
                            expression = Some(v);
                        },
                    },
                },
                Rule::MULTIPLY => {
                    operator = Some(MultiplyDivideModuloOperator::Multiply);
                },
                Rule::DIVIDE => {
                    operator = Some(MultiplyDivideModuloOperator::Divide);
                },
                Rule::MODULO => {
                    operator = Some(MultiplyDivideModuloOperator::Modulo);
                },
                _ => {
                    return Err(fault_unexpected(n.rule, c));
                },
            }
            i += 1;
        }
        proof {
            lemma_children(*n);
        }
        match expression {
            None => Err(fault_missing(n.rule, n)),
            Some(expression) => Ok(MultiplyDivideModuloExpression { expression, operations }),
        }
    }
}

impl PowerOfExpression {
    /// The elaboration of a `PowerOfExpression` node: the operands of `^`, in the
    /// order written. The list is flat; whether `^` associates to the left or to
    /// the right is for its consumer to decide.
    pub open spec fn spec_parse(n: NodeView) -> Elaborated<PowerOfExpressionView>
        decreases n, n.children.len() + 1,
    {
        if n.rule != Rule::PowerOfExpression {
            Err(unexpected(Rule::PowerOfExpression, n))
        } else {
            Self::scan(n, 0, Seq::empty())
        }
    }

    /// What [`PowerOfExpression::spec_parse`] yields once the children before
    /// position `i` have been taken in, with what was gathered from them.
    pub open spec fn scan(
        n: NodeView,
        i: int,
        expressions: Seq<UnaryAddOrSubtractExpressionView>,
    ) -> Elaborated<PowerOfExpressionView>
        decreases n, n.children.len() - i,
    {
        if !(0 <= i < n.children.len()) {
            Ok(PowerOfExpressionView(expressions))
        } else {
            let c = n.children[i];
            match c.rule {
                Rule::SP | Rule::POW => Self::scan(n, i + 1, expressions),
                Rule::UnaryAddOrSubtractExpression => match UnaryAddOrSubtractExpression::spec_parse(c) {
                    Ok(v) => Self::scan(n, i + 1, expressions.push(v)),
                    Err(e) => Err(e),
                },
                _ => Err(unexpected(n.rule, c)),
            }
        }
    }

    /// Elaborates a `PowerOfExpression` node: the operands of `^`, in the order
    /// written. The list is flat; whether `^` associates to the left or to the
    /// right is for its consumer to decide.
    pub fn parse(n: &ParseNode) -> (r: Elaborated<PowerOfExpression>)
        ensures
            agrees(r, PowerOfExpression::spec_parse(n@)),
        decreases n,
    {
        match n.rule {
            Rule::PowerOfExpression => {},
            _ => {
                return Err(fault_unexpected(Rule::PowerOfExpression, n));
            },
        }
        let mut expressions: Vec<UnaryAddOrSubtractExpression> = Vec::new();
        proof {
            assert(view_unary_add_or_subtract_expression_seq(expressions@) =~= Seq::empty());
        }
        let mut i: usize = 0;
        while i < n.children.len()
            invariant
                i <= n.children.len(),
                PowerOfExpression::spec_parse(n@) == PowerOfExpression::scan(
                    n@,
                    i as int,
                    view_unary_add_or_subtract_expression_seq(expressions@),
                ),
            decreases n.children.len() - i,
        {
            proof {
                lemma_children(*n);
            }
            let c = &n.children[i];
            match c.rule {
                Rule::SP | Rule::POW => {},
                Rule::UnaryAddOrSubtractExpression => match UnaryAddOrSubtractExpression::parse(c) {
                    Ok(v) => {
                        let ghost before = expressions@;
                        let ghost item = v@;
                        expressions.push(v);
                        assert(view_unary_add_or_subtract_expression_seq(expressions@)
                            =~= view_unary_add_or_subtract_expression_seq(before).push(item));
                    },
                    Err(e) => {
                        return Err(e);
                    },
                },
                _ => {
                    return Err(fault_unexpected(n.rule, c));
                },
            }
            i += 1;
        }
        proof {
            lemma_children(*n);
        }
        Ok(PowerOfExpression(expressions))
    }
}

impl UnaryAddOrSubtractExpression {
    /// The elaboration of a `UnaryAddOrSubtractExpression` node. Each `-` before
    /// the operand flips the flag, so the operand is negated when their number is
    /// odd; a `+` changes nothing. The first `StringListNullOperatorExpression`
    /// child is the operand and ends the node.
    pub open spec fn spec_parse(n: NodeView) -> Elaborated<UnaryAddOrSubtractExpressionView>
        decreases n, n.children.len() + 1,
    {
        if n.rule != Rule::UnaryAddOrSubtractExpression {
            Err(unexpected(Rule::UnaryAddOrSubtractExpression, n))
        } else {
            Self::scan(n, 0, false)
        }
    }

    /// What [`UnaryAddOrSubtractExpression::spec_parse`] yields once the children
    /// before position `i` have been taken in, with what was gathered from them.
    pub open spec fn scan(
        n: NodeView,
        i: int,
        negate: bool,
    ) -> Elaborated<UnaryAddOrSubtractExpressionView>
        decreases n, n.children.len() - i,
    {
        if !(0 <= i < n.children.len()) {
            Err(missing(n.rule, n))
        } else {
            let c = n.children[i];
            match c.rule {
                Rule::SP => Self::scan(n, i + 1, negate),
                Rule::PLUS => Self::scan(n, i + 1, negate),
                Rule::MINUS => Self::scan(n, i + 1, !negate),
                Rule::StringListNullOperatorExpression => match StringListNullOperatorExpression::spec_parse(c) {
                    Ok(v) => Ok(UnaryAddOrSubtractExpressionView { negate, expression: v }),
                    Err(e) => Err(e),
                },
                _ => Err(unexpected(n.rule, c)),
            }
        }
    }

    /// Elaborates a `UnaryAddOrSubtractExpression` node. Each `-` before the
    /// operand flips the flag, so the operand is negated when their number is odd;
    /// a `+` changes nothing. The first `StringListNullOperatorExpression` child is
    /// the operand and ends the node.
    pub fn parse(n: &ParseNode) -> (r: Elaborated<UnaryAddOrSubtractExpression>)
        ensures
            agrees(r, UnaryAddOrSubtractExpression::spec_parse(n@)),
        decreases n,
    {
        match n.rule {
            Rule::UnaryAddOrSubtractExpression => {},
            _ => {
                return Err(fault_unexpected(Rule::UnaryAddOrSubtractExpression, n));
            },
        }
        let mut negate: bool = false;
        let mut i: usize = 0;
        while i < n.children.len()
            invariant
                i <= n.children.len(),
                UnaryAddOrSubtractExpression::spec_parse(n@) == UnaryAddOrSubtractExpression::scan(
                    n@,
                    i as int,
                    negate,
                ),
            decreases n.children.len() - i,
        {
            proof {
                lemma_children(*n);
            }
            let c = &n.children[i];
            match c.rule {
                Rule::SP => {},
                Rule::PLUS => {},
                Rule::MINUS => {
                    negate = !negate;
                },
                Rule::StringListNullOperatorExpression => {
                    return match StringListNullOperatorExpression::parse(c) {
                        Ok(v) => Ok(UnaryAddOrSubtractExpression { negate, expression: v }),
                        Err(e) => Err(e),
                    };
                },
                _ => {
                    return Err(fault_unexpected(n.rule, c));
                },
            }
            i += 1;
        }
        proof {
            lemma_children(*n);
        }
        Err(fault_missing(n.rule, n))
    }
}

impl StringListNullOperatorExpression {
    /// The elaboration of a `StringListNullOperatorExpression` node: the operand,
    /// which is required, and the string, list and null tests applied to it, in the
    /// order written.
    pub open spec fn spec_parse(n: NodeView) -> Elaborated<StringListNullOperatorExpressionView>
        decreases n, n.children.len() + 1,
    {
        if n.rule != Rule::StringListNullOperatorExpression {
            Err(unexpected(Rule::StringListNullOperatorExpression, n))
        } else {
            Self::scan(n, 0, None, Seq::empty())
        }
    }

    /// What [`StringListNullOperatorExpression::spec_parse`] yields once the
    /// children before position `i` have been taken in, with what was gathered from
    /// them.
    pub open spec fn scan(
        n: NodeView,
        i: int,
        expression: Option<PropertyOrLabelsExpressionView>,
        operations: Seq<StringListNullOperatorExpressionInnerView>,
    ) -> Elaborated<StringListNullOperatorExpressionView>
        decreases n, n.children.len() - i,
    {
        if !(0 <= i < n.children.len()) {
            match expression {
                None => Err(missing(n.rule, n)),
                Some(expression) => Ok(
                    StringListNullOperatorExpressionView { expression, operations },
                ),
            }
        } else {
            let c = n.children[i];
            match c.rule {
                Rule::PropertyOrLabelsExpression => match PropertyOrLabelsExpression::spec_parse(c) {
                    Ok(v) => Self::scan(n, i + 1, Some(v), operations),
                    Err(e) => Err(e),
                },
                Rule::StringOperatorExpression => match StringOperatorExpression::spec_parse(c) {
                    Ok(v) => Self::scan(
                        n,
                        i + 1,
                        expression,
                        operations.push(
                            StringListNullOperatorExpressionInnerView::StringOperator(v),
                        ),
                    ),
                    Err(e) => Err(e),
                },
                Rule::ListOperatorExpression => match ListOperatorExpression::spec_parse(c) {
                    Ok(v) => Self::scan(
                        n,
                        i + 1,
                        expression,
                        operations.push(StringListNullOperatorExpressionInnerView::ListOperator(v)),
                    ),
                    Err(e) => Err(e),
                },
                Rule::NullOperatorExpression => match NullOperatorExpression::spec_parse(c) {
                    Ok(v) => Self::scan(
                        n,
                        i + 1,
                        expression,
                        operations.push(StringListNullOperatorExpressionInnerView::NullOperator(v)),
                    ),
                    Err(e) => Err(e),
                },
                _ => Err(unexpected(n.rule, c)),
            }
        }
    }

    /// Elaborates a `StringListNullOperatorExpression` node: the operand, which is
    /// required, and the string, list and null tests applied to it, in the order
    /// written.
    pub fn parse(n: &ParseNode) -> (r: Elaborated<StringListNullOperatorExpression>)
        ensures
            agrees(r, StringListNullOperatorExpression::spec_parse(n@)),
        decreases n,
    {
        match n.rule {
            Rule::StringListNullOperatorExpression => {},
            _ => {
                return Err(fault_unexpected(Rule::StringListNullOperatorExpression, n));
            },
        }
        let mut expression: Option<PropertyOrLabelsExpression> = None;
        let mut operations: Vec<StringListNullOperatorExpressionInner> = Vec::new();
        proof {
            assert(view_string_list_null_operator_expression_inner_seq(operations@)
                =~= Seq::empty());
        }
        let mut i: usize = 0;
        while i < n.children.len()
            invariant
                i <= n.children.len(),
                StringListNullOperatorExpression::spec_parse(n@) == StringListNullOperatorExpression::scan(
                    n@,
                    i as int,
                    view_option(expression),
                    view_string_list_null_operator_expression_inner_seq(operations@),
                ),
            decreases n.children.len() - i,
        {
            proof {
                lemma_children(*n);
            }
            let c = &n.children[i];
            match c.rule {
                Rule::PropertyOrLabelsExpression => match PropertyOrLabelsExpression::parse(c) {
                    Ok(v) => {
                        expression = Some(v);
                    },
                    Err(e) => {
                        return Err(e);
                    },
                },
                Rule::StringOperatorExpression => match StringOperatorExpression::parse(c) {
                    Ok(v) => {
                        let ghost before = operations@;
                        let ghost item = StringListNullOperatorExpressionInnerView::StringOperator(
                            v@,
                        );
                        operations.push(StringListNullOperatorExpressionInner::StringOperator(v));
                        assert(view_string_list_null_operator_expression_inner_seq(operations@)
                            =~= view_string_list_null_operator_expression_inner_seq(before).push(item));
                    },
                    Err(e) => {
                        return Err(e);
                    },
                },
                Rule::ListOperatorExpression => match ListOperatorExpression::parse(c) {
                    Ok(v) => {
                        let ghost before = operations@;
                        let ghost item = StringListNullOperatorExpressionInnerView::ListOperator(
                            v@,
                        );
                        operations.push(StringListNullOperatorExpressionInner::ListOperator(v));
                        assert(view_string_list_null_operator_expression_inner_seq(operations@)
                            =~= view_string_list_null_operator_expression_inner_seq(before).push(item));
                    },
                    Err(e) => {
                        return Err(e);
                    },
                },
                Rule::NullOperatorExpression => match NullOperatorExpression::parse(c) {
                    Ok(v) => {
                        let ghost before = operations@;
                        let ghost item = StringListNullOperatorExpressionInnerView::NullOperator(v);
                        operations.push(StringListNullOperatorExpressionInner::NullOperator(v));
                        assert(view_string_list_null_operator_expression_inner_seq(operations@)
                            =~= view_string_list_null_operator_expression_inner_seq(before).push(item));
                    },
                    Err(e) => {
                        return Err(e);
                    },
                },
                _ => {
                    return Err(fault_unexpected(n.rule, c));
                },
            }
            i += 1;
        }
        proof {
            lemma_children(*n);
        }
        match expression {
            None => Err(fault_missing(n.rule, n)),
            Some(expression) => Ok(StringListNullOperatorExpression { expression, operations }),
        }
    }
}

impl PropertyExpression {
    /// The elaboration of a `PropertyExpression` node: an atom and the property
    /// path looked up on it. Both are required.
    pub open spec fn spec_parse(n: NodeView) -> Elaborated<PropertyExpressionView>
        decreases n, n.children.len() + 1,
    {
        if n.rule != Rule::PropertyExpression {
            Err(unexpected(Rule::PropertyExpression, n))
        } else {
            Self::scan(n, 0, None, None)
        }
    }

    /// What [`PropertyExpression::spec_parse`] yields once the children before
    /// position `i` have been taken in, with what was gathered from them.
    pub open spec fn scan(
        n: NodeView,
        i: int,
        atom: Option<AtomView>,
        property_lookup: Option<Seq<Seq<char>>>,
    ) -> Elaborated<PropertyExpressionView>
        decreases n, n.children.len() - i,
    {
        if !(0 <= i < n.children.len()) {
            match atom {
                None => Err(missing(n.rule, n)),
                Some(atom) => match property_lookup {
                    None => Err(missing(n.rule, n)),
                    Some(property_lookup) => Ok(
                        PropertyExpressionView { atom, property_path: property_lookup },
                    ),
                },
            }
        } else {
            let c = n.children[i];
            match c.rule {
                Rule::Atom => match Atom::spec_parse(c) {
                    Ok(v) => Self::scan(n, i + 1, Some(v), property_lookup),
                    Err(e) => Err(e),
                },
                Rule::PropertyLookup => match spec_parse_property_lookup(c) {
                    Ok(v) => Self::scan(n, i + 1, atom, Some(v)),
                    Err(e) => Err(e),
                },
                Rule::SP => Self::scan(n, i + 1, atom, property_lookup),
                _ => Err(unexpected(n.rule, c)),
            }
        }
    }

    /// Elaborates a `PropertyExpression` node: an atom and the property path looked
    /// up on it. Both are required.
    pub fn parse(n: &ParseNode) -> (r: Elaborated<PropertyExpression>)
        ensures
            agrees(r, PropertyExpression::spec_parse(n@)),
        decreases n,
    {
        match n.rule {
            Rule::PropertyExpression => {},
            _ => {
                return Err(fault_unexpected(Rule::PropertyExpression, n));
            },
        }
        let mut atom: Option<Atom> = None;
        let mut property_lookup: Option<Vec<String>> = None;
        let mut i: usize = 0;
        while i < n.children.len()
            invariant
                i <= n.children.len(),
                PropertyExpression::spec_parse(n@) == PropertyExpression::scan(
                    n@,
                    i as int,
                    view_option(atom),
                    view_option_strings(property_lookup),
                ),
            decreases n.children.len() - i,
        {
            proof {
                lemma_children(*n);
            }
            let c = &n.children[i];
            match c.rule {
                Rule::Atom => match Atom::parse(c) {
                    Ok(v) => {
                        atom = Some(v);
                    },
                    Err(e) => {
                        return Err(e);
                    },
                },
                Rule::PropertyLookup => match parse_property_lookup(c) {
                    Ok(v) => {
                        property_lookup = Some(v);
                    },
                    Err(e) => {
                        return Err(e);
                    },
                },
                Rule::SP => {},
                _ => {
                    return Err(fault_unexpected(n.rule, c));
                },
            }
            i += 1;
        }
        proof {
            lemma_children(*n);
        }
        match atom {
            None => Err(fault_missing(n.rule, n)),
            Some(atom) => match property_lookup {
                None => Err(fault_missing(n.rule, n)),
                Some(property_lookup) => Ok(
                    PropertyExpression { atom, property_path: property_lookup },
                ),
            },
        }
    }
}

impl PropertyOrLabelsExpression {
    /// The elaboration of a `PropertyOrLabelsExpression` node: the atom, which is
    /// required, the property path of its `PropertyLookup` child and the labels of
    /// its `NodeLabels` child (each empty without that child).
    pub open spec fn spec_parse(n: NodeView) -> Elaborated<PropertyOrLabelsExpressionView>
        decreases n, n.children.len() + 1,
    {
        if n.rule != Rule::PropertyOrLabelsExpression {
            Err(unexpected(Rule::PropertyOrLabelsExpression, n))
        } else {
            Self::scan(n, 0, None, Seq::empty(), Seq::empty())
        }
    }

    /// What [`PropertyOrLabelsExpression::spec_parse`] yields once the children
    /// before position `i` have been taken in, with what was gathered from them.
    pub open spec fn scan(
        n: NodeView,
        i: int,
        atom: Option<AtomView>,
        property_lookup: Seq<Seq<char>>,
        node_labels: Seq<Seq<char>>,
    ) -> Elaborated<PropertyOrLabelsExpressionView>
        decreases n, n.children.len() - i,
    {
        if !(0 <= i < n.children.len()) {
            match atom {
                None => Err(missing(n.rule, n)),
                Some(atom) => Ok(
                    PropertyOrLabelsExpressionView { atom, property_lookup, node_labels },
                ),
            }
        } else {
            let c = n.children[i];
            match c.rule {
                Rule::Atom => match Atom::spec_parse(c) {
                    Ok(v) => Self::scan(n, i + 1, Some(v), property_lookup, node_labels),
                    Err(e) => Err(e),
                },
                Rule::PropertyLookup => match spec_parse_property_lookup(c) {
                    Ok(v) => Self::scan(n, i + 1, atom, v, node_labels),
                    Err(e) => Err(e),
                },
                Rule::NodeLabels => match spec_parse_node_labels(c) {
                    Ok(v) => Self::scan(n, i + 1, atom, property_lookup, v),
                    Err(e) => Err(e),
                },
                Rule::SP => Self::scan(n, i + 1, atom, property_lookup, node_labels),
                _ => Err(unexpected(n.rule, c)),
            }
        }
    }

    /// Elaborates a `PropertyOrLabelsExpression` node: the atom, which is required,
    /// the property path of its `PropertyLookup` child and the labels of its
    /// `NodeLabels` child (each empty without that child).
    pub fn parse(n: &ParseNode) -> (r: Elaborated<PropertyOrLabelsExpression>)
        ensures
            agrees(r, PropertyOrLabelsExpression::spec_parse(n@)),
        decreases n,
    {
        match n.rule {
            Rule::PropertyOrLabelsExpression => {},
            _ => {
                return Err(fault_unexpected(Rule::PropertyOrLabelsExpression, n));
            },
        }
        let mut atom: Option<Atom> = None;
        let mut property_lookup: Vec<String> = Vec::new();
        let mut node_labels: Vec<String> = Vec::new();
        proof {
            assert(view_strings(property_lookup@) =~= Seq::empty());
            assert(view_strings(node_labels@) =~= Seq::empty());
        }
        let mut i: usize = 0;
        while i < n.children.len()
            invariant
                i <= n.children.len(),
                PropertyOrLabelsExpression::spec_parse(n@) == PropertyOrLabelsExpression::scan(
                    n@,
                    i as int,
                    view_option(atom),
                    view_strings(property_lookup@),
                    view_strings(node_labels@),
                ),
            decreases n.children.len() - i,
        {
            proof {
                lemma_children(*n);
            }
            let c = &n.children[i];
            match c.rule {
                Rule::Atom => match Atom::parse(c) {
                    Ok(v) => {
                        atom = Some(v);
                    },
                    Err(e) => {
                        return Err(e);
                    },
                },
                Rule::PropertyLookup => match parse_property_lookup(c) {
                    Ok(v) => {
                        property_lookup = v;
                    },
                    Err(e) => {
                        return Err(e);
                    },
                },
                Rule::NodeLabels => match parse_node_labels(c) {
                    Ok(v) => {
                        node_labels = v;
                    },
                    Err(e) => {
                        return Err(e);
                    },
                },
                Rule::SP => {},
                _ => {
                    return Err(fault_unexpected(n.rule, c));
                },
            }
            i += 1;
        }
        proof {
            lemma_children(*n);
        }
        match atom {
            None => Err(fault_missing(n.rule, n)),
            Some(atom) => Ok(PropertyOrLabelsExpression { atom, property_lookup, node_labels }),
        }
    }
}

/// The elaboration of a `PropertyLookup` node: the texts of its
/// `PropertyKeyName` children, in order.
pub open spec fn spec_parse_property_lookup(n: NodeView) -> Elaborated<Seq<Seq<char>>>
    decreases n, n.children.len() + 1,
{
    if n.rule != Rule::PropertyLookup {
        Err(unexpected(Rule::PropertyLookup, n))
    } else {
        scan_property_lookup(n, 0, Seq::empty())
    }
}

/// What [`spec_parse_property_lookup`] yields once the children before position
/// `i` have been taken in, with what was gathered from them.
pub open spec fn scan_property_lookup(
    n: NodeView,
    i: int,
    property_lookup: Seq<Seq<char>>,
) -> Elaborated<Seq<Seq<char>>>
    decreases n, n.children.len() - i,
{
    if !(0 <= i < n.children.len()) {
        Ok(property_lookup)
    } else {
        let c = n.children[i];
        match c.rule {
            Rule::PropertyKeyName => scan_property_lookup(n, i + 1, property_lookup.push(c.text)),
            Rule::SP => scan_property_lookup(n, i + 1, property_lookup),
            _ => Err(unexpected(n.rule, c)),
        }
    }
}

/// Elaborates a `PropertyLookup` node: the texts of its `PropertyKeyName`
/// children, in order.
pub fn parse_property_lookup(n: &ParseNode) -> (r: Elaborated<Vec<String>>)
    ensures
        agrees_by(r, spec_parse_property_lookup(n@), |v: Vec<String>| view_strings(v@)),
    decreases n,
{
    match n.rule {
        Rule::PropertyLookup => {},
        _ => {
            return Err(fault_unexpected(Rule::PropertyLookup, n));
        },
    }
    let mut property_lookup: Vec<String> = Vec::new();
    proof {
        assert(view_strings(property_lookup@) =~= Seq::empty());
    }
    let mut i: usize = 0;
    while i < n.children.len()
        invariant
            i <= n.children.len(),
            spec_parse_property_lookup(n@) == scan_property_lookup(
                n@,
                i as int,
                view_strings(property_lookup@),
            ),
        decreases n.children.len() - i,
    {
        proof {
            lemma_children(*n);
        }
        let c = &n.children[i];
        match c.rule {
            Rule::PropertyKeyName => {
                let ghost before = property_lookup@;
                property_lookup.push(c.text.clone());
                assert(view_strings(property_lookup@) =~= view_strings(before).push(c.text@));
            },
            Rule::SP => {},
            _ => {
                return Err(fault_unexpected(n.rule, c));
            },
        }
        i += 1;
    }
    proof {
        lemma_children(*n);
    }
    Ok(property_lookup)
}

impl StringOperatorExpression {
    /// The elaboration of a `StringOperatorExpression` node: the test named by
    /// `STARTS`, `ENDS` or `CONTAINS`, which must come first, and its right-hand
    /// side.
    pub open spec fn spec_parse(n: NodeView) -> Elaborated<StringOperatorExpressionView>
        decreases n, n.children.len() + 1,
    {
        if n.rule != Rule::StringOperatorExpression {
            Err(unexpected(Rule::StringOperatorExpression, n))
        } else {
            Self::scan(n, 0, None)
        }
    }

    /// What [`StringOperatorExpression::spec_parse`] yields once the children
    /// before position `i` have been taken in, with what was gathered from them.
    pub open spec fn scan(
        n: NodeView,
        i: int,
        operator: Option<StringOperator>,
    ) -> Elaborated<StringOperatorExpressionView>
        decreases n, n.children.len() - i,
    {
        if !(0 <= i < n.children.len()) {
            Err(missing(n.rule, n))
        } else {
            let c = n.children[i];
            match c.rule {
                Rule::SP | Rule::WITH => Self::scan(n, i + 1, operator),
                Rule::STARTS => Self::scan(n, i + 1, Some(StringOperator::StartsWith)),
                Rule::ENDS => Self::scan(n, i + 1, Some(StringOperator::EndsWith)),
                Rule::CONTAINS => Self::scan(n, i + 1, Some(StringOperator::Contains)),
                Rule::PropertyOrLabelsExpression => match operator {
                    None => Err(missing(n.rule, n)),
                    Some(operator) => match PropertyOrLabelsExpression::spec_parse(c) {
                        Ok(v) => Ok(StringOperatorExpressionView { operator, expression: v }),
                        Err(e) => Err(e),
                    },
                },
                _ => Err(unexpected(n.rule, c)),
            }
        }
    }

    /// Elaborates a `StringOperatorExpression` node: the test named by `STARTS`,
    /// `ENDS` or `CONTAINS`, which must come first, and its right-hand side.
    pub fn parse(n: &ParseNode) -> (r: Elaborated<StringOperatorExpression>)
        ensures
            agrees(r, StringOperatorExpression::spec_parse(n@)),
        decreases n,
    {
        match n.rule {
            Rule::StringOperatorExpression => {},
            _ => {
                return Err(fault_unexpected(Rule::StringOperatorExpression, n));
            },
        }
        let mut operator: Option<StringOperator> = None;
        let mut i: usize = 0;
        while i < n.children.len()
            invariant
                i <= n.children.len(),
                StringOperatorExpression::spec_parse(n@) == StringOperatorExpression::scan(
                    n@,
                    i as int,
                    operator,
                ),
            decreases n.children.len() - i,
        {
            proof {
                lemma_children(*n);
            }
            let c = &n.children[i];
            match c.rule {
                Rule::SP | Rule::WITH => {},
                Rule::STARTS => {
                    operator = Some(StringOperator::StartsWith);
                },
                Rule::ENDS => {
                    operator = Some(StringOperator::EndsWith);
                },
                Rule::CONTAINS => {
                    operator = Some(StringOperator::Contains);
                },
                Rule::PropertyOrLabelsExpression => {
                    return match operator {
                        None => Err(fault_missing(n.rule, n)),
                        Some(operator) => match PropertyOrLabelsExpression::parse(c) {
                            Ok(v) => Ok(StringOperatorExpression { operator, expression: v }),
                            Err(e) => Err(e),
                        },
                    };
                },
                _ => {
                    return Err(fault_unexpected(n.rule, c));
                },
            }
            i += 1;
        }
        proof {
            lemma_children(*n);
        }
        Err(fault_missing(n.rule, n))
    }
}

impl ListOperatorExpression {
    /// The elaboration of a `ListOperatorExpression` node. A
    /// `PropertyOrLabelsExpression` child makes it a membership test. Otherwise an
    /// expression before `..` is the lower bound and one after it the upper bound
    /// of a range, either of which may be absent; without `..` the one expression
    /// is an index.
    pub open spec fn spec_parse(n: NodeView) -> Elaborated<ListOperatorExpressionView>
        decreases n, n.children.len() + 1,
    {
        if n.rule != Rule::ListOperatorExpression {
            Err(unexpected(Rule::ListOperatorExpression, n))
        } else {
            Self::scan(n, 0, false, None)
        }
    }

    /// What [`ListOperatorExpression::spec_parse`] yields once the children before
    /// position `i` have been taken in, with what was gathered from them.
    pub open spec fn scan(
        n: NodeView,
        i: int,
        is_range: bool,
        range_start: Option<ExpressionView>,
    ) -> Elaborated<ListOperatorExpressionView>
        decreases n, n.children.len() - i,
    {
        if !(0 <= i < n.children.len()) {
            if is_range {
                Ok(ListOperatorExpressionView::Range(range_start, None))
            } else {
                match range_start {
                    None => Err(missing(n.rule, n)),
                    Some(index) => Ok(ListOperatorExpressionView::Index(index)),
                }
            }
        } else {
            let c = n.children[i];
            match c.rule {
                Rule::SP | Rule::IN => Self::scan(n, i + 1, is_range, range_start),
                Rule::DOT_DOT => Self::scan(n, i + 1, true, range_start),
                Rule::PropertyOrLabelsExpression => match PropertyOrLabelsExpression::spec_parse(c) {
                    Ok(v) => Ok(ListOperatorExpressionView::In(v)),
                    Err(e) => Err(e),
                },
                Rule::Expression => match Expression::spec_parse(c) {
                    Err(e) => Err(e),
                    Ok(v) => if is_range {
                        Ok(ListOperatorExpressionView::Range(range_start, Some(v)))
                    } else {
                        Self::scan(n, i + 1, is_range, Some(v))
                    },
                },
                _ => Err(unexpected(n.rule, c)),
            }
        }
    }

    /// Elaborates a `ListOperatorExpression` node. A `PropertyOrLabelsExpression`
    /// child makes it a membership test. Otherwise an expression before `..` is the
    /// lower bound and one after it the upper bound of a range, either of which may
    /// be absent; without `..` the one expression is an index.
    pub fn parse(n: &ParseNode) -> (r: Elaborated<ListOperatorExpression>)
        ensures
            agrees(r, ListOperatorExpression::spec_parse(n@)),
        decreases n,
    {
        match n.rule {
            Rule::ListOperatorExpression => {},
            _ => {
                return Err(fault_unexpected(Rule::ListOperatorExpression, n));
            },
        }
        let mut is_range: bool = false;
        let mut range_start: Option<Expression> = None;
        let mut i: usize = 0;
        while i < n.children.len()
            invariant
                i <= n.children.len(),
                ListOperatorExpression::spec_parse(n@) == ListOperatorExpression::scan(
                    n@,
                    i as int,
                    is_range,
                    view_option(range_start),
                ),
            decreases n.children.len() - i,
        {
            proof {
                lemma_children(*n);
            }
            let c = &n.children[i];
            match c.rule {
                Rule::SP | Rule::IN => {},
                Rule::DOT_DOT => {
                    is_range = true;
                },
                Rule::PropertyOrLabelsExpression => {
                    return match PropertyOrLabelsExpression::parse(c) {
                        Ok(v) => Ok(ListOperatorExpression::In(v)),
                        Err(e) => Err(e),
                    };
                },
                Rule::Expression => match Expression::parse(c) {
                    Err(e) => {
                        return Err(e);
                    },
                    Ok(v) => {
                        if is_range {
                            return Ok(ListOperatorExpression::Range(range_start, Some(v)));
                        }
                        range_start = Some(v);
                    },
                },
                _ => {
                    return Err(fault_unexpected(n.rule, c));
                },
            }
            i += 1;
        }
        proof {
            lemma_children(*n);
        }
        if is_range {
            Ok(ListOperatorExpression::Range(range_start, None))
        } else {
            match range_start {
                None => Err(fault_missing(n.rule, n)),
                Some(index) => Ok(ListOperatorExpression::Index(index)),
            }
        }
    }
}

impl NullOperatorExpression {
    /// The elaboration of a `NullOperatorExpression` node: `IS NULL`, with the flag
    /// set when a `NOT` is among the children.
    pub open spec fn spec_parse(n: NodeView) -> Elaborated<NullOperatorExpression>
        decreases n, n.children.len() + 1,
    {
        if n.rule != Rule::NullOperatorExpression {
            Err(unexpected(Rule::NullOperatorExpression, n))
        } else {
            Self::scan(n, 0, false)
        }
    }

    /// What [`NullOperatorExpression::spec_parse`] yields once the children before
    /// position `i` have been taken in, with what was gathered from them.
    pub open spec fn scan(n: NodeView, i: int, not: bool) -> Elaborated<NullOperatorExpression>
        decreases n, n.children.len() - i,
    {
        if !(0 <= i < n.children.len()) {
            Ok(NullOperatorExpression { not })
        } else {
            let c = n.children[i];
            match c.rule {
                Rule::NOT => Self::scan(n, i + 1, true),
                Rule::SP | Rule::IS | Rule::NULL => Self::scan(n, i + 1, not),
                _ => Err(unexpected(n.rule, c)),
            }
        }
    }

    /// Elaborates a `NullOperatorExpression` node: `IS NULL`, with the flag set
    /// when a `NOT` is among the children.
    pub fn parse(n: &ParseNode) -> (r: Elaborated<NullOperatorExpression>)
        ensures
            agrees_by(r, NullOperatorExpression::spec_parse(n@), |v: NullOperatorExpression| v),
        decreases n,
    {
        match n.rule {
            Rule::NullOperatorExpression => {},
            _ => {
                return Err(fault_unexpected(Rule::NullOperatorExpression, n));
            },
        }
        let mut not: bool = false;
        let mut i: usize = 0;
        while i < n.children.len()
            invariant
                i <= n.children.len(),
                NullOperatorExpression::spec_parse(n@) == NullOperatorExpression::scan(
                    n@,
                    i as int,
                    not,
                ),
            decreases n.children.len() - i,
        {
            proof {
                lemma_children(*n);
            }
            let c = &n.children[i];
            match c.rule {
                Rule::NOT => {
                    not = true;
                },
                Rule::SP | Rule::IS | Rule::NULL => {},
                _ => {
                    return Err(fault_unexpected(n.rule, c));
                },
            }
            i += 1;
        }
        proof {
            lemma_children(*n);
        }
        Ok(NullOperatorExpression { not })
    }
}

} // verus!
