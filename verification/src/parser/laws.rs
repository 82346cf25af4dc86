//! What holds of elaboration whatever the parse tree: statements that relate
//! the elaborators to the shape of the tree, each proved from their
//! definitions.

use vstd::prelude::*;

use crate::ast::cypher::{
    AddOrSubtractExpression, AndExpression, ComparisonExpression, ComparisonOperator,
    Expression, Limit, Match, Merge, MergeAction, MultiPartQuery,
    MultiplyDivideModuloExpression, MultiplyDivideModuloOperator, NodePattern, NotExpression,
    OrExpression, Order, Pattern, PatternElement, PatternPart, PlusMinusOperator,
    PowerOfExpression, ProjectionBody, ProjectionItems, Query, ReadingClause, Skip,
    StringListNullOperatorExpression, UnaryAddOrSubtractExpression, UpdatingClause, With,
    XorExpression,
};
use crate::ast::model::{
    AddOrSubtractExpressionView, AndExpressionView, ComparisonExpressionView, ExpressionView,
    LimitView, MergeActionView, MergeView, MultiPartQueryPartView,
    MultiplyDivideModuloExpressionView, NodePatternView, NotExpressionView, OrderView,
    PatternElementView, PatternPartView, PatternView, PowerOfExpressionView,
    ProjectionItemsView, QueryView, ReadingClauseView, RelationshipPatternView, SkipView,
    StringListNullOperatorExpressionView, UnaryAddOrSubtractExpressionView, UpdatingClauseView,
    XorExpressionView,
};
use crate::ast::property_map::PropertyMapView;
use crate::error::{ElaborationError, ParseError, SyntaxError};
use crate::parser::clause::spec_parse_where;
use crate::parser::cypher::{parse_returns, view_matched};
use crate::parser::expression::{
    scan_or_operands, spec_parse_or_operands, spec_parse_partial_comparison,
};
use crate::parser::literal::{
    scan_list_literal, scan_map_literal, spec_parse_list_literal, spec_parse_map_literal,
};
use crate::parser::pattern::spec_parse_pattern_element_chain;
use crate::parser::cypher;
use crate::tree::{NodeView, ParseNode, Rule};

verus! {

/// Elaboration is repeatable. Two results of parsing, for outcomes of
/// matching that have the same value, are structurally equal: both are
/// queries with the same value, or both are the same error.
pub proof fn lemma_parse_is_repeatable(
    first: Result<ParseNode, SyntaxError>,
    second: Result<ParseNode, SyntaxError>,
    r1: Result<Query, ParseError>,
    r2: Result<Query, ParseError>,
)
    requires
        view_matched(first) == view_matched(second),
        parse_returns(first, r1),
        parse_returns(second, r2),
    ensures
        match (r1, r2) {
            (Ok(q1), Ok(q2)) => q1@ == q2@,
            (Err(e1), Err(e2)) => e1 == e2,
            _ => false,
        },
{
}

/// Syntax errors come from the grammar engine and from nowhere else. A text
/// that does not match is reported as a syntax error with the very rule and
/// span the engine gave, never as an internal fault; and a tree, whatever its
/// shape, is never reported as a syntax error.
pub proof fn lemma_syntax_errors_come_from_the_grammar(matched: Result<NodeView, SyntaxError>)
    ensures
        matched matches Err(e) ==> cypher::spec_parse(matched) == Err::<QueryView, ParseError>(
            ParseError::Syntax(e),
        ),
        matched is Ok ==> !(cypher::spec_parse(matched) matches Err(ParseError::Syntax(_))),
{
}

/// The number of nodes with the given rule among `cs[from..to]`.
pub open spec fn count_rule(cs: Seq<NodeView>, rule: Rule, from: int, to: int) -> nat
    decreases to - from,
{
    if from >= to || !(0 <= from < cs.len()) {
        0
    } else if cs[from].rule == rule {
        1 + count_rule(cs, rule, from + 1, to)
    } else {
        count_rule(cs, rule, from + 1, to)
    }
}

/// The position of the first node with the given rule at or after `from`, or
/// the length of `cs` when there is none.
pub open spec fn first_with_rule(cs: Seq<NodeView>, rule: Rule, from: int) -> int
    decreases cs.len() - from,
{
    if !(0 <= from < cs.len()) {
        cs.len() as int
    } else if cs[from].rule == rule {
        from
    } else {
        first_with_rule(cs, rule, from + 1)
    }
}

/// Whether some node of `cs` has the given rule.
pub open spec fn has_rule(cs: Seq<NodeView>, rule: Rule) -> bool {
    exists|k: int| 0 <= k < cs.len() && (#[trigger] cs[k]).rule == rule
}

/// Whether every node of `nodes` has one of the given rules.
pub open spec fn each_rule_in(nodes: Seq<NodeView>, rules: Set<Rule>) -> bool {
    forall|k: int| 0 <= k < nodes.len() ==> rules.contains((#[trigger] nodes[k]).rule)
}

proof fn lemma_unary_scan(n: NodeView, i: int, negate: bool)
    requires
        0 <= i <= n.children.len(),
        UnaryAddOrSubtractExpression::scan(n, i, negate) is Ok,
    ensures
        ({
            let operand = first_with_rule(n.children, Rule::StringListNullOperatorExpression, i);
            let v = UnaryAddOrSubtractExpression::scan(n, i, negate)->Ok_0;
            &&& i <= operand < n.children.len()
            &&& v.negate == (negate != (count_rule(n.children, Rule::MINUS, i, operand) % 2 == 1))
            &&& StringListNullOperatorExpression::spec_parse(n.children[operand]) == Ok::<
                StringListNullOperatorExpressionView,
                ElaborationError,
            >(v.expression)
        }),
    decreases n.children.len() - i,
{
    let cs = n.children;
    let operand = first_with_rule(cs, Rule::StringListNullOperatorExpression, i);
    if i < cs.len() {
        let c = cs[i];
        if c.rule == Rule::StringListNullOperatorExpression {
            assert(operand == i);
            assert(count_rule(cs, Rule::MINUS, i, i) == 0);
        } else if c.rule == Rule::MINUS {
            lemma_unary_scan(n, i + 1, !negate);
            assert(operand == first_with_rule(cs, Rule::StringListNullOperatorExpression, i + 1));
            assert(count_rule(cs, Rule::MINUS, i, operand)
                == 1 + count_rule(cs, Rule::MINUS, i + 1, operand));
        } else if c.rule == Rule::SP || c.rule == Rule::PLUS {
            lemma_unary_scan(n, i + 1, negate);
            assert(operand == first_with_rule(cs, Rule::StringListNullOperatorExpression, i + 1));
            assert(count_rule(cs, Rule::MINUS, i, operand)
                == count_rule(cs, Rule::MINUS, i + 1, operand));
        }
    }
}

/// Sign parity. Where a `UnaryAddOrSubtractExpression` node elaborates, its
/// operand is the first `StringListNullOperatorExpression` child, and the
/// result is negated exactly when the number of `-` children before that
/// operand is odd. A `+` never counts.
pub proof fn lemma_unary_sign_is_parity(n: NodeView)
    requires
        UnaryAddOrSubtractExpression::spec_parse(n) is Ok,
    ensures
        ({
            let operand = first_with_rule(n.children, Rule::StringListNullOperatorExpression, 0);
            let v = UnaryAddOrSubtractExpression::spec_parse(n)->Ok_0;
            &&& 0 <= operand < n.children.len()
            &&& v.negate == (count_rule(n.children, Rule::MINUS, 0, operand) % 2 == 1)
            &&& StringListNullOperatorExpression::spec_parse(n.children[operand]) == Ok::<
                StringListNullOperatorExpressionView,
                ElaborationError,
            >(v.expression)
        }),
{
    lemma_unary_scan(n, 0, false);
}

proof fn lemma_not_scan(
    n: NodeView,
    i: int,
    not: bool,
    expression: Option<ComparisonExpressionView>,
)
    requires
        0 <= i <= n.children.len(),
        NotExpression::scan(n, i, not, expression) is Ok,
    ensures
        NotExpression::scan(n, i, not, expression)->Ok_0.not == (not != (count_rule(
            n.children,
            Rule::NOT,
            i,
            n.children.len() as int,
        ) % 2 == 1)),
    decreases n.children.len() - i,
{
    let cs = n.children;
    let len = cs.len() as int;
    if i < len {
        let c = cs[i];
        if c.rule == Rule::NOT {
            lemma_not_scan(n, i + 1, !not, expression);
            assert(count_rule(cs, Rule::NOT, i, len) == 1 + count_rule(cs, Rule::NOT, i + 1, len));
        } else if c.rule == Rule::ComparisonExpression {
            match ComparisonExpression::spec_parse(c) {
                Ok(v) => {
                    lemma_not_scan(n, i + 1, not, Some(v));
                },
                Err(_) => {},
            }
            assert(count_rule(cs, Rule::NOT, i, len) == count_rule(cs, Rule::NOT, i + 1, len));
        } else if c.rule == Rule::SP {
            lemma_not_scan(n, i + 1, not, expression);
            assert(count_rule(cs, Rule::NOT, i, len) == count_rule(cs, Rule::NOT, i + 1, len));
        }
    } else {
        assert(count_rule(cs, Rule::NOT, i, len) == 0);
    }
}

/// Where a `NotExpression` node elaborates, the result is negated exactly
/// when the number of its `NOT` children is odd.
pub proof fn lemma_not_is_parity(n: NodeView)
    requires
        NotExpression::spec_parse(n) is Ok,
    ensures
        NotExpression::spec_parse(n)->Ok_0.not == (count_rule(
            n.children,
            Rule::NOT,
            0,
            n.children.len() as int,
        )
            % 2 == 1),
{
    lemma_not_scan(n, 0, false, None);
}

proof fn lemma_match_scan(
    n: NodeView,
    i: int,
    optional: bool,
    pattern: Option<PatternView>,
    where_: Option<ExpressionView>,
)
    requires
        0 <= i <= n.children.len(),
        Match::scan(n, i, optional, pattern, where_) is Ok,
    ensures
        ({
            let m = Match::scan(n, i, optional, pattern, where_)->Ok_0;
            &&& (forall|k: int| i <= k < n.children.len() ==> (#[trigger] n.children[k]).rule != Rule::Where)
                ==> m.where_ == where_
            &&& (forall|k: int| i <= k < n.children.len() ==> (#[trigger] n.children[k]).rule != Rule::OPTIONAL)
                ==> m.optional == optional
        }),
    decreases n.children.len() - i,
{
    if i < n.children.len() {
        let c = n.children[i];
        match c.rule {
            Rule::MATCH | Rule::SP => {
                lemma_match_scan(n, i + 1, optional, pattern, where_);
            },
            Rule::OPTIONAL => {
                lemma_match_scan(n, i + 1, true, pattern, where_);
            },
            Rule::Pattern => {
                match Pattern::spec_parse(c) {
                    Ok(v) => {
                        lemma_match_scan(n, i + 1, optional, Some(v), where_);
                    },
                    Err(_) => {},
                }
            },
            Rule::Where => {
                match spec_parse_where(c) {
                    Ok(v) => {
                        lemma_match_scan(n, i + 1, optional, pattern, Some(v));
                    },
                    Err(_) => {},
                }
            },
            _ => {},
        }
    }
}

/// What was not written is absent. Where a `Match` node elaborates, a node
/// without a `Where` child gives a `MATCH` without a filter, not one with an
/// empty filter, and a node without an `OPTIONAL` child gives a `MATCH` that
/// is not optional.
pub proof fn lemma_match_keeps_absence(n: NodeView)
    requires
        Match::spec_parse(n) is Ok,
    ensures
        !has_rule(n.children, Rule::Where) ==> Match::spec_parse(n)->Ok_0.where_ is None,
        !has_rule(n.children, Rule::OPTIONAL) ==> !Match::spec_parse(n)->Ok_0.optional,
{
    lemma_match_scan(n, 0, false, None, None);
}

proof fn lemma_projection_scan(
    n: NodeView,
    i: int,
    distinct: bool,
    items: Option<ProjectionItemsView>,
    order: Option<OrderView>,
    skip: Option<SkipView>,
    limit: Option<LimitView>,
)
    requires
        0 <= i <= n.children.len(),
        ProjectionBody::scan(n, i, distinct, items, order, skip, limit) is Ok,
    ensures
        ({
            let p = ProjectionBody::scan(n, i, distinct, items, order, skip, limit)->Ok_0;
            &&& (forall|k: int| i <= k < n.children.len() ==> (#[trigger] n.children[k]).rule != Rule::DISTINCT)
                ==> p.distinct == distinct
            &&& (forall|k: int| i <= k < n.children.len() ==> (#[trigger] n.children[k]).rule != Rule::Order)
                ==> p.order == order
            &&& (forall|k: int| i <= k < n.children.len() ==> (#[trigger] n.children[k]).rule != Rule::Skip)
                ==> p.skip == skip
            &&& (forall|k: int| i <= k < n.children.len() ==> (#[trigger] n.children[k]).rule != Rule::Limit)
                ==> p.limit == limit
        }),
    decreases n.children.len() - i,
{
    if i < n.children.len() {
        let c = n.children[i];
        match c.rule {
            Rule::DISTINCT => {
                lemma_projection_scan(n, i + 1, true, items, order, skip, limit);
            },
            Rule::ProjectionItems => {
                match ProjectionItems::spec_parse(c) {
                    Ok(v) => {
                        lemma_projection_scan(n, i + 1, distinct, Some(v), order, skip, limit);
                    },
                    Err(_) => {},
                }
            },
            Rule::Order => {
                match Order::spec_parse(c) {
                    Ok(v) => {
                        lemma_projection_scan(n, i + 1, distinct, items, Some(v), skip, limit);
                    },
                    Err(_) => {},
                }
            },
            Rule::Skip => {
                match Skip::spec_parse(c) {
                    Ok(v) => {
                        lemma_projection_scan(n, i + 1, distinct, items, order, Some(v), limit);
                    },
                    Err(_) => {},
                }
            },
            Rule::Limit => {
                match Limit::spec_parse(c) {
                    Ok(v) => {
                        lemma_projection_scan(n, i + 1, distinct, items, order, skip, Some(v));
                    },
                    Err(_) => {},
                }
            },
            Rule::SP => {
                lemma_projection_scan(n, i + 1, distinct, items, order, skip, limit);
            },
            _ => {},
        }
    }
}

/// Where a `ProjectionBody` node elaborates, each of `DISTINCT`, `ORDER BY`,
/// `SKIP` and `LIMIT` is absent from the result unless the node has the child
/// that stands for it.
pub proof fn lemma_projection_keeps_absence(n: NodeView)
    requires
        ProjectionBody::spec_parse(n) is Ok,
    ensures
        !has_rule(n.children, Rule::DISTINCT) ==> !ProjectionBody::spec_parse(n)->Ok_0.distinct,
        !has_rule(n.children, Rule::Order) ==> ProjectionBody::spec_parse(n)->Ok_0.order is None,
        !has_rule(n.children, Rule::Skip) ==> ProjectionBody::spec_parse(n)->Ok_0.skip is None,
        !has_rule(n.children, Rule::Limit) ==> ProjectionBody::spec_parse(n)->Ok_0.limit is None,
{
    lemma_projection_scan(n, 0, false, None, None, None, None);
}

proof fn lemma_multi_part_scan(
    n: NodeView,
    i: int,
    parts: Seq<MultiPartQueryPartView>,
    reading_clauses: Seq<ReadingClauseView>,
    updating_clauses: Seq<UpdatingClauseView>,
)
    requires
        0 <= i <= n.children.len(),
        MultiPartQuery::scan(n, i, parts, reading_clauses, updating_clauses) is Ok,
    ensures
        MultiPartQuery::scan(n, i, parts, reading_clauses, updating_clauses)->Ok_0.parts.len() >= 1,
    decreases n.children.len() - i,
{
    if i < n.children.len() {
        let c = n.children[i];
        match c.rule {
            Rule::ReadingClause => {
                match ReadingClause::spec_parse(c) {
                    Ok(v) => {
                        lemma_multi_part_scan(
                            n,
                            i + 1,
                            parts,
                            reading_clauses.push(v),
                            updating_clauses,
                        );
                    },
                    Err(_) => {},
                }
            },
            Rule::UpdatingClause => {
                match UpdatingClause::spec_parse(c) {
                    Ok(v) => {
                        lemma_multi_part_scan(
                            n,
                            i + 1,
                            parts,
                            reading_clauses,
                            updating_clauses.push(v),
                        );
                    },
                    Err(_) => {},
                }
            },
            Rule::With => {
                match With::spec_parse(c) {
                    Ok(v) => {
                        lemma_multi_part_scan(
                            n,
                            i + 1,
                            parts.push(
                                MultiPartQueryPartView { reading_clauses, updating_clauses, with: v },
                            ),
                            Seq::empty(),
                            Seq::empty(),
                        );
                    },
                    Err(_) => {},
                }
            },
            Rule::SP => {
                lemma_multi_part_scan(n, i + 1, parts, reading_clauses, updating_clauses);
            },
            _ => {},
        }
    }
}

/// Every multi-part query has at least one part before its final query.
pub proof fn lemma_multi_part_query_has_a_part(n: NodeView)
    requires
        MultiPartQuery::spec_parse(n) is Ok,
    ensures
        MultiPartQuery::spec_parse(n)->Ok_0.parts.len() >= 1,
{
    lemma_multi_part_scan(n, 0, Seq::empty(), Seq::empty(), Seq::empty());
}

/// Writing a key into a map without repeated keys leaves it without repeated keys.
pub proof fn lemma_insert_keeps_keys_distinct(
    m: PropertyMapView,
    key: Seq<char>,
    value: ExpressionView,
)
    requires
        m.keys_distinct(),
    ensures
        m.insert(key, value).keys_distinct(),
{
    let r = m.insert(key, value);
    if m.contains_key(key) {
        let at = m.index_of(key);
        assert forall|i: int, j: int| 0 <= i < j < r.entries.len() implies #[trigger] r.entries[i].0
            != #[trigger] r.entries[j].0 by {
            assert(m.entries[at].0 == key);
            if i == at {
                assert(r.entries[j] == m.entries[j]);
                assert(m.entries[at].0 != m.entries[j].0);
            } else if j == at {
                assert(r.entries[i] == m.entries[i]);
                assert(m.entries[i].0 != m.entries[at].0);
            } else {
                assert(m.entries[i].0 != m.entries[j].0);
            }
        }
    } else {
        assert forall|i: int, j: int| 0 <= i < j < r.entries.len() implies #[trigger] r.entries[i].0
            != #[trigger] r.entries[j].0 by {
            if j == m.entries.len() {
                assert(m.entries[i].0 != key);
            } else {
                assert(m.entries[i].0 != m.entries[j].0);
            }
        }
    }
}

proof fn lemma_map_literal_scan(n: NodeView, i: int, key: Option<Seq<char>>, items: PropertyMapView)
    requires
        0 <= i <= n.children.len(),
        items.keys_distinct(),
        scan_map_literal(n, i, key, items) is Ok,
    ensures
        scan_map_literal(n, i, key, items)->Ok_0.keys_distinct(),
    decreases n.children.len() - i,
{
    if i < n.children.len() {
        let c = n.children[i];
        match c.rule {
            Rule::PropertyKeyName => {
                lemma_map_literal_scan(n, i + 1, Some(c.text), items);
            },
            Rule::Expression => {
                match key {
                    None => {},
                    Some(k) => match Expression::spec_parse(c) {
                        Ok(v) => {
                            lemma_insert_keeps_keys_distinct(items, k, v);
                            lemma_map_literal_scan(n, i + 1, None, items.insert(k, v));
                        },
                        Err(_) => {},
                    },
                }
            },
            Rule::SP => {
                lemma_map_literal_scan(n, i + 1, key, items);
            },
            _ => {},
        }
    }
}

/// No key occurs twice in the map that a `MapLiteral` node elaborates to.
pub proof fn lemma_map_literal_keys_are_distinct(n: NodeView)
    requires
        spec_parse_map_literal(n) is Ok,
    ensures
        spec_parse_map_literal(n)->Ok_0.keys_distinct(),
{
    lemma_map_literal_scan(n, 0, None, PropertyMapView::empty());
}

/// A sum of one operand: the operand, and no operation.
pub proof fn lemma_sum_of_one_operand(n: NodeView, first: NodeView)
    requires
        n.rule == Rule::AddOrSubtractExpression,
        n.children == seq![first],
        first.rule == Rule::MultiplyDivideModuloExpression,
        MultiplyDivideModuloExpression::spec_parse(first) is Ok,
    ensures
        AddOrSubtractExpression::spec_parse(n) == Ok::<AddOrSubtractExpressionView, ElaborationError>(
            AddOrSubtractExpressionView { expression: MultiplyDivideModuloExpression::spec_parse(first)->Ok_0, operations: Seq::empty() },
        ),
{
    assert(n.children[0] == first);
    assert(AddOrSubtractExpression::spec_parse(n)
        == AddOrSubtractExpression::scan(n, 1, Some(MultiplyDivideModuloExpression::spec_parse(first)->Ok_0), Seq::empty(), None));
}

/// A product of one operand: the operand, and no operation.
pub proof fn lemma_product_of_one_operand(n: NodeView, first: NodeView)
    requires
        n.rule == Rule::MultiplyDivideModuloExpression,
        n.children == seq![first],
        first.rule == Rule::PowerOfExpression,
        PowerOfExpression::spec_parse(first) is Ok,
    ensures
        MultiplyDivideModuloExpression::spec_parse(n) == Ok::<MultiplyDivideModuloExpressionView, ElaborationError>(
            MultiplyDivideModuloExpressionView { expression: PowerOfExpression::spec_parse(first)->Ok_0, operations: Seq::empty() },
        ),
{
    assert(n.children[0] == first);
    assert(MultiplyDivideModuloExpression::spec_parse(n)
        == MultiplyDivideModuloExpression::scan(n, 1, Some(PowerOfExpression::spec_parse(first)->Ok_0), Seq::empty(), None));
}

/// A comparison of one operand: the operand, and nothing compared with it.
pub proof fn lemma_comparison_of_one_operand(n: NodeView, first: NodeView)
    requires
        n.rule == Rule::ComparisonExpression,
        n.children == seq![first],
        first.rule == Rule::AddOrSubtractExpression,
        AddOrSubtractExpression::spec_parse(first) is Ok,
    ensures
        ComparisonExpression::spec_parse(n) == Ok::<ComparisonExpressionView, ElaborationError>(
            ComparisonExpressionView { expression: AddOrSubtractExpression::spec_parse(first)->Ok_0, comparisons: Seq::empty() },
        ),
{
    assert(n.children[0] == first);
    assert(ComparisonExpression::spec_parse(n)
        == ComparisonExpression::scan(n, 1, Some(AddOrSubtractExpression::spec_parse(first)->Ok_0), Seq::empty()));
}

/// An `OrExpression` node without children has no operands.
pub proof fn lemma_or_of_nothing(n: NodeView)
    requires
        n.rule == Rule::OrExpression,
        n.children.len() == 0,
    ensures
        spec_parse_or_operands(n) == Ok::<Seq<XorExpressionView>, ElaborationError>(Seq::empty()),
{
}

/// An `XorExpression` node without children has no operands.
pub proof fn lemma_xor_of_nothing(n: NodeView)
    requires
        n.rule == Rule::XorExpression,
        n.children.len() == 0,
    ensures
        XorExpression::spec_parse(n) == Ok::<XorExpressionView, ElaborationError>(
            XorExpressionView(Seq::empty()),
        ),
{
}

/// An `AndExpression` node without children has no operands.
pub proof fn lemma_and_of_nothing(n: NodeView)
    requires
        n.rule == Rule::AndExpression,
        n.children.len() == 0,
    ensures
        AndExpression::spec_parse(n) == Ok::<AndExpressionView, ElaborationError>(
            AndExpressionView(Seq::empty()),
        ),
{
}

/// A `PowerOfExpression` node without children has no operands.
pub proof fn lemma_power_of_nothing(n: NodeView)
    requires
        n.rule == Rule::PowerOfExpression,
        n.children.len() == 0,
    ensures
        PowerOfExpression::spec_parse(n) == Ok::<PowerOfExpressionView, ElaborationError>(
            PowerOfExpressionView(Seq::empty()),
        ),
{
}

/// A `Pattern` node without children has no parts.
pub proof fn lemma_pattern_of_nothing(n: NodeView)
    requires
        n.rule == Rule::Pattern,
        n.children.len() == 0,
    ensures
        Pattern::spec_parse(n) == Ok::<PatternView, ElaborationError>(
            PatternView { parts: Seq::empty() },
        ),
{
}

/// A path of one node: that node is where it starts, and it has no steps.
pub proof fn lemma_path_of_one_node(n: NodeView, first: NodeView)
    requires
        n.rule == Rule::PatternElement,
        n.children == seq![first],
        first.rule == Rule::NodePattern,
        NodePattern::spec_parse(first) is Ok,
    ensures
        PatternElement::spec_parse(n) == Ok::<PatternElementView, ElaborationError>(
            PatternElementView { node_pattern: NodePattern::spec_parse(first)->Ok_0, relationship_patterns: Seq::empty() },
        ),
{
    assert(n.children[0] == first);
    assert(PatternElement::spec_parse(n)
        == PatternElement::scan(n, 1, Some(NodePattern::spec_parse(first)->Ok_0), Seq::empty()));
}

/// A `MERGE` of a pattern part alone has no actions.
pub proof fn lemma_merge_without_actions(n: NodeView, first: NodeView)
    requires
        n.rule == Rule::Merge,
        n.children == seq![first],
        first.rule == Rule::PatternPart,
        PatternPart::spec_parse(first) is Ok,
    ensures
        Merge::spec_parse(n) == Ok::<MergeView, ElaborationError>(
            MergeView { pattern_part: PatternPart::spec_parse(first)->Ok_0, actions: Seq::empty() },
        ),
{
    assert(n.children[0] == first);
    assert(Merge::spec_parse(n)
        == Merge::scan(n, 1, Some(PatternPart::spec_parse(first)->Ok_0), Seq::empty()));
}

/// A `ListLiteral` node without children is the empty list.
pub proof fn lemma_list_literal_of_nothing(n: NodeView)
    requires
        n.rule == Rule::ListLiteral,
        n.children.len() == 0,
    ensures
        spec_parse_list_literal(n) == Ok::<Seq<ExpressionView>, ElaborationError>(Seq::empty()),
{
}

/// The operator that a token of the additive level stands for.
pub open spec fn sum_operator(rule: Rule) -> PlusMinusOperator {
    match rule {
        Rule::PLUS => PlusMinusOperator::Plus,
        _ => PlusMinusOperator::Minus,
    }
}

proof fn lemma_sum_skips(
    n: NodeView,
    i: int,
    j: int,
    expression: Option<MultiplyDivideModuloExpressionView>,
    operations: Seq<(PlusMinusOperator, MultiplyDivideModuloExpressionView)>,
    operator: Option<PlusMinusOperator>,
)
    requires
        0 <= i <= j <= n.children.len(),
        forall|k: int| i <= k < j ==> (#[trigger] n.children[k]).rule == Rule::SP,
    ensures
        AddOrSubtractExpression::scan(n, i, expression, operations, operator) == AddOrSubtractExpression::scan(
            n,
            j,
            expression,
            operations,
            operator,
        ),
    decreases j - i,
{
    if i < j {
        assert(n.children[i].rule == Rule::SP);
        lemma_sum_skips(n, i + 1, j, expression, operations, operator);
    }
}

proof fn lemma_sum_prefix(
    n: NodeView,
    longer: NodeView,
    blanks_before: Seq<NodeView>,
    op: NodeView,
    blanks_after: Seq<NodeView>,
    operand: NodeView,
    i: int,
    expression: Option<MultiplyDivideModuloExpressionView>,
    operations: Seq<(PlusMinusOperator, MultiplyDivideModuloExpressionView)>,
    operator: Option<PlusMinusOperator>,
)
    requires
        0 <= i <= n.children.len(),
        longer.rule == n.rule && longer.start == n.start && longer.end == n.end,
        longer.children == n.children + blanks_before + seq![op] + blanks_after + seq![operand],
        each_rule_in(blanks_before, set![Rule::SP]),
        each_rule_in(blanks_after, set![Rule::SP]),
        op.rule == Rule::PLUS || op.rule == Rule::MINUS,
        operand.rule == Rule::MultiplyDivideModuloExpression,
        AddOrSubtractExpression::scan(n, i, expression, operations, operator) is Ok,
        MultiplyDivideModuloExpression::spec_parse(operand) is Ok,
    ensures
        ({
            let before = AddOrSubtractExpression::scan(n, i, expression, operations, operator)->Ok_0;
            let added = (sum_operator(op.rule), MultiplyDivideModuloExpression::spec_parse(operand)->Ok_0);
            AddOrSubtractExpression::scan(longer, i, expression, operations, operator) == Ok::<AddOrSubtractExpressionView, ElaborationError>(
                AddOrSubtractExpressionView { expression: before.expression, operations: before.operations.push(added) },
            )
        }),
    decreases n.children.len() - i,
{
    let len = n.children.len() as int;
    let b1 = blanks_before.len() as int;
    let b2 = blanks_after.len() as int;
    if i < len {
        let c = n.children[i];
        assert(longer.children[i] == c);
        match c.rule {
            Rule::SP => {
                lemma_sum_prefix(
                    n,
                    longer,
                    blanks_before,
                    op,
                    blanks_after,
                    operand,
                    i + 1,
                    expression,
                    operations,
                    operator,
                );
            },
            Rule::MultiplyDivideModuloExpression => {
                match MultiplyDivideModuloExpression::spec_parse(c) {
                    Err(e) => {},
                    Ok(v) => match operator {
                        Some(o) => {
                            lemma_sum_prefix(
                                n,
                                longer,
                                blanks_before,
                                op,
                                blanks_after,
                                operand,
                                i + 1,
                                expression,
                                operations.push((o, v)),
                                None,
                            );
                        },
                        None => {
                            lemma_sum_prefix(
                                n,
                                longer,
                                blanks_before,
                                op,
                                blanks_after,
                                operand,
                                i + 1,
                                Some(v),
                                operations,
                                operator,
                            );
                        },
                    },
                }
            },
            Rule::PLUS => {
                lemma_sum_prefix(
                    n,
                    longer,
                    blanks_before,
                    op,
                    blanks_after,
                    operand,
                    i + 1,
                    expression,
                    operations,
                    Some(PlusMinusOperator::Plus),
                );
            },
            Rule::MINUS => {
                lemma_sum_prefix(
                    n,
                    longer,
                    blanks_before,
                    op,
                    blanks_after,
                    operand,
                    i + 1,
                    expression,
                    operations,
                    Some(PlusMinusOperator::Minus),
                );
            },
            _ => {},
        }
    } else {
        assert forall|k: int| len <= k < len + b1 implies (#[trigger] longer.children[k]).rule == Rule::SP by {
            assert(longer.children[k] == blanks_before[k - len]);
        }
        lemma_sum_skips(longer, len, len + b1, expression, operations, operator);
        assert(longer.children[len + b1] == op);
        let pending = Some(sum_operator(op.rule));
        let at_operand = len + b1 + 1 + b2;
        assert(AddOrSubtractExpression::scan(longer, len + b1, expression, operations, operator)
            == AddOrSubtractExpression::scan(longer, len + b1 + 1, expression, operations, pending));
        assert forall|k: int| len + b1 + 1 <= k < at_operand implies (#[trigger] longer.children[k]).rule
            == Rule::SP by {
            assert(longer.children[k] == blanks_after[k - len - b1 - 1]);
        }
        lemma_sum_skips(longer, len + b1 + 1, at_operand, expression, operations, pending);
        assert(longer.children[at_operand] == operand);
        assert(longer.children.len() == at_operand + 1);
        let v = MultiplyDivideModuloExpression::spec_parse(operand)->Ok_0;
        assert(AddOrSubtractExpression::scan(longer, at_operand, expression, operations, pending)
            == AddOrSubtractExpression::scan(
            longer,
            at_operand + 1,
            expression,
            operations.push((sum_operator(op.rule), v)),
            None,
        ));
    }
}

/// Grouping at the additive level, for a chain of any length. Let a node
/// elaborate to some value. Write one more operator and one more operand
/// after its children, with any blanks between. Then the longer node
/// elaborates to the same first operand and the same operations, followed by
/// one more: that operator, paired with the elaboration of the whole new
/// operand. What stood before keeps its grouping and its order, and whatever
/// binds tighter inside the new operand stays inside it.
pub proof fn lemma_sum_appends_operation(
    n: NodeView,
    longer: NodeView,
    blanks_before: Seq<NodeView>,
    op: NodeView,
    blanks_after: Seq<NodeView>,
    operand: NodeView,
)
    requires
        n.rule == Rule::AddOrSubtractExpression,
        longer.rule == n.rule && longer.start == n.start && longer.end == n.end,
        longer.children == n.children + blanks_before + seq![op] + blanks_after + seq![operand],
        each_rule_in(blanks_before, set![Rule::SP]),
        each_rule_in(blanks_after, set![Rule::SP]),
        op.rule == Rule::PLUS || op.rule == Rule::MINUS,
        operand.rule == Rule::MultiplyDivideModuloExpression,
        AddOrSubtractExpression::spec_parse(n) is Ok,
        MultiplyDivideModuloExpression::spec_parse(operand) is Ok,
    ensures
        ({
            let before = AddOrSubtractExpression::spec_parse(n)->Ok_0;
            let added = (sum_operator(op.rule), MultiplyDivideModuloExpression::spec_parse(operand)->Ok_0);
            let after = AddOrSubtractExpression::spec_parse(longer);
            &&& after is Ok
            &&& after->Ok_0.expression == before.expression
            &&& after->Ok_0.operations == before.operations.push(added)
        }),
{
    lemma_sum_prefix(
        n,
        longer,
        blanks_before,
        op,
        blanks_after,
        operand,
        0,
        None,
        Seq::empty(),
        None,
    );
}

/// The operator that a token of the multiplicative level stands for.
pub open spec fn product_operator(rule: Rule) -> MultiplyDivideModuloOperator {
    match rule {
        Rule::MULTIPLY => MultiplyDivideModuloOperator::Multiply,
        Rule::DIVIDE => MultiplyDivideModuloOperator::Divide,
        _ => MultiplyDivideModuloOperator::Modulo,
    }
}

proof fn lemma_product_skips(
    n: NodeView,
    i: int,
    j: int,
    expression: Option<PowerOfExpressionView>,
    operations: Seq<(MultiplyDivideModuloOperator, PowerOfExpressionView)>,
    operator: Option<MultiplyDivideModuloOperator>,
)
    requires
        0 <= i <= j <= n.children.len(),
        forall|k: int| i <= k < j ==> (#[trigger] n.children[k]).rule == Rule::SP,
    ensures
        MultiplyDivideModuloExpression::scan(n, i, expression, operations, operator) == MultiplyDivideModuloExpression::scan(
            n,
            j,
            expression,
            operations,
            operator,
        ),
    decreases j - i,
{
    if i < j {
        assert(n.children[i].rule == Rule::SP);
        lemma_product_skips(n, i + 1, j, expression, operations, operator);
    }
}

proof fn lemma_product_prefix(
    n: NodeView,
    longer: NodeView,
    blanks_before: Seq<NodeView>,
    op: NodeView,
    blanks_after: Seq<NodeView>,
    operand: NodeView,
    i: int,
    expression: Option<PowerOfExpressionView>,
    operations: Seq<(MultiplyDivideModuloOperator, PowerOfExpressionView)>,
    operator: Option<MultiplyDivideModuloOperator>,
)
    requires
        0 <= i <= n.children.len(),
        longer.rule == n.rule && longer.start == n.start && longer.end == n.end,
        longer.children == n.children + blanks_before + seq![op] + blanks_after + seq![operand],
        each_rule_in(blanks_before, set![Rule::SP]),
        each_rule_in(blanks_after, set![Rule::SP]),
        op.rule == Rule::MULTIPLY || op.rule == Rule::DIVIDE || op.rule == Rule::MODULO,
        operand.rule == Rule::PowerOfExpression,
        MultiplyDivideModuloExpression::scan(n, i, expression, operations, operator) is Ok,
        PowerOfExpression::spec_parse(operand) is Ok,
    ensures
        ({
            let before = MultiplyDivideModuloExpression::scan(n, i, expression, operations, operator)->Ok_0;
            let added = (product_operator(op.rule), PowerOfExpression::spec_parse(operand)->Ok_0);
            MultiplyDivideModuloExpression::scan(longer, i, expression, operations, operator) == Ok::<MultiplyDivideModuloExpressionView, ElaborationError>(
                MultiplyDivideModuloExpressionView { expression: before.expression, operations: before.operations.push(added) },
            )
        }),
    decreases n.children.len() - i,
{
    let len = n.children.len() as int;
    let b1 = blanks_before.len() as int;
    let b2 = blanks_after.len() as int;
    if i < len {
        let c = n.children[i];
        assert(longer.children[i] == c);
        match c.rule {
            Rule::SP => {
                lemma_product_prefix(
                    n,
                    longer,
                    blanks_before,
                    op,
                    blanks_after,
                    operand,
                    i + 1,
                    expression,
                    operations,
                    operator,
                );
            },
            Rule::PowerOfExpression => {
                match PowerOfExpression::spec_parse(c) {
                    Err(e) => {},
                    Ok(v) => match operator {
                        Some(o) => {
                            lemma_product_prefix(
                                n,
                                longer,
                                blanks_before,
                                op,
                                blanks_after,
                                operand,
                                i + 1,
                                expression,
                                operations.push((o, v)),
                                None,
                            );
                        },
                        None => {
                            lemma_product_prefix(
                                n,
                                longer,
                                blanks_before,
                                op,
                                blanks_after,
                                operand,
                                i + 1,
                                Some(v),
                                operations,
                                operator,
                            );
                        },
                    },
                }
            },
            Rule::MULTIPLY => {
                lemma_product_prefix(
                    n,
                    longer,
                    blanks_before,
                    op,
                    blanks_after,
                    operand,
                    i + 1,
                    expression,
                    operations,
                    Some(MultiplyDivideModuloOperator::Multiply),
                );
            },
            Rule::DIVIDE => {
                lemma_product_prefix(
                    n,
                    longer,
                    blanks_before,
                    op,
                    blanks_after,
                    operand,
                    i + 1,
                    expression,
                    operations,
                    Some(MultiplyDivideModuloOperator::Divide),
                );
            },
            Rule::MODULO => {
                lemma_product_prefix(
                    n,
                    longer,
                    blanks_before,
                    op,
                    blanks_after,
                    operand,
                    i + 1,
                    expression,
                    operations,
                    Some(MultiplyDivideModuloOperator::Modulo),
                );
            },
            _ => {},
        }
    } else {
        assert forall|k: int| len <= k < len + b1 implies (#[trigger] longer.children[k]).rule == Rule::SP by {
            assert(longer.children[k] == blanks_before[k - len]);
        }
        lemma_product_skips(longer, len, len + b1, expression, operations, operator);
        assert(longer.children[len + b1] == op);
        let pending = Some(product_operator(op.rule));
        let at_operand = len + b1 + 1 + b2;
        assert(MultiplyDivideModuloExpression::scan(longer, len + b1, expression, operations, operator)
            == MultiplyDivideModuloExpression::scan(longer, len + b1 + 1, expression, operations, pending));
        assert forall|k: int| len + b1 + 1 <= k < at_operand implies (#[trigger] longer.children[k]).rule
            == Rule::SP by {
            assert(longer.children[k] == blanks_after[k - len - b1 - 1]);
        }
        lemma_product_skips(longer, len + b1 + 1, at_operand, expression, operations, pending);
        assert(longer.children[at_operand] == operand);
        assert(longer.children.len() == at_operand + 1);
        let v = PowerOfExpression::spec_parse(operand)->Ok_0;
        assert(MultiplyDivideModuloExpression::scan(longer, at_operand, expression, operations, pending)
            == MultiplyDivideModuloExpression::scan(
            longer,
            at_operand + 1,
            expression,
            operations.push((product_operator(op.rule), v)),
            None,
        ));
    }
}

/// Grouping at the multiplicative level, for a chain of any length. Let a node
/// elaborate to some value. Write one more operator and one more operand
/// after its children, with any blanks between. Then the longer node
/// elaborates to the same first operand and the same operations, followed by
/// one more: that operator, paired with the elaboration of the whole new
/// operand. What stood before keeps its grouping and its order, and whatever
/// binds tighter inside the new operand stays inside it.
pub proof fn lemma_product_appends_operation(
    n: NodeView,
    longer: NodeView,
    blanks_before: Seq<NodeView>,
    op: NodeView,
    blanks_after: Seq<NodeView>,
    operand: NodeView,
)
    requires
        n.rule == Rule::MultiplyDivideModuloExpression,
        longer.rule == n.rule && longer.start == n.start && longer.end == n.end,
        longer.children == n.children + blanks_before + seq![op] + blanks_after + seq![operand],
        each_rule_in(blanks_before, set![Rule::SP]),
        each_rule_in(blanks_after, set![Rule::SP]),
        op.rule == Rule::MULTIPLY || op.rule == Rule::DIVIDE || op.rule == Rule::MODULO,
        operand.rule == Rule::PowerOfExpression,
        MultiplyDivideModuloExpression::spec_parse(n) is Ok,
        PowerOfExpression::spec_parse(operand) is Ok,
    ensures
        ({
            let before = MultiplyDivideModuloExpression::spec_parse(n)->Ok_0;
            let added = (product_operator(op.rule), PowerOfExpression::spec_parse(operand)->Ok_0);
            let after = MultiplyDivideModuloExpression::spec_parse(longer);
            &&& after is Ok
            &&& after->Ok_0.expression == before.expression
            &&& after->Ok_0.operations == before.operations.push(added)
        }),
{
    lemma_product_prefix(
        n,
        longer,
        blanks_before,
        op,
        blanks_after,
        operand,
        0,
        None,
        Seq::empty(),
        None,
    );
}

proof fn lemma_or_skips(
    longer: NodeView,
    i: int,
    j: int,
    xor_expressions: Seq<XorExpressionView>,
)
    requires
        0 <= i <= j <= longer.children.len(),
        forall|k: int| i <= k < j ==> set![Rule::SP, Rule::XOR, Rule::OR].contains(
            (#[trigger] longer.children[k]).rule,
        ),
    ensures
        scan_or_operands(longer, i, xor_expressions) == scan_or_operands(
            longer,
            j,
            xor_expressions,
        ),
    decreases j - i,
{
    if i < j {
        assert(set![Rule::SP, Rule::XOR, Rule::OR].contains(longer.children[i].rule));
        lemma_or_skips(longer, i + 1, j, xor_expressions);
    }
}

proof fn lemma_or_prefix(
    n: NodeView,
    longer: NodeView,
    blanks: Seq<NodeView>,
    item: NodeView,
    i: int,
    xor_expressions: Seq<XorExpressionView>,
)
    requires
        0 <= i <= n.children.len(),
        longer.rule == n.rule && longer.start == n.start && longer.end == n.end,
        longer.children == n.children + blanks + seq![item],
        each_rule_in(blanks, set![Rule::SP, Rule::XOR, Rule::OR]),
        item.rule == Rule::XorExpression,
        scan_or_operands(n, i, xor_expressions) is Ok,
        XorExpression::spec_parse(item) is Ok,
    ensures
        ({
            let before = scan_or_operands(n, i, xor_expressions)->Ok_0;
            let added = XorExpression::spec_parse(item)->Ok_0;
            scan_or_operands(longer, i, xor_expressions)
                == Ok::<Seq<XorExpressionView>, ElaborationError>(before.push(added))
        }),
    decreases n.children.len() - i,
{
    let len = n.children.len() as int;
    let gap = blanks.len() as int;
    if i < len {
        let c = n.children[i];
        assert(longer.children[i] == c);
        match c.rule {
            Rule::XorExpression => {
                match XorExpression::spec_parse(c) {
                    Ok(v) => {
                        lemma_or_prefix(n, longer, blanks, item, i + 1, xor_expressions.push(v));
                    },
                    Err(_) => {},
                }
            },
            Rule::SP | Rule::XOR | Rule::OR => {
                lemma_or_prefix(n, longer, blanks, item, i + 1, xor_expressions);
            },
            _ => {},
        }
    } else {
        assert forall|k: int| len <= k < len + gap implies set![Rule::SP, Rule::XOR, Rule::OR].contains(
            (#[trigger] longer.children[k]).rule,
        ) by {
            assert(longer.children[k] == blanks[k - len]);
        }
        lemma_or_skips(longer, len, len + gap, xor_expressions);
        assert(longer.children[len + gap] == item);
        assert(longer.children.len() == len + gap + 1);
        let v = XorExpression::spec_parse(item)->Ok_0;
        assert(scan_or_operands(longer, len + gap, xor_expressions)
            == scan_or_operands(longer, len + gap + 1, xor_expressions.push(v)));
    }
}

/// Grouping at the `OR` level. One more `XorExpression` child after the
/// children of an `OrExpression` node, with any blanks and keywords between,
/// adds its elaboration as the last operand and changes nothing before it: what
/// binds tighter than `OR` stays inside its operand.
pub proof fn lemma_or_appends_operand(
    n: NodeView,
    longer: NodeView,
    blanks: Seq<NodeView>,
    item: NodeView,
)
    requires
        longer.rule == n.rule && longer.start == n.start && longer.end == n.end,
        longer.children == n.children + blanks + seq![item],
        each_rule_in(blanks, set![Rule::SP, Rule::XOR, Rule::OR]),
        item.rule == Rule::XorExpression,
        spec_parse_or_operands(n) is Ok,
        XorExpression::spec_parse(item) is Ok,
    ensures
        ({
            let before = spec_parse_or_operands(n)->Ok_0;
            let added = XorExpression::spec_parse(item)->Ok_0;
            let after = spec_parse_or_operands(longer);
            &&& after is Ok
            &&& after->Ok_0 == before.push(added)
        }),
{
    lemma_or_prefix(n, longer, blanks, item, 0, Seq::empty());
}

proof fn lemma_xor_skips(
    longer: NodeView,
    i: int,
    j: int,
    and_expressions: Seq<AndExpressionView>,
)
    requires
        0 <= i <= j <= longer.children.len(),
        forall|k: int| i <= k < j ==> set![Rule::SP, Rule::XOR, Rule::AND].contains(
            (#[trigger] longer.children[k]).rule,
        ),
    ensures
        XorExpression::scan(longer, i, and_expressions) == XorExpression::scan(
            longer,
            j,
            and_expressions,
        ),
    decreases j - i,
{
    if i < j {
        assert(set![Rule::SP, Rule::XOR, Rule::AND].contains(longer.children[i].rule));
        lemma_xor_skips(longer, i + 1, j, and_expressions);
    }
}

proof fn lemma_xor_prefix(
    n: NodeView,
    longer: NodeView,
    blanks: Seq<NodeView>,
    item: NodeView,
    i: int,
    and_expressions: Seq<AndExpressionView>,
)
    requires
        0 <= i <= n.children.len(),
        longer.rule == n.rule && longer.start == n.start && longer.end == n.end,
        longer.children == n.children + blanks + seq![item],
        each_rule_in(blanks, set![Rule::SP, Rule::XOR, Rule::AND]),
        item.rule == Rule::AndExpression,
        XorExpression::scan(n, i, and_expressions) is Ok,
        AndExpression::spec_parse(item) is Ok,
    ensures
        ({
            let before = XorExpression::scan(n, i, and_expressions)->Ok_0;
            let added = AndExpression::spec_parse(item)->Ok_0;
            XorExpression::scan(longer, i, and_expressions)
                == Ok::<XorExpressionView, ElaborationError>(
                    XorExpressionView(before.0.push(added)),
                )
        }),
    decreases n.children.len() - i,
{
    let len = n.children.len() as int;
    let gap = blanks.len() as int;
    if i < len {
        let c = n.children[i];
        assert(longer.children[i] == c);
        match c.rule {
            Rule::AndExpression => {
                match AndExpression::spec_parse(c) {
                    Ok(v) => {
                        lemma_xor_prefix(n, longer, blanks, item, i + 1, and_expressions.push(v));
                    },
                    Err(_) => {},
                }
            },
            Rule::SP | Rule::XOR | Rule::AND => {
                lemma_xor_prefix(n, longer, blanks, item, i + 1, and_expressions);
            },
            _ => {},
        }
    } else {
        assert forall|k: int| len <= k < len + gap implies set![Rule::SP, Rule::XOR, Rule::AND].contains(
            (#[trigger] longer.children[k]).rule,
        ) by {
            assert(longer.children[k] == blanks[k - len]);
        }
        lemma_xor_skips(longer, len, len + gap, and_expressions);
        assert(longer.children[len + gap] == item);
        assert(longer.children.len() == len + gap + 1);
        let v = AndExpression::spec_parse(item)->Ok_0;
        assert(XorExpression::scan(longer, len + gap, and_expressions)
            == XorExpression::scan(longer, len + gap + 1, and_expressions.push(v)));
    }
}

/// Grouping at the `XOR` level. One more `AndExpression` child after the
/// children of an `XorExpression` node adds its elaboration as the last operand
/// and changes nothing before it. In particular every operand of a chain of
/// `XOR` is kept.
pub proof fn lemma_xor_appends_operand(
    n: NodeView,
    longer: NodeView,
    blanks: Seq<NodeView>,
    item: NodeView,
)
    requires
        longer.rule == n.rule && longer.start == n.start && longer.end == n.end,
        longer.children == n.children + blanks + seq![item],
        each_rule_in(blanks, set![Rule::SP, Rule::XOR, Rule::AND]),
        item.rule == Rule::AndExpression,
        XorExpression::spec_parse(n) is Ok,
        AndExpression::spec_parse(item) is Ok,
    ensures
        ({
            let before = XorExpression::spec_parse(n)->Ok_0;
            let added = AndExpression::spec_parse(item)->Ok_0;
            let after = XorExpression::spec_parse(longer);
            &&& after is Ok
            &&& after->Ok_0.0 == before.0.push(added)
        }),
{
    lemma_xor_prefix(n, longer, blanks, item, 0, Seq::empty());
}

proof fn lemma_and_skips(
    longer: NodeView,
    i: int,
    j: int,
    not_expressions: Seq<NotExpressionView>,
)
    requires
        0 <= i <= j <= longer.children.len(),
        forall|k: int| i <= k < j ==> set![Rule::SP, Rule::AND].contains(
            (#[trigger] longer.children[k]).rule,
        ),
    ensures
        AndExpression::scan(longer, i, not_expressions) == AndExpression::scan(
            longer,
            j,
            not_expressions,
        ),
    decreases j - i,
{
    if i < j {
        assert(set![Rule::SP, Rule::AND].contains(longer.children[i].rule));
        lemma_and_skips(longer, i + 1, j, not_expressions);
    }
}

proof fn lemma_and_prefix(
    n: NodeView,
    longer: NodeView,
    blanks: Seq<NodeView>,
    item: NodeView,
    i: int,
    not_expressions: Seq<NotExpressionView>,
)
    requires
        0 <= i <= n.children.len(),
        longer.rule == n.rule && longer.start == n.start && longer.end == n.end,
        longer.children == n.children + blanks + seq![item],
        each_rule_in(blanks, set![Rule::SP, Rule::AND]),
        item.rule == Rule::NotExpression,
        AndExpression::scan(n, i, not_expressions) is Ok,
        NotExpression::spec_parse(item) is Ok,
    ensures
        ({
            let before = AndExpression::scan(n, i, not_expressions)->Ok_0;
            let added = NotExpression::spec_parse(item)->Ok_0;
            AndExpression::scan(longer, i, not_expressions)
                == Ok::<AndExpressionView, ElaborationError>(
                    AndExpressionView(before.0.push(added)),
                )
        }),
    decreases n.children.len() - i,
{
    let len = n.children.len() as int;
    let gap = blanks.len() as int;
    if i < len {
        let c = n.children[i];
        assert(longer.children[i] == c);
        match c.rule {
            Rule::NotExpression => {
                match NotExpression::spec_parse(c) {
                    Ok(v) => {
                        lemma_and_prefix(n, longer, blanks, item, i + 1, not_expressions.push(v));
                    },
                    Err(_) => {},
                }
            },
            Rule::SP | Rule::AND => {
                lemma_and_prefix(n, longer, blanks, item, i + 1, not_expressions);
            },
            _ => {},
        }
    } else {
        assert forall|k: int| len <= k < len + gap implies set![Rule::SP, Rule::AND].contains(
            (#[trigger] longer.children[k]).rule,
        ) by {
            assert(longer.children[k] == blanks[k - len]);
        }
        lemma_and_skips(longer, len, len + gap, not_expressions);
        assert(longer.children[len + gap] == item);
        assert(longer.children.len() == len + gap + 1);
        let v = NotExpression::spec_parse(item)->Ok_0;
        assert(AndExpression::scan(longer, len + gap, not_expressions)
            == AndExpression::scan(longer, len + gap + 1, not_expressions.push(v)));
    }
}

/// Grouping at the `AND` level. One more `NotExpression` child after the
/// children of an `AndExpression` node adds its elaboration as the last operand
/// and changes nothing before it.
pub proof fn lemma_and_appends_operand(
    n: NodeView,
    longer: NodeView,
    blanks: Seq<NodeView>,
    item: NodeView,
)
    requires
        longer.rule == n.rule && longer.start == n.start && longer.end == n.end,
        longer.children == n.children + blanks + seq![item],
        each_rule_in(blanks, set![Rule::SP, Rule::AND]),
        item.rule == Rule::NotExpression,
        AndExpression::spec_parse(n) is Ok,
        NotExpression::spec_parse(item) is Ok,
    ensures
        ({
            let before = AndExpression::spec_parse(n)->Ok_0;
            let added = NotExpression::spec_parse(item)->Ok_0;
            let after = AndExpression::spec_parse(longer);
            &&& after is Ok
            &&& after->Ok_0.0 == before.0.push(added)
        }),
{
    lemma_and_prefix(n, longer, blanks, item, 0, Seq::empty());
}

proof fn lemma_comparison_skips(
    longer: NodeView,
    i: int,
    j: int,
    expression: Option<AddOrSubtractExpressionView>,
    comparisons: Seq<(ComparisonOperator, AddOrSubtractExpressionView)>,
)
    requires
        0 <= i <= j <= longer.children.len(),
        forall|k: int| i <= k < j ==> set![Rule::SP].contains((#[trigger] longer.children[k]).rule),
    ensures
        ComparisonExpression::scan(longer, i, expression, comparisons)
            == ComparisonExpression::scan(longer, j, expression, comparisons),
    decreases j - i,
{
    if i < j {
        assert(set![Rule::SP].contains(longer.children[i].rule));
        lemma_comparison_skips(longer, i + 1, j, expression, comparisons);
    }
}

proof fn lemma_comparison_prefix(
    n: NodeView,
    longer: NodeView,
    blanks: Seq<NodeView>,
    item: NodeView,
    i: int,
    expression: Option<AddOrSubtractExpressionView>,
    comparisons: Seq<(ComparisonOperator, AddOrSubtractExpressionView)>,
)
    requires
        0 <= i <= n.children.len(),
        longer.rule == n.rule && longer.start == n.start && longer.end == n.end,
        longer.children == n.children + blanks + seq![item],
        each_rule_in(blanks, set![Rule::SP]),
        item.rule == Rule::PartialComparisonExpression,
        ComparisonExpression::scan(n, i, expression, comparisons) is Ok,
        spec_parse_partial_comparison(item) is Ok,
    ensures
        ({
            let before = ComparisonExpression::scan(n, i, expression, comparisons)->Ok_0;
            let added = spec_parse_partial_comparison(item)->Ok_0;
            ComparisonExpression::scan(longer, i, expression, comparisons)
                == Ok::<ComparisonExpressionView, ElaborationError>(
                    ComparisonExpressionView { expression: before.expression, comparisons: before.comparisons.push(added) },
                )
        }),
    decreases n.children.len() - i,
{
    let len = n.children.len() as int;
    let gap = blanks.len() as int;
    if i < len {
        let c = n.children[i];
        assert(longer.children[i] == c);
        match c.rule {
            Rule::SP => {
                lemma_comparison_prefix(n, longer, blanks, item, i + 1, expression, comparisons);
            },
            Rule::AddOrSubtractExpression => {
                match AddOrSubtractExpression::spec_parse(c) {
                    Ok(v) => {
                        lemma_comparison_prefix(
                            n,
                            longer,
                            blanks,
                            item,
                            i + 1,
                            Some(v),
                            comparisons,
                        );
                    },
                    Err(_) => {},
                }
            },
            Rule::PartialComparisonExpression => {
                match spec_parse_partial_comparison(c) {
                    Ok(v) => {
                        lemma_comparison_prefix(
                            n,
                            longer,
                            blanks,
                            item,
                            i + 1,
                            expression,
                            comparisons.push(v),
                        );
                    },
                    Err(_) => {},
                }
            },
            _ => {},
        }
    } else {
        assert forall|k: int| len <= k < len + gap implies set![Rule::SP].contains(
            (#[trigger] longer.children[k]).rule,
        ) by {
            assert(longer.children[k] == blanks[k - len]);
        }
        lemma_comparison_skips(longer, len, len + gap, expression, comparisons);
        assert(longer.children[len + gap] == item);
        assert(longer.children.len() == len + gap + 1);
        let v = spec_parse_partial_comparison(item)->Ok_0;
        assert(ComparisonExpression::scan(longer, len + gap, expression, comparisons)
            == ComparisonExpression::scan(longer, len + gap + 1, expression, comparisons.push(v)));
    }
}

/// Grouping at the comparison level. One more `PartialComparisonExpression`
/// child after the children of a `ComparisonExpression` node adds its operator
/// and operand as the last pair and changes nothing before it: sums and all
/// that binds tighter stay inside the operands.
pub proof fn lemma_comparison_appends_comparison(
    n: NodeView,
    longer: NodeView,
    blanks: Seq<NodeView>,
    item: NodeView,
)
    requires
        longer.rule == n.rule && longer.start == n.start && longer.end == n.end,
        longer.children == n.children + blanks + seq![item],
        each_rule_in(blanks, set![Rule::SP]),
        item.rule == Rule::PartialComparisonExpression,
        ComparisonExpression::spec_parse(n) is Ok,
        spec_parse_partial_comparison(item) is Ok,
    ensures
        ({
            let before = ComparisonExpression::spec_parse(n)->Ok_0;
            let added = spec_parse_partial_comparison(item)->Ok_0;
            let after = ComparisonExpression::spec_parse(longer);
            &&& after is Ok
            &&& after->Ok_0.expression == before.expression
            &&& after->Ok_0.comparisons == before.comparisons.push(added)
        }),
{
    lemma_comparison_prefix(n, longer, blanks, item, 0, None, Seq::empty());
}

proof fn lemma_power_skips(
    longer: NodeView,
    i: int,
    j: int,
    expressions: Seq<UnaryAddOrSubtractExpressionView>,
)
    requires
        0 <= i <= j <= longer.children.len(),
        forall|k: int| i <= k < j ==> set![Rule::SP, Rule::POW].contains(
            (#[trigger] longer.children[k]).rule,
        ),
    ensures
        PowerOfExpression::scan(longer, i, expressions) == PowerOfExpression::scan(
            longer,
            j,
            expressions,
        ),
    decreases j - i,
{
    if i < j {
        assert(set![Rule::SP, Rule::POW].contains(longer.children[i].rule));
        lemma_power_skips(longer, i + 1, j, expressions);
    }
}

proof fn lemma_power_prefix(
    n: NodeView,
    longer: NodeView,
    blanks: Seq<NodeView>,
    item: NodeView,
    i: int,
    expressions: Seq<UnaryAddOrSubtractExpressionView>,
)
    requires
        0 <= i <= n.children.len(),
        longer.rule == n.rule && longer.start == n.start && longer.end == n.end,
        longer.children == n.children + blanks + seq![item],
        each_rule_in(blanks, set![Rule::SP, Rule::POW]),
        item.rule == Rule::UnaryAddOrSubtractExpression,
        PowerOfExpression::scan(n, i, expressions) is Ok,
        UnaryAddOrSubtractExpression::spec_parse(item) is Ok,
    ensures
        ({
            let before = PowerOfExpression::scan(n, i, expressions)->Ok_0;
            let added = UnaryAddOrSubtractExpression::spec_parse(item)->Ok_0;
            PowerOfExpression::scan(longer, i, expressions)
                == Ok::<PowerOfExpressionView, ElaborationError>(
                    PowerOfExpressionView(before.0.push(added)),
                )
        }),
    decreases n.children.len() - i,
{
    let len = n.children.len() as int;
    let gap = blanks.len() as int;
    if i < len {
        let c = n.children[i];
        assert(longer.children[i] == c);
        match c.rule {
            Rule::SP | Rule::POW => {
                lemma_power_prefix(n, longer, blanks, item, i + 1, expressions);
            },
            Rule::UnaryAddOrSubtractExpression => {
                match UnaryAddOrSubtractExpression::spec_parse(c) {
                    Ok(v) => {
                        lemma_power_prefix(n, longer, blanks, item, i + 1, expressions.push(v));
                    },
                    Err(_) => {},
                }
            },
            _ => {},
        }
    } else {
        assert forall|k: int| len <= k < len + gap implies set![Rule::SP, Rule::POW].contains(
            (#[trigger] longer.children[k]).rule,
        ) by {
            assert(longer.children[k] == blanks[k - len]);
        }
        lemma_power_skips(longer, len, len + gap, expressions);
        assert(longer.children[len + gap] == item);
        assert(longer.children.len() == len + gap + 1);
        let v = UnaryAddOrSubtractExpression::spec_parse(item)->Ok_0;
        assert(PowerOfExpression::scan(longer, len + gap, expressions)
            == PowerOfExpression::scan(longer, len + gap + 1, expressions.push(v)));
    }
}

/// One more `UnaryAddOrSubtractExpression` child after the children of a
/// `PowerOfExpression` node adds its elaboration as the last operand of the
/// flat list.
pub proof fn lemma_power_appends_operand(
    n: NodeView,
    longer: NodeView,
    blanks: Seq<NodeView>,
    item: NodeView,
)
    requires
        longer.rule == n.rule && longer.start == n.start && longer.end == n.end,
        longer.children == n.children + blanks + seq![item],
        each_rule_in(blanks, set![Rule::SP, Rule::POW]),
        item.rule == Rule::UnaryAddOrSubtractExpression,
        PowerOfExpression::spec_parse(n) is Ok,
        UnaryAddOrSubtractExpression::spec_parse(item) is Ok,
    ensures
        ({
            let before = PowerOfExpression::spec_parse(n)->Ok_0;
            let added = UnaryAddOrSubtractExpression::spec_parse(item)->Ok_0;
            let after = PowerOfExpression::spec_parse(longer);
            &&& after is Ok
            &&& after->Ok_0.0 == before.0.push(added)
        }),
{
    lemma_power_prefix(n, longer, blanks, item, 0, Seq::empty());
}

proof fn lemma_merge_skips(
    longer: NodeView,
    i: int,
    j: int,
    pattern_part: Option<PatternPartView>,
    actions: Seq<MergeActionView>,
)
    requires
        0 <= i <= j <= longer.children.len(),
        forall|k: int| i <= k < j ==> set![Rule::SP, Rule::MERGE].contains(
            (#[trigger] longer.children[k]).rule,
        ),
    ensures
        Merge::scan(longer, i, pattern_part, actions) == Merge::scan(
            longer,
            j,
            pattern_part,
            actions,
        ),
    decreases j - i,
{
    if i < j {
        assert(set![Rule::SP, Rule::MERGE].contains(longer.children[i].rule));
        lemma_merge_skips(longer, i + 1, j, pattern_part, actions);
    }
}

proof fn lemma_merge_prefix(
    n: NodeView,
    longer: NodeView,
    blanks: Seq<NodeView>,
    item: NodeView,
    i: int,
    pattern_part: Option<PatternPartView>,
    actions: Seq<MergeActionView>,
)
    requires
        0 <= i <= n.children.len(),
        longer.rule == n.rule && longer.start == n.start && longer.end == n.end,
        longer.children == n.children + blanks + seq![item],
        each_rule_in(blanks, set![Rule::SP, Rule::MERGE]),
        item.rule == Rule::MergeAction,
        Merge::scan(n, i, pattern_part, actions) is Ok,
        MergeAction::spec_parse(item) is Ok,
    ensures
        ({
            let before = Merge::scan(n, i, pattern_part, actions)->Ok_0;
            let added = MergeAction::spec_parse(item)->Ok_0;
            Merge::scan(longer, i, pattern_part, actions) == Ok::<MergeView, ElaborationError>(
                MergeView { pattern_part: before.pattern_part, actions: before.actions.push(added) },
            )
        }),
    decreases n.children.len() - i,
{
    let len = n.children.len() as int;
    let gap = blanks.len() as int;
    if i < len {
        let c = n.children[i];
        assert(longer.children[i] == c);
        match c.rule {
            Rule::PatternPart => {
                match PatternPart::spec_parse(c) {
                    Ok(v) => {
                        lemma_merge_prefix(n, longer, blanks, item, i + 1, Some(v), actions);
                    },
                    Err(_) => {},
                }
            },
            Rule::MergeAction => {
                match MergeAction::spec_parse(c) {
                    Ok(v) => {
                        lemma_merge_prefix(
                            n,
                            longer,
                            blanks,
                            item,
                            i + 1,
                            pattern_part,
                            actions.push(v),
                        );
                    },
                    Err(_) => {},
                }
            },
            Rule::SP | Rule::MERGE => {
                lemma_merge_prefix(n, longer, blanks, item, i + 1, pattern_part, actions);
            },
            _ => {},
        }
    } else {
        assert forall|k: int| len <= k < len + gap implies set![Rule::SP, Rule::MERGE].contains(
            (#[trigger] longer.children[k]).rule,
        ) by {
            assert(longer.children[k] == blanks[k - len]);
        }
        lemma_merge_skips(longer, len, len + gap, pattern_part, actions);
        assert(longer.children[len + gap] == item);
        assert(longer.children.len() == len + gap + 1);
        let v = MergeAction::spec_parse(item)->Ok_0;
        assert(Merge::scan(longer, len + gap, pattern_part, actions)
            == Merge::scan(longer, len + gap + 1, pattern_part, actions.push(v)));
    }
}

/// The actions of a `MERGE` keep the order in which they were written. One more
/// `MergeAction` child after the children of a `Merge` node adds its
/// elaboration as the last action and changes nothing before it.
pub proof fn lemma_merge_appends_action(
    n: NodeView,
    longer: NodeView,
    blanks: Seq<NodeView>,
    item: NodeView,
)
    requires
        longer.rule == n.rule && longer.start == n.start && longer.end == n.end,
        longer.children == n.children + blanks + seq![item],
        each_rule_in(blanks, set![Rule::SP, Rule::MERGE]),
        item.rule == Rule::MergeAction,
        Merge::spec_parse(n) is Ok,
        MergeAction::spec_parse(item) is Ok,
    ensures
        ({
            let before = Merge::spec_parse(n)->Ok_0;
            let added = MergeAction::spec_parse(item)->Ok_0;
            let after = Merge::spec_parse(longer);
            &&& after is Ok
            &&& after->Ok_0.pattern_part == before.pattern_part
            &&& after->Ok_0.actions == before.actions.push(added)
        }),
{
    lemma_merge_prefix(n, longer, blanks, item, 0, None, Seq::empty());
}

proof fn lemma_pattern_skips(
    longer: NodeView,
    i: int,
    j: int,
    parts: Seq<PatternPartView>,
)
    requires
        0 <= i <= j <= longer.children.len(),
        forall|k: int| i <= k < j ==> set![Rule::SP].contains((#[trigger] longer.children[k]).rule),
    ensures
        Pattern::scan(longer, i, parts) == Pattern::scan(longer, j, parts),
    decreases j - i,
{
    if i < j {
        assert(set![Rule::SP].contains(longer.children[i].rule));
        lemma_pattern_skips(longer, i + 1, j, parts);
    }
}

proof fn lemma_pattern_prefix(
    n: NodeView,
    longer: NodeView,
    blanks: Seq<NodeView>,
    item: NodeView,
    i: int,
    parts: Seq<PatternPartView>,
)
    requires
        0 <= i <= n.children.len(),
        longer.rule == n.rule && longer.start == n.start && longer.end == n.end,
        longer.children == n.children + blanks + seq![item],
        each_rule_in(blanks, set![Rule::SP]),
        item.rule == Rule::PatternPart,
        Pattern::scan(n, i, parts) is Ok,
        PatternPart::spec_parse(item) is Ok,
    ensures
        ({
            let before = Pattern::scan(n, i, parts)->Ok_0;
            let added = PatternPart::spec_parse(item)->Ok_0;
            Pattern::scan(longer, i, parts) == Ok::<PatternView, ElaborationError>(
                PatternView { parts: before.parts.push(added) },
            )
        }),
    decreases n.children.len() - i,
{
    let len = n.children.len() as int;
    let gap = blanks.len() as int;
    if i < len {
        let c = n.children[i];
        assert(longer.children[i] == c);
        match c.rule {
            Rule::PatternPart => {
                match PatternPart::spec_parse(c) {
                    Ok(v) => {
                        lemma_pattern_prefix(n, longer, blanks, item, i + 1, parts.push(v));
                    },
                    Err(_) => {},
                }
            },
            Rule::SP => {
                lemma_pattern_prefix(n, longer, blanks, item, i + 1, parts);
            },
            _ => {},
        }
    } else {
        assert forall|k: int| len <= k < len + gap implies set![Rule::SP].contains(
            (#[trigger] longer.children[k]).rule,
        ) by {
            assert(longer.children[k] == blanks[k - len]);
        }
        lemma_pattern_skips(longer, len, len + gap, parts);
        assert(longer.children[len + gap] == item);
        assert(longer.children.len() == len + gap + 1);
        let v = PatternPart::spec_parse(item)->Ok_0;
        assert(Pattern::scan(longer, len + gap, parts)
            == Pattern::scan(longer, len + gap + 1, parts.push(v)));
    }
}

/// The parts of a pattern keep the order in which they were written. One more
/// `PatternPart` child after the children of a `Pattern` node adds its
/// elaboration as the last part.
pub proof fn lemma_pattern_appends_part(
    n: NodeView,
    longer: NodeView,
    blanks: Seq<NodeView>,
    item: NodeView,
)
    requires
        longer.rule == n.rule && longer.start == n.start && longer.end == n.end,
        longer.children == n.children + blanks + seq![item],
        each_rule_in(blanks, set![Rule::SP]),
        item.rule == Rule::PatternPart,
        Pattern::spec_parse(n) is Ok,
        PatternPart::spec_parse(item) is Ok,
    ensures
        ({
            let before = Pattern::spec_parse(n)->Ok_0;
            let added = PatternPart::spec_parse(item)->Ok_0;
            let after = Pattern::spec_parse(longer);
            &&& after is Ok
            &&& after->Ok_0.parts == before.parts.push(added)
        }),
{
    lemma_pattern_prefix(n, longer, blanks, item, 0, Seq::empty());
}

proof fn lemma_path_skips(
    longer: NodeView,
    i: int,
    j: int,
    node_pattern: Option<NodePatternView>,
    relationship_patterns: Seq<(RelationshipPatternView, NodePatternView)>,
)
    requires
        0 <= i <= j <= longer.children.len(),
        forall|k: int| i <= k < j ==> set![Rule::SP].contains((#[trigger] longer.children[k]).rule),
    ensures
        PatternElement::scan(longer, i, node_pattern, relationship_patterns)
            == PatternElement::scan(longer, j, node_pattern, relationship_patterns),
    decreases j - i,
{
    if i < j {
        assert(set![Rule::SP].contains(longer.children[i].rule));
        lemma_path_skips(longer, i + 1, j, node_pattern, relationship_patterns);
    }
}

proof fn lemma_path_prefix(
    n: NodeView,
    longer: NodeView,
    blanks: Seq<NodeView>,
    item: NodeView,
    i: int,
    node_pattern: Option<NodePatternView>,
    relationship_patterns: Seq<(RelationshipPatternView, NodePatternView)>,
)
    requires
        0 <= i <= n.children.len(),
        longer.rule == n.rule && longer.start == n.start && longer.end == n.end,
        longer.children == n.children + blanks + seq![item],
        each_rule_in(blanks, set![Rule::SP]),
        forall|k: int| i <= k < n.children.len() ==> (#[trigger] n.children[k]).rule != Rule::PatternElement,
        item.rule == Rule::PatternElementChain,
        PatternElement::scan(n, i, node_pattern, relationship_patterns) is Ok,
        spec_parse_pattern_element_chain(item) is Ok,
    ensures
        ({
            let before = PatternElement::scan(n, i, node_pattern, relationship_patterns)->Ok_0;
            let added = spec_parse_pattern_element_chain(item)->Ok_0;
            PatternElement::scan(longer, i, node_pattern, relationship_patterns)
                == Ok::<PatternElementView, ElaborationError>(
                    PatternElementView { node_pattern: before.node_pattern, relationship_patterns: before.relationship_patterns.push(added) },
                )
        }),
    decreases n.children.len() - i,
{
    let len = n.children.len() as int;
    let gap = blanks.len() as int;
    if i < len {
        let c = n.children[i];
        assert(longer.children[i] == c);
        match c.rule {
            Rule::NodePattern => {
                match NodePattern::spec_parse(c) {
                    Ok(v) => {
                        lemma_path_prefix(
                            n,
                            longer,
                            blanks,
                            item,
                            i + 1,
                            Some(v),
                            relationship_patterns,
                        );
                    },
                    Err(_) => {},
                }
            },
            Rule::PatternElementChain => {
                match spec_parse_pattern_element_chain(c) {
                    Ok(v) => {
                        lemma_path_prefix(
                            n,
                            longer,
                            blanks,
                            item,
                            i + 1,
                            node_pattern,
                            relationship_patterns.push(v),
                        );
                    },
                    Err(_) => {},
                }
            },
            Rule::SP => {
                lemma_path_prefix(
                    n,
                    longer,
                    blanks,
                    item,
                    i + 1,
                    node_pattern,
                    relationship_patterns,
                );
            },
            _ => {},
        }
    } else {
        assert forall|k: int| len <= k < len + gap implies set![Rule::SP].contains(
            (#[trigger] longer.children[k]).rule,
        ) by {
            assert(longer.children[k] == blanks[k - len]);
        }
        lemma_path_skips(longer, len, len + gap, node_pattern, relationship_patterns);
        assert(longer.children[len + gap] == item);
        assert(longer.children.len() == len + gap + 1);
        let v = spec_parse_pattern_element_chain(item)->Ok_0;
        assert(PatternElement::scan(longer, len + gap, node_pattern, relationship_patterns)
            == PatternElement::scan(longer, len + gap + 1, node_pattern, relationship_patterns.push(v)));
    }
}

/// A path keeps the order in which it was written, whatever its length. Take a
/// `PatternElement` node without a parenthesised path inside. One more
/// `PatternElementChain` child after its children, with any blanks before it,
/// leaves the starting node and the steps as they were and adds the elaboration
/// of the new step as the last one.
pub proof fn lemma_path_appends_step(
    n: NodeView,
    longer: NodeView,
    blanks: Seq<NodeView>,
    item: NodeView,
)
    requires
        longer.rule == n.rule && longer.start == n.start && longer.end == n.end,
        longer.children == n.children + blanks + seq![item],
        each_rule_in(blanks, set![Rule::SP]),
        !has_rule(n.children, Rule::PatternElement),
        item.rule == Rule::PatternElementChain,
        PatternElement::spec_parse(n) is Ok,
        spec_parse_pattern_element_chain(item) is Ok,
    ensures
        ({
            let before = PatternElement::spec_parse(n)->Ok_0;
            let added = spec_parse_pattern_element_chain(item)->Ok_0;
            let after = PatternElement::spec_parse(longer);
            &&& after is Ok
            &&& after->Ok_0.node_pattern == before.node_pattern
            &&& after->Ok_0.relationship_patterns == before.relationship_patterns.push(added)
        }),
{
    lemma_path_prefix(n, longer, blanks, item, 0, None, Seq::empty());
}

proof fn lemma_list_literal_skips(
    longer: NodeView,
    i: int,
    j: int,
    expressions: Seq<ExpressionView>,
)
    requires
        0 <= i <= j <= longer.children.len(),
        forall|k: int| i <= k < j ==> set![Rule::SP].contains((#[trigger] longer.children[k]).rule),
    ensures
        scan_list_literal(longer, i, expressions) == scan_list_literal(longer, j, expressions),
    decreases j - i,
{
    if i < j {
        assert(set![Rule::SP].contains(longer.children[i].rule));
        lemma_list_literal_skips(longer, i + 1, j, expressions);
    }
}

proof fn lemma_list_literal_prefix(
    n: NodeView,
    longer: NodeView,
    blanks: Seq<NodeView>,
    item: NodeView,
    i: int,
    expressions: Seq<ExpressionView>,
)
    requires
        0 <= i <= n.children.len(),
        longer.rule == n.rule && longer.start == n.start && longer.end == n.end,
        longer.children == n.children + blanks + seq![item],
        each_rule_in(blanks, set![Rule::SP]),
        item.rule == Rule::Expression,
        scan_list_literal(n, i, expressions) is Ok,
        Expression::spec_parse(item) is Ok,
    ensures
        ({
            let before = scan_list_literal(n, i, expressions)->Ok_0;
            let added = Expression::spec_parse(item)->Ok_0;
            scan_list_literal(longer, i, expressions)
                == Ok::<Seq<ExpressionView>, ElaborationError>(before.push(added))
        }),
    decreases n.children.len() - i,
{
    let len = n.children.len() as int;
    let gap = blanks.len() as int;
    if i < len {
        let c = n.children[i];
        assert(longer.children[i] == c);
        match c.rule {
            Rule::Expression => {
                match Expression::spec_parse(c) {
                    Ok(v) => {
                        lemma_list_literal_prefix(
                            n,
                            longer,
                            blanks,
                            item,
                            i + 1,
                            expressions.push(v),
                        );
                    },
                    Err(_) => {},
                }
            },
            Rule::SP => {
                lemma_list_literal_prefix(n, longer, blanks, item, i + 1, expressions);
            },
            _ => {},
        }
    } else {
        assert forall|k: int| len <= k < len + gap implies set![Rule::SP].contains(
            (#[trigger] longer.children[k]).rule,
        ) by {
            assert(longer.children[k] == blanks[k - len]);
        }
        lemma_list_literal_skips(longer, len, len + gap, expressions);
        assert(longer.children[len + gap] == item);
        assert(longer.children.len() == len + gap + 1);
        let v = Expression::spec_parse(item)->Ok_0;
        assert(scan_list_literal(longer, len + gap, expressions)
            == scan_list_literal(longer, len + gap + 1, expressions.push(v)));
    }
}

/// A list literal keeps the order in which it was written. One more
/// `Expression` child after the children of a `ListLiteral` node adds its
/// elaboration as the last element.
pub proof fn lemma_list_literal_appends_element(
    n: NodeView,
    longer: NodeView,
    blanks: Seq<NodeView>,
    item: NodeView,
)
    requires
        longer.rule == n.rule && longer.start == n.start && longer.end == n.end,
        longer.children == n.children + blanks + seq![item],
        each_rule_in(blanks, set![Rule::SP]),
        item.rule == Rule::Expression,
        spec_parse_list_literal(n) is Ok,
        Expression::spec_parse(item) is Ok,
    ensures
        ({
            let before = spec_parse_list_literal(n)->Ok_0;
            let added = Expression::spec_parse(item)->Ok_0;
            let after = spec_parse_list_literal(longer);
            &&& after is Ok
            &&& after->Ok_0 == before.push(added)
        }),
{
    lemma_list_literal_prefix(n, longer, blanks, item, 0, Seq::empty());
}

} // verus!
