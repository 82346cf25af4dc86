use open_cypher::ast::cypher::{
    AddOrSubtractExpression, AndExpression, Atom, CaseExpression, ComparisonExpression, Expression,
    ListOperatorExpression, Literal, Match, MultiPartQuery, MultiplyDivideModuloExpression,
    MultiplyDivideModuloOperator, NodePattern, NotExpression, NumberLiteral, OrExpression, Pattern,
    PatternComprehension, PatternElement, PatternPart, PlusMinusOperator, PowerOfExpression,
    PropertyOrLabelsExpression, Query, RelationshipPattern, SingleQuery,
    StringListNullOperatorExpression, StringOperatorExpression, UnaryAddOrSubtractExpression,
    XorExpression,
};
use open_cypher::error::{ElaborationError, Fault, FaultKind, ParseError, SyntaxError, Unsupported};
use open_cypher::parser::atom::parse_case_alternative;
use open_cypher::parser::iso_39075::{GqlError, GqlSyntaxError};
use open_cypher::parser::literal::{
    parse_escaped_char, parse_list_literal, parse_map_literal, parse_string_literal, parse_string_text,
};
use open_cypher::parser::pattern::{parse_node_label, parse_node_labels, parse_variable};
use open_cypher::tree::{ParseNode, Rule};
use open_cypher::{parse_cypher, parse_gql};

fn shifted(mut node: ParseNode, by: usize) -> ParseNode {
    node.start += by;
    node.end += by;
    node.children = node.children.into_iter().map(|c| shifted(c, by)).collect();
    node
}

/// A node without children that matched `text`.
fn leaf(rule: Rule, text: &str) -> ParseNode {
    ParseNode { rule, text: text.to_string(), start: 0, end: text.len(), children: vec![] }
}

/// A node that matched its children one after the other.
fn branch(rule: Rule, children: Vec<ParseNode>) -> ParseNode {
    let mut text = String::new();
    let mut placed = Vec::new();
    for child in children {
        let at = text.len();
        text.push_str(&child.text);
        placed.push(shifted(child, at));
    }
    ParseNode { rule, end: text.len(), text, start: 0, children: placed }
}

fn sp() -> ParseNode {
    leaf(Rule::SP, " ")
}

fn fault(kind: FaultKind, rule: Rule, found: Rule, start: usize, end: usize) -> ElaborationError {
    ElaborationError::Internal(Fault { kind, rule, found, start, end })
}

fn atom_of(child: ParseNode) -> ParseNode {
    branch(Rule::Atom, vec![child])
}

fn operand_of(atom: ParseNode) -> ParseNode {
    branch(Rule::PropertyOrLabelsExpression, vec![atom])
}

fn signed_of(operand: ParseNode) -> ParseNode {
    branch(
        Rule::UnaryAddOrSubtractExpression,
        vec![branch(Rule::StringListNullOperatorExpression, vec![operand])],
    )
}

fn power_of(atom: ParseNode) -> ParseNode {
    branch(Rule::PowerOfExpression, vec![signed_of(operand_of(atom))])
}

fn product_of(atom: ParseNode) -> ParseNode {
    branch(Rule::MultiplyDivideModuloExpression, vec![power_of(atom)])
}

fn comparison_of(atom: ParseNode) -> ParseNode {
    branch(
        Rule::ComparisonExpression,
        vec![branch(Rule::AddOrSubtractExpression, vec![product_of(atom)])],
    )
}

fn expression_of(atom: ParseNode) -> ParseNode {
    branch(
        Rule::Expression,
        vec![branch(
            Rule::OrExpression,
            vec![branch(
                Rule::XorExpression,
                vec![branch(Rule::AndExpression, vec![branch(Rule::NotExpression, vec![comparison_of(atom)])])],
            )],
        )],
    )
}

fn variable_atom(name: &str) -> ParseNode {
    atom_of(leaf(Rule::Variable, name))
}

fn integer_atom(text: &str) -> ParseNode {
    atom_of(branch(Rule::Literal, vec![branch(Rule::NumberLiteral, vec![leaf(Rule::IntegerLiteral, text)])]))
}

fn integer_power(value: i64) -> PowerOfExpression {
    PowerOfExpression(vec![UnaryAddOrSubtractExpression {
        negate: false,
        expression: StringListNullOperatorExpression {
            expression: PropertyOrLabelsExpression {
                atom: Atom::Literal(Literal::Number(NumberLiteral::Integer(value))),
                property_lookup: vec![],
                node_labels: vec![],
            },
            operations: vec![],
        },
    }])
}

fn integer_product(value: i64) -> MultiplyDivideModuloExpression {
    MultiplyDivideModuloExpression { expression: integer_power(value), operations: vec![] }
}

fn expression_value(atom: Atom) -> Expression {
    OrExpression(vec![XorExpression(vec![AndExpression(vec![NotExpression {
        not: false,
        expression: ComparisonExpression {
            expression: AddOrSubtractExpression {
                expression: MultiplyDivideModuloExpression {
                    expression: PowerOfExpression(vec![UnaryAddOrSubtractExpression {
                        negate: false,
                        expression: StringListNullOperatorExpression {
                            expression: PropertyOrLabelsExpression { atom, property_lookup: vec![], node_labels: vec![] },
                            operations: vec![],
                        },
                    }]),
                    operations: vec![],
                },
                operations: vec![],
            },
            comparisons: vec![],
        },
    }])])])
}

fn variable_value(name: &str) -> Expression {
    expression_value(Atom::Variable(name.to_string()))
}

fn node_pattern(name: &str) -> ParseNode {
    branch(Rule::NodePattern, vec![leaf(Rule::Variable, name)])
}

fn pattern_of(name: &str) -> ParseNode {
    branch(
        Rule::Pattern,
        vec![branch(
            Rule::PatternPart,
            vec![branch(Rule::AnonymousPatternPart, vec![branch(Rule::PatternElement, vec![node_pattern(name)])])],
        )],
    )
}

fn return_of(name: &str) -> ParseNode {
    branch(
        Rule::Return,
        vec![
            leaf(Rule::RETURN, "RETURN"),
            branch(
                Rule::ProjectionBody,
                vec![
                    sp(),
                    branch(
                        Rule::ProjectionItems,
                        vec![branch(Rule::ProjectionItem, vec![expression_of(variable_atom(name))])],
                    ),
                ],
            ),
        ],
    )
}

fn single_part_of(name: &str) -> ParseNode {
    branch(Rule::SinglePartQuery, vec![return_of(name)])
}

fn root_of(single_query_child: ParseNode) -> ParseNode {
    branch(
        Rule::Cypher,
        vec![branch(
            Rule::Statement,
            vec![branch(
                Rule::Query,
                vec![branch(Rule::RegularQuery, vec![branch(Rule::SingleQuery, vec![single_query_child])])],
            )],
        )],
    )
}

#[test]
fn leaf_has_no_children() {
    let n = ParseNode::leaf(Rule::Variable, "abc".to_string(), 3, 6);
    assert_eq!(n, ParseNode { rule: Rule::Variable, text: "abc".to_string(), start: 3, end: 6, children: vec![] });
}

#[test]
fn syntax_error_is_handed_on() {
    let e = SyntaxError { rule: Rule::StringSingleTextChar, start: 11, end: 11 };
    assert_eq!(parse_cypher(Err(e)), Err(ParseError::Syntax(e)));
}

#[test]
fn tree_is_elaborated() {
    let q = parse_cypher(Ok(root_of(single_part_of("n")))).expect("a query");
    match q {
        Query::RegularQuery(r) => match r.query {
            SingleQuery::SinglePartQuery(s) => {
                assert!(s.reading_clauses.is_empty());
                assert!(s.updating_clauses.is_empty());
                let body = s.return_.expect("a RETURN");
                assert!(!body.distinct);
                assert_eq!(body.items.items.len(), 1);
            },
            other => panic!("{:?}", other),
        },
        other => panic!("{:?}", other),
    }
}

#[test]
fn elaboration_error_is_lifted() {
    let f = Fault { kind: FaultKind::MissingChild, rule: Rule::Match, found: Rule::Match, start: 1, end: 2 };
    assert_eq!(ParseError::from_elaboration(ElaborationError::Internal(f)), ParseError::Internal(f));
    let u = Unsupported { rule: Rule::PatternComprehension, start: 3, end: 4 };
    assert_eq!(ParseError::from_elaboration(ElaborationError::Unsupported(u)), ParseError::Unsupported(u));
}

#[test]
fn root_must_be_a_cypher_node() {
    let tree = branch(Rule::Statement, vec![]);
    assert_eq!(
        parse_cypher(Ok(tree)),
        Err(ParseError::Internal(Fault {
            kind: FaultKind::UnexpectedRule,
            rule: Rule::Cypher,
            found: Rule::Statement,
            start: 0,
            end: 0,
        }))
    );
}

#[test]
fn root_without_a_query_is_a_fault() {
    for tree in [
        branch(Rule::Cypher, vec![]),
        branch(Rule::Cypher, vec![branch(Rule::Statement, vec![])]),
        branch(Rule::Cypher, vec![branch(Rule::Statement, vec![branch(Rule::Query, vec![])])]),
    ] {
        assert_eq!(
            Query::parse(&tree),
            Err(fault(FaultKind::MissingChild, Rule::Cypher, Rule::Cypher, 0, 0))
        );
    }
}

#[test]
fn later_statement_is_taken_when_the_first_is_empty() {
    let full = root_of(single_part_of("n"));
    let statement = full.children.into_iter().next().expect("a statement");
    let tree = branch(Rule::Cypher, vec![branch(Rule::Statement, vec![]), statement]);
    assert!(Query::parse(&tree).is_ok());
}

#[test]
fn blank_before_the_statement_is_a_fault() {
    let full = root_of(single_part_of("n"));
    let statement = full.children.into_iter().next().expect("a statement");
    let tree = branch(Rule::Cypher, vec![sp(), statement]);
    assert_eq!(Query::parse(&tree), Err(fault(FaultKind::UnexpectedRule, Rule::Cypher, Rule::SP, 0, 1)));
}

#[test]
fn match_needs_a_pattern() {
    let tree = branch(Rule::Match, vec![leaf(Rule::MATCH, "MATCH"), sp()]);
    assert_eq!(Match::parse(&tree), Err(fault(FaultKind::MissingChild, Rule::Match, Rule::Match, 0, 6)));
}

#[test]
fn last_pattern_of_a_match_is_kept() {
    let tree = branch(Rule::Match, vec![leaf(Rule::MATCH, "MATCH"), pattern_of("a"), pattern_of("b")]);
    let m = Match::parse(&tree).expect("a match");
    assert_eq!(
        m.pattern,
        Pattern {
            parts: vec![PatternPart {
                variable: None,
                pattern_element: PatternElement {
                    node_pattern: NodePattern { variable: Some("b".to_string()), node_labels: vec![], properties: None },
                    relationship_patterns: vec![],
                },
            }],
        }
    );
    assert_eq!(m.where_, None);
    assert!(!m.optional);
}

#[test]
fn unexpected_child_is_a_fault_at_that_child() {
    let tree = branch(Rule::Pattern, vec![sp(), leaf(Rule::XOR, "XOR")]);
    assert_eq!(Pattern::parse(&tree), Err(fault(FaultKind::UnexpectedRule, Rule::Pattern, Rule::XOR, 1, 4)));
}

#[test]
fn node_of_another_rule_is_a_fault() {
    let tree = pattern_of("a");
    assert_eq!(Match::parse(&tree), Err(fault(FaultKind::UnexpectedRule, Rule::Match, Rule::Pattern, 0, 1)));
    assert_eq!(
        parse_variable(&leaf(Rule::Parameter, "$p")),
        Err(fault(FaultKind::UnexpectedRule, Rule::Variable, Rule::Parameter, 0, 2))
    );
    assert_eq!(parse_variable(&leaf(Rule::Variable, "v")), Ok("v".to_string()));
}

#[test]
fn first_fault_in_source_order_is_reported() {
    let broken_part = branch(Rule::PatternPart, vec![leaf(Rule::Variable, "p")]);
    let tree = branch(Rule::Pattern, vec![broken_part, leaf(Rule::XOR, "XOR")]);
    assert_eq!(Pattern::parse(&tree), Err(fault(FaultKind::MissingChild, Rule::PatternPart, Rule::PatternPart, 0, 1)));
    let tree = branch(Rule::Pattern, vec![leaf(Rule::XOR, "XOR"), branch(Rule::PatternPart, vec![])]);
    assert_eq!(Pattern::parse(&tree), Err(fault(FaultKind::UnexpectedRule, Rule::Pattern, Rule::XOR, 0, 3)));
}

#[test]
fn multi_part_query_needs_a_part() {
    let tree = branch(Rule::MultiPartQuery, vec![single_part_of("n")]);
    assert_eq!(
        MultiPartQuery::parse(&tree),
        Err(fault(FaultKind::MissingChild, Rule::MultiPartQuery, Rule::MultiPartQuery, 0, 8))
    );
    let tree = branch(Rule::MultiPartQuery, vec![]);
    assert_eq!(
        MultiPartQuery::parse(&tree),
        Err(fault(FaultKind::MissingChild, Rule::MultiPartQuery, Rule::MultiPartQuery, 0, 0))
    );
}

#[test]
fn multi_part_query_with_one_part() {
    let with = branch(
        Rule::With,
        vec![
            leaf(Rule::WITH, "WITH"),
            branch(
                Rule::ProjectionBody,
                vec![
                    sp(),
                    branch(
                        Rule::ProjectionItems,
                        vec![branch(Rule::ProjectionItem, vec![expression_of(variable_atom("a"))])],
                    ),
                ],
            ),
        ],
    );
    let tree = branch(Rule::MultiPartQuery, vec![with, sp(), single_part_of("a")]);
    let m = MultiPartQuery::parse(&tree).expect("a query");
    assert_eq!(m.parts.len(), 1);
    assert!(m.parts[0].reading_clauses.is_empty());
    assert!(m.parts[0].updating_clauses.is_empty());
    assert_eq!(m.parts[0].with.where_, None);
}

#[test]
fn product_stays_under_sum_in_a_bare_tree() {
    let two_times_three = branch(
        Rule::MultiplyDivideModuloExpression,
        vec![power_of(integer_atom("2")), leaf(Rule::MULTIPLY, "*"), power_of(integer_atom("3"))],
    );
    let tree = branch(
        Rule::AddOrSubtractExpression,
        vec![product_of(integer_atom("1")), leaf(Rule::PLUS, "+"), two_times_three],
    );
    assert_eq!(
        AddOrSubtractExpression::parse(&tree),
        Ok(AddOrSubtractExpression {
            expression: integer_product(1),
            operations: vec![(
                PlusMinusOperator::Plus,
                MultiplyDivideModuloExpression {
                    expression: integer_power(2),
                    operations: vec![(MultiplyDivideModuloOperator::Multiply, integer_power(3))],
                },
            )],
        })
    );
}

#[test]
fn operand_after_no_operator_replaces_the_first() {
    let tree = branch(
        Rule::AddOrSubtractExpression,
        vec![
            product_of(integer_atom("1")),
            product_of(integer_atom("2")),
            leaf(Rule::MINUS, "-"),
            leaf(Rule::PLUS, "+"),
            product_of(integer_atom("3")),
            leaf(Rule::MINUS, "-"),
        ],
    );
    assert_eq!(
        AddOrSubtractExpression::parse(&tree),
        Ok(AddOrSubtractExpression {
            expression: integer_product(2),
            operations: vec![(PlusMinusOperator::Plus, integer_product(3))],
        })
    );
    let tree = branch(Rule::AddOrSubtractExpression, vec![leaf(Rule::PLUS, "+")]);
    assert_eq!(
        AddOrSubtractExpression::parse(&tree),
        Err(fault(FaultKind::MissingChild, Rule::AddOrSubtractExpression, Rule::AddOrSubtractExpression, 0, 1))
    );
}

#[test]
fn sign_ends_at_the_operand() {
    let operand = branch(Rule::StringListNullOperatorExpression, vec![operand_of(integer_atom("5"))]);
    let tree = branch(
        Rule::UnaryAddOrSubtractExpression,
        vec![leaf(Rule::MINUS, "-"), leaf(Rule::PLUS, "+"), sp(), operand, leaf(Rule::MINUS, "-"), leaf(Rule::XOR, "XOR")],
    );
    let u = UnaryAddOrSubtractExpression::parse(&tree).expect("an operand");
    assert!(u.negate);
    let tree = branch(Rule::UnaryAddOrSubtractExpression, vec![leaf(Rule::MINUS, "-")]);
    assert_eq!(
        UnaryAddOrSubtractExpression::parse(&tree),
        Err(fault(
            FaultKind::MissingChild,
            Rule::UnaryAddOrSubtractExpression,
            Rule::UnaryAddOrSubtractExpression,
            0,
            1
        ))
    );
}

#[test]
fn blank_among_postfix_tests_is_a_fault() {
    let tree = branch(Rule::StringListNullOperatorExpression, vec![operand_of(variable_atom("a")), sp()]);
    assert_eq!(
        StringListNullOperatorExpression::parse(&tree),
        Err(fault(FaultKind::UnexpectedRule, Rule::StringListNullOperatorExpression, Rule::SP, 1, 2))
    );
}

#[test]
fn string_test_needs_its_operator_first() {
    let tree = branch(Rule::StringOperatorExpression, vec![sp(), operand_of(variable_atom("a"))]);
    assert_eq!(
        StringOperatorExpression::parse(&tree),
        Err(fault(FaultKind::MissingChild, Rule::StringOperatorExpression, Rule::StringOperatorExpression, 0, 2))
    );
}

#[test]
fn list_test_without_an_expression_is_a_fault() {
    let tree = branch(Rule::ListOperatorExpression, vec![sp()]);
    assert_eq!(
        ListOperatorExpression::parse(&tree),
        Err(fault(FaultKind::MissingChild, Rule::ListOperatorExpression, Rule::ListOperatorExpression, 0, 1))
    );
    let tree = branch(Rule::ListOperatorExpression, vec![leaf(Rule::DOT_DOT, "..")]);
    assert_eq!(ListOperatorExpression::parse(&tree), Ok(ListOperatorExpression::Range(None, None)));
}

#[test]
fn expression_takes_operands_of_either_level() {
    let inner = |name: &str| {
        branch(
            Rule::XorExpression,
            vec![branch(Rule::AndExpression, vec![branch(Rule::NotExpression, vec![comparison_of(variable_atom(name))])])],
        )
    };
    let tree = branch(
        Rule::Expression,
        vec![
            inner("a"),
            branch(Rule::OrExpression, vec![inner("b"), sp(), leaf(Rule::OR, "OR"), sp(), inner("c")]),
            inner("d"),
        ],
    );
    let e = Expression::parse(&tree).expect("an expression");
    let names: Vec<Expression> = e.0.into_iter().map(|x| OrExpression(vec![x])).collect();
    assert_eq!(names, vec![variable_value("a"), variable_value("b"), variable_value("c"), variable_value("d")]);
    let tree = branch(Rule::Expression, vec![leaf(Rule::OR, "OR")]);
    assert_eq!(Expression::parse(&tree), Err(fault(FaultKind::UnexpectedRule, Rule::Expression, Rule::OR, 0, 2)));
}

#[test]
fn case_alternative_needs_when_before_then() {
    let tree = branch(
        Rule::CaseAlternative,
        vec![leaf(Rule::WHEN, "WHEN"), leaf(Rule::THEN, "THEN"), expression_of(variable_atom("a"))],
    );
    assert_eq!(
        parse_case_alternative(&tree),
        Err(fault(FaultKind::MissingChild, Rule::CaseAlternative, Rule::CaseAlternative, 0, 9))
    );
    let tree = branch(
        Rule::CaseAlternative,
        vec![
            leaf(Rule::WHEN, "WHEN"),
            expression_of(variable_atom("a")),
            leaf(Rule::THEN, "THEN"),
            expression_of(variable_atom("b")),
            leaf(Rule::XOR, "XOR"),
        ],
    );
    assert_eq!(parse_case_alternative(&tree), Ok((variable_value("a"), variable_value("b"))));
}

#[test]
fn case_default_follows_else() {
    let alternative = branch(
        Rule::CaseAlternative,
        vec![
            leaf(Rule::WHEN, "WHEN"),
            expression_of(variable_atom("a")),
            leaf(Rule::THEN, "THEN"),
            expression_of(variable_atom("b")),
        ],
    );
    let tree = branch(
        Rule::CaseExpression,
        vec![
            leaf(Rule::CASE, "CASE"),
            alternative,
            leaf(Rule::ELSE, "ELSE"),
            expression_of(variable_atom("c")),
            leaf(Rule::END, "END"),
        ],
    );
    assert_eq!(
        CaseExpression::parse(&tree),
        Ok(CaseExpression {
            expression: None,
            alternatives: vec![(variable_value("a"), variable_value("b"))],
            else_: Some(variable_value("c")),
        })
    );
}

#[test]
fn map_literal_pairs_keys_with_expressions() {
    let key = |name: &str| leaf(Rule::PropertyKeyName, name);
    let tree = branch(Rule::MapLiteral, vec![expression_of(variable_atom("a"))]);
    assert_eq!(parse_map_literal(&tree), Err(fault(FaultKind::MissingChild, Rule::MapLiteral, Rule::MapLiteral, 0, 1)));
    let tree = branch(Rule::MapLiteral, vec![key("k"), expression_of(variable_atom("a")), key("l")]);
    assert_eq!(parse_map_literal(&tree), Err(fault(FaultKind::MissingChild, Rule::MapLiteral, Rule::MapLiteral, 0, 3)));
    let tree = branch(
        Rule::MapLiteral,
        vec![key("k"), key("l"), expression_of(variable_atom("a")), key("l"), expression_of(variable_atom("b"))],
    );
    let map = parse_map_literal(&tree).expect("a map");
    assert_eq!(map.len(), 1);
    assert_eq!(map.entry(0), Some((&"l".to_string(), &variable_value("b"))));
    let empty = parse_map_literal(&branch(Rule::MapLiteral, vec![])).expect("a map");
    assert_eq!(empty.len(), 0);
}

#[test]
fn list_literal_keeps_its_order() {
    let tree = branch(
        Rule::ListLiteral,
        vec![expression_of(variable_atom("b")), sp(), expression_of(variable_atom("a"))],
    );
    assert_eq!(parse_list_literal(&tree), Ok(vec![variable_value("b"), variable_value("a")]));
}

#[test]
fn string_text_joins_its_characters() {
    let plain = |c: &str| leaf(Rule::StringSingleTextChar, c);
    let escaped = |text: &str| branch(Rule::StringSingleTextChar, vec![leaf(Rule::EscapedChar, text)]);
    let text = branch(Rule::StringSingleText, vec![plain("a"), escaped("\\n"), plain("b"), escaped("\\u0041")]);
    assert_eq!(parse_string_text(&text), Ok("a\nbA".to_string()));
    let literal = branch(Rule::StringLiteral, vec![text]);
    assert_eq!(parse_string_literal(&literal), Ok("a\nbA".to_string()));
    assert_eq!(
        parse_string_literal(&branch(Rule::StringLiteral, vec![])),
        Err(fault(FaultKind::MissingChild, Rule::StringLiteral, Rule::StringLiteral, 0, 0))
    );
    assert_eq!(parse_escaped_char(&leaf(Rule::EscapedChar, "\\t")), Ok("\t".to_string()));
    assert_eq!(
        parse_escaped_char(&leaf(Rule::EscapedChar, "\\q")),
        Err(fault(FaultKind::MalformedText, Rule::EscapedChar, Rule::EscapedChar, 0, 2))
    );
}

#[test]
fn labels_are_the_texts_of_their_names() {
    let label = |name: &str| branch(Rule::NodeLabel, vec![leaf(Rule::LabelName, name)]);
    let tree = branch(Rule::NodeLabels, vec![label("Person"), sp(), label("Admin")]);
    assert_eq!(parse_node_labels(&tree), Ok(vec!["Person".to_string(), "Admin".to_string()]));
    assert_eq!(
        parse_node_label(&branch(Rule::NodeLabel, vec![sp()])),
        Err(fault(FaultKind::MissingChild, Rule::NodeLabel, Rule::NodeLabel, 0, 1))
    );
}

#[test]
fn arrowheads_decide_the_direction() {
    let dash = || leaf(Rule::Dash, "-");
    let left = || leaf(Rule::LeftArrowHead, "<");
    let right = || leaf(Rule::RightArrowHead, ">");
    let parse = |children: Vec<ParseNode>| RelationshipPattern::parse(&branch(Rule::RelationshipPattern, children));
    assert_eq!(parse(vec![dash(), dash()]), Ok(RelationshipPattern::Undirected(None)));
    assert_eq!(parse(vec![left(), dash(), dash()]), Ok(RelationshipPattern::Left(None)));
    assert_eq!(parse(vec![dash(), dash(), right()]), Ok(RelationshipPattern::Right(None)));
    assert_eq!(parse(vec![left(), dash(), dash(), right()]), Ok(RelationshipPattern::LeftAndRight(None)));
    assert_eq!(parse(vec![]), Ok(RelationshipPattern::Undirected(None)));
}

#[test]
fn pattern_comprehension_is_reported_as_unsupported() {
    let tree = leaf(Rule::PatternComprehension, "[(a)-->(b) | b]");
    assert_eq!(
        PatternComprehension::parse(&tree),
        Err(ElaborationError::Unsupported(Unsupported { rule: Rule::PatternComprehension, start: 0, end: 15 }))
    );
    assert_eq!(
        PatternComprehension::parse(&leaf(Rule::Atom, "a")),
        Err(fault(FaultKind::UnexpectedRule, Rule::PatternComprehension, Rule::Atom, 0, 1))
    );
    let query = root_of(branch(
        Rule::SinglePartQuery,
        vec![branch(
            Rule::Return,
            vec![
                leaf(Rule::RETURN, "RETURN"),
                branch(
                    Rule::ProjectionBody,
                    vec![
                        sp(),
                        branch(
                            Rule::ProjectionItems,
                            vec![branch(Rule::ProjectionItem, vec![expression_of(atom_of(tree))])],
                        ),
                    ],
                ),
            ],
        )],
    ));
    assert_eq!(
        parse_cypher(Ok(query)),
        Err(ParseError::Unsupported(Unsupported { rule: Rule::PatternComprehension, start: 7, end: 22 }))
    );
}

#[test]
fn gql_text_is_checked_and_not_elaborated() {
    assert_eq!(parse_gql(Ok(())), Err(GqlError::Unsupported));
    let e = GqlSyntaxError { start: 4, end: 9 };
    assert_eq!(parse_gql(Err(e)), Err(GqlError::Syntax(e)));
}
