use open_cypher::ast::cypher::{
    AddOrSubtractExpression, AndExpression, Atom, ComparisonExpression, Expression,
    MultiplyDivideModuloExpression, NotExpression, OrExpression, PowerOfExpression,
    PropertyOrLabelsExpression, StringListNullOperatorExpression, UnaryAddOrSubtractExpression,
    XorExpression,
};
use open_cypher::ast::property_map::PropertyMap;

fn variable(name: &str) -> Expression {
    OrExpression(vec![XorExpression(vec![AndExpression(vec![NotExpression {
        not: false,
        expression: ComparisonExpression {
            expression: AddOrSubtractExpression {
                expression: MultiplyDivideModuloExpression {
                    expression: PowerOfExpression(vec![UnaryAddOrSubtractExpression {
                        negate: false,
                        expression: StringListNullOperatorExpression {
                            expression: PropertyOrLabelsExpression {
                                atom: Atom::Variable(name.to_string()),
                                property_lookup: vec![],
                                node_labels: vec![],
                            },
                            operations: vec![],
                        },
                    }]),
                    operations: vec![],
                },
                operations: vec![],
            },
            comparisons: vec![],
        },
    }])])])
}

#[test]
fn new_map_is_empty() {
    let map = PropertyMap::new();
    assert_eq!(map.len(), 0);
    assert_eq!(map.get(&"a".to_string()), None);
    assert_eq!(map.entry(0), None);
}

#[test]
fn insert_adds_at_the_end() {
    let map = PropertyMap::new().insert("b".to_string(), variable("x")).insert("a".to_string(), variable("y"));
    assert_eq!(map.len(), 2);
    assert_eq!(map.entry(0), Some((&"b".to_string(), &variable("x"))));
    assert_eq!(map.entry(1), Some((&"a".to_string(), &variable("y"))));
    assert_eq!(map.entry(2), None);
    assert_eq!(map.get(&"a".to_string()), Some(&variable("y")));
    assert_eq!(map.get(&"b".to_string()), Some(&variable("x")));
    assert_eq!(map.get(&"c".to_string()), None);
}

#[test]
fn insert_replaces_where_the_key_stands() {
    let map = PropertyMap::new()
        .insert("a".to_string(), variable("x"))
        .insert("b".to_string(), variable("y"))
        .insert("a".to_string(), variable("z"));
    assert_eq!(map.len(), 2);
    assert_eq!(map.entry(0), Some((&"a".to_string(), &variable("z"))));
    assert_eq!(map.entry(1), Some((&"b".to_string(), &variable("y"))));
    assert_eq!(map.get(&"a".to_string()), Some(&variable("z")));
}

#[test]
fn keys_are_told_apart_exactly() {
    let map = PropertyMap::new()
        .insert("a".to_string(), variable("x"))
        .insert("A".to_string(), variable("y"))
        .insert("".to_string(), variable("z"))
        .insert("a ".to_string(), variable("w"));
    assert_eq!(map.len(), 4);
    assert_eq!(map.get(&"A".to_string()), Some(&variable("y")));
    assert_eq!(map.get(&"".to_string()), Some(&variable("z")));
    assert_eq!(map.get(&"a ".to_string()), Some(&variable("w")));
}
