//! Elaboration of literals: strings with their escape sequences, numbers, maps
//! and lists.

use vstd::prelude::*;

use crate::ast::cypher::{Expression, Literal, NumberLiteral};
use crate::ast::model::{ExpressionView, LiteralView, NumberLiteralView, view_expression_seq};
use crate::ast::property_map::{PropertyMap, PropertyMapView};
use crate::decode::{
    boolean_value, decode_escape, escape_value, integer_value, is_float_lexeme,
    matches_float_lexeme, parse_boolean, parse_integer,
};
use crate::error::{
    Elaborated, agrees, agrees_by, fault_malformed, fault_missing, fault_unexpected, malformed,
    missing, unexpected, view_option,
};
use crate::parser::laws::lemma_map_literal_keys_are_distinct;
use crate::tree::{NodeView, ParseNode, Rule, lemma_children};

verus! {

impl Literal {
    /// The elaboration of a `Literal` node by its first child: a string is decoded,
    /// a number is read, a boolean must be spelled `true` or `false`, `NULL` is the
    /// null literal, and a map or a list keeps its expressions unevaluated.
    pub open spec fn spec_parse(n: NodeView) -> Elaborated<LiteralView>
        decreases n, n.children.len() + 1,
    {
        if n.rule != Rule::Literal {
            Err(unexpected(Rule::Literal, n))
        } else if n.children.len() == 0 {
            Err(missing(n.rule, n))
        } else {
            let c = n.children[0];
            match c.rule {
                Rule::StringLiteral => match spec_parse_string_literal(c) {
                    Ok(v) => Ok(LiteralView::String(v)),
                    Err(e) => Err(e),
                },
                Rule::NumberLiteral => match NumberLiteral::spec_parse(c) {
                    Ok(v) => Ok(LiteralView::Number(v)),
                    Err(e) => Err(e),
                },
                Rule::BooleanLiteral => match boolean_value(c.text) {
                    Some(b) => Ok(LiteralView::Boolean(b)),
                    None => Err(malformed(n.rule, c)),
                },
                Rule::NULL => Ok(LiteralView::Null),
                Rule::MapLiteral => match spec_parse_map_literal(c) {
                    Ok(v) => Ok(LiteralView::MapLiteral(v)),
                    Err(e) => Err(e),
                },
                Rule::ListLiteral => match spec_parse_list_literal(c) {
                    Ok(v) => Ok(LiteralView::ListLiteral(v)),
                    Err(e) => Err(e),
                },
                _ => Err(unexpected(n.rule, c)),
            }
        }
    }

    /// Elaborates a `Literal` node by its first child: a string is decoded, a
    /// number is read, a boolean must be spelled `true` or `false`, `NULL` is the
    /// null literal, and a map or a list keeps its expressions unevaluated.
    pub fn parse(n: &ParseNode) -> (r: Elaborated<Literal>)
        ensures
            agrees(r, Literal::spec_parse(n@)),
        decreases n,
    {
        match n.rule {
            Rule::Literal => {},
            _ => {
                return Err(fault_unexpected(Rule::Literal, n));
            },
        }
        proof {
            lemma_children(*n);
        }
        if n.children.len() == 0 {
            return Err(fault_missing(n.rule, n));
        }
        let c = &n.children[0];
        match c.rule {
            Rule::StringLiteral => {
                return match parse_string_literal(c) {
                    Ok(v) => Ok(Literal::String(v)),
                    Err(e) => Err(e),
                };
            },
            Rule::NumberLiteral => {
                return match NumberLiteral::parse(c) {
                    Ok(v) => Ok(Literal::Number(v)),
                    Err(e) => Err(e),
                };
            },
            Rule::BooleanLiteral => {
                return match parse_boolean(c.text.as_str()) {
                    Some(b) => Ok(Literal::Boolean(b)),
                    None => Err(fault_malformed(n.rule, c)),
                };
            },
            Rule::NULL => {
                return Ok(Literal::Null);
            },
            Rule::MapLiteral => {
                return match parse_map_literal(c) {
                    Ok(v) => Ok(Literal::MapLiteral(v)),
                    Err(e) => Err(e),
                };
            },
            Rule::ListLiteral => {
                return match parse_list_literal(c) {
                    Ok(v) => Ok(Literal::ListLiteral(v)),
                    Err(e) => Err(e),
                };
            },
            _ => {
                return Err(fault_unexpected(n.rule, c));
            },
        }
    }
}

/// The elaboration of a `StringLiteral` node: the decoded text between its
/// quotes, single or double.
pub open spec fn spec_parse_string_literal(n: NodeView) -> Elaborated<Seq<char>>
    decreases n, n.children.len() + 1,
{
    if n.rule != Rule::StringLiteral {
        Err(unexpected(Rule::StringLiteral, n))
    } else if n.children.len() == 0 {
        Err(missing(n.rule, n))
    } else {
        let c = n.children[0];
        match c.rule {
            Rule::StringDoubleText | Rule::StringSingleText => match spec_parse_string_text(c) {
                Ok(v) => Ok(v),
                Err(e) => Err(e),
            },
            _ => Err(unexpected(n.rule, c)),
        }
    }
}

/// Elaborates a `StringLiteral` node: the decoded text between its quotes,
/// single or double.
pub fn parse_string_literal(n: &ParseNode) -> (r: Elaborated<String>)
    ensures
        agrees(r, spec_parse_string_literal(n@)),
    decreases n,
{
    match n.rule {
        Rule::StringLiteral => {},
        _ => {
            return Err(fault_unexpected(Rule::StringLiteral, n));
        },
    }
    proof {
        lemma_children(*n);
    }
    if n.children.len() == 0 {
        return Err(fault_missing(n.rule, n));
    }
    let c = &n.children[0];
    match c.rule {
        Rule::StringDoubleText | Rule::StringSingleText => {
            return match parse_string_text(c) {
                Ok(v) => Ok(v),
                Err(e) => Err(e),
            };
        },
        _ => {
            return Err(fault_unexpected(n.rule, c));
        },
    }
}

/// The elaboration of the text between the quotes of a string literal: what its
/// character children stand for, joined in order.
pub open spec fn spec_parse_string_text(n: NodeView) -> Elaborated<Seq<char>>
    decreases n, n.children.len() + 1,
{
    if n.rule != Rule::StringDoubleText && n.rule != Rule::StringSingleText {
        Err(unexpected(Rule::StringDoubleText, n))
    } else {
        scan_string_text(n, 0, Seq::empty())
    }
}

/// What [`spec_parse_string_text`] yields once the children before position `i`
/// have been taken in, with what was gathered from them.
pub open spec fn scan_string_text(n: NodeView, i: int, text: Seq<char>) -> Elaborated<Seq<char>>
    decreases n, n.children.len() - i,
{
    if !(0 <= i < n.children.len()) {
        Ok(text)
    } else {
        let c = n.children[i];
        match c.rule {
            Rule::StringDoubleTextChar | Rule::StringSingleTextChar => match spec_parse_string_text_char(c) {
                Ok(v) => scan_string_text(n, i + 1, text + v),
                Err(e) => Err(e),
            },
            Rule::SP => scan_string_text(n, i + 1, text),
            _ => Err(unexpected(n.rule, c)),
        }
    }
}

/// Elaborates the text between the quotes of a string literal: what its
/// character children stand for, joined in order.
pub fn parse_string_text(n: &ParseNode) -> (r: Elaborated<String>)
    ensures
        agrees(r, spec_parse_string_text(n@)),
    decreases n,
{
    match n.rule {
        Rule::StringDoubleText | Rule::StringSingleText => {},
        _ => {
            return Err(fault_unexpected(Rule::StringDoubleText, n));
        },
    }
    let mut text: String = String::new();
    let mut i: usize = 0;
    while i < n.children.len()
        invariant
            i <= n.children.len(),
            spec_parse_string_text(n@) == scan_string_text(n@, i as int, text@),
        decreases n.children.len() - i,
    {
        proof {
            lemma_children(*n);
        }
        let c = &n.children[i];
        match c.rule {
            Rule::StringDoubleTextChar | Rule::StringSingleTextChar => match parse_string_text_char(c) {
                Ok(v) => {
                    text.append(v.as_str());
                },
                Err(e) => {
                    return Err(e);
                },
            },
            Rule::SP => {},
            _ => {
                return Err(fault_unexpected(n.rule, c));
            },
        }
        i += 1;
    }
    proof {
        lemma_children(*n);
    }
    Ok(text)
}

/// The elaboration of one character of a string literal: the character an
/// `EscapedChar` child stands for, or, without a child, the node's own text.
pub open spec fn spec_parse_string_text_char(n: NodeView) -> Elaborated<Seq<char>>
    decreases n, n.children.len() + 1,
{
    if n.rule != Rule::StringDoubleTextChar && n.rule != Rule::StringSingleTextChar {
        Err(unexpected(Rule::StringDoubleTextChar, n))
    } else if n.children.len() == 0 {
        Ok(n.text)
    } else {
        let c = n.children[0];
        match c.rule {
            Rule::EscapedChar => match spec_parse_escaped_char(c) {
                Ok(v) => Ok(v),
                Err(e) => Err(e),
            },
            _ => Err(unexpected(n.rule, c)),
        }
    }
}

/// Elaborates one character of a string literal: the character an `EscapedChar`
/// child stands for, or, without a child, the node's own text.
pub fn parse_string_text_char(n: &ParseNode) -> (r: Elaborated<String>)
    ensures
        agrees(r, spec_parse_string_text_char(n@)),
    decreases n,
{
    match n.rule {
        Rule::StringDoubleTextChar | Rule::StringSingleTextChar => {},
        _ => {
            return Err(fault_unexpected(Rule::StringDoubleTextChar, n));
        },
    }
    proof {
        lemma_children(*n);
    }
    if n.children.len() == 0 {
        return Ok(n.text.clone());
    }
    let c = &n.children[0];
    match c.rule {
        Rule::EscapedChar => {
            return match parse_escaped_char(c) {
                Ok(v) => Ok(v),
                Err(e) => Err(e),
            };
        },
        _ => {
            return Err(fault_unexpected(n.rule, c));
        },
    }
}

/// What an `EscapedChar` node stands for: the one character that its text
/// denotes as an escape sequence. Text that denotes none is malformed.
pub open spec fn spec_parse_escaped_char(n: NodeView) -> Elaborated<Seq<char>> {
    if n.rule != Rule::EscapedChar {
        Err(unexpected(Rule::EscapedChar, n))
    } else {
        match escape_value(n.text) {
            Some(c) => Ok(seq![c]),
            None => Err(malformed(n.rule, n)),
        }
    }
}

/// Decodes an `EscapedChar` node to the one character its escape sequence
/// denotes. A sequence that denotes none is malformed text.
pub fn parse_escaped_char(n: &ParseNode) -> (r: Elaborated<String>)
    ensures
        agrees(r, spec_parse_escaped_char(n@)),
{
    match n.rule {
        Rule::EscapedChar => {},
        _ => {
            return Err(fault_unexpected(Rule::EscapedChar, n));
        },
    }
    match decode_escape(n.text.as_str()) {
        Some(s) => {
            assert(s@ =~= seq![s@[0]]);
            Ok(s)
        },
        None => Err(fault_malformed(n.rule, n)),
    }
}

impl NumberLiteral {
    /// The elaboration of a `NumberLiteral` node by its first child that is not
    /// blank. An integer is read from its text by value; text that is no 64-bit
    /// decimal integer is malformed. A double is kept by its text, which must have
    /// the form of a floating-point number.
    pub open spec fn spec_parse(n: NodeView) -> Elaborated<NumberLiteralView>
        decreases n, n.children.len() + 1,
    {
        if n.rule != Rule::NumberLiteral {
            Err(unexpected(Rule::NumberLiteral, n))
        } else {
            Self::scan(n, 0)
        }
    }

    /// What [`NumberLiteral::spec_parse`] yields once the children before position
    /// `i` have been taken in, with what was gathered from them.
    pub open spec fn scan(n: NodeView, i: int) -> Elaborated<NumberLiteralView>
        decreases n, n.children.len() - i,
    {
        if !(0 <= i < n.children.len()) {
            Err(missing(n.rule, n))
        } else {
            let c = n.children[i];
            match c.rule {
                Rule::IntegerLiteral => match integer_value(c.text) {
                    Some(v) => Ok(NumberLiteralView::Integer(v as i64)),
                    None => Err(malformed(n.rule, c)),
                },
                Rule::DoubleLiteral => if is_float_lexeme(c.text) {
                    Ok(NumberLiteralView::Double(c.text))
                } else {
                    Err(malformed(n.rule, c))
                },
                Rule::SP => Self::scan(n, i + 1),
                _ => Err(unexpected(n.rule, c)),
            }
        }
    }

    /// Elaborates a `NumberLiteral` node by its first child that is not blank. An
    /// integer is read from its text by value; text that is no 64-bit decimal
    /// integer is malformed. A double is kept by its text, which must have the form
    /// of a floating-point number.
    pub fn parse(n: &ParseNode) -> (r: Elaborated<NumberLiteral>)
        ensures
            agrees(r, NumberLiteral::spec_parse(n@)),
        decreases n,
    {
        match n.rule {
            Rule::NumberLiteral => {},
            _ => {
                return Err(fault_unexpected(Rule::NumberLiteral, n));
            },
        }
        let mut i: usize = 0;
        while i < n.children.len()
            invariant
                i <= n.children.len(),
                NumberLiteral::spec_parse(n@) == NumberLiteral::scan(n@, i as int),
            decreases n.children.len() - i,
        {
            proof {
                lemma_children(*n);
            }
            let c = &n.children[i];
            match c.rule {
                Rule::IntegerLiteral => {
                    return match parse_integer(c.text.as_str()) {
                        Some(v) => Ok(NumberLiteral::Integer(v)),
                        None => Err(fault_malformed(n.rule, c)),
                    };
                },
                Rule::DoubleLiteral => {
                    return if matches_float_lexeme(c.text.as_str()) {
                        Ok(NumberLiteral::Double(c.text.clone()))
                    } else {
                        Err(fault_malformed(n.rule, c))
                    };
                },
                Rule::SP => {},
                _ => {
                    return Err(fault_unexpected(n.rule, c));
                },
            }
            i += 1;
        }
        proof {
            lemma_children(*n);
        }
        Err(fault_missing(n.rule, n))
    }
}

/// The elaboration of a `MapLiteral` node: each `PropertyKeyName` child names
/// the key under which the expression that follows it is written. A key written
/// twice keeps the later expression. An expression without a key before it, or
/// a key without an expression after it, is a fault.
pub open spec fn spec_parse_map_literal(n: NodeView) -> Elaborated<PropertyMapView>
    decreases n, n.children.len() + 1,
{
    if n.rule != Rule::MapLiteral {
        Err(unexpected(Rule::MapLiteral, n))
    } else {
        scan_map_literal(n, 0, None, PropertyMapView::empty())
    }
}

/// What [`spec_parse_map_literal`] yields once the children before position `i`
/// have been taken in, with what was gathered from them.
pub open spec fn scan_map_literal(
    n: NodeView,
    i: int,
    key: Option<Seq<char>>,
    items: PropertyMapView,
) -> Elaborated<PropertyMapView>
    decreases n, n.children.len() - i,
{
    if !(0 <= i < n.children.len()) {
        match key {
            Some(_) => Err(missing(n.rule, n)),
            None => Ok(items),
        }
    } else {
        let c = n.children[i];
        match c.rule {
            Rule::PropertyKeyName => scan_map_literal(n, i + 1, Some(c.text), items),
            Rule::Expression => match key {
                None => Err(missing(n.rule, n)),
                Some(k) => match Expression::spec_parse(c) {
                    Ok(v) => scan_map_literal(n, i + 1, None, items.insert(k, v)),
                    Err(e) => Err(e),
                },
            },
            Rule::SP => scan_map_literal(n, i + 1, key, items),
            _ => Err(unexpected(n.rule, c)),
        }
    }
}

/// Elaborates a `MapLiteral` node: each `PropertyKeyName` child names the key
/// under which the expression that follows it is written. A key written twice
/// keeps the later expression. An expression without a key before it, or a key
/// without an expression after it, is a fault.
pub fn parse_map_literal(n: &ParseNode) -> (r: Elaborated<PropertyMap>)
    ensures
        agrees(r, spec_parse_map_literal(n@)),
        r matches Ok(m) ==> m@.keys_distinct(),
    decreases n,
{
    match n.rule {
        Rule::MapLiteral => {},
        _ => {
            return Err(fault_unexpected(Rule::MapLiteral, n));
        },
    }
    let mut key: Option<String> = None;
    let mut items: PropertyMap = PropertyMap::new();
    proof {
        if spec_parse_map_literal(n@) is Ok {
            lemma_map_literal_keys_are_distinct(n@);
        }
    }
    let mut i: usize = 0;
    while i < n.children.len()
        invariant
            i <= n.children.len(),
            spec_parse_map_literal(n@) == scan_map_literal(n@, i as int, view_option(key), items@),
            spec_parse_map_literal(n@) matches Ok(m) ==> m.keys_distinct(),
        decreases n.children.len() - i,
    {
        proof {
            lemma_children(*n);
        }
        let c = &n.children[i];
        match c.rule {
            Rule::PropertyKeyName => {
                key = Some(c.text.clone());
            },
            Rule::Expression => match key {
                None => {
                    return Err(fault_missing(n.rule, n));
                },
                Some(k) => match Expression::parse(c) {
                    Ok(v) => {
                        items = items.insert(k, v);
                        key = None;
                    },
                    Err(e) => {
                        return Err(e);
                    },
                },
            },
            Rule::SP => {},
            _ => {
                return Err(fault_unexpected(n.rule, c));
            },
        }
        i += 1;
    }
    proof {
        lemma_children(*n);
    }
    match key {
        Some(_) => Err(fault_missing(n.rule, n)),
        None => Ok(items),
    }
}

/// The elaboration of a `ListLiteral` node: its `Expression` children, in
/// order.
pub open spec fn spec_parse_list_literal(n: NodeView) -> Elaborated<Seq<ExpressionView>>
    decreases n, n.children.len() + 1,
{
    if n.rule != Rule::ListLiteral {
        Err(unexpected(Rule::ListLiteral, n))
    } else {
        scan_list_literal(n, 0, Seq::empty())
    }
}

/// What [`spec_parse_list_literal`] yields once the children before position
/// `i` have been taken in, with what was gathered from them.
pub open spec fn scan_list_literal(
    n: NodeView,
    i: int,
    expressions: Seq<ExpressionView>,
) -> Elaborated<Seq<ExpressionView>>
    decreases n, n.children.len() - i,
{
    if !(0 <= i < n.children.len()) {
        Ok(expressions)
    } else {
        let c = n.children[i];
        match c.rule {
            Rule::Expression => match Expression::spec_parse(c) {
                Ok(v) => scan_list_literal(n, i + 1, expressions.push(v)),
                Err(e) => Err(e),
            },
            Rule::SP => scan_list_literal(n, i + 1, expressions),
            _ => Err(unexpected(n.rule, c)),
        }
    }
}

/// Elaborates a `ListLiteral` node: its `Expression` children, in order.
pub fn parse_list_literal(n: &ParseNode) -> (r: Elaborated<Vec<Expression>>)
    ensures
        agrees_by(r, spec_parse_list_literal(n@), |v: Vec<Expression>| view_expression_seq(v@)),
    decreases n,
{
    match n.rule {
        Rule::ListLiteral => {},
        _ => {
            return Err(fault_unexpected(Rule::ListLiteral, n));
        },
    }
    let mut expressions: Vec<Expression> = Vec::new();
    proof {
        assert(view_expression_seq(expressions@) =~= Seq::empty());
    }
    let mut i: usize = 0;
    while i < n.children.len()
        invariant
            i <= n.children.len(),
            spec_parse_list_literal(n@) == scan_list_literal(
                n@,
                i as int,
                view_expression_seq(expressions@),
            ),
        decreases n.children.len() - i,
    {
        proof {
            lemma_children(*n);
        }
        let c = &n.children[i];
        match c.rule {
            Rule::Expression => match Expression::parse(c) {
                Ok(v) => {
                    let ghost before = expressions@;
                    let ghost item = v@;
                    expressions.push(v);
                    assert(view_expression_seq(expressions@)
                        =~= view_expression_seq(before).push(item));
                },
                Err(e) => {
                    return Err(e);
                },
            },
            Rule::SP => {},
            _ => {
                return Err(fault_unexpected(n.rule, c));
            },
        }
        i += 1;
    }
    proof {
        lemma_children(*n);
    }
    Ok(expressions)
}

} // verus!
