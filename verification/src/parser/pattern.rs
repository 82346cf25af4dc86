//! Elaboration of patterns: paths of nodes and relationships, with their
//! labels, types and properties.

use vstd::prelude::*;

use crate::ast::cypher::{
    NodePattern, Pattern, PatternElement, PatternPart, Properties, RelationshipDetail,
    RelationshipPattern, RelationshipsPattern,
};
use crate::ast::model::{
    NodePatternView, PatternElementView, PatternPartView, PatternView, PropertiesView,
    RelationshipDetailView, RelationshipPatternView, RelationshipsPatternView,
    view_pattern_part_seq, view_steps,
};
use crate::error::{
    Elaborated, agrees, agrees_by, fault_missing, fault_unexpected, missing, unexpected,
    view_option, view_strings,
};
use crate::parser::literal::{parse_map_literal, spec_parse_map_literal};
use crate::tree::{NodeView, ParseNode, Rule, lemma_children};

verus! {

impl Pattern {
    /// The elaboration of a `Pattern` node: its `PatternPart` children, in order,
    /// become the parts.
    pub open spec fn spec_parse(n: NodeView) -> Elaborated<PatternView>
        decreases n, n.children.len() + 1,
    {
        if n.rule != Rule::Pattern {
            Err(unexpected(Rule::Pattern, n))
        } else {
            Self::scan(n, 0, Seq::empty())
        }
    }

    /// What [`Pattern::spec_parse`] yields once the children before position `i`
    /// have been taken in, with what was gathered from them.
    pub open spec fn scan(
        n: NodeView,
        i: int,
        parts: Seq<PatternPartView>,
    ) -> Elaborated<PatternView>
        decreases n, n.children.len() - i,
    {
        if !(0 <= i < n.children.len()) {
            Ok(PatternView { parts })
        } else {
            let c = n.children[i];
            match c.rule {
                Rule::PatternPart => match PatternPart::spec_parse(c) {
                    Ok(v) => Self::scan(n, i + 1, parts.push(v)),
                    Err(e) => Err(e),
                },
                Rule::SP => Self::scan(n, i + 1, parts),
                _ => Err(unexpected(n.rule, c)),
            }
        }
    }

    /// Elaborates a `Pattern` node: its `PatternPart` children, in order, become
    /// the parts.
    pub fn parse(n: &ParseNode) -> (r: Elaborated<Pattern>)
        ensures
            agrees(r, Pattern::spec_parse(n@)),
        decreases n,
    {
        match n.rule {
            Rule::Pattern => {},
            _ => {
                return Err(fault_unexpected(Rule::Pattern, n));
            },
        }
        let mut parts: Vec<PatternPart> = Vec::new();
        proof {
            assert(view_pattern_part_seq(parts@) =~= Seq::empty());
        }
        let mut i: usize = 0;
        while i < n.children.len()
            invariant
                i <= n.children.len(),
                Pattern::spec_parse(n@) == Pattern::scan(
                    n@,
                    i as int,
                    view_pattern_part_seq(parts@),
                ),
            decreases n.children.len() - i,
        {
            proof {
                lemma_children(*n);
            }
            let c = &n.children[i];
            match c.rule {
                Rule::PatternPart => match PatternPart::parse(c) {
                    Ok(v) => {
                        let ghost before = parts@;
                        let ghost item = v@;
                        parts.push(v);
                        assert(view_pattern_part_seq(parts@)
                            =~= view_pattern_part_seq(before).push(item));
                    },
                    Err(e) => {
                        return Err(e);
                    },
                },
                Rule::SP => {},
                _ => {
                    return Err(fault_unexpected(n.rule, c));
                },
            }
            i += 1;
        }
        proof {
            lemma_children(*n);
        }
        Ok(Pattern { parts })
    }
}

impl PatternPart {
    /// The elaboration of a `PatternPart` node: the text of its `Variable` child,
    /// if it has one, binds the path; its `AnonymousPatternPart` child gives the
    /// path and is required.
    pub open spec fn spec_parse(n: NodeView) -> Elaborated<PatternPartView>
        decreases n, n.children.len() + 1,
    {
        if n.rule != Rule::PatternPart {
            Err(unexpected(Rule::PatternPart, n))
        } else {
            Self::scan(n, 0, None, None)
        }
    }

    /// What [`PatternPart::spec_parse`] yields once the children before position
    /// `i` have been taken in, with what was gathered from them.
    pub open spec fn scan(
        n: NodeView,
        i: int,
        variable: Option<Seq<char>>,
        pattern_element: Option<PatternElementView>,
    ) -> Elaborated<PatternPartView>
        decreases n, n.children.len() - i,
    {
        if !(0 <= i < n.children.len()) {
            match pattern_element {
                None => Err(missing(n.rule, n)),
                Some(pattern_element) => Ok(PatternPartView { variable, pattern_element }),
            }
        } else {
            let c = n.children[i];
            match c.rule {
                Rule::Variable => Self::scan(n, i + 1, Some(c.text), pattern_element),
                Rule::AnonymousPatternPart => match spec_parse_anonymous_pattern_part(c) {
                    Ok(v) => Self::scan(n, i + 1, variable, Some(v)),
                    Err(e) => Err(e),
                },
                Rule::SP => Self::scan(n, i + 1, variable, pattern_element),
                _ => Err(unexpected(n.rule, c)),
            }
        }
    }

    /// Elaborates a `PatternPart` node: the text of its `Variable` child, if it has
    /// one, binds the path; its `AnonymousPatternPart` child gives the path and is
    /// required.
    pub fn parse(n: &ParseNode) -> (r: Elaborated<PatternPart>)
        ensures
            agrees(r, PatternPart::spec_parse(n@)),
        decreases n,
    {
        match n.rule {
            Rule::PatternPart => {},
            _ => {
                return Err(fault_unexpected(Rule::PatternPart, n));
            },
        }
        let mut variable: Option<String> = None;
        let mut pattern_element: Option<PatternElement> = None;
        let mut i: usize = 0;
        while i < n.children.len()
            invariant
                i <= n.children.len(),
                PatternPart::spec_parse(n@) == PatternPart::scan(
                    n@,
                    i as int,
                    view_option(variable),
                    view_option(pattern_element),
                ),
            decreases n.children.len() - i,
        {
            proof {
                lemma_children(*n);
            }
            let c = &n.children[i];
            match c.rule {
                Rule::Variable => match parse_variable(c) {
                    Ok(v) => {
                        variable = Some(v);
                    },
                    Err(e) => {
                        return Err(e);
                    },
                },
                Rule::AnonymousPatternPart => match parse_anonymous_pattern_part(c) {
                    Ok(v) => {
                        pattern_element = Some(v);
                    },
                    Err(e) => {
                        return Err(e);
                    },
                },
                Rule::SP => {},
                _ => {
                    return Err(fault_unexpected(n.rule, c));
                },
            }
            i += 1;
        }
        proof {
            lemma_children(*n);
        }
        match pattern_element {
            None => Err(fault_missing(n.rule, n)),
            Some(pattern_element) => Ok(PatternPart { variable, pattern_element }),
        }
    }
}

/// The elaboration of an `AnonymousPatternPart` node: its first child, which
/// must be a `PatternElement`.
pub open spec fn spec_parse_anonymous_pattern_part(n: NodeView) -> Elaborated<PatternElementView>
    decreases n, n.children.len() + 1,
{
    if n.rule != Rule::AnonymousPatternPart {
        Err(unexpected(Rule::AnonymousPatternPart, n))
    } else if n.children.len() == 0 {
        Err(missing(n.rule, n))
    } else {
        let c = n.children[0];
        match c.rule {
            Rule::PatternElement => match PatternElement::spec_parse(c) {
                Ok(v) => Ok(v),
                Err(e) => Err(e),
            },
            _ => Err(unexpected(n.rule, c)),
        }
    }
}

/// Elaborates an `AnonymousPatternPart` node: its first child, which must be a
/// `PatternElement`.
pub fn parse_anonymous_pattern_part(n: &ParseNode) -> (r: Elaborated<PatternElement>)
    ensures
        agrees(r, spec_parse_anonymous_pattern_part(n@)),
    decreases n,
{
    match n.rule {
        Rule::AnonymousPatternPart => {},
        _ => {
            return Err(fault_unexpected(Rule::AnonymousPatternPart, n));
        },
    }
    proof {
        lemma_children(*n);
    }
    if n.children.len() == 0 {
        return Err(fault_missing(n.rule, n));
    }
    let c = &n.children[0];
    match c.rule {
        Rule::PatternElement => {
            return match PatternElement::parse(c) {
                Ok(v) => Ok(v),
                Err(e) => Err(e),
            };
        },
        _ => {
            return Err(fault_unexpected(n.rule, c));
        },
    }
}

/// The name a `Variable` node spells: its text.
pub open spec fn spec_parse_variable(n: NodeView) -> Elaborated<Seq<char>> {
    if n.rule != Rule::Variable {
        Err(unexpected(Rule::Variable, n))
    } else {
        Ok(n.text)
    }
}

/// The name a `Variable` node spells: its text.
pub fn parse_variable(n: &ParseNode) -> (r: Elaborated<String>)
    ensures
        agrees(r, spec_parse_variable(n@)),
{
    match n.rule {
        Rule::Variable => Ok(n.text.clone()),
        _ => Err(fault_unexpected(Rule::Variable, n)),
    }
}

/// The elaboration of a `RelationshipTypes` node: the texts of its
/// `RelTypeName` children, in order.
pub open spec fn spec_parse_relationship_types(n: NodeView) -> Elaborated<Seq<Seq<char>>>
    decreases n, n.children.len() + 1,
{
    if n.rule != Rule::RelationshipTypes {
        Err(unexpected(Rule::RelationshipTypes, n))
    } else {
        scan_relationship_types(n, 0, Seq::empty())
    }
}

/// What [`spec_parse_relationship_types`] yields once the children before
/// position `i` have been taken in, with what was gathered from them.
pub open spec fn scan_relationship_types(
    n: NodeView,
    i: int,
    relationship_types: Seq<Seq<char>>,
) -> Elaborated<Seq<Seq<char>>>
    decreases n, n.children.len() - i,
{
    if !(0 <= i < n.children.len()) {
        Ok(relationship_types)
    } else {
        let c = n.children[i];
        match c.rule {
            Rule::RelTypeName => scan_relationship_types(n, i + 1, relationship_types.push(c.text)),
            Rule::SP => scan_relationship_types(n, i + 1, relationship_types),
            _ => Err(unexpected(n.rule, c)),
        }
    }
}

/// Elaborates a `RelationshipTypes` node: the texts of its `RelTypeName`
/// children, in order.
pub fn parse_relationship_types(n: &ParseNode) -> (r: Elaborated<Vec<String>>)
    ensures
        agrees_by(r, spec_parse_relationship_types(n@), |v: Vec<String>| view_strings(v@)),
    decreases n,
{
    match n.rule {
        Rule::RelationshipTypes => {},
        _ => {
            return Err(fault_unexpected(Rule::RelationshipTypes, n));
        },
    }
    let mut relationship_types: Vec<String> = Vec::new();
    proof {
        assert(view_strings(relationship_types@) =~= Seq::empty());
    }
    let mut i: usize = 0;
    while i < n.children.len()
        invariant
            i <= n.children.len(),
            spec_parse_relationship_types(n@) == scan_relationship_types(
                n@,
                i as int,
                view_strings(relationship_types@),
            ),
        decreases n.children.len() - i,
    {
        proof {
            lemma_children(*n);
        }
        let c = &n.children[i];
        match c.rule {
            Rule::RelTypeName => {
                let ghost before = relationship_types@;
                relationship_types.push(c.text.clone());
                assert(view_strings(relationship_types@) =~= view_strings(before).push(c.text@));
            },
            Rule::SP => {},
            _ => {
                return Err(fault_unexpected(n.rule, c));
            },
        }
        i += 1;
    }
    proof {
        lemma_children(*n);
    }
    Ok(relationship_types)
}

impl PatternElement {
    /// The elaboration of a `PatternElement` node. A nested `PatternElement` child
    /// stands for a parenthesised path and is elaborated in place of the node
    /// itself. Otherwise the `NodePattern` child is the starting node and the
    /// `PatternElementChain` children are the steps, kept in the order written.
    pub open spec fn spec_parse(n: NodeView) -> Elaborated<PatternElementView>
        decreases n, n.children.len() + 1,
    {
        if n.rule != Rule::PatternElement {
            Err(unexpected(Rule::PatternElement, n))
        } else {
            Self::scan(n, 0, None, Seq::empty())
        }
    }

    /// What [`PatternElement::spec_parse`] yields once the children before position
    /// `i` have been taken in, with what was gathered from them.
    pub open spec fn scan(
        n: NodeView,
        i: int,
        node_pattern: Option<NodePatternView>,
        relationship_patterns: Seq<(RelationshipPatternView, NodePatternView)>,
    ) -> Elaborated<PatternElementView>
        decreases n, n.children.len() - i,
    {
        if !(0 <= i < n.children.len()) {
            match node_pattern {
                None => Err(missing(n.rule, n)),
                Some(node_pattern) => Ok(
                    PatternElementView { node_pattern, relationship_patterns },
                ),
            }
        } else {
            let c = n.children[i];
            match c.rule {
                Rule::PatternElement => match PatternElement::spec_parse(c) {
                    Ok(v) => Ok(v),
                    Err(e) => Err(e),
                },
                Rule::NodePattern => match NodePattern::spec_parse(c) {
                    Ok(v) => Self::scan(n, i + 1, Some(v), relationship_patterns),
                    Err(e) => Err(e),
                },
                Rule::PatternElementChain => match spec_parse_pattern_element_chain(c) {
                    Ok(v) => Self::scan(n, i + 1, node_pattern, relationship_patterns.push(v)),
                    Err(e) => Err(e),
                },
                Rule::SP => Self::scan(n, i + 1, node_pattern, relationship_patterns),
                _ => Err(unexpected(n.rule, c)),
            }
        }
    }

    /// Elaborates a `PatternElement` node. A nested `PatternElement` child stands
    /// for a parenthesised path and is elaborated in place of the node itself.
    /// Otherwise the `NodePattern` child is the starting node and the
    /// `PatternElementChain` children are the steps, kept in the order written.
    pub fn parse(n: &ParseNode) -> (r: Elaborated<PatternElement>)
        ensures
            agrees(r, PatternElement::spec_parse(n@)),
        decreases n,
    {
        match n.rule {
            Rule::PatternElement => {},
            _ => {
                return Err(fault_unexpected(Rule::PatternElement, n));
            },
        }
        let mut node_pattern: Option<NodePattern> = None;
        let mut relationship_patterns: Vec<(RelationshipPattern, NodePattern)> = Vec::new();
        proof {
            assert(view_steps(relationship_patterns@) =~= Seq::empty());
        }
        let mut i: usize = 0;
        while i < n.children.len()
            invariant
                i <= n.children.len(),
                PatternElement::spec_parse(n@) == PatternElement::scan(
                    n@,
                    i as int,
                    view_option(node_pattern),
                    view_steps(relationship_patterns@),
                ),
            decreases n.children.len() - i,
        {
            proof {
                lemma_children(*n);
            }
            let c = &n.children[i];
            match c.rule {
                Rule::PatternElement => {
                    return match PatternElement::parse(c) {
                        Ok(v) => Ok(v),
                        Err(e) => Err(e),
                    };
                },
                Rule::NodePattern => match NodePattern::parse(c) {
                    Ok(v) => {
                        node_pattern = Some(v);
                    },
                    Err(e) => {
                        return Err(e);
                    },
                },
                Rule::PatternElementChain => match parse_pattern_element_chain(c) {
                    Ok(v) => {
                        let ghost before = relationship_patterns@;
                        let ghost item = (v.0@, v.1@);
                        relationship_patterns.push(v);
                        assert(view_steps(relationship_patterns@)
                            =~= view_steps(before).push(item));
                    },
                    Err(e) => {
                        return Err(e);
                    },
                },
                Rule::SP => {},
                _ => {
                    return Err(fault_unexpected(n.rule, c));
                },
            }
            i += 1;
        }
        proof {
            lemma_children(*n);
        }
        match node_pattern {
            None => Err(fault_missing(n.rule, n)),
            Some(node_pattern) => Ok(PatternElement { node_pattern, relationship_patterns }),
        }
    }
}

/// The elaboration of a `PatternElementChain` node: one step of a path, a
/// relationship and the node it leads to. Both children are required.
pub open spec fn spec_parse_pattern_element_chain(
    n: NodeView,
) -> Elaborated<(RelationshipPatternView, NodePatternView)>
    decreases n, n.children.len() + 1,
{
    if n.rule != Rule::PatternElementChain {
        Err(unexpected(Rule::PatternElementChain, n))
    } else {
        scan_pattern_element_chain(n, 0, None, None)
    }
}

/// What [`spec_parse_pattern_element_chain`] yields once the children before
/// position `i` have been taken in, with what was gathered from them.
pub open spec fn scan_pattern_element_chain(
    n: NodeView,
    i: int,
    node_pattern: Option<NodePatternView>,
    relationship_pattern: Option<RelationshipPatternView>,
) -> Elaborated<(RelationshipPatternView, NodePatternView)>
    decreases n, n.children.len() - i,
{
    if !(0 <= i < n.children.len()) {
        match relationship_pattern {
            None => Err(missing(n.rule, n)),
            Some(relationship_pattern) => match node_pattern {
                None => Err(missing(n.rule, n)),
                Some(node_pattern) => Ok((relationship_pattern, node_pattern)),
            },
        }
    } else {
        let c = n.children[i];
        match c.rule {
            Rule::NodePattern => match NodePattern::spec_parse(c) {
                Ok(v) => scan_pattern_element_chain(n, i + 1, Some(v), relationship_pattern),
                Err(e) => Err(e),
            },
            Rule::RelationshipPattern => match RelationshipPattern::spec_parse(c) {
                Ok(v) => scan_pattern_element_chain(n, i + 1, node_pattern, Some(v)),
                Err(e) => Err(e),
            },
            Rule::SP => scan_pattern_element_chain(n, i + 1, node_pattern, relationship_pattern),
            _ => Err(unexpected(n.rule, c)),
        }
    }
}

/// Elaborates a `PatternElementChain` node: one step of a path, a relationship
/// and the node it leads to. Both children are required.
pub fn parse_pattern_element_chain(
    n: &ParseNode,
) -> (r: Elaborated<(RelationshipPattern, NodePattern)>)
    ensures
        agrees_by(
            r,
            spec_parse_pattern_element_chain(n@),
            |v: (RelationshipPattern, NodePattern)| (v.0@, v.1@),
        ),
    decreases n,
{
    match n.rule {
        Rule::PatternElementChain => {},
        _ => {
            return Err(fault_unexpected(Rule::PatternElementChain, n));
        },
    }
    let mut node_pattern: Option<NodePattern> = None;
    let mut relationship_pattern: Option<RelationshipPattern> = None;
    let mut i: usize = 0;
    while i < n.children.len()
        invariant
            i <= n.children.len(),
            spec_parse_pattern_element_chain(n@) == scan_pattern_element_chain(
                n@,
                i as int,
                view_option(node_pattern),
                view_option(relationship_pattern),
            ),
        decreases n.children.len() - i,
    {
        proof {
            lemma_children(*n);
        }
        let c = &n.children[i];
        match c.rule {
            Rule::NodePattern => match NodePattern::parse(c) {
                Ok(v) => {
                    node_pattern = Some(v);
                },
                Err(e) => {
                    return Err(e);
                },
            },
            Rule::RelationshipPattern => match RelationshipPattern::parse(c) {
                Ok(v) => {
                    relationship_pattern = Some(v);
                },
                Err(e) => {
                    return Err(e);
                },
            },
            Rule::SP => {},
            _ => {
                return Err(fault_unexpected(n.rule, c));
            },
        }
        i += 1;
    }
    proof {
        lemma_children(*n);
    }
    match relationship_pattern {
        None => Err(fault_missing(n.rule, n)),
        Some(relationship_pattern) => match node_pattern {
            None => Err(fault_missing(n.rule, n)),
            Some(node_pattern) => Ok((relationship_pattern, node_pattern)),
        },
    }
}

impl RelationshipPattern {
    /// The elaboration of a `RelationshipPattern` node. The direction follows from
    /// which arrowheads are among the children: both, the left one, the right one,
    /// or none. The `RelationshipDetail` child, if any, is carried along.
    pub open spec fn spec_parse(n: NodeView) -> Elaborated<RelationshipPatternView>
        decreases n, n.children.len() + 1,
    {
        if n.rule != Rule::RelationshipPattern {
            Err(unexpected(Rule::RelationshipPattern, n))
        } else {
            Self::scan(n, 0, false, false, None)
        }
    }

    /// What [`RelationshipPattern::spec_parse`] yields once the children before
    /// position `i` have been taken in, with what was gathered from them.
    pub open spec fn scan(
        n: NodeView,
        i: int,
        left_arrow_head: bool,
        right_arrow_head: bool,
        relationship_detail: Option<RelationshipDetailView>,
    ) -> Elaborated<RelationshipPatternView>
        decreases n, n.children.len() - i,
    {
        if !(0 <= i < n.children.len()) {
            Ok(
                if left_arrow_head && right_arrow_head {
                    RelationshipPatternView::LeftAndRight(relationship_detail)
                } else if left_arrow_head {
                    RelationshipPatternView::Left(relationship_detail)
                } else if right_arrow_head {
                    RelationshipPatternView::Right(relationship_detail)
                } else {
                    RelationshipPatternView::Undirected(relationship_detail)
                },
            )
        } else {
            let c = n.children[i];
            match c.rule {
                Rule::LeftArrowHead => Self::scan(
                    n,
                    i + 1,
                    true,
                    right_arrow_head,
                    relationship_detail,
                ),
                Rule::RightArrowHead => Self::scan(
                    n,
                    i + 1,
                    left_arrow_head,
                    true,
                    relationship_detail,
                ),
                Rule::RelationshipDetail => match RelationshipDetail::spec_parse(c) {
                    Ok(v) => Self::scan(n, i + 1, left_arrow_head, right_arrow_head, Some(v)),
                    Err(e) => Err(e),
                },
                Rule::Dash | Rule::SP => Self::scan(
                    n,
                    i + 1,
                    left_arrow_head,
                    right_arrow_head,
                    relationship_detail,
                ),
                _ => Err(unexpected(n.rule, c)),
            }
        }
    }

    /// Elaborates a `RelationshipPattern` node. The direction follows from which
    /// arrowheads are among the children: both, the left one, the right one, or
    /// none. The `RelationshipDetail` child, if any, is carried along.
    pub fn parse(n: &ParseNode) -> (r: Elaborated<RelationshipPattern>)
        ensures
            agrees(r, RelationshipPattern::spec_parse(n@)),
        decreases n,
    {
        match n.rule {
            Rule::RelationshipPattern => {},
            _ => {
                return Err(fault_unexpected(Rule::RelationshipPattern, n));
            },
        }
        let mut left_arrow_head: bool = false;
        let mut right_arrow_head: bool = false;
        let mut relationship_detail: Option<RelationshipDetail> = None;
        let mut i: usize = 0;
        while i < n.children.len()
            invariant
                i <= n.children.len(),
                RelationshipPattern::spec_parse(n@) == RelationshipPattern::scan(
                    n@,
                    i as int,
                    left_arrow_head,
                    right_arrow_head,
                    view_option(relationship_detail),
                ),
            decreases n.children.len() - i,
        {
            proof {
                lemma_children(*n);
            }
            let c = &n.children[i];
            match c.rule {
                Rule::LeftArrowHead => {
                    left_arrow_head = true;
                },
                Rule::RightArrowHead => {
                    right_arrow_head = true;
                },
                Rule::RelationshipDetail => match RelationshipDetail::parse(c) {
                    Ok(v) => {
                        relationship_detail = Some(v);
                    },
                    Err(e) => {
                        return Err(e);
                    },
                },
                Rule::Dash | Rule::SP => {},
                _ => {
                    return Err(fault_unexpected(n.rule, c));
                },
            }
            i += 1;
        }
        proof {
            lemma_children(*n);
        }
        if left_arrow_head && right_arrow_head {
            Ok(RelationshipPattern::LeftAndRight(relationship_detail))
        } else if left_arrow_head {
            Ok(RelationshipPattern::Left(relationship_detail))
        } else if right_arrow_head {
            Ok(RelationshipPattern::Right(relationship_detail))
        } else {
            Ok(RelationshipPattern::Undirected(relationship_detail))
        }
    }
}

impl RelationshipDetail {
    /// The elaboration of a `RelationshipDetail` node: optional binding variable,
    /// the type alternatives of its `RelationshipTypes` child (none without one),
    /// optional properties.
    pub open spec fn spec_parse(n: NodeView) -> Elaborated<RelationshipDetailView>
        decreases n, n.children.len() + 1,
    {
        if n.rule != Rule::RelationshipDetail {
            Err(unexpected(Rule::RelationshipDetail, n))
        } else {
            Self::scan(n, 0, None, Seq::empty(), None)
        }
    }

    /// What [`RelationshipDetail::spec_parse`] yields once the children before
    /// position `i` have been taken in, with what was gathered from them.
    pub open spec fn scan(
        n: NodeView,
        i: int,
        variable: Option<Seq<char>>,
        relationship_types: Seq<Seq<char>>,
        properties: Option<PropertiesView>,
    ) -> Elaborated<RelationshipDetailView>
        decreases n, n.children.len() - i,
    {
        if !(0 <= i < n.children.len()) {
            Ok(RelationshipDetailView { variable, relationship_types, properties })
        } else {
            let c = n.children[i];
            match c.rule {
                Rule::Variable => Self::scan(
                    n,
                    i + 1,
                    Some(c.text),
                    relationship_types,
                    properties,
                ),
                Rule::RelationshipTypes => match spec_parse_relationship_types(c) {
                    Ok(v) => Self::scan(n, i + 1, variable, v, properties),
                    Err(e) => Err(e),
                },
                Rule::Properties => match Properties::spec_parse(c) {
                    Ok(v) => Self::scan(n, i + 1, variable, relationship_types, Some(v)),
                    Err(e) => Err(e),
                },
                Rule::SP => Self::scan(n, i + 1, variable, relationship_types, properties),
                _ => Err(unexpected(n.rule, c)),
            }
        }
    }

    /// Elaborates a `RelationshipDetail` node: optional binding variable, the type
    /// alternatives of its `RelationshipTypes` child (none without one), optional
    /// properties.
    pub fn parse(n: &ParseNode) -> (r: Elaborated<RelationshipDetail>)
        ensures
            agrees(r, RelationshipDetail::spec_parse(n@)),
        decreases n,
    {
        match n.rule {
            Rule::RelationshipDetail => {},
            _ => {
                return Err(fault_unexpected(Rule::RelationshipDetail, n));
            },
        }
        let mut variable: Option<String> = None;
        let mut relationship_types: Vec<String> = Vec::new();
        let mut properties: Option<Properties> = None;
        proof {
            assert(view_strings(relationship_types@) =~= Seq::empty());
        }
        let mut i: usize = 0;
        while i < n.children.len()
            invariant
                i <= n.children.len(),
                RelationshipDetail::spec_parse(n@) == RelationshipDetail::scan(
                    n@,
                    i as int,
                    view_option(variable),
                    view_strings(relationship_types@),
                    view_option(properties),
                ),
            decreases n.children.len() - i,
        {
            proof {
                lemma_children(*n);
            }
            let c = &n.children[i];
            match c.rule {
                Rule::Variable => match parse_variable(c) {
                    Ok(v) => {
                        variable = Some(v);
                    },
                    Err(e) => {
                        return Err(e);
                    },
                },
                Rule::RelationshipTypes => match parse_relationship_types(c) {
                    Ok(v) => {
                        relationship_types = v;
                    },
                    Err(e) => {
                        return Err(e);
                    },
                },
                Rule::Properties => match Properties::parse(c) {
                    Ok(v) => {
                        properties = Some(v);
                    },
                    Err(e) => {
                        return Err(e);
                    },
                },
                Rule::SP => {},
                _ => {
                    return Err(fault_unexpected(n.rule, c));
                },
            }
            i += 1;
        }
        proof {
            lemma_children(*n);
        }
        Ok(RelationshipDetail { variable, relationship_types, properties })
    }
}

impl NodePattern {
    /// The elaboration of a `NodePattern` node: optional binding variable, the
    /// labels of its `NodeLabels` child (none without one), optional properties.
    pub open spec fn spec_parse(n: NodeView) -> Elaborated<NodePatternView>
        decreases n, n.children.len() + 1,
    {
        if n.rule != Rule::NodePattern {
            Err(unexpected(Rule::NodePattern, n))
        } else {
            Self::scan(n, 0, None, Seq::empty(), None)
        }
    }

    /// What [`NodePattern::spec_parse`] yields once the children before position
    /// `i` have been taken in, with what was gathered from them.
    pub open spec fn scan(
        n: NodeView,
        i: int,
        variable: Option<Seq<char>>,
        node_labels: Seq<Seq<char>>,
        properties: Option<PropertiesView>,
    ) -> Elaborated<NodePatternView>
        decreases n, n.children.len() - i,
    {
        if !(0 <= i < n.children.len()) {
            Ok(NodePatternView { variable, node_labels, properties })
        } else {
            let c = n.children[i];
            match c.rule {
                Rule::Variable => Self::scan(n, i + 1, Some(c.text), node_labels, properties),
                Rule::NodeLabels => match spec_parse_node_labels(c) {
                    Ok(v) => Self::scan(n, i + 1, variable, v, properties),
                    Err(e) => Err(e),
                },
                Rule::Properties => match Properties::spec_parse(c) {
                    Ok(v) => Self::scan(n, i + 1, variable, node_labels, Some(v)),
                    Err(e) => Err(e),
                },
                Rule::SP => Self::scan(n, i + 1, variable, node_labels, properties),
                _ => Err(unexpected(n.rule, c)),
            }
        }
    }

    /// Elaborates a `NodePattern` node: optional binding variable, the labels of
    /// its `NodeLabels` child (none without one), optional properties.
    pub fn parse(n: &ParseNode) -> (r: Elaborated<NodePattern>)
        ensures
            agrees(r, NodePattern::spec_parse(n@)),
        decreases n,
    {
        match n.rule {
            Rule::NodePattern => {},
            _ => {
                return Err(fault_unexpected(Rule::NodePattern, n));
            },
        }
        let mut variable: Option<String> = None;
        let mut node_labels: Vec<String> = Vec::new();
        let mut properties: Option<Properties> = None;
        proof {
            assert(view_strings(node_labels@) =~= Seq::empty());
        }
        let mut i: usize = 0;
        while i < n.children.len()
            invariant
                i <= n.children.len(),
                NodePattern::spec_parse(n@) == NodePattern::scan(
                    n@,
                    i as int,
                    view_option(variable),
                    view_strings(node_labels@),
                    view_option(properties),
                ),
            decreases n.children.len() - i,
        {
            proof {
                lemma_children(*n);
            }
            let c = &n.children[i];
            match c.rule {
                Rule::Variable => match parse_variable(c) {
                    Ok(v) => {
                        variable = Some(v);
                    },
                    Err(e) => {
                        return Err(e);
                    },
                },
                Rule::NodeLabels => match parse_node_labels(c) {
                    Ok(v) => {
                        node_labels = v;
                    },
                    Err(e) => {
                        return Err(e);
                    },
                },
                Rule::Properties => match Properties::parse(c) {
                    Ok(v) => {
                        properties = Some(v);
                    },
                    Err(e) => {
                        return Err(e);
                    },
                },
                Rule::SP => {},
                _ => {
                    return Err(fault_unexpected(n.rule, c));
                },
            }
            i += 1;
        }
        proof {
            lemma_children(*n);
        }
        Ok(NodePattern { variable, node_labels, properties })
    }
}

/// The elaboration of a `NodeLabels` node: the label of each `NodeLabel` child,
/// in order.
pub open spec fn spec_parse_node_labels(n: NodeView) -> Elaborated<Seq<Seq<char>>>
    decreases n, n.children.len() + 1,
{
    if n.rule != Rule::NodeLabels {
        Err(unexpected(Rule::NodeLabels, n))
    } else {
        scan_node_labels(n, 0, Seq::empty())
    }
}

/// What [`spec_parse_node_labels`] yields once the children before position `i`
/// have been taken in, with what was gathered from them.
pub open spec fn scan_node_labels(
    n: NodeView,
    i: int,
    node_labels: Seq<Seq<char>>,
) -> Elaborated<Seq<Seq<char>>>
    decreases n, n.children.len() - i,
{
    if !(0 <= i < n.children.len()) {
        Ok(node_labels)
    } else {
        let c = n.children[i];
        match c.rule {
            Rule::NodeLabel => match spec_parse_node_label(c) {
                Ok(v) => scan_node_labels(n, i + 1, node_labels.push(v)),
                Err(e) => Err(e),
            },
            Rule::SP => scan_node_labels(n, i + 1, node_labels),
            _ => Err(unexpected(n.rule, c)),
        }
    }
}

/// Elaborates a `NodeLabels` node: the label of each `NodeLabel` child, in
/// order.
pub fn parse_node_labels(n: &ParseNode) -> (r: Elaborated<Vec<String>>)
    ensures
        agrees_by(r, spec_parse_node_labels(n@), |v: Vec<String>| view_strings(v@)),
    decreases n,
{
    match n.rule {
        Rule::NodeLabels => {},
        _ => {
            return Err(fault_unexpected(Rule::NodeLabels, n));
        },
    }
    let mut node_labels: Vec<String> = Vec::new();
    proof {
        assert(view_strings(node_labels@) =~= Seq::empty());
    }
    let mut i: usize = 0;
    while i < n.children.len()
        invariant
            i <= n.children.len(),
            spec_parse_node_labels(n@) == scan_node_labels(
                n@,
                i as int,
                view_strings(node_labels@),
            ),
        decreases n.children.len() - i,
    {
        proof {
            lemma_children(*n);
        }
        let c = &n.children[i];
        match c.rule {
            Rule::NodeLabel => match parse_node_label(c) {
                Ok(v) => {
                    let ghost before = node_labels@;
                    let ghost item = v@;
                    node_labels.push(v);
                    assert(view_strings(node_labels@) =~= view_strings(before).push(item));
                },
                Err(e) => {
                    return Err(e);
                },
            },
            Rule::SP => {},
            _ => {
                return Err(fault_unexpected(n.rule, c));
            },
        }
        i += 1;
    }
    proof {
        lemma_children(*n);
    }
    Ok(node_labels)
}

/// The elaboration of a `NodeLabel` node: the text of its first `LabelName`
/// child.
pub open spec fn spec_parse_node_label(n: NodeView) -> Elaborated<Seq<char>>
    decreases n, n.children.len() + 1,
{
    if n.rule != Rule::NodeLabel {
        Err(unexpected(Rule::NodeLabel, n))
    } else {
        scan_node_label(n, 0)
    }
}

/// What [`spec_parse_node_label`] yields once the children before position `i`
/// have been taken in, with what was gathered from them.
pub open spec fn scan_node_label(n: NodeView, i: int) -> Elaborated<Seq<char>>
    decreases n, n.children.len() - i,
{
    if !(0 <= i < n.children.len()) {
        Err(missing(n.rule, n))
    } else {
        let c = n.children[i];
        match c.rule {
            Rule::LabelName => Ok(c.text),
            Rule::SP => scan_node_label(n, i + 1),
            _ => Err(unexpected(n.rule, c)),
        }
    }
}

/// Elaborates a `NodeLabel` node: the text of its first `LabelName` child.
pub fn parse_node_label(n: &ParseNode) -> (r: Elaborated<String>)
    ensures
        agrees(r, spec_parse_node_label(n@)),
    decreases n,
{
    match n.rule {
        Rule::NodeLabel => {},
        _ => {
            return Err(fault_unexpected(Rule::NodeLabel, n));
        },
    }
    let mut i: usize = 0;
    while i < n.children.len()
        invariant
            i <= n.children.len(),
            spec_parse_node_label(n@) == scan_node_label(n@, i as int),
        decreases n.children.len() - i,
    {
        proof {
            lemma_children(*n);
        }
        let c = &n.children[i];
        match c.rule {
            Rule::LabelName => {
                return Ok(c.text.clone());
            },
            Rule::SP => {},
            _ => {
                return Err(fault_unexpected(n.rule, c));
            },
        }
        i += 1;
    }
    proof {
        lemma_children(*n);
    }
    Err(fault_missing(n.rule, n))
}

impl Properties {
    /// The elaboration of a `Properties` node by its first child: a `Parameter` is
    /// kept by its text, a `MapLiteral` is elaborated to its entries.
    pub open spec fn spec_parse(n: NodeView) -> Elaborated<PropertiesView>
        decreases n, n.children.len() + 1,
    {
        if n.rule != Rule::Properties {
            Err(unexpected(Rule::Properties, n))
        } else if n.children.len() == 0 {
            Err(missing(n.rule, n))
        } else {
            let c = n.children[0];
            match c.rule {
                Rule::Parameter => Ok(PropertiesView::Parameter(c.text)),
                Rule::MapLiteral => match spec_parse_map_literal(c) {
                    Ok(v) => Ok(PropertiesView::MapLiteral(v)),
                    Err(e) => Err(e),
                },
                _ => Err(unexpected(n.rule, c)),
            }
        }
    }

    /// Elaborates a `Properties` node by its first child: a `Parameter` is kept by
    /// its text, a `MapLiteral` is elaborated to its entries.
    pub fn parse(n: &ParseNode) -> (r: Elaborated<Properties>)
        ensures
            agrees(r, Properties::spec_parse(n@)),
        decreases n,
    {
        match n.rule {
            Rule::Properties => {},
            _ => {
                return Err(fault_unexpected(Rule::Properties, n));
            },
        }
        proof {
            lemma_children(*n);
        }
        if n.children.len() == 0 {
            return Err(fault_missing(n.rule, n));
        }
        let c = &n.children[0];
        match c.rule {
            Rule::Parameter => {
                return Ok(Properties::Parameter(c.text.clone()));
            },
            Rule::MapLiteral => {
                return match parse_map_literal(c) {
                    Ok(v) => Ok(Properties::MapLiteral(v)),
                    Err(e) => Err(e),
                };
            },
            _ => {
                return Err(fault_unexpected(n.rule, c));
            },
        }
    }
}

impl RelationshipsPattern {
    /// The elaboration of a `RelationshipsPattern` node: the starting node, which
    /// is required, and the steps in the order written.
    pub open spec fn spec_parse(n: NodeView) -> Elaborated<RelationshipsPatternView>
        decreases n, n.children.len() + 1,
    {
        if n.rule != Rule::RelationshipsPattern {
            Err(unexpected(Rule::RelationshipsPattern, n))
        } else {
            Self::scan(n, 0, None, Seq::empty())
        }
    }

    /// What [`RelationshipsPattern::spec_parse`] yields once the children before
    /// position `i` have been taken in, with what was gathered from them.
    pub open spec fn scan(
        n: NodeView,
        i: int,
        node: Option<NodePatternView>,
        relationships: Seq<(RelationshipPatternView, NodePatternView)>,
    ) -> Elaborated<RelationshipsPatternView>
        decreases n, n.children.len() - i,
    {
        if !(0 <= i < n.children.len()) {
            match node {
                None => Err(missing(n.rule, n)),
                Some(node) => Ok(RelationshipsPatternView { node, relationships }),
            }
        } else {
            let c = n.children[i];
            match c.rule {
                Rule::NodePattern => match NodePattern::spec_parse(c) {
                    Ok(v) => Self::scan(n, i + 1, Some(v), relationships),
                    Err(e) => Err(e),
                },
                Rule::PatternElementChain => match spec_parse_pattern_element_chain(c) {
                    Ok(v) => Self::scan(n, i + 1, node, relationships.push(v)),
                    Err(e) => Err(e),
                },
                Rule::SP => Self::scan(n, i + 1, node, relationships),
                _ => Err(unexpected(n.rule, c)),
            }
        }
    }

    /// Elaborates a `RelationshipsPattern` node: the starting node, which is
    /// required, and the steps in the order written.
    pub fn parse(n: &ParseNode) -> (r: Elaborated<RelationshipsPattern>)
        ensures
            agrees(r, RelationshipsPattern::spec_parse(n@)),
        decreases n,
    {
        match n.rule {
            Rule::RelationshipsPattern => {},
            _ => {
                return Err(fault_unexpected(Rule::RelationshipsPattern, n));
            },
        }
        let mut node: Option<NodePattern> = None;
        let mut relationships: Vec<(RelationshipPattern, NodePattern)> = Vec::new();
        proof {
            assert(view_steps(relationships@) =~= Seq::empty());
        }
        let mut i: usize = 0;
        while i < n.children.len()
            invariant
                i <= n.children.len(),
                RelationshipsPattern::spec_parse(n@) == RelationshipsPattern::scan(
                    n@,
                    i as int,
                    view_option(node),
                    view_steps(relationships@),
                ),
            decreases n.children.len() - i,
        {
            proof {
                lemma_children(*n);
            }
            let c = &n.children[i];
            match c.rule {
                Rule::NodePattern => match NodePattern::parse(c) {
                    Ok(v) => {
                        node = Some(v);
                    },
                    Err(e) => {
                        return Err(e);
                    },
                },
                Rule::PatternElementChain => match parse_pattern_element_chain(c) {
                    Ok(v) => {
                        let ghost before = relationships@;
                        let ghost item = (v.0@, v.1@);
                        relationships.push(v);
                        assert(view_steps(relationships@) =~= view_steps(before).push(item));
                    },
                    Err(e) => {
                        return Err(e);
                    },
                },
                Rule::SP => {},
                _ => {
                    return Err(fault_unexpected(n.rule, c));
                },
            }
            i += 1;
        }
        proof {
            lemma_children(*n);
        }
        match node {
            None => Err(fault_missing(n.rule, n)),
            Some(node) => Ok(RelationshipsPattern { node, relationships }),
        }
    }
}

} // verus!
