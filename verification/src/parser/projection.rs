//! Elaboration of what `RETURN` and `WITH` project: items, ordering and
//! pagination.

use vstd::prelude::*;

use crate::ast::cypher::{
    Expression, Limit, Order, ProjectionBody, ProjectionItem, ProjectionItems, Skip, SortItem,
};
use crate::ast::model::{
    ExpressionView, LimitView, OrderView, ProjectionBodyView, ProjectionItemView,
    ProjectionItemsView, SkipView, SortItemView, view_projection_item_seq, view_sort_item_seq,
};
use crate::error::{
    Elaborated, agrees, fault_missing, fault_unexpected, missing, unexpected, view_option,
};
use crate::parser::pattern::parse_variable;
use crate::tree::{NodeView, ParseNode, Rule, lemma_children};

verus! {

/// The elaboration of a `Return` node: the projection after the keyword.
pub open spec fn spec_parse_return(n: NodeView) -> Elaborated<ProjectionBodyView>
    decreases n, n.children.len() + 1,
{
    if n.rule != Rule::Return {
        Err(unexpected(Rule::Return, n))
    } else {
        scan_return(n, 0)
    }
}

/// What [`spec_parse_return`] yields once the children before position `i` have
/// been taken in, with what was gathered from them.
pub open spec fn scan_return(n: NodeView, i: int) -> Elaborated<ProjectionBodyView>
    decreases n, n.children.len() - i,
{
    if !(0 <= i < n.children.len()) {
        Err(missing(n.rule, n))
    } else {
        let c = n.children[i];
        match c.rule {
            Rule::ProjectionBody => match ProjectionBody::spec_parse(c) {
                Ok(v) => Ok(v),
                Err(e) => Err(e),
            },
            Rule::SP | Rule::RETURN => scan_return(n, i + 1),
            _ => Err(unexpected(n.rule, c)),
        }
    }
}

/// Elaborates a `Return` node: the projection after the keyword.
pub fn parse_return(n: &ParseNode) -> (r: Elaborated<ProjectionBody>)
    ensures
        agrees(r, spec_parse_return(n@)),
    decreases n,
{
    match n.rule {
        Rule::Return => {},
        _ => {
            return Err(fault_unexpected(Rule::Return, n));
        },
    }
    let mut i: usize = 0;
    while i < n.children.len()
        invariant
            i <= n.children.len(),
            spec_parse_return(n@) == scan_return(n@, i as int),
        decreases n.children.len() - i,
    {
        proof {
            lemma_children(*n);
        }
        let c = &n.children[i];
        match c.rule {
            Rule::ProjectionBody => {
                return match ProjectionBody::parse(c) {
                    Ok(v) => Ok(v),
                    Err(e) => Err(e),
                };
            },
            Rule::SP | Rule::RETURN => {},
            _ => {
                return Err(fault_unexpected(n.rule, c));
            },
        }
        i += 1;
    }
    proof {
        lemma_children(*n);
    }
    Err(fault_missing(n.rule, n))
}

impl ProjectionBody {
    /// The elaboration of a `ProjectionBody` node: whether `DISTINCT` was written,
    /// the items, which are required, and `ORDER BY`, `SKIP` and `LIMIT`, each
    /// absent unless the node has that child.
    pub open spec fn spec_parse(n: NodeView) -> Elaborated<ProjectionBodyView>
        decreases n, n.children.len() + 1,
    {
        if n.rule != Rule::ProjectionBody {
            Err(unexpected(Rule::ProjectionBody, n))
        } else {
            Self::scan(n, 0, false, None, None, None, None)
        }
    }

    /// What [`ProjectionBody::spec_parse`] yields once the children before position
    /// `i` have been taken in, with what was gathered from them.
    pub open spec fn scan(
        n: NodeView,
        i: int,
        distinct: bool,
        items: Option<ProjectionItemsView>,
        order: Option<OrderView>,
        skip: Option<SkipView>,
        limit: Option<LimitView>,
    ) -> Elaborated<ProjectionBodyView>
        decreases n, n.children.len() - i,
    {
        if !(0 <= i < n.children.len()) {
            match items {
                None => Err(missing(n.rule, n)),
                Some(items) => Ok(ProjectionBodyView { distinct, items, order, skip, limit }),
            }
        } else {
            let c = n.children[i];
            match c.rule {
                Rule::DISTINCT => Self::scan(n, i + 1, true, items, order, skip, limit),
                Rule::ProjectionItems => match ProjectionItems::spec_parse(c) {
                    Ok(v) => Self::scan(n, i + 1, distinct, Some(v), order, skip, limit),
                    Err(e) => Err(e),
                },
                Rule::Order => match Order::spec_parse(c) {
                    Ok(v) => Self::scan(n, i + 1, distinct, items, Some(v), skip, limit),
                    Err(e) => Err(e),
                },
                Rule::Skip => match Skip::spec_parse(c) {
                    Ok(v) => Self::scan(n, i + 1, distinct, items, order, Some(v), limit),
                    Err(e) => Err(e),
                },
                Rule::Limit => match Limit::spec_parse(c) {
                    Ok(v) => Self::scan(n, i + 1, distinct, items, order, skip, Some(v)),
                    Err(e) => Err(e),
                },
                Rule::SP => Self::scan(n, i + 1, distinct, items, order, skip, limit),
                _ => Err(unexpected(n.rule, c)),
            }
        }
    }

    /// Elaborates a `ProjectionBody` node: whether `DISTINCT` was written, the
    /// items, which are required, and `ORDER BY`, `SKIP` and `LIMIT`, each absent
    /// unless the node has that child.
    pub fn parse(n: &ParseNode) -> (r: Elaborated<ProjectionBody>)
        ensures
            agrees(r, ProjectionBody::spec_parse(n@)),
        decreases n,
    {
        match n.rule {
            Rule::ProjectionBody => {},
            _ => {
                return Err(fault_unexpected(Rule::ProjectionBody, n));
            },
        }
        let mut distinct: bool = false;
        let mut items: Option<ProjectionItems> = None;
        let mut order: Option<Order> = None;
        let mut skip: Option<Skip> = None;
        let mut limit: Option<Limit> = None;
        let mut i: usize = 0;
        while i < n.children.len()
            invariant
                i <= n.children.len(),
                ProjectionBody::spec_parse(n@) == ProjectionBody::scan(
                    n@,
                    i as int,
                    distinct,
                    view_option(items),
                    view_option(order),
                    view_option(skip),
                    view_option(limit),
                ),
            decreases n.children.len() - i,
        {
            proof {
                lemma_children(*n);
            }
            let c = &n.children[i];
            match c.rule {
                Rule::DISTINCT => {
                    distinct = true;
                },
                Rule::ProjectionItems => match ProjectionItems::parse(c) {
                    Ok(v) => {
                        items = Some(v);
                    },
                    Err(e) => {
                        return Err(e);
                    },
                },
                Rule::Order => match Order::parse(c) {
                    Ok(v) => {
                        order = Some(v);
                    },
                    Err(e) => {
                        return Err(e);
                    },
                },
                Rule::Skip => match Skip::parse(c) {
                    Ok(v) => {
                        skip = Some(v);
                    },
                    Err(e) => {
                        return Err(e);
                    },
                },
                Rule::Limit => match Limit::parse(c) {
                    Ok(v) => {
                        limit = Some(v);
                    },
                    Err(e) => {
                        return Err(e);
                    },
                },
                Rule::SP => {},
                _ => {
                    return Err(fault_unexpected(n.rule, c));
                },
            }
            i += 1;
        }
        proof {
            lemma_children(*n);
        }
        match items {
            None => Err(fault_missing(n.rule, n)),
            Some(items) => Ok(ProjectionBody { distinct, items, order, skip, limit }),
        }
    }
}

impl ProjectionItems {
    /// The elaboration of a `ProjectionItems` node: whether `*` was written, and
    /// the items in order.
    pub open spec fn spec_parse(n: NodeView) -> Elaborated<ProjectionItemsView>
        decreases n, n.children.len() + 1,
    {
        if n.rule != Rule::ProjectionItems {
            Err(unexpected(Rule::ProjectionItems, n))
        } else {
            Self::scan(n, 0, false, Seq::empty())
        }
    }

    /// What [`ProjectionItems::spec_parse`] yields once the children before
    /// position `i` have been taken in, with what was gathered from them.
    pub open spec fn scan(
        n: NodeView,
        i: int,
        star: bool,
        items: Seq<ProjectionItemView>,
    ) -> Elaborated<ProjectionItemsView>
        decreases n, n.children.len() - i,
    {
        if !(0 <= i < n.children.len()) {
            Ok(ProjectionItemsView { star, items })
        } else {
            let c = n.children[i];
            match c.rule {
                Rule::STAR => Self::scan(n, i + 1, true, items),
                Rule::ProjectionItem => match ProjectionItem::spec_parse(c) {
                    Ok(v) => Self::scan(n, i + 1, star, items.push(v)),
                    Err(e) => Err(e),
                },
                Rule::SP => Self::scan(n, i + 1, star, items),
                _ => Err(unexpected(n.rule, c)),
            }
        }
    }

    /// Elaborates a `ProjectionItems` node: whether `*` was written, and the items
    /// in order.
    pub fn parse(n: &ParseNode) -> (r: Elaborated<ProjectionItems>)
        ensures
            agrees(r, ProjectionItems::spec_parse(n@)),
        decreases n,
    {
        match n.rule {
            Rule::ProjectionItems => {},
            _ => {
                return Err(fault_unexpected(Rule::ProjectionItems, n));
            },
        }
        let mut star: bool = false;
        let mut items: Vec<ProjectionItem> = Vec::new();
        proof {
            assert(view_projection_item_seq(items@) =~= Seq::empty());
        }
        let mut i: usize = 0;
        while i < n.children.len()
            invariant
                i <= n.children.len(),
                ProjectionItems::spec_parse(n@) == ProjectionItems::scan(
                    n@,
                    i as int,
                    star,
                    view_projection_item_seq(items@),
                ),
            decreases n.children.len() - i,
        {
            proof {
                lemma_children(*n);
            }
            let c = &n.children[i];
            match c.rule {
                Rule::STAR => {
                    star = true;
                },
                Rule::ProjectionItem => match ProjectionItem::parse(c) {
                    Ok(v) => {
                        let ghost before = items@;
                        let ghost item = v@;
                        items.push(v);
                        assert(view_projection_item_seq(items@)
                            =~= view_projection_item_seq(before).push(item));
                    },
                    Err(e) => {
                        return Err(e);
                    },
                },
                Rule::SP => {},
                _ => {
                    return Err(fault_unexpected(n.rule, c));
                },
            }
            i += 1;
        }
        proof {
            lemma_children(*n);
        }
        Ok(ProjectionItems { star, items })
    }
}

impl ProjectionItem {
    /// The elaboration of a `ProjectionItem` node: the expression, which is
    /// required, renamed to the variable when one is written after `AS`.
    pub open spec fn spec_parse(n: NodeView) -> Elaborated<ProjectionItemView>
        decreases n, n.children.len() + 1,
    {
        if n.rule != Rule::ProjectionItem {
            Err(unexpected(Rule::ProjectionItem, n))
        } else {
            Self::scan(n, 0, None, None)
        }
    }

    /// What [`ProjectionItem::spec_parse`] yields once the children before position
    /// `i` have been taken in, with what was gathered from them.
    pub open spec fn scan(
        n: NodeView,
        i: int,
        expression: Option<ExpressionView>,
        variable: Option<Seq<char>>,
    ) -> Elaborated<ProjectionItemView>
        decreases n, n.children.len() - i,
    {
        if !(0 <= i < n.children.len()) {
            match expression {
                None => Err(missing(n.rule, n)),
                Some(expression) => Ok(match variable {
                    Some(variable) => ProjectionItemView::AsVariable { expression, variable },
                    None => ProjectionItemView::Expression(expression),
                }),
            }
        } else {
            let c = n.children[i];
            match c.rule {
                Rule::Expression => match Expression::spec_parse(c) {
                    Ok(v) => Self::scan(n, i + 1, Some(v), variable),
                    Err(e) => Err(e),
                },
                Rule::Variable => Self::scan(n, i + 1, expression, Some(c.text)),
                Rule::SP | Rule::AS => Self::scan(n, i + 1, expression, variable),
                _ => Err(unexpected(n.rule, c)),
            }
        }
    }

    /// Elaborates a `ProjectionItem` node: the expression, which is required,
    /// renamed to the variable when one is written after `AS`.
    pub fn parse(n: &ParseNode) -> (r: Elaborated<ProjectionItem>)
        ensures
            agrees(r, ProjectionItem::spec_parse(n@)),
        decreases n,
    {
        match n.rule {
            Rule::ProjectionItem => {},
            _ => {
                return Err(fault_unexpected(Rule::ProjectionItem, n));
            },
        }
        let mut expression: Option<Expression> = None;
        let mut variable: Option<String> = None;
        let mut i: usize = 0;
        while i < n.children.len()
            invariant
                i <= n.children.len(),
                ProjectionItem::spec_parse(n@) == ProjectionItem::scan(
                    n@,
                    i as int,
                    view_option(expression),
                    view_option(variable),
                ),
            decreases n.children.len() - i,
        {
            proof {
                lemma_children(*n);
            }
            let c = &n.children[i];
            match c.rule {
                Rule::Expression => match Expression::parse(c) {
                    Ok(v) => {
                        expression = Some(v);
                    },
                    Err(e) => {
                        return Err(e);
                    },
                },
                Rule::Variable => match parse_variable(c) {
                    Ok(v) => {
                        variable = Some(v);
                    },
                    Err(e) => {
                        return Err(e);
                    },
                },
                Rule::SP | Rule::AS => {},
                _ => {
                    return Err(fault_unexpected(n.rule, c));
                },
            }
            i += 1;
        }
        proof {
            lemma_children(*n);
        }
        match expression {
            None => Err(fault_missing(n.rule, n)),
            Some(expression) => Ok(match variable {
                Some(variable) => ProjectionItem::AsVariable { expression, variable },
                None => ProjectionItem::Expression(expression),
            }),
        }
    }
}

impl Order {
    /// The elaboration of an `Order` node: the sort items, in order.
    pub open spec fn spec_parse(n: NodeView) -> Elaborated<OrderView>
        decreases n, n.children.len() + 1,
    {
        if n.rule != Rule::Order {
            Err(unexpected(Rule::Order, n))
        } else {
            Self::scan(n, 0, Seq::empty())
        }
    }

    /// What [`Order::spec_parse`] yields once the children before position `i` have
    /// been taken in, with what was gathered from them.
    pub open spec fn scan(n: NodeView, i: int, items: Seq<SortItemView>) -> Elaborated<OrderView>
        decreases n, n.children.len() - i,
    {
        if !(0 <= i < n.children.len()) {
            Ok(OrderView { items })
        } else {
            let c = n.children[i];
            match c.rule {
                Rule::SortItem => match SortItem::spec_parse(c) {
                    Ok(v) => Self::scan(n, i + 1, items.push(v)),
                    Err(e) => Err(e),
                },
                Rule::SP | Rule::ORDER | Rule::BY => Self::scan(n, i + 1, items),
                _ => Err(unexpected(n.rule, c)),
            }
        }
    }

    /// Elaborates an `Order` node: the sort items, in order.
    pub fn parse(n: &ParseNode) -> (r: Elaborated<Order>)
        ensures
            agrees(r, Order::spec_parse(n@)),
        decreases n,
    {
        match n.rule {
            Rule::Order => {},
            _ => {
                return Err(fault_unexpected(Rule::Order, n));
            },
        }
        let mut items: Vec<SortItem> = Vec::new();
        proof {
            assert(view_sort_item_seq(items@) =~= Seq::empty());
        }
        let mut i: usize = 0;
        while i < n.children.len()
            invariant
                i <= n.children.len(),
                Order::spec_parse(n@) == Order::scan(n@, i as int, view_sort_item_seq(items@)),
            decreases n.children.len() - i,
        {
            proof {
                lemma_children(*n);
            }
            let c = &n.children[i];
            match c.rule {
                Rule::SortItem => match SortItem::parse(c) {
                    Ok(v) => {
                        let ghost before = items@;
                        let ghost item = v@;
                        items.push(v);
                        assert(view_sort_item_seq(items@)
                            =~= view_sort_item_seq(before).push(item));
                    },
                    Err(e) => {
                        return Err(e);
                    },
                },
                Rule::SP | Rule::ORDER | Rule::BY => {},
                _ => {
                    return Err(fault_unexpected(n.rule, c));
                },
            }
            i += 1;
        }
        proof {
            lemma_children(*n);
        }
        Ok(Order { items })
    }
}

impl SortItem {
    /// The elaboration of a `SortItem` node: the expression, which is required,
    /// sorted ascending unless the last direction keyword among the children is
    /// `DESCENDING` or `DESC`.
    pub open spec fn spec_parse(n: NodeView) -> Elaborated<SortItemView>
        decreases n, n.children.len() + 1,
    {
        if n.rule != Rule::SortItem {
            Err(unexpected(Rule::SortItem, n))
        } else {
            Self::scan(n, 0, None, false)
        }
    }

    /// What [`SortItem::spec_parse`] yields once the children before position `i`
    /// have been taken in, with what was gathered from them.
    pub open spec fn scan(
        n: NodeView,
        i: int,
        expression: Option<ExpressionView>,
        descending: bool,
    ) -> Elaborated<SortItemView>
        decreases n, n.children.len() - i,
    {
        if !(0 <= i < n.children.len()) {
            match expression {
                None => Err(missing(n.rule, n)),
                Some(expression) => Ok(if descending {
                    SortItemView::Descending(expression)
                } else {
                    SortItemView::Ascending(expression)
                }),
            }
        } else {
            let c = n.children[i];
            match c.rule {
                Rule::Expression => match Expression::spec_parse(c) {
                    Ok(v) => Self::scan(n, i + 1, Some(v), descending),
                    Err(e) => Err(e),
                },
                Rule::DESCENDING | Rule::DESC => Self::scan(n, i + 1, expression, true),
                Rule::ASCENDING | Rule::ASC => Self::scan(n, i + 1, expression, false),
                Rule::SP => Self::scan(n, i + 1, expression, descending),
                _ => Err(unexpected(n.rule, c)),
            }
        }
    }

    /// Elaborates a `SortItem` node: the expression, which is required, sorted
    /// ascending unless the last direction keyword among the children is
    /// `DESCENDING` or `DESC`.
    pub fn parse(n: &ParseNode) -> (r: Elaborated<SortItem>)
        ensures
            agrees(r, SortItem::spec_parse(n@)),
        decreases n,
    {
        match n.rule {
            Rule::SortItem => {},
            _ => {
                return Err(fault_unexpected(Rule::SortItem, n));
            },
        }
        let mut expression: Option<Expression> = None;
        let mut descending: bool = false;
        let mut i: usize = 0;
        while i < n.children.len()
            invariant
                i <= n.children.len(),
                SortItem::spec_parse(n@) == SortItem::scan(
                    n@,
                    i as int,
                    view_option(expression),
                    descending,
                ),
            decreases n.children.len() - i,
        {
            proof {
                lemma_children(*n);
            }
            let c = &n.children[i];
            match c.rule {
                Rule::Expression => match Expression::parse(c) {
                    Ok(v) => {
                        expression = Some(v);
                    },
                    Err(e) => {
                        return Err(e);
                    },
                },
                Rule::DESCENDING | Rule::DESC => {
                    descending = true;
                },
                Rule::ASCENDING | Rule::ASC => {
                    descending = false;
                },
                Rule::SP => {},
                _ => {
                    return Err(fault_unexpected(n.rule, c));
                },
            }
            i += 1;
        }
        proof {
            lemma_children(*n);
        }
        match expression {
            None => Err(fault_missing(n.rule, n)),
            Some(expression) => Ok(if descending {
                SortItem::Descending(expression)
            } else {
                SortItem::Ascending(expression)
            }),
        }
    }
}

impl Skip {
    /// The elaboration of a `Skip` node: the expression after the keyword.
    pub open spec fn spec_parse(n: NodeView) -> Elaborated<SkipView>
        decreases n, n.children.len() + 1,
    {
        if n.rule != Rule::Skip {
            Err(unexpected(Rule::Skip, n))
        } else {
            Self::scan(n, 0)
        }
    }

    /// What [`Skip::spec_parse`] yields once the children before position `i` have
    /// been taken in, with what was gathered from them.
    pub open spec fn scan(n: NodeView, i: int) -> Elaborated<SkipView>
        decreases n, n.children.len() - i,
    {
        if !(0 <= i < n.children.len()) {
            Err(missing(n.rule, n))
        } else {
            let c = n.children[i];
            match c.rule {
                Rule::Expression => match Expression::spec_parse(c) {
                    Ok(v) => Ok(SkipView { expression: v }),
                    Err(e) => Err(e),
                },
                Rule::SP | Rule::SKIP => Self::scan(n, i + 1),
                _ => Err(unexpected(n.rule, c)),
            }
        }
    }

    /// Elaborates a `Skip` node: the expression after the keyword.
    pub fn parse(n: &ParseNode) -> (r: Elaborated<Skip>)
        ensures
            agrees(r, Skip::spec_parse(n@)),
        decreases n,
    {
        match n.rule {
            Rule::Skip => {},
            _ => {
                return Err(fault_unexpected(Rule::Skip, n));
            },
        }
        let mut i: usize = 0;
        while i < n.children.len()
            invariant
                i <= n.children.len(),
                Skip::spec_parse(n@) == Skip::scan(n@, i as int),
            decreases n.children.len() - i,
        {
            proof {
                lemma_children(*n);
            }
            let c = &n.children[i];
            match c.rule {
                Rule::Expression => {
                    return match Expression::parse(c) {
                        Ok(v) => Ok(Skip { expression: v }),
                        Err(e) => Err(e),
                    };
                },
                Rule::SP | Rule::SKIP => {},
                _ => {
                    return Err(fault_unexpected(n.rule, c));
                },
            }
            i += 1;
        }
        proof {
            lemma_children(*n);
        }
        Err(fault_missing(n.rule, n))
    }
}

impl Limit {
    /// The elaboration of a `Limit` node: the expression after the keyword.
    pub open spec fn spec_parse(n: NodeView) -> Elaborated<LimitView>
        decreases n, n.children.len() + 1,
    {
        if n.rule != Rule::Limit {
            Err(unexpected(Rule::Limit, n))
        } else {
            Self::scan(n, 0)
        }
    }

    /// What [`Limit::spec_parse`] yields once the children before position `i` have
    /// been taken in, with what was gathered from them.
    pub open spec fn scan(n: NodeView, i: int) -> Elaborated<LimitView>
        decreases n, n.children.len() - i,
    {
        if !(0 <= i < n.children.len()) {
            Err(missing(n.rule, n))
        } else {
            let c = n.children[i];
            match c.rule {
                Rule::Expression => match Expression::spec_parse(c) {
                    Ok(v) => Ok(LimitView { expression: v }),
                    Err(e) => Err(e),
                },
                Rule::SP | Rule::LIMIT => Self::scan(n, i + 1),
                _ => Err(unexpected(n.rule, c)),
            }
        }
    }

    /// Elaborates a `Limit` node: the expression after the keyword.
    pub fn parse(n: &ParseNode) -> (r: Elaborated<Limit>)
        ensures
            agrees(r, Limit::spec_parse(n@)),
        decreases n,
    {
        match n.rule {
            Rule::Limit => {},
            _ => {
                return Err(fault_unexpected(Rule::Limit, n));
            },
        }
        let mut i: usize = 0;
        while i < n.children.len()
            invariant
                i <= n.children.len(),
                Limit::spec_parse(n@) == Limit::scan(n@, i as int),
            decreases n.children.len() - i,
        {
            proof {
                lemma_children(*n);
            }
            let c = &n.children[i];
            match c.rule {
                Rule::Expression => {
                    return match Expression::parse(c) {
                        Ok(v) => Ok(Limit { expression: v }),
                        Err(e) => Err(e),
                    };
                },
                Rule::SP | Rule::LIMIT => {},
                _ => {
                    return Err(fault_unexpected(n.rule, c));
                },
            }
            i += 1;
        }
        proof {
            lemma_children(*n);
        }
        Err(fault_missing(n.rule, n))
    }
}

} // verus!
