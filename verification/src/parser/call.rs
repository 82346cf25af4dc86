//! Elaboration of procedure calls, standalone and inside a query, and of what
//! they yield.

use vstd::prelude::*;

use crate::ast::cypher::{
    ExplicitProcedureInvocation, Expression, ImplicitProcedureInvocation, InQueryCall,
    ProcedureInvocation, ProcedureResultField, StandaloneCall, StarOrYieldItems, YieldItem,
    YieldItems,
};
use crate::ast::model::{
    ExplicitProcedureInvocationView, ExpressionView, ImplicitProcedureInvocationView,
    InQueryCallView, ProcedureInvocationView, StandaloneCallView, StarOrYieldItemsView,
    YieldItemView, YieldItemsView, view_expression_seq, view_yield_item_seq,
};
use crate::error::{
    Elaborated, agrees, fault_missing, fault_unexpected, missing, unexpected, view_option,
};
use crate::parser::clause::{parse_where, spec_parse_where};
use crate::parser::pattern::parse_variable;
use crate::tree::{NodeView, ParseNode, Rule, lemma_children};

verus! {

impl InQueryCall {
    /// The elaboration of an `InQueryCall` node: the procedure invocation, which is
    /// required, and the optional `YIELD` items.
    pub open spec fn spec_parse(n: NodeView) -> Elaborated<InQueryCallView>
        decreases n, n.children.len() + 1,
    {
        if n.rule != Rule::InQueryCall {
            Err(unexpected(Rule::InQueryCall, n))
        } else {
            Self::scan(n, 0, None, None)
        }
    }

    /// What [`InQueryCall::spec_parse`] yields once the children before position
    /// `i` have been taken in, with what was gathered from them.
    pub open spec fn scan(
        n: NodeView,
        i: int,
        invocation: Option<ExplicitProcedureInvocationView>,
        yield_items: Option<YieldItemsView>,
    ) -> Elaborated<InQueryCallView>
        decreases n, n.children.len() - i,
    {
        if !(0 <= i < n.children.len()) {
            match invocation {
                None => Err(missing(n.rule, n)),
                Some(invocation) => Ok(InQueryCallView { invocation, yield_items }),
            }
        } else {
            let c = n.children[i];
            match c.rule {
                Rule::ExplicitProcedureInvocation => match ExplicitProcedureInvocation::spec_parse(c) {
                    Ok(v) => Self::scan(n, i + 1, Some(v), yield_items),
                    Err(e) => Err(e),
                },
                Rule::YieldItems => match YieldItems::spec_parse(c) {
                    Ok(v) => Self::scan(n, i + 1, invocation, Some(v)),
                    Err(e) => Err(e),
                },
                Rule::SP | Rule::CALL | Rule::YIELD => Self::scan(
                    n,
                    i + 1,
                    invocation,
                    yield_items,
                ),
                _ => Err(unexpected(n.rule, c)),
            }
        }
    }

    /// Elaborates an `InQueryCall` node: the procedure invocation, which is
    /// required, and the optional `YIELD` items.
    pub fn parse(n: &ParseNode) -> (r: Elaborated<InQueryCall>)
        ensures
            agrees(r, InQueryCall::spec_parse(n@)),
        decreases n,
    {
        match n.rule {
            Rule::InQueryCall => {},
            _ => {
                return Err(fault_unexpected(Rule::InQueryCall, n));
            },
        }
        let mut invocation: Option<ExplicitProcedureInvocation> = None;
        let mut yield_items: Option<YieldItems> = None;
        let mut i: usize = 0;
        while i < n.children.len()
            invariant
                i <= n.children.len(),
                InQueryCall::spec_parse(n@) == InQueryCall::scan(
                    n@,
                    i as int,
                    view_option(invocation),
                    view_option(yield_items),
                ),
            decreases n.children.len() - i,
        {
            proof {
                lemma_children(*n);
            }
            let c = &n.children[i];
            match c.rule {
                Rule::ExplicitProcedureInvocation => match ExplicitProcedureInvocation::parse(c) {
                    Ok(v) => {
                        invocation = Some(v);
                    },
                    Err(e) => {
                        return Err(e);
                    },
                },
                Rule::YieldItems => match YieldItems::parse(c) {
                    Ok(v) => {
                        yield_items = Some(v);
                    },
                    Err(e) => {
                        return Err(e);
                    },
                },
                Rule::SP | Rule::CALL | Rule::YIELD => {},
                _ => {
                    return Err(fault_unexpected(n.rule, c));
                },
            }
            i += 1;
        }
        proof {
            lemma_children(*n);
        }
        match invocation {
            None => Err(fault_missing(n.rule, n)),
            Some(invocation) => Ok(InQueryCall { invocation, yield_items }),
        }
    }
}

impl YieldItems {
    /// The elaboration of a `YieldItems` node: a `*` child makes it `YIELD *`;
    /// otherwise the items in order, and the optional `WHERE` filter over what they
    /// bind.
    pub open spec fn spec_parse(n: NodeView) -> Elaborated<YieldItemsView>
        decreases n, n.children.len() + 1,
    {
        if n.rule != Rule::YieldItems {
            Err(unexpected(Rule::YieldItems, n))
        } else {
            Self::scan(n, 0, Seq::empty(), None)
        }
    }

    /// What [`YieldItems::spec_parse`] yields once the children before position `i`
    /// have been taken in, with what was gathered from them.
    pub open spec fn scan(
        n: NodeView,
        i: int,
        items: Seq<YieldItemView>,
        where_: Option<ExpressionView>,
    ) -> Elaborated<YieldItemsView>
        decreases n, n.children.len() - i,
    {
        if !(0 <= i < n.children.len()) {
            Ok(YieldItemsView::Items { items, where_ })
        } else {
            let c = n.children[i];
            match c.rule {
                Rule::YieldItem => match YieldItem::spec_parse(c) {
                    Ok(v) => Self::scan(n, i + 1, items.push(v), where_),
                    Err(e) => Err(e),
                },
                Rule::Where => match spec_parse_where(c) {
                    Ok(v) => Self::scan(n, i + 1, items, Some(v)),
                    Err(e) => Err(e),
                },
                Rule::STAR => Ok(YieldItemsView::Star),
                Rule::SP => Self::scan(n, i + 1, items, where_),
                _ => Err(unexpected(n.rule, c)),
            }
        }
    }

    /// Elaborates a `YieldItems` node: a `*` child makes it `YIELD *`; otherwise
    /// the items in order, and the optional `WHERE` filter over what they bind.
    pub fn parse(n: &ParseNode) -> (r: Elaborated<YieldItems>)
        ensures
            agrees(r, YieldItems::spec_parse(n@)),
        decreases n,
    {
        match n.rule {
            Rule::YieldItems => {},
            _ => {
                return Err(fault_unexpected(Rule::YieldItems, n));
            },
        }
        let mut items: Vec<YieldItem> = Vec::new();
        let mut where_: Option<Expression> = None;
        proof {
            assert(view_yield_item_seq(items@) =~= Seq::empty());
        }
        let mut i: usize = 0;
        while i < n.children.len()
            invariant
                i <= n.children.len(),
                YieldItems::spec_parse(n@) == YieldItems::scan(
                    n@,
                    i as int,
                    view_yield_item_seq(items@),
                    view_option(where_),
                ),
            decreases n.children.len() - i,
        {
            proof {
                lemma_children(*n);
            }
            let c = &n.children[i];
            match c.rule {
                Rule::YieldItem => match YieldItem::parse(c) {
                    Ok(v) => {
                        let ghost before = items@;
                        let ghost item = v@;
                        items.push(v);
                        assert(view_yield_item_seq(items@)
                            =~= view_yield_item_seq(before).push(item));
                    },
                    Err(e) => {
                        return Err(e);
                    },
                },
                Rule::Where => match parse_where(c) {
                    Ok(v) => {
                        where_ = Some(v);
                    },
                    Err(e) => {
                        return Err(e);
                    },
                },
                Rule::STAR => {
                    return Ok(YieldItems::Star);
                },
                Rule::SP => {},
                _ => {
                    return Err(fault_unexpected(n.rule, c));
                },
            }
            i += 1;
        }
        proof {
            lemma_children(*n);
        }
        Ok(YieldItems::Items { items, where_ })
    }
}

impl ExplicitProcedureInvocation {
    /// The elaboration of an `ExplicitProcedureInvocation` node: the procedure's
    /// name, which is required, and its arguments in order.
    pub open spec fn spec_parse(n: NodeView) -> Elaborated<ExplicitProcedureInvocationView>
        decreases n, n.children.len() + 1,
    {
        if n.rule != Rule::ExplicitProcedureInvocation {
            Err(unexpected(Rule::ExplicitProcedureInvocation, n))
        } else {
            Self::scan(n, 0, None, Seq::empty())
        }
    }

    /// What [`ExplicitProcedureInvocation::spec_parse`] yields once the children
    /// before position `i` have been taken in, with what was gathered from them.
    pub open spec fn scan(
        n: NodeView,
        i: int,
        name: Option<Seq<char>>,
        arguments: Seq<ExpressionView>,
    ) -> Elaborated<ExplicitProcedureInvocationView>
        decreases n, n.children.len() - i,
    {
        if !(0 <= i < n.children.len()) {
            match name {
                None => Err(missing(n.rule, n)),
                Some(name) => Ok(ExplicitProcedureInvocationView { name, arguments }),
            }
        } else {
            let c = n.children[i];
            match c.rule {
                Rule::ProcedureName => Self::scan(n, i + 1, Some(c.text), arguments),
                Rule::Expression => match Expression::spec_parse(c) {
                    Ok(v) => Self::scan(n, i + 1, name, arguments.push(v)),
                    Err(e) => Err(e),
                },
                Rule::SP => Self::scan(n, i + 1, name, arguments),
                _ => Err(unexpected(n.rule, c)),
            }
        }
    }

    /// Elaborates an `ExplicitProcedureInvocation` node: the procedure's name,
    /// which is required, and its arguments in order.
    pub fn parse(n: &ParseNode) -> (r: Elaborated<ExplicitProcedureInvocation>)
        ensures
            agrees(r, ExplicitProcedureInvocation::spec_parse(n@)),
        decreases n,
    {
        match n.rule {
            Rule::ExplicitProcedureInvocation => {},
            _ => {
                return Err(fault_unexpected(Rule::ExplicitProcedureInvocation, n));
            },
        }
        let mut name: Option<String> = None;
        let mut arguments: Vec<Expression> = Vec::new();
        proof {
            assert(view_expression_seq(arguments@) =~= Seq::empty());
        }
        let mut i: usize = 0;
        while i < n.children.len()
            invariant
                i <= n.children.len(),
                ExplicitProcedureInvocation::spec_parse(n@) == ExplicitProcedureInvocation::scan(
                    n@,
                    i as int,
                    view_option(name),
                    view_expression_seq(arguments@),
                ),
            decreases n.children.len() - i,
        {
            proof {
                lemma_children(*n);
            }
            let c = &n.children[i];
            match c.rule {
                Rule::ProcedureName => {
                    name = Some(c.text.clone());
                },
                Rule::Expression => match Expression::parse(c) {
                    Ok(v) => {
                        let ghost before = arguments@;
                        let ghost item = v@;
                        arguments.push(v);
                        assert(view_expression_seq(arguments@)
                            =~= view_expression_seq(before).push(item));
                    },
                    Err(e) => {
                        return Err(e);
                    },
                },
                Rule::SP => {},
                _ => {
                    return Err(fault_unexpected(n.rule, c));
                },
            }
            i += 1;
        }
        proof {
            lemma_children(*n);
        }
        match name {
            None => Err(fault_missing(n.rule, n)),
            Some(name) => Ok(ExplicitProcedureInvocation { name, arguments }),
        }
    }
}

impl StandaloneCall {
    /// The elaboration of a `StandaloneCall` node: the invocation, explicit or
    /// implicit, which is required, and what it yields: nothing, `*` when a `*`
    /// child is present, or else the `YieldItems` child.
    pub open spec fn spec_parse(n: NodeView) -> Elaborated<StandaloneCallView>
        decreases n, n.children.len() + 1,
    {
        if n.rule != Rule::StandaloneCall {
            Err(unexpected(Rule::StandaloneCall, n))
        } else {
            Self::scan(n, 0, None, None, false)
        }
    }

    /// What [`StandaloneCall::spec_parse`] yields once the children before position
    /// `i` have been taken in, with what was gathered from them.
    pub open spec fn scan(
        n: NodeView,
        i: int,
        invocation: Option<ProcedureInvocationView>,
        yield_items: Option<YieldItemsView>,
        star: bool,
    ) -> Elaborated<StandaloneCallView>
        decreases n, n.children.len() - i,
    {
        if !(0 <= i < n.children.len()) {
            match invocation {
                None => Err(missing(n.rule, n)),
                Some(invocation) => Ok(StandaloneCallView {
                    invocation,
                    yield_: if star {
                        Some(StarOrYieldItemsView::Star)
                    } else {
                        match yield_items {
                            Some(items) => Some(StarOrYieldItemsView::YieldItems(items)),
                            None => None,
                        }
                    },
                }),
            }
        } else {
            let c = n.children[i];
            match c.rule {
                Rule::ExplicitProcedureInvocation => match ExplicitProcedureInvocation::spec_parse(c) {
                    Ok(v) => Self::scan(
                        n,
                        i + 1,
                        Some(ProcedureInvocationView::Explicit(v)),
                        yield_items,
                        star,
                    ),
                    Err(e) => Err(e),
                },
                Rule::ImplicitProcedureInvocation => match ImplicitProcedureInvocation::spec_parse(c) {
                    Ok(v) => Self::scan(
                        n,
                        i + 1,
                        Some(ProcedureInvocationView::Implicit(v)),
                        yield_items,
                        star,
                    ),
                    Err(e) => Err(e),
                },
                Rule::STAR => Self::scan(n, i + 1, invocation, yield_items, true),
                Rule::YieldItems => match YieldItems::spec_parse(c) {
                    Ok(v) => Self::scan(n, i + 1, invocation, Some(v), star),
                    Err(e) => Err(e),
                },
                Rule::SP | Rule::CALL | Rule::YIELD => Self::scan(
                    n,
                    i + 1,
                    invocation,
                    yield_items,
                    star,
                ),
                _ => Err(unexpected(n.rule, c)),
            }
        }
    }

    /// Elaborates a `StandaloneCall` node: the invocation, explicit or implicit,
    /// which is required, and what it yields: nothing, `*` when a `*` child is
    /// present, or else the `YieldItems` child.
    pub fn parse(n: &ParseNode) -> (r: Elaborated<StandaloneCall>)
        ensures
            agrees(r, StandaloneCall::spec_parse(n@)),
        decreases n,
    {
        match n.rule {
            Rule::StandaloneCall => {},
            _ => {
                return Err(fault_unexpected(Rule::StandaloneCall, n));
            },
        }
        let mut invocation: Option<ProcedureInvocation> = None;
        let mut yield_items: Option<YieldItems> = None;
        let mut star: bool = false;
        let mut i: usize = 0;
        while i < n.children.len()
            invariant
                i <= n.children.len(),
                StandaloneCall::spec_parse(n@) == StandaloneCall::scan(
                    n@,
                    i as int,
                    view_option(invocation),
                    view_option(yield_items),
                    star,
                ),
            decreases n.children.len() - i,
        {
            proof {
                lemma_children(*n);
            }
            let c = &n.children[i];
            match c.rule {
                Rule::ExplicitProcedureInvocation => match ExplicitProcedureInvocation::parse(c) {
                    Ok(v) => {
                        invocation = Some(ProcedureInvocation::Explicit(v));
                    },
                    Err(e) => {
                        return Err(e);
                    },
                },
                Rule::ImplicitProcedureInvocation => match ImplicitProcedureInvocation::parse(c) {
                    Ok(v) => {
                        invocation = Some(ProcedureInvocation::Implicit(v));
                    },
                    Err(e) => {
                        return Err(e);
                    },
                },
                Rule::STAR => {
                    star = true;
                },
                Rule::YieldItems => match YieldItems::parse(c) {
                    Ok(v) => {
                        yield_items = Some(v);
                    },
                    Err(e) => {
                        return Err(e);
                    },
                },
                Rule::SP | Rule::CALL | Rule::YIELD => {},
                _ => {
                    return Err(fault_unexpected(n.rule, c));
                },
            }
            i += 1;
        }
        proof {
            lemma_children(*n);
        }
        match invocation {
            None => Err(fault_missing(n.rule, n)),
            Some(invocation) => Ok(StandaloneCall {
                invocation,
                yield_: if star {
                    Some(StarOrYieldItems::Star)
                } else {
                    match yield_items {
                        Some(items) => Some(StarOrYieldItems::YieldItems(items)),
                        None => None,
                    }
                },
            }),
        }
    }
}

impl ImplicitProcedureInvocation {
    /// The elaboration of an `ImplicitProcedureInvocation` node: the procedure's
    /// name.
    pub open spec fn spec_parse(n: NodeView) -> Elaborated<ImplicitProcedureInvocationView>
        decreases n, n.children.len() + 1,
    {
        if n.rule != Rule::ImplicitProcedureInvocation {
            Err(unexpected(Rule::ImplicitProcedureInvocation, n))
        } else {
            Self::scan(n, 0)
        }
    }

    /// What [`ImplicitProcedureInvocation::spec_parse`] yields once the children
    /// before position `i` have been taken in, with what was gathered from them.
    pub open spec fn scan(n: NodeView, i: int) -> Elaborated<ImplicitProcedureInvocationView>
        decreases n, n.children.len() - i,
    {
        if !(0 <= i < n.children.len()) {
            Err(missing(n.rule, n))
        } else {
            let c = n.children[i];
            match c.rule {
                Rule::ProcedureName => Ok(ImplicitProcedureInvocationView { name: c.text }),
                Rule::SP => Self::scan(n, i + 1),
                _ => Err(unexpected(n.rule, c)),
            }
        }
    }

    /// Elaborates an `ImplicitProcedureInvocation` node: the procedure's name.
    pub fn parse(n: &ParseNode) -> (r: Elaborated<ImplicitProcedureInvocation>)
        ensures
            agrees(r, ImplicitProcedureInvocation::spec_parse(n@)),
        decreases n,
    {
        match n.rule {
            Rule::ImplicitProcedureInvocation => {},
            _ => {
                return Err(fault_unexpected(Rule::ImplicitProcedureInvocation, n));
            },
        }
        let mut i: usize = 0;
        while i < n.children.len()
            invariant
                i <= n.children.len(),
                ImplicitProcedureInvocation::spec_parse(n@) == ImplicitProcedureInvocation::scan(
                    n@,
                    i as int,
                ),
            decreases n.children.len() - i,
        {
            proof {
                lemma_children(*n);
            }
            let c = &n.children[i];
            match c.rule {
                Rule::ProcedureName => {
                    return Ok(ImplicitProcedureInvocation { name: c.text.clone() });
                },
                Rule::SP => {},
                _ => {
                    return Err(fault_unexpected(n.rule, c));
                },
            }
            i += 1;
        }
        proof {
            lemma_children(*n);
        }
        Err(fault_missing(n.rule, n))
    }
}

impl YieldItem {
    /// The elaboration of a `YieldItem` node: the variable, which is required, and
    /// the result field it renames, if one is written.
    pub open spec fn spec_parse(n: NodeView) -> Elaborated<YieldItemView>
        decreases n, n.children.len() + 1,
    {
        if n.rule != Rule::YieldItem {
            Err(unexpected(Rule::YieldItem, n))
        } else {
            Self::scan(n, 0, None, None)
        }
    }

    /// What [`YieldItem::spec_parse`] yields once the children before position `i`
    /// have been taken in, with what was gathered from them.
    pub open spec fn scan(
        n: NodeView,
        i: int,
        procedure_result_field: Option<Seq<char>>,
        variable: Option<Seq<char>>,
    ) -> Elaborated<YieldItemView>
        decreases n, n.children.len() - i,
    {
        if !(0 <= i < n.children.len()) {
            match variable {
                None => Err(missing(n.rule, n)),
                Some(variable) => Ok(YieldItemView { procedure_result_field, variable }),
            }
        } else {
            let c = n.children[i];
            match c.rule {
                Rule::ProcedureResultField => Self::scan(n, i + 1, Some(c.text), variable),
                Rule::Variable => Self::scan(n, i + 1, procedure_result_field, Some(c.text)),
                Rule::SP | Rule::AS => Self::scan(n, i + 1, procedure_result_field, variable),
                _ => Err(unexpected(n.rule, c)),
            }
        }
    }

    /// Elaborates a `YieldItem` node: the variable, which is required, and the
    /// result field it renames, if one is written.
    pub fn parse(n: &ParseNode) -> (r: Elaborated<YieldItem>)
        ensures
            agrees(r, YieldItem::spec_parse(n@)),
        decreases n,
    {
        match n.rule {
            Rule::YieldItem => {},
            _ => {
                return Err(fault_unexpected(Rule::YieldItem, n));
            },
        }
        let mut procedure_result_field: Option<String> = None;
        let mut variable: Option<String> = None;
        let mut i: usize = 0;
        while i < n.children.len()
            invariant
                i <= n.children.len(),
                YieldItem::spec_parse(n@) == YieldItem::scan(
                    n@,
                    i as int,
                    view_option(procedure_result_field),
                    view_option(variable),
                ),
            decreases n.children.len() - i,
        {
            proof {
                lemma_children(*n);
            }
            let c = &n.children[i];
            match c.rule {
                Rule::ProcedureResultField => match parse_procedure_result_field(c) {
                    Ok(v) => {
                        procedure_result_field = Some(v);
                    },
                    Err(e) => {
                        return Err(e);
                    },
                },
                Rule::Variable => match parse_variable(c) {
                    Ok(v) => {
                        variable = Some(v);
                    },
                    Err(e) => {
                        return Err(e);
                    },
                },
                Rule::SP | Rule::AS => {},
                _ => {
                    return Err(fault_unexpected(n.rule, c));
                },
            }
            i += 1;
        }
        proof {
            lemma_children(*n);
        }
        match variable {
            None => Err(fault_missing(n.rule, n)),
            Some(variable) => Ok(YieldItem { procedure_result_field, variable }),
        }
    }
}

/// The field a `ProcedureResultField` node names: its text.
pub open spec fn spec_parse_procedure_result_field(n: NodeView) -> Elaborated<Seq<char>> {
    if n.rule != Rule::ProcedureResultField {
        Err(unexpected(Rule::ProcedureResultField, n))
    } else {
        Ok(n.text)
    }
}

/// The field a `ProcedureResultField` node names: its text.
pub fn parse_procedure_result_field(n: &ParseNode) -> (r: Elaborated<String>)
    ensures
        agrees(r, spec_parse_procedure_result_field(n@)),
{
    match n.rule {
        Rule::ProcedureResultField => Ok(n.text.clone()),
        _ => Err(fault_unexpected(Rule::ProcedureResultField, n)),
    }
}

} // verus!
