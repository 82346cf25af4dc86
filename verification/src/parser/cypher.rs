//! The entry point for Cypher: from the outcome of matching a text against the
//! grammar to the query's syntax tree.

use vstd::prelude::*;

use crate::ast::cypher::{
    MultiPartQuery, MultiPartQueryPart, ProjectionBody, Query, ReadingClause, RegularQuery,
    SinglePartQuery, SingleQuery, StandaloneCall, Union, UpdatingClause, With,
};
use crate::ast::model::{
    MultiPartQueryPartView, MultiPartQueryView, ProjectionBodyView, QueryView,
    ReadingClauseView, RegularQueryView, SinglePartQueryView, SingleQueryView, UnionView,
    UpdatingClauseView, view_multi_part_query_part_seq, view_reading_clause_seq, view_union_seq,
    view_updating_clause_seq,
};
use crate::error::{
    Elaborated, ParseError, SyntaxError, agrees, agrees_by, fault_missing, fault_unexpected,
    missing, parse_error_of, unexpected, view_option,
};
use crate::parser::laws::lemma_multi_part_query_has_a_part;
use crate::parser::projection::{parse_return, spec_parse_return};
use crate::tree::{NodeView, ParseNode, Rule, lemma_children};

verus! {

/// What [`parse`] returns for the outcome of matching a text against the
/// grammar. A syntax error is handed on as it came. A tree is elaborated; a
/// failure of that is an internal fault or an unsupported construct, never a
/// syntax error.
pub open spec fn spec_parse(
    matched: Result<NodeView, SyntaxError>,
) -> Result<QueryView, ParseError> {
    match matched {
        Err(e) => Err(ParseError::Syntax(e)),
        Ok(tree) => match Query::spec_parse(tree) {
            Ok(q) => Ok(q),
            Err(e) => Err(parse_error_of(e)),
        },
    }
}

/// The value of an outcome of matching: the value of the tree, or the error.
pub open spec fn view_matched(
    matched: Result<ParseNode, SyntaxError>,
) -> Result<NodeView, SyntaxError> {
    match matched {
        Ok(tree) => Ok(tree@),
        Err(e) => Err(e),
    }
}

/// Whether `r` is what [`parse`] returns for `matched`: the error that
/// [`spec_parse`] gives, or a query whose value is the one it gives.
pub open spec fn parse_returns(
    matched: Result<ParseNode, SyntaxError>,
    r: Result<Query, ParseError>,
) -> bool {
    match r {
        Ok(q) => spec_parse(view_matched(matched)) == Ok::<QueryView, ParseError>(q@),
        Err(e) => spec_parse(view_matched(matched)) == Err::<QueryView, ParseError>(e),
    }
}

/// Turns the outcome of matching a query text against the grammar into the
/// query's syntax tree, or into the reason why there is none.
pub fn parse(matched: Result<ParseNode, SyntaxError>) -> (r: Result<Query, ParseError>)
    ensures
        parse_returns(matched, r),
{
    match matched {
        Err(e) => Err(ParseError::Syntax(e)),
        Ok(tree) => match Query::parse(&tree) {
            Ok(q) => Ok(q),
            Err(e) => Err(ParseError::from_elaboration(e)),
        },
    }
}

impl Query {
    /// The elaboration of the root of a parse tree, a `Cypher` node, to the query
    /// it holds: the query of the first `Statement` child that holds one. A root
    /// without a query is a fault.
    pub open spec fn spec_parse(n: NodeView) -> Elaborated<QueryView>
        decreases n, n.children.len() + 1,
    {
        if n.rule != Rule::Cypher {
            Err(unexpected(Rule::Cypher, n))
        } else {
            Self::scan(n, 0)
        }
    }

    /// What [`Query::spec_parse`] yields once the children before position `i` have
    /// been taken in, with what was gathered from them.
    pub open spec fn scan(n: NodeView, i: int) -> Elaborated<QueryView>
        decreases n, n.children.len() - i,
    {
        if !(0 <= i < n.children.len()) {
            Err(missing(n.rule, n))
        } else {
            let c = n.children[i];
            match c.rule {
                Rule::Statement => match spec_parse_statement(c) {
                    Err(e) => Err(e),
                    Ok(Some(q)) => Ok(q),
                    Ok(None) => Self::scan(n, i + 1),
                },
                _ => Err(unexpected(n.rule, c)),
            }
        }
    }

    /// Elaborates the root of a parse tree, a `Cypher` node, to the query it holds:
    /// the query of the first `Statement` child that holds one. A root without a
    /// query is a fault.
    pub fn parse(n: &ParseNode) -> (r: Elaborated<Query>)
        ensures
            agrees(r, Query::spec_parse(n@)),
        decreases n,
    {
        match n.rule {
            Rule::Cypher => {},
            _ => {
                return Err(fault_unexpected(Rule::Cypher, n));
            },
        }
        let mut i: usize = 0;
        while i < n.children.len()
            invariant
                i <= n.children.len(),
                Query::spec_parse(n@) == Query::scan(n@, i as int),
            decreases n.children.len() - i,
        {
            proof {
                lemma_children(*n);
            }
            let c = &n.children[i];
            match c.rule {
                Rule::Statement => match parse_statement(c) {
                    Err(e) => {
                        return Err(e);
                    },
                    Ok(Some(q)) => {
                        return Ok(q);
                    },
                    Ok(None) => {},
                },
                _ => {
                    return Err(fault_unexpected(n.rule, c));
                },
            }
            i += 1;
        }
        proof {
            lemma_children(*n);
        }
        Err(fault_missing(n.rule, n))
    }
}

/// The elaboration of a `Statement` node to the query of its first `Query`
/// child that holds one, or to nothing when it has no such child.
pub open spec fn spec_parse_statement(n: NodeView) -> Elaborated<Option<QueryView>>
    decreases n, n.children.len() + 1,
{
    if n.rule != Rule::Statement {
        Err(unexpected(Rule::Statement, n))
    } else {
        scan_statement(n, 0)
    }
}

/// What [`spec_parse_statement`] yields once the children before position `i`
/// have been taken in, with what was gathered from them.
pub open spec fn scan_statement(n: NodeView, i: int) -> Elaborated<Option<QueryView>>
    decreases n, n.children.len() - i,
{
    if !(0 <= i < n.children.len()) {
        Ok(None)
    } else {
        let c = n.children[i];
        match c.rule {
            Rule::Query => match spec_parse_query(c) {
                Err(e) => Err(e),
                Ok(Some(q)) => Ok(Some(q)),
                Ok(None) => scan_statement(n, i + 1),
            },
            _ => Err(unexpected(n.rule, c)),
        }
    }
}

/// Elaborates a `Statement` node to the query of its first `Query` child that
/// holds one, or to nothing when it has no such child.
pub fn parse_statement(n: &ParseNode) -> (r: Elaborated<Option<Query>>)
    ensures
        agrees_by(r, spec_parse_statement(n@), |v: Option<Query>| view_option(v)),
    decreases n,
{
    match n.rule {
        Rule::Statement => {},
        _ => {
            return Err(fault_unexpected(Rule::Statement, n));
        },
    }
    let mut i: usize = 0;
    while i < n.children.len()
        invariant
            i <= n.children.len(),
            spec_parse_statement(n@) == scan_statement(n@, i as int),
        decreases n.children.len() - i,
    {
        proof {
            lemma_children(*n);
        }
        let c = &n.children[i];
        match c.rule {
            Rule::Query => match parse_query(c) {
                Err(e) => {
                    return Err(e);
                },
                Ok(Some(q)) => {
                    return Ok(Some(q));
                },
                Ok(None) => {},
            },
            _ => {
                return Err(fault_unexpected(n.rule, c));
            },
        }
        i += 1;
    }
    proof {
        lemma_children(*n);
    }
    Ok(None)
}

/// The elaboration of a `Query` node by its first child, a regular query or a
/// standalone call, or to nothing when it has no child.
pub open spec fn spec_parse_query(n: NodeView) -> Elaborated<Option<QueryView>>
    decreases n, n.children.len() + 1,
{
    if n.rule != Rule::Query {
        Err(unexpected(Rule::Query, n))
    } else if n.children.len() == 0 {
        Ok(None)
    } else {
        let c = n.children[0];
        match c.rule {
            Rule::RegularQuery => match RegularQuery::spec_parse(c) {
                Ok(v) => Ok(Some(QueryView::RegularQuery(v))),
                Err(e) => Err(e),
            },
            Rule::StandaloneCall => match StandaloneCall::spec_parse(c) {
                Ok(v) => Ok(Some(QueryView::StandaloneCall(v))),
                Err(e) => Err(e),
            },
            _ => Err(unexpected(n.rule, c)),
        }
    }
}

/// Elaborates a `Query` node by its first child, a regular query or a
/// standalone call, or to nothing when it has no child.
pub fn parse_query(n: &ParseNode) -> (r: Elaborated<Option<Query>>)
    ensures
        agrees_by(r, spec_parse_query(n@), |v: Option<Query>| view_option(v)),
    decreases n,
{
    match n.rule {
        Rule::Query => {},
        _ => {
            return Err(fault_unexpected(Rule::Query, n));
        },
    }
    proof {
        lemma_children(*n);
    }
    if n.children.len() == 0 {
        return Ok(None);
    }
    let c = &n.children[0];
    match c.rule {
        Rule::RegularQuery => {
            return match RegularQuery::parse(c) {
                Ok(v) => Ok(Some(Query::RegularQuery(v))),
                Err(e) => Err(e),
            };
        },
        Rule::StandaloneCall => {
            return match StandaloneCall::parse(c) {
                Ok(v) => Ok(Some(Query::StandaloneCall(v))),
                Err(e) => Err(e),
            };
        },
        _ => {
            return Err(fault_unexpected(n.rule, c));
        },
    }
}

impl RegularQuery {
    /// The elaboration of a `RegularQuery` node: the query, which is required, and
    /// its `UNION` branches in order.
    pub open spec fn spec_parse(n: NodeView) -> Elaborated<RegularQueryView>
        decreases n, n.children.len() + 1,
    {
        if n.rule != Rule::RegularQuery {
            Err(unexpected(Rule::RegularQuery, n))
        } else {
            Self::scan(n, 0, None, Seq::empty())
        }
    }

    /// What [`RegularQuery::spec_parse`] yields once the children before position
    /// `i` have been taken in, with what was gathered from them.
    pub open spec fn scan(
        n: NodeView,
        i: int,
        query: Option<SingleQueryView>,
        union: Seq<UnionView>,
    ) -> Elaborated<RegularQueryView>
        decreases n, n.children.len() - i,
    {
        if !(0 <= i < n.children.len()) {
            match query {
                None => Err(missing(n.rule, n)),
                Some(query) => Ok(RegularQueryView { query, union }),
            }
        } else {
            let c = n.children[i];
            match c.rule {
                Rule::SingleQuery => match SingleQuery::spec_parse(c) {
                    Ok(v) => Self::scan(n, i + 1, Some(v), union),
                    Err(e) => Err(e),
                },
                Rule::Union => match Union::spec_parse(c) {
                    Ok(v) => Self::scan(n, i + 1, query, union.push(v)),
                    Err(e) => Err(e),
                },
                Rule::SP => Self::scan(n, i + 1, query, union),
                _ => Err(unexpected(n.rule, c)),
            }
        }
    }

    /// Elaborates a `RegularQuery` node: the query, which is required, and its
    /// `UNION` branches in order.
    pub fn parse(n: &ParseNode) -> (r: Elaborated<RegularQuery>)
        ensures
            agrees(r, RegularQuery::spec_parse(n@)),
        decreases n,
    {
        match n.rule {
            Rule::RegularQuery => {},
            _ => {
                return Err(fault_unexpected(Rule::RegularQuery, n));
            },
        }
        let mut query: Option<SingleQuery> = None;
        let mut union: Vec<Union> = Vec::new();
        proof {
            assert(view_union_seq(union@) =~= Seq::empty());
        }
        let mut i: usize = 0;
        while i < n.children.len()
            invariant
                i <= n.children.len(),
                RegularQuery::spec_parse(n@) == RegularQuery::scan(
                    n@,
                    i as int,
                    view_option(query),
                    view_union_seq(union@),
                ),
            decreases n.children.len() - i,
        {
            proof {
                lemma_children(*n);
            }
            let c = &n.children[i];
            match c.rule {
                Rule::SingleQuery => match SingleQuery::parse(c) {
                    Ok(v) => {
                        query = Some(v);
                    },
                    Err(e) => {
                        return Err(e);
                    },
                },
                Rule::Union => match Union::parse(c) {
                    Ok(v) => {
                        let ghost before = union@;
                        let ghost item = v@;
                        union.push(v);
                        assert(view_union_seq(union@) =~= view_union_seq(before).push(item));
                    },
                    Err(e) => {
                        return Err(e);
                    },
                },
                Rule::SP => {},
                _ => {
                    return Err(fault_unexpected(n.rule, c));
                },
            }
            i += 1;
        }
        proof {
            lemma_children(*n);
        }
        match query {
            None => Err(fault_missing(n.rule, n)),
            Some(query) => Ok(RegularQuery { query, union }),
        }
    }
}

impl SingleQuery {
    /// The elaboration of a `SingleQuery` node by its first child: a single-part or
    /// a multi-part query.
    pub open spec fn spec_parse(n: NodeView) -> Elaborated<SingleQueryView>
        decreases n, n.children.len() + 1,
    {
        if n.rule != Rule::SingleQuery {
            Err(unexpected(Rule::SingleQuery, n))
        } else if n.children.len() == 0 {
            Err(missing(n.rule, n))
        } else {
            let c = n.children[0];
            match c.rule {
                Rule::SinglePartQuery => match SinglePartQuery::spec_parse(c) {
                    Ok(v) => Ok(SingleQueryView::SinglePartQuery(v)),
                    Err(e) => Err(e),
                },
                Rule::MultiPartQuery => match MultiPartQuery::spec_parse(c) {
                    Ok(v) => Ok(SingleQueryView::MultiPartQuery(v)),
                    Err(e) => Err(e),
                },
                _ => Err(unexpected(n.rule, c)),
            }
        }
    }

    /// Elaborates a `SingleQuery` node by its first child: a single-part or a
    /// multi-part query.
    pub fn parse(n: &ParseNode) -> (r: Elaborated<SingleQuery>)
        ensures
            agrees(r, SingleQuery::spec_parse(n@)),
        decreases n,
    {
        match n.rule {
            Rule::SingleQuery => {},
            _ => {
                return Err(fault_unexpected(Rule::SingleQuery, n));
            },
        }
        proof {
            lemma_children(*n);
        }
        if n.children.len() == 0 {
            return Err(fault_missing(n.rule, n));
        }
        let c = &n.children[0];
        match c.rule {
            Rule::SinglePartQuery => {
                return match SinglePartQuery::parse(c) {
                    Ok(v) => Ok(SingleQuery::SinglePartQuery(v)),
                    Err(e) => Err(e),
                };
            },
            Rule::MultiPartQuery => {
                return match MultiPartQuery::parse(c) {
                    Ok(v) => Ok(SingleQuery::MultiPartQuery(v)),
                    Err(e) => Err(e),
                };
            },
            _ => {
                return Err(fault_unexpected(n.rule, c));
            },
        }
    }
}

impl SinglePartQuery {
    /// The elaboration of a `SinglePartQuery` node: its reading clauses and its
    /// updating clauses, each in order, and the `RETURN` projection, absent unless
    /// the node has a `Return` child.
    pub open spec fn spec_parse(n: NodeView) -> Elaborated<SinglePartQueryView>
        decreases n, n.children.len() + 1,
    {
        if n.rule != Rule::SinglePartQuery {
            Err(unexpected(Rule::SinglePartQuery, n))
        } else {
            Self::scan(n, 0, Seq::empty(), Seq::empty(), None)
        }
    }

    /// What [`SinglePartQuery::spec_parse`] yields once the children before
    /// position `i` have been taken in, with what was gathered from them.
    pub open spec fn scan(
        n: NodeView,
        i: int,
        reading_clauses: Seq<ReadingClauseView>,
        updating_clauses: Seq<UpdatingClauseView>,
        return_: Option<ProjectionBodyView>,
    ) -> Elaborated<SinglePartQueryView>
        decreases n, n.children.len() - i,
    {
        if !(0 <= i < n.children.len()) {
            Ok(SinglePartQueryView { reading_clauses, updating_clauses, return_ })
        } else {
            let c = n.children[i];
            match c.rule {
                Rule::ReadingClause => match ReadingClause::spec_parse(c) {
                    Ok(v) => Self::scan(
                        n,
                        i + 1,
                        reading_clauses.push(v),
                        updating_clauses,
                        return_,
                    ),
                    Err(e) => Err(e),
                },
                Rule::UpdatingClause => match UpdatingClause::spec_parse(c) {
                    Ok(v) => Self::scan(
                        n,
                        i + 1,
                        reading_clauses,
                        updating_clauses.push(v),
                        return_,
                    ),
                    Err(e) => Err(e),
                },
                Rule::Return => match spec_parse_return(c) {
                    Ok(v) => Self::scan(n, i + 1, reading_clauses, updating_clauses, Some(v)),
                    Err(e) => Err(e),
                },
                Rule::SP => Self::scan(n, i + 1, reading_clauses, updating_clauses, return_),
                _ => Err(unexpected(n.rule, c)),
            }
        }
    }

    /// Elaborates a `SinglePartQuery` node: its reading clauses and its updating
    /// clauses, each in order, and the `RETURN` projection, absent unless the node
    /// has a `Return` child.
    pub fn parse(n: &ParseNode) -> (r: Elaborated<SinglePartQuery>)
        ensures
            agrees(r, SinglePartQuery::spec_parse(n@)),
        decreases n,
    {
        match n.rule {
            Rule::SinglePartQuery => {},
            _ => {
                return Err(fault_unexpected(Rule::SinglePartQuery, n));
            },
        }
        let mut reading_clauses: Vec<ReadingClause> = Vec::new();
        let mut updating_clauses: Vec<UpdatingClause> = Vec::new();
        let mut return_: Option<ProjectionBody> = None;
        proof {
            assert(view_reading_clause_seq(reading_clauses@) =~= Seq::empty());
            assert(view_updating_clause_seq(updating_clauses@) =~= Seq::empty());
        }
        let mut i: usize = 0;
        while i < n.children.len()
            invariant
                i <= n.children.len(),
                SinglePartQuery::spec_parse(n@) == SinglePartQuery::scan(
                    n@,
                    i as int,
                    view_reading_clause_seq(reading_clauses@),
                    view_updating_clause_seq(updating_clauses@),
                    view_option(return_),
                ),
            decreases n.children.len() - i,
        {
            proof {
                lemma_children(*n);
            }
            let c = &n.children[i];
            match c.rule {
                Rule::ReadingClause => match ReadingClause::parse(c) {
                    Ok(v) => {
                        let ghost before = reading_clauses@;
                        let ghost item = v@;
                        reading_clauses.push(v);
                        assert(view_reading_clause_seq(reading_clauses@)
                            =~= view_reading_clause_seq(before).push(item));
                    },
                    Err(e) => {
                        return Err(e);
                    },
                },
                Rule::UpdatingClause => match UpdatingClause::parse(c) {
                    Ok(v) => {
                        let ghost before = updating_clauses@;
                        let ghost item = v@;
                        updating_clauses.push(v);
                        assert(view_updating_clause_seq(updating_clauses@)
                            =~= view_updating_clause_seq(before).push(item));
                    },
                    Err(e) => {
                        return Err(e);
                    },
                },
                Rule::Return => match parse_return(c) {
                    Ok(v) => {
                        return_ = Some(v);
                    },
                    Err(e) => {
                        return Err(e);
                    },
                },
                Rule::SP => {},
                _ => {
                    return Err(fault_unexpected(n.rule, c));
                },
            }
            i += 1;
        }
        proof {
            lemma_children(*n);
        }
        Ok(SinglePartQuery { reading_clauses, updating_clauses, return_ })
    }
}

impl MultiPartQuery {
    /// The elaboration of a `MultiPartQuery` node. Each `With` child closes a part
    /// made of the reading and updating clauses since the part before. The
    /// `SinglePartQuery` child ends the query; at least one part must come before
    /// it. Clauses that no `With` follows belong to no part.
    pub open spec fn spec_parse(n: NodeView) -> Elaborated<MultiPartQueryView>
        decreases n, n.children.len() + 1,
    {
        if n.rule != Rule::MultiPartQuery {
            Err(unexpected(Rule::MultiPartQuery, n))
        } else {
            Self::scan(n, 0, Seq::empty(), Seq::empty(), Seq::empty())
        }
    }

    /// What [`MultiPartQuery::spec_parse`] yields once the children before position
    /// `i` have been taken in, with what was gathered from them.
    pub open spec fn scan(
        n: NodeView,
        i: int,
        parts: Seq<MultiPartQueryPartView>,
        reading_clauses: Seq<ReadingClauseView>,
        updating_clauses: Seq<UpdatingClauseView>,
    ) -> Elaborated<MultiPartQueryView>
        decreases n, n.children.len() - i,
    {
        if !(0 <= i < n.children.len()) {
            Err(missing(n.rule, n))
        } else {
            let c = n.children[i];
            match c.rule {
                Rule::ReadingClause => match ReadingClause::spec_parse(c) {
                    Ok(v) => Self::scan(n, i + 1, parts, reading_clauses.push(v), updating_clauses),
                    Err(e) => Err(e),
                },
                Rule::UpdatingClause => match UpdatingClause::spec_parse(c) {
                    Ok(v) => Self::scan(n, i + 1, parts, reading_clauses, updating_clauses.push(v)),
                    Err(e) => Err(e),
                },
                Rule::With => match With::spec_parse(c) {
                    Ok(v) => Self::scan(
                        n,
                        i + 1,
                        parts.push(
                            MultiPartQueryPartView { reading_clauses, updating_clauses, with: v },
                        ),
                        Seq::empty(),
                        Seq::empty(),
                    ),
                    Err(e) => Err(e),
                },
                Rule::SP => Self::scan(n, i + 1, parts, reading_clauses, updating_clauses),
                Rule::SinglePartQuery => if parts.len() == 0 {
                    Err(missing(n.rule, n))
                } else {
                    match SinglePartQuery::spec_parse(c) {
                        Ok(v) => Ok(MultiPartQueryView { parts, query: v }),
                        Err(e) => Err(e),
                    }
                },
                _ => Err(unexpected(n.rule, c)),
            }
        }
    }

    /// Elaborates a `MultiPartQuery` node. Each `With` child closes a part made of
    /// the reading and updating clauses since the part before. The
    /// `SinglePartQuery` child ends the query; at least one part must come before
    /// it. Clauses that no `With` follows belong to no part.
    pub fn parse(n: &ParseNode) -> (r: Elaborated<MultiPartQuery>)
        ensures
            agrees(r, MultiPartQuery::spec_parse(n@)),
            r matches Ok(q) ==> q.parts@.len() >= 1,
        decreases n,
    {
        match n.rule {
            Rule::MultiPartQuery => {},
            _ => {
                return Err(fault_unexpected(Rule::MultiPartQuery, n));
            },
        }
        let mut parts: Vec<MultiPartQueryPart> = Vec::new();
        let mut reading_clauses: Vec<ReadingClause> = Vec::new();
        let mut updating_clauses: Vec<UpdatingClause> = Vec::new();
        proof {
            assert(view_multi_part_query_part_seq(parts@) =~= Seq::empty());
            assert(view_reading_clause_seq(reading_clauses@) =~= Seq::empty());
            assert(view_updating_clause_seq(updating_clauses@) =~= Seq::empty());
        }
        proof {
            if MultiPartQuery::spec_parse(n@) is Ok {
                lemma_multi_part_query_has_a_part(n@);
            }
        }
        let mut i: usize = 0;
        while i < n.children.len()
            invariant
                i <= n.children.len(),
                MultiPartQuery::spec_parse(n@) == MultiPartQuery::scan(
                    n@,
                    i as int,
                    view_multi_part_query_part_seq(parts@),
                    view_reading_clause_seq(reading_clauses@),
                    view_updating_clause_seq(updating_clauses@),
                ),
                MultiPartQuery::spec_parse(n@) matches Ok(q) ==> q.parts.len() >= 1,
            decreases n.children.len() - i,
        {
            proof {
                lemma_children(*n);
            }
            let c = &n.children[i];
            match c.rule {
                Rule::ReadingClause => match ReadingClause::parse(c) {
                    Ok(v) => {
                        let ghost before = reading_clauses@;
                        let ghost item = v@;
                        reading_clauses.push(v);
                        assert(view_reading_clause_seq(reading_clauses@)
                            =~= view_reading_clause_seq(before).push(item));
                    },
                    Err(e) => {
                        return Err(e);
                    },
                },
                Rule::UpdatingClause => match UpdatingClause::parse(c) {
                    Ok(v) => {
                        let ghost before = updating_clauses@;
                        let ghost item = v@;
                        updating_clauses.push(v);
                        assert(view_updating_clause_seq(updating_clauses@)
                            =~= view_updating_clause_seq(before).push(item));
                    },
                    Err(e) => {
                        return Err(e);
                    },
                },
                Rule::With => match With::parse(c) {
                    Ok(v) => {
                        let ghost before = parts@;
                        let ghost item = MultiPartQueryPartView {
                            reading_clauses: view_reading_clause_seq(reading_clauses@),
                            updating_clauses: view_updating_clause_seq(updating_clauses@),
                            with: v@,
                        };
                        parts.push(
                            MultiPartQueryPart { reading_clauses, updating_clauses, with: v },
                        );
                        reading_clauses = Vec::new();
                        updating_clauses = Vec::new();
                        assert(view_multi_part_query_part_seq(parts@)
                            =~= view_multi_part_query_part_seq(before).push(item));
                        assert(view_reading_clause_seq(reading_clauses@) =~= Seq::empty());
                        assert(view_updating_clause_seq(updating_clauses@) =~= Seq::empty());
                    },
                    Err(e) => {
                        return Err(e);
                    },
                },
                Rule::SP => {},
                Rule::SinglePartQuery => {
                    if parts.len() == 0 {
                        return Err(fault_missing(n.rule, n));
                    }
                    return match SinglePartQuery::parse(c) {
                        Ok(v) => Ok(MultiPartQuery { parts, query: v }),
                        Err(e) => Err(e),
                    };
                },
                _ => {
                    return Err(fault_unexpected(n.rule, c));
                },
            }
            i += 1;
        }
        proof {
            lemma_children(*n);
        }
        Err(fault_missing(n.rule, n))
    }
}

impl Union {
    /// The elaboration of a `Union` node: whether `ALL` was written, and the query
    /// of the branch.
    pub open spec fn spec_parse(n: NodeView) -> Elaborated<UnionView>
        decreases n, n.children.len() + 1,
    {
        if n.rule != Rule::Union {
            Err(unexpected(Rule::Union, n))
        } else {
            Self::scan(n, 0, false)
        }
    }

    /// What [`Union::spec_parse`] yields once the children before position `i` have
    /// been taken in, with what was gathered from them.
    pub open spec fn scan(n: NodeView, i: int, all: bool) -> Elaborated<UnionView>
        decreases n, n.children.len() - i,
    {
        if !(0 <= i < n.children.len()) {
            Err(missing(n.rule, n))
        } else {
            let c = n.children[i];
            match c.rule {
                Rule::ALL => Self::scan(n, i + 1, true),
                Rule::SingleQuery => match SingleQuery::spec_parse(c) {
                    Ok(v) => Ok(UnionView { all, query: v }),
                    Err(e) => Err(e),
                },
                Rule::SP | Rule::UNION => Self::scan(n, i + 1, all),
                _ => Err(unexpected(n.rule, c)),
            }
        }
    }

    /// Elaborates a `Union` node: whether `ALL` was written, and the query of the
    /// branch.
    pub fn parse(n: &ParseNode) -> (r: Elaborated<Union>)
        ensures
            agrees(r, Union::spec_parse(n@)),
        decreases n,
    {
        match n.rule {
            Rule::Union => {},
            _ => {
                return Err(fault_unexpected(Rule::Union, n));
            },
        }
        let mut all: bool = false;
        let mut i: usize = 0;
        while i < n.children.len()
            invariant
                i <= n.children.len(),
                Union::spec_parse(n@) == Union::scan(n@, i as int, all),
            decreases n.children.len() - i,
        {
            proof {
                lemma_children(*n);
            }
            let c = &n.children[i];
            match c.rule {
                Rule::ALL => {
                    all = true;
                },
                Rule::SingleQuery => {
                    return match SingleQuery::parse(c) {
                        Ok(v) => Ok(Union { all, query: v }),
                        Err(e) => Err(e),
                    };
                },
                Rule::SP | Rule::UNION => {},
                _ => {
                    return Err(fault_unexpected(n.rule, c));
                },
            }
            i += 1;
        }
        proof {
            lemma_children(*n);
        }
        Err(fault_missing(n.rule, n))
    }
}

} // verus!
