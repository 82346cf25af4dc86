//! The mathematical values of Cypher syntax trees: for each type of the tree
//! a type of its value, in which a vector is a sequence and a string is a
//! sequence of characters.

use vstd::prelude::*;

use crate::ast::cypher::{
    AddOrSubtractExpression, AndExpression, Atom, CaseExpression, ComparisonExpression,
    ComparisonOperator, Create, Delete, ExistentialSubquery, ExplicitProcedureInvocation,
    Expression, FilterExpression, FunctionInvocation, IdInColl, ImplicitProcedureInvocation,
    InQueryCall, Limit, ListComprehension, ListOperatorExpression, Literal, Match, Merge,
    MergeAction, MultiPartQuery, MultiPartQueryPart, MultiplyDivideModuloExpression,
    MultiplyDivideModuloOperator, NodePattern, NotExpression, NullOperatorExpression,
    NumberLiteral, OrExpression, Order, Pattern, PatternComprehension, PatternElement,
    PatternPart, PlusMinusOperator, PowerOfExpression, ProcedureInvocation,
    ProcedureResultField, ProjectionBody, ProjectionItem, ProjectionItems, Properties,
    PropertyExpression, PropertyOrLabelsExpression, Query, ReadingClause, RegularQuery,
    RelationshipDetail, RelationshipPattern, RelationshipsPattern, Remove, RemoveItem,
    SetClause, SetItem, SinglePartQuery, SingleQuery, Skip, SortItem, StandaloneCall,
    StarOrYieldItems, StringListNullOperatorExpression, StringListNullOperatorExpressionInner,
    StringOperator, StringOperatorExpression, UnaryAddOrSubtractExpression, Union, Unwind,
    UpdatingClause, With, XorExpression, YieldItem, YieldItems,
};
use crate::ast::property_map::{view_property_map, PropertyMap, PropertyMapView};
use crate::error::view_strings;

verus! {

/// The value of [`Query`].
pub enum QueryView {
    RegularQuery(RegularQueryView),
    StandaloneCall(StandaloneCallView),
}

/// The value of [`SingleQuery`].
pub enum SingleQueryView {
    SinglePartQuery(SinglePartQueryView),
    MultiPartQuery(MultiPartQueryView),
}

/// The value of [`RegularQuery`].
pub struct RegularQueryView {
    pub query: SingleQueryView,
    pub union: Seq<UnionView>,
}

/// The value of [`Union`].
pub struct UnionView {
    pub all: bool,
    pub query: SingleQueryView,
}

/// The value of [`SinglePartQuery`].
pub struct SinglePartQueryView {
    pub reading_clauses: Seq<ReadingClauseView>,
    pub updating_clauses: Seq<UpdatingClauseView>,
    pub return_: Option<ProjectionBodyView>,
}

/// The value of [`MultiPartQuery`].
pub struct MultiPartQueryView {
    pub parts: Seq<MultiPartQueryPartView>,
    pub query: SinglePartQueryView,
}

/// The value of [`MultiPartQueryPart`].
pub struct MultiPartQueryPartView {
    pub reading_clauses: Seq<ReadingClauseView>,
    pub updating_clauses: Seq<UpdatingClauseView>,
    pub with: WithView,
}

/// The value of [`With`].
pub struct WithView {
    pub projection_body: ProjectionBodyView,
    pub where_: Option<ExpressionView>,
}

/// The value of [`UpdatingClause`].
pub enum UpdatingClauseView {
    Create(CreateView),
    Merge(MergeView),
    Delete(DeleteView),
    SetClause(SetClauseView),
    Remove(RemoveView),
}

/// The value of [`Merge`].
pub struct MergeView {
    pub pattern_part: PatternPartView,
    pub actions: Seq<MergeActionView>,
}

/// The value of [`MergeAction`].
pub enum MergeActionView {
    Match(SetClauseView),
    Create(SetClauseView),
}

/// The value of [`Create`].
pub struct CreateView {
    pub pattern: PatternView,
}

/// The value of [`Pattern`].
pub struct PatternView {
    pub parts: Seq<PatternPartView>,
}

/// The value of [`PatternPart`].
pub struct PatternPartView {
    pub variable: Option<Seq<char>>,
    pub pattern_element: PatternElementView,
}

/// The value of [`PatternElement`].
pub struct PatternElementView {
    pub node_pattern: NodePatternView,
    pub relationship_patterns: Seq<(RelationshipPatternView, NodePatternView)>,
}

/// The value of [`NodePattern`].
pub struct NodePatternView {
    pub variable: Option<Seq<char>>,
    pub node_labels: Seq<Seq<char>>,
    pub properties: Option<PropertiesView>,
}

/// The value of [`RelationshipsPattern`].
pub struct RelationshipsPatternView {
    pub node: NodePatternView,
    pub relationships: Seq<(RelationshipPatternView, NodePatternView)>,
}

/// The value of [`RelationshipPattern`].
pub enum RelationshipPatternView {
    LeftAndRight(Option<RelationshipDetailView>),
    Left(Option<RelationshipDetailView>),
    Right(Option<RelationshipDetailView>),
    Undirected(Option<RelationshipDetailView>),
}

/// The value of [`RelationshipDetail`].
pub struct RelationshipDetailView {
    pub variable: Option<Seq<char>>,
    pub relationship_types: Seq<Seq<char>>,
    pub properties: Option<PropertiesView>,
}

/// The value of [`Properties`].
pub enum PropertiesView {
    Parameter(Seq<char>),
    MapLiteral(PropertyMapView),
}

/// The value of [`SetClause`].
pub struct SetClauseView {
    pub items: Seq<SetItemView>,
}

/// The value of [`SetItem`].
pub enum SetItemView {
    AssignPropertyExpression {
        property_expression: PropertyExpressionView,
        expression: ExpressionView,
    },
    AssignVariable {
        variable: Seq<char>,
        expression: ExpressionView,
    },
    IncrementVariable {
        variable: Seq<char>,
        expression: ExpressionView,
    },
    VariableNodeLabels {
        variable: Seq<char>,
        node_labels: Seq<Seq<char>>,
    },
}

/// The value of [`Delete`].
pub struct DeleteView {
    pub detach: bool,
    pub expressions: Seq<ExpressionView>,
}

/// The value of [`Remove`].
pub struct RemoveView {
    pub items: Seq<RemoveItemView>,
}

/// The value of [`RemoveItem`].
pub enum RemoveItemView {
    VariableNodeLabels {
        variable: Seq<char>,
        node_labels: Seq<Seq<char>>,
    },
    PropertyExpression(PropertyExpressionView),
}

/// The value of [`PropertyExpression`].
pub struct PropertyExpressionView {
    pub atom: AtomView,
    pub property_path: Seq<Seq<char>>,
}

/// The value of [`Atom`].
pub enum AtomView {
    Literal(LiteralView),
    Parameter(Seq<char>),
    CaseExpression(CaseExpressionView),
    CountStar,
    ListComprehension(ListComprehensionView),
    PatternComprehension(PatternComprehensionView),
    All(FilterExpressionView),
    Any(FilterExpressionView),
    NoneOf(FilterExpressionView),
    Single(FilterExpressionView),
    RelationshipsPattern(RelationshipsPatternView),
    ParenthesizedExpression(ExpressionView),
    FunctionInvocation(FunctionInvocationView),
    ExistentialSubquery(ExistentialSubqueryView),
    Variable(Seq<char>),
}

/// The value of [`PatternComprehension`].
pub struct PatternComprehensionView {
    pub variable: Option<Seq<char>>,
    pub relationship_pattern: RelationshipPatternView,
    pub where_: Option<ExpressionView>,
    pub expression: ExpressionView,
}

/// The value of [`ListComprehension`].
pub struct ListComprehensionView {
    pub filter_expression: FilterExpressionView,
    pub expression: Option<ExpressionView>,
}

/// The value of [`IdInColl`].
pub struct IdInCollView {
    pub variable: Seq<char>,
    pub expression: ExpressionView,
}

/// The value of [`FilterExpression`].
pub struct FilterExpressionView {
    pub id_in_coll: IdInCollView,
    pub where_: Option<ExpressionView>,
}

/// The value of [`CaseExpression`].
pub struct CaseExpressionView {
    pub expression: Option<ExpressionView>,
    pub alternatives: Seq<(ExpressionView, ExpressionView)>,
    pub else_: Option<ExpressionView>,
}

/// The value of [`ReadingClause`].
pub enum ReadingClauseView {
    Match(MatchView),
    Unwind(UnwindView),
    InQueryCall(InQueryCallView),
}

/// The value of [`Match`].
pub struct MatchView {
    pub optional: bool,
    pub pattern: PatternView,
    pub where_: Option<ExpressionView>,
}

/// The value of [`Unwind`].
pub struct UnwindView {
    pub expression: ExpressionView,
    pub variable: Seq<char>,
}

/// The value of [`InQueryCall`].
pub struct InQueryCallView {
    pub invocation: ExplicitProcedureInvocationView,
    pub yield_items: Option<YieldItemsView>,
}

/// The value of [`ExplicitProcedureInvocation`].
pub struct ExplicitProcedureInvocationView {
    pub name: Seq<char>,
    pub arguments: Seq<ExpressionView>,
}

/// The value of [`ImplicitProcedureInvocation`].
pub struct ImplicitProcedureInvocationView {
    pub name: Seq<char>,
}

/// The value of [`ProcedureInvocation`].
pub enum ProcedureInvocationView {
    Explicit(ExplicitProcedureInvocationView),
    Implicit(ImplicitProcedureInvocationView),
}

/// The value of [`ProjectionBody`].
pub struct ProjectionBodyView {
    pub distinct: bool,
    pub items: ProjectionItemsView,
    pub order: Option<OrderView>,
    pub skip: Option<SkipView>,
    pub limit: Option<LimitView>,
}

/// The value of [`Order`].
pub struct OrderView {
    pub items: Seq<SortItemView>,
}

/// The value of [`SortItem`].
pub enum SortItemView {
    Ascending(ExpressionView),
    Descending(ExpressionView),
}

/// The value of [`Skip`].
pub struct SkipView {
    pub expression: ExpressionView,
}

/// The value of [`Limit`].
pub struct LimitView {
    pub expression: ExpressionView,
}

/// The value of [`ProjectionItems`].
pub struct ProjectionItemsView {
    pub star: bool,
    pub items: Seq<ProjectionItemView>,
}

/// The value of [`ProjectionItem`].
pub enum ProjectionItemView {
    Expression(ExpressionView),
    AsVariable {
        expression: ExpressionView,
        variable: Seq<char>,
    },
}

/// The value of [`StandaloneCall`].
pub struct StandaloneCallView {
    pub invocation: ProcedureInvocationView,
    pub yield_: Option<StarOrYieldItemsView>,
}

/// The value of [`StarOrYieldItems`].
pub enum StarOrYieldItemsView {
    Star,
    YieldItems(YieldItemsView),
}

/// The value of [`YieldItems`].
pub enum YieldItemsView {
    Star,
    Items {
        items: Seq<YieldItemView>,
        where_: Option<ExpressionView>,
    },
}

/// The value of [`YieldItem`].
pub struct YieldItemView {
    pub procedure_result_field: Option<Seq<char>>,
    pub variable: Seq<char>,
}

/// The value of [`ProcedureResultField`].
pub struct ProcedureResultFieldView {
    pub name: Seq<char>,
}

/// The value of [`OrExpression`].
pub struct OrExpressionView(pub Seq<XorExpressionView>);

/// The value of an [`Expression`].
pub type ExpressionView = OrExpressionView;

/// The value of [`XorExpression`].
pub struct XorExpressionView(pub Seq<AndExpressionView>);

/// The value of [`AndExpression`].
pub struct AndExpressionView(pub Seq<NotExpressionView>);

/// The value of [`NotExpression`].
pub struct NotExpressionView {
    pub not: bool,
    pub expression: ComparisonExpressionView,
}

/// The value of [`ComparisonExpression`].
pub struct ComparisonExpressionView {
    pub expression: AddOrSubtractExpressionView,
    pub comparisons: Seq<(ComparisonOperator, AddOrSubtractExpressionView)>,
}

/// The value of [`AddOrSubtractExpression`].
pub struct AddOrSubtractExpressionView {
    pub expression: MultiplyDivideModuloExpressionView,
    pub operations: Seq<(PlusMinusOperator, MultiplyDivideModuloExpressionView)>,
}

/// The value of [`MultiplyDivideModuloExpression`].
pub struct MultiplyDivideModuloExpressionView {
    pub expression: PowerOfExpressionView,
    pub operations: Seq<(MultiplyDivideModuloOperator, PowerOfExpressionView)>,
}

/// The value of [`PowerOfExpression`].
pub struct PowerOfExpressionView(pub Seq<UnaryAddOrSubtractExpressionView>);

/// The value of [`UnaryAddOrSubtractExpression`].
pub struct UnaryAddOrSubtractExpressionView {
    pub negate: bool,
    pub expression: StringListNullOperatorExpressionView,
}

/// The value of [`StringListNullOperatorExpression`].
pub struct StringListNullOperatorExpressionView {
    pub expression: PropertyOrLabelsExpressionView,
    pub operations: Seq<StringListNullOperatorExpressionInnerView>,
}

/// The value of [`StringListNullOperatorExpressionInner`].
pub enum StringListNullOperatorExpressionInnerView {
    StringOperator(StringOperatorExpressionView),
    ListOperator(ListOperatorExpressionView),
    NullOperator(NullOperatorExpression),
}

/// The value of [`StringOperatorExpression`].
pub struct StringOperatorExpressionView {
    pub operator: StringOperator,
    pub expression: PropertyOrLabelsExpressionView,
}

/// The value of [`ListOperatorExpression`].
pub enum ListOperatorExpressionView {
    In(PropertyOrLabelsExpressionView),
    Index(ExpressionView),
    Range(Option<ExpressionView>, Option<ExpressionView>),
}

/// The value of [`PropertyOrLabelsExpression`].
pub struct PropertyOrLabelsExpressionView {
    pub atom: AtomView,
    pub property_lookup: Seq<Seq<char>>,
    pub node_labels: Seq<Seq<char>>,
}

/// The value of [`FunctionInvocation`].
pub struct FunctionInvocationView {
    pub function_name: Seq<char>,
    pub distinct: bool,
    pub arguments: Seq<ExpressionView>,
}

/// The value of [`ExistentialSubquery`].
pub enum ExistentialSubqueryView {
    RegularQuery(RegularQueryView),
    PatternWhere {
        pattern: PatternView,
        where_: Option<ExpressionView>,
    },
}

/// The value of [`Literal`].
pub enum LiteralView {
    String(Seq<char>),
    Number(NumberLiteralView),
    Boolean(bool),
    Null,
    MapLiteral(PropertyMapView),
    ListLiteral(Seq<ExpressionView>),
}

/// The value of [`NumberLiteral`].
pub enum NumberLiteralView {
    Integer(i64),
    Double(Seq<char>),
}
pub open spec fn view_query(x: Query) -> QueryView
    decreases x,
{
    match x {
        Query::RegularQuery(a) => QueryView::RegularQuery(view_regular_query(a)),
        Query::StandaloneCall(a) => QueryView::StandaloneCall(view_standalone_call(a)),
    }
}

pub open spec fn view_single_query(x: SingleQuery) -> SingleQueryView
    decreases x,
{
    match x {
        SingleQuery::SinglePartQuery(a) => SingleQueryView::SinglePartQuery(
            view_single_part_query(a),
        ),
        SingleQuery::MultiPartQuery(a) => SingleQueryView::MultiPartQuery(view_multi_part_query(a)),
    }
}

pub open spec fn view_regular_query(x: RegularQuery) -> RegularQueryView
    decreases x,
{
    RegularQueryView {
        query: view_single_query(x.query),
        union: view_union_seq(x.union@),
    }
}

pub open spec fn view_union(x: Union) -> UnionView
    decreases x,
{
    UnionView {
        all: x.all,
        query: view_single_query(x.query),
    }
}

pub open spec fn view_single_part_query(x: SinglePartQuery) -> SinglePartQueryView
    decreases x,
{
    SinglePartQueryView {
        reading_clauses: view_reading_clause_seq(x.reading_clauses@),
        updating_clauses: view_updating_clause_seq(x.updating_clauses@),
        return_: match x.return_ {
            Some(v) => Some(view_projection_body(v)),
            None => None,
        },
    }
}

pub open spec fn view_multi_part_query(x: MultiPartQuery) -> MultiPartQueryView
    decreases x,
{
    MultiPartQueryView {
        parts: view_multi_part_query_part_seq(x.parts@),
        query: view_single_part_query(x.query),
    }
}

pub open spec fn view_multi_part_query_part(x: MultiPartQueryPart) -> MultiPartQueryPartView
    decreases x,
{
    MultiPartQueryPartView {
        reading_clauses: view_reading_clause_seq(x.reading_clauses@),
        updating_clauses: view_updating_clause_seq(x.updating_clauses@),
        with: view_with(x.with),
    }
}

pub open spec fn view_with(x: With) -> WithView
    decreases x,
{
    WithView {
        projection_body: view_projection_body(x.projection_body),
        where_: match x.where_ {
            Some(v) => Some(view_expression(v)),
            None => None,
        },
    }
}

pub open spec fn view_updating_clause(x: UpdatingClause) -> UpdatingClauseView
    decreases x,
{
    match x {
        UpdatingClause::Create(a) => UpdatingClauseView::Create(view_create(a)),
        UpdatingClause::Merge(a) => UpdatingClauseView::Merge(view_merge(a)),
        UpdatingClause::Delete(a) => UpdatingClauseView::Delete(view_delete(a)),
        UpdatingClause::SetClause(a) => UpdatingClauseView::SetClause(view_set_clause(a)),
        UpdatingClause::Remove(a) => UpdatingClauseView::Remove(view_remove(a)),
    }
}

pub open spec fn view_merge(x: Merge) -> MergeView
    decreases x,
{
    MergeView {
        pattern_part: view_pattern_part(x.pattern_part),
        actions: view_merge_action_seq(x.actions@),
    }
}

pub open spec fn view_merge_action(x: MergeAction) -> MergeActionView
    decreases x,
{
    match x {
        MergeAction::Match(a) => MergeActionView::Match(view_set_clause(a)),
        MergeAction::Create(a) => MergeActionView::Create(view_set_clause(a)),
    }
}

pub open spec fn view_create(x: Create) -> CreateView
    decreases x,
{
    CreateView {
        pattern: view_pattern(x.pattern),
    }
}

pub open spec fn view_pattern(x: Pattern) -> PatternView
    decreases x,
{
    PatternView {
        parts: view_pattern_part_seq(x.parts@),
    }
}

pub open spec fn view_pattern_part(x: PatternPart) -> PatternPartView
    decreases x,
{
    PatternPartView {
        variable: match x.variable {
            Some(v) => Some(v@),
            None => None,
        },
        pattern_element: view_pattern_element(x.pattern_element),
    }
}

pub open spec fn view_pattern_element(x: PatternElement) -> PatternElementView
    decreases x,
{
    PatternElementView {
        node_pattern: view_node_pattern(x.node_pattern),
        relationship_patterns: view_steps(x.relationship_patterns@),
    }
}

pub open spec fn view_node_pattern(x: NodePattern) -> NodePatternView
    decreases x,
{
    NodePatternView {
        variable: match x.variable {
            Some(v) => Some(v@),
            None => None,
        },
        node_labels: view_strings(x.node_labels@),
        properties: match x.properties {
            Some(v) => Some(view_properties(v)),
            None => None,
        },
    }
}

pub open spec fn view_relationships_pattern(x: RelationshipsPattern) -> RelationshipsPatternView
    decreases x,
{
    RelationshipsPatternView {
        node: view_node_pattern(x.node),
        relationships: view_steps(x.relationships@),
    }
}

pub open spec fn view_relationship_pattern(x: RelationshipPattern) -> RelationshipPatternView
    decreases x,
{
    match x {
        RelationshipPattern::LeftAndRight(a) => RelationshipPatternView::LeftAndRight(
            match a {
                Some(v) => Some(view_relationship_detail(v)),
                None => None,
            },
        ),
        RelationshipPattern::Left(a) => RelationshipPatternView::Left(
            match a {
                Some(v) => Some(view_relationship_detail(v)),
                None => None,
            },
        ),
        RelationshipPattern::Right(a) => RelationshipPatternView::Right(
            match a {
                Some(v) => Some(view_relationship_detail(v)),
                None => None,
            },
        ),
        RelationshipPattern::Undirected(a) => RelationshipPatternView::Undirected(
            match a {
                Some(v) => Some(view_relationship_detail(v)),
                None => None,
            },
        ),
    }
}

pub open spec fn view_relationship_detail(x: RelationshipDetail) -> RelationshipDetailView
    decreases x,
{
    RelationshipDetailView {
        variable: match x.variable {
            Some(v) => Some(v@),
            None => None,
        },
        relationship_types: view_strings(x.relationship_types@),
        properties: match x.properties {
            Some(v) => Some(view_properties(v)),
            None => None,
        },
    }
}

pub open spec fn view_properties(x: Properties) -> PropertiesView
    decreases x,
{
    match x {
        Properties::Parameter(a) => PropertiesView::Parameter(a@),
        Properties::MapLiteral(a) => PropertiesView::MapLiteral(view_property_map(a)),
    }
}

pub open spec fn view_set_clause(x: SetClause) -> SetClauseView
    decreases x,
{
    SetClauseView {
        items: view_set_item_seq(x.items@),
    }
}

pub open spec fn view_set_item(x: SetItem) -> SetItemView
    decreases x,
{
    match x {
        SetItem::AssignPropertyExpression { property_expression, expression } => SetItemView::AssignPropertyExpression {
            property_expression: view_property_expression(property_expression),
            expression: view_expression(expression),
        },
        SetItem::AssignVariable { variable, expression } => SetItemView::AssignVariable {
            variable: variable@,
            expression: view_expression(expression),
        },
        SetItem::IncrementVariable { variable, expression } => SetItemView::IncrementVariable {
            variable: variable@,
            expression: view_expression(expression),
        },
        SetItem::VariableNodeLabels { variable, node_labels } => SetItemView::VariableNodeLabels {
            variable: variable@,
            node_labels: view_strings(node_labels@),
        },
    }
}

pub open spec fn view_delete(x: Delete) -> DeleteView
    decreases x,
{
    DeleteView {
        detach: x.detach,
        expressions: view_expression_seq(x.expressions@),
    }
}

pub open spec fn view_remove(x: Remove) -> RemoveView
    decreases x,
{
    RemoveView {
        items: view_remove_item_seq(x.items@),
    }
}

pub open spec fn view_remove_item(x: RemoveItem) -> RemoveItemView
    decreases x,
{
    match x {
        RemoveItem::VariableNodeLabels { variable, node_labels } => RemoveItemView::VariableNodeLabels {
            variable: variable@,
            node_labels: view_strings(node_labels@),
        },
        RemoveItem::PropertyExpression(a) => RemoveItemView::PropertyExpression(
            view_property_expression(a),
        ),
    }
}

pub open spec fn view_property_expression(x: PropertyExpression) -> PropertyExpressionView
    decreases x,
{
    PropertyExpressionView {
        atom: view_atom(x.atom),
        property_path: view_strings(x.property_path@),
    }
}

pub open spec fn view_atom(x: Atom) -> AtomView
    decreases x,
{
    match x {
        Atom::Literal(a) => AtomView::Literal(view_literal(a)),
        Atom::Parameter(a) => AtomView::Parameter(a@),
        Atom::CaseExpression(a) => AtomView::CaseExpression(view_case_expression(a)),
        Atom::CountStar => AtomView::CountStar,
        Atom::ListComprehension(a) => AtomView::ListComprehension(view_list_comprehension(a)),
        Atom::PatternComprehension(a) => AtomView::PatternComprehension(
            view_pattern_comprehension(a),
        ),
        Atom::All(a) => AtomView::All(view_filter_expression(a)),
        Atom::Any(a) => AtomView::Any(view_filter_expression(a)),
        Atom::NoneOf(a) => AtomView::NoneOf(view_filter_expression(a)),
        Atom::Single(a) => AtomView::Single(view_filter_expression(a)),
        Atom::RelationshipsPattern(a) => AtomView::RelationshipsPattern(
            view_relationships_pattern(a),
        ),
        Atom::ParenthesizedExpression(a) => AtomView::ParenthesizedExpression(view_expression(a)),
        Atom::FunctionInvocation(a) => AtomView::FunctionInvocation(view_function_invocation(a)),
        Atom::ExistentialSubquery(a) => AtomView::ExistentialSubquery(view_existential_subquery(a)),
        Atom::Variable(a) => AtomView::Variable(a@),
    }
}

pub open spec fn view_pattern_comprehension(x: PatternComprehension) -> PatternComprehensionView
    decreases x,
{
    PatternComprehensionView {
        variable: match x.variable {
            Some(v) => Some(v@),
            None => None,
        },
        relationship_pattern: view_relationship_pattern(x.relationship_pattern),
        where_: match x.where_ {
            Some(v) => Some(view_expression(v)),
            None => None,
        },
        expression: view_expression(x.expression),
    }
}

pub open spec fn view_list_comprehension(x: ListComprehension) -> ListComprehensionView
    decreases x,
{
    ListComprehensionView {
        filter_expression: view_filter_expression(x.filter_expression),
        expression: match x.expression {
            Some(v) => Some(view_expression(v)),
            None => None,
        },
    }
}

pub open spec fn view_id_in_coll(x: IdInColl) -> IdInCollView
    decreases x,
{
    IdInCollView {
        variable: x.variable@,
        expression: view_expression(x.expression),
    }
}

pub open spec fn view_filter_expression(x: FilterExpression) -> FilterExpressionView
    decreases x,
{
    FilterExpressionView {
        id_in_coll: view_id_in_coll(x.id_in_coll),
        where_: match x.where_ {
            Some(v) => Some(view_expression(v)),
            None => None,
        },
    }
}

pub open spec fn view_case_expression(x: CaseExpression) -> CaseExpressionView
    decreases x,
{
    CaseExpressionView {
        expression: match x.expression {
            Some(v) => Some(view_expression(v)),
            None => None,
        },
        alternatives: view_alternatives(x.alternatives@),
        else_: match x.else_ {
            Some(v) => Some(view_expression(v)),
            None => None,
        },
    }
}

pub open spec fn view_reading_clause(x: ReadingClause) -> ReadingClauseView
    decreases x,
{
    match x {
        ReadingClause::Match(a) => ReadingClauseView::Match(view_match(a)),
        ReadingClause::Unwind(a) => ReadingClauseView::Unwind(view_unwind(a)),
        ReadingClause::InQueryCall(a) => ReadingClauseView::InQueryCall(view_in_query_call(a)),
    }
}

pub open spec fn view_match(x: Match) -> MatchView
    decreases x,
{
    MatchView {
        optional: x.optional,
        pattern: view_pattern(x.pattern),
        where_: match x.where_ {
            Some(v) => Some(view_expression(v)),
            None => None,
        },
    }
}

pub open spec fn view_unwind(x: Unwind) -> UnwindView
    decreases x,
{
    UnwindView {
        expression: view_expression(x.expression),
        variable: x.variable@,
    }
}

pub open spec fn view_in_query_call(x: InQueryCall) -> InQueryCallView
    decreases x,
{
    InQueryCallView {
        invocation: view_explicit_procedure_invocation(x.invocation),
        yield_items: match x.yield_items {
            Some(v) => Some(view_yield_items(v)),
            None => None,
        },
    }
}

pub open spec fn view_explicit_procedure_invocation(
    x: ExplicitProcedureInvocation,
) -> ExplicitProcedureInvocationView
    decreases x,
{
    ExplicitProcedureInvocationView {
        name: x.name@,
        arguments: view_expression_seq(x.arguments@),
    }
}

pub open spec fn view_implicit_procedure_invocation(
    x: ImplicitProcedureInvocation,
) -> ImplicitProcedureInvocationView
    decreases x,
{
    ImplicitProcedureInvocationView {
        name: x.name@,
    }
}

pub open spec fn view_procedure_invocation(x: ProcedureInvocation) -> ProcedureInvocationView
    decreases x,
{
    match x {
        ProcedureInvocation::Explicit(a) => ProcedureInvocationView::Explicit(
            view_explicit_procedure_invocation(a),
        ),
        ProcedureInvocation::Implicit(a) => ProcedureInvocationView::Implicit(
            view_implicit_procedure_invocation(a),
        ),
    }
}

pub open spec fn view_projection_body(x: ProjectionBody) -> ProjectionBodyView
    decreases x,
{
    ProjectionBodyView {
        distinct: x.distinct,
        items: view_projection_items(x.items),
        order: match x.order {
            Some(v) => Some(view_order(v)),
            None => None,
        },
        skip: match x.skip {
            Some(v) => Some(view_skip(v)),
            None => None,
        },
        limit: match x.limit {
            Some(v) => Some(view_limit(v)),
            None => None,
        },
    }
}

pub open spec fn view_order(x: Order) -> OrderView
    decreases x,
{
    OrderView {
        items: view_sort_item_seq(x.items@),
    }
}

pub open spec fn view_sort_item(x: SortItem) -> SortItemView
    decreases x,
{
    match x {
        SortItem::Ascending(a) => SortItemView::Ascending(view_expression(a)),
        SortItem::Descending(a) => SortItemView::Descending(view_expression(a)),
    }
}

pub open spec fn view_skip(x: Skip) -> SkipView
    decreases x,
{
    SkipView {
        expression: view_expression(x.expression),
    }
}

pub open spec fn view_limit(x: Limit) -> LimitView
    decreases x,
{
    LimitView {
        expression: view_expression(x.expression),
    }
}

pub open spec fn view_projection_items(x: ProjectionItems) -> ProjectionItemsView
    decreases x,
{
    ProjectionItemsView {
        star: x.star,
        items: view_projection_item_seq(x.items@),
    }
}

pub open spec fn view_projection_item(x: ProjectionItem) -> ProjectionItemView
    decreases x,
{
    match x {
        ProjectionItem::Expression(a) => ProjectionItemView::Expression(view_expression(a)),
        ProjectionItem::AsVariable { expression, variable } => ProjectionItemView::AsVariable {
            expression: view_expression(expression),
            variable: variable@,
        },
    }
}

pub open spec fn view_standalone_call(x: StandaloneCall) -> StandaloneCallView
    decreases x,
{
    StandaloneCallView {
        invocation: view_procedure_invocation(x.invocation),
        yield_: match x.yield_ {
            Some(v) => Some(view_star_or_yield_items(v)),
            None => None,
        },
    }
}

pub open spec fn view_star_or_yield_items(x: StarOrYieldItems) -> StarOrYieldItemsView
    decreases x,
{
    match x {
        StarOrYieldItems::Star => StarOrYieldItemsView::Star,
        StarOrYieldItems::YieldItems(a) => StarOrYieldItemsView::YieldItems(view_yield_items(a)),
    }
}

pub open spec fn view_yield_items(x: YieldItems) -> YieldItemsView
    decreases x,
{
    match x {
        YieldItems::Star => YieldItemsView::Star,
        YieldItems::Items { items, where_ } => YieldItemsView::Items {
            items: view_yield_item_seq(items@),
            where_: match where_ {
                Some(v) => Some(view_expression(v)),
                None => None,
            },
        },
    }
}

pub open spec fn view_yield_item(x: YieldItem) -> YieldItemView
    decreases x,
{
    YieldItemView {
        procedure_result_field: match x.procedure_result_field {
            Some(v) => Some(v@),
            None => None,
        },
        variable: x.variable@,
    }
}

pub open spec fn view_procedure_result_field(x: ProcedureResultField) -> ProcedureResultFieldView
    decreases x,
{
    ProcedureResultFieldView {
        name: x.name@,
    }
}

pub open spec fn view_expression(x: OrExpression) -> OrExpressionView
    decreases x,
{
    OrExpressionView(view_xor_expression_seq(x.0@))
}

pub open spec fn view_xor_expression(x: XorExpression) -> XorExpressionView
    decreases x,
{
    XorExpressionView(view_and_expression_seq(x.0@))
}

pub open spec fn view_and_expression(x: AndExpression) -> AndExpressionView
    decreases x,
{
    AndExpressionView(view_not_expression_seq(x.0@))
}

pub open spec fn view_not_expression(x: NotExpression) -> NotExpressionView
    decreases x,
{
    NotExpressionView {
        not: x.not,
        expression: view_comparison_expression(x.expression),
    }
}

pub open spec fn view_comparison_expression(x: ComparisonExpression) -> ComparisonExpressionView
    decreases x,
{
    ComparisonExpressionView {
        expression: view_add_or_subtract_expression(x.expression),
        comparisons: view_comparisons(x.comparisons@),
    }
}

pub open spec fn view_add_or_subtract_expression(
    x: AddOrSubtractExpression,
) -> AddOrSubtractExpressionView
    decreases x,
{
    AddOrSubtractExpressionView {
        expression: view_multiply_divide_modulo_expression(x.expression),
        operations: view_additions(x.operations@),
    }
}

pub open spec fn view_multiply_divide_modulo_expression(
    x: MultiplyDivideModuloExpression,
) -> MultiplyDivideModuloExpressionView
    decreases x,
{
    MultiplyDivideModuloExpressionView {
        expression: view_power_of_expression(x.expression),
        operations: view_multiplications(x.operations@),
    }
}

pub open spec fn view_power_of_expression(x: PowerOfExpression) -> PowerOfExpressionView
    decreases x,
{
    PowerOfExpressionView(view_unary_add_or_subtract_expression_seq(x.0@))
}

pub open spec fn view_unary_add_or_subtract_expression(
    x: UnaryAddOrSubtractExpression,
) -> UnaryAddOrSubtractExpressionView
    decreases x,
{
    UnaryAddOrSubtractExpressionView {
        negate: x.negate,
        expression: view_string_list_null_operator_expression(x.expression),
    }
}

pub open spec fn view_string_list_null_operator_expression(
    x: StringListNullOperatorExpression,
) -> StringListNullOperatorExpressionView
    decreases x,
{
    StringListNullOperatorExpressionView {
        expression: view_property_or_labels_expression(x.expression),
        operations: view_string_list_null_operator_expression_inner_seq(x.operations@),
    }
}

pub open spec fn view_string_list_null_operator_expression_inner(
    x: StringListNullOperatorExpressionInner,
) -> StringListNullOperatorExpressionInnerView
    decreases x,
{
    match x {
        StringListNullOperatorExpressionInner::StringOperator(a) =>
            StringListNullOperatorExpressionInnerView::StringOperator(
                view_string_operator_expression(a),
            ),
        StringListNullOperatorExpressionInner::ListOperator(a) =>
            StringListNullOperatorExpressionInnerView::ListOperator(
                view_list_operator_expression(a),
            ),
        StringListNullOperatorExpressionInner::NullOperator(a) =>
            StringListNullOperatorExpressionInnerView::NullOperator(a),
    }
}

pub open spec fn view_string_operator_expression(
    x: StringOperatorExpression,
) -> StringOperatorExpressionView
    decreases x,
{
    StringOperatorExpressionView {
        operator: x.operator,
        expression: view_property_or_labels_expression(x.expression),
    }
}

pub open spec fn view_list_operator_expression(
    x: ListOperatorExpression,
) -> ListOperatorExpressionView
    decreases x,
{
    match x {
        ListOperatorExpression::In(a) => ListOperatorExpressionView::In(
            view_property_or_labels_expression(a),
        ),
        ListOperatorExpression::Index(a) => ListOperatorExpressionView::Index(view_expression(a)),
        ListOperatorExpression::Range(a, b) => ListOperatorExpressionView::Range(
            match a {
                Some(v) => Some(view_expression(v)),
                None => None,
            },
            match b {
                Some(v) => Some(view_expression(v)),
                None => None,
            },
        ),
    }
}

pub open spec fn view_property_or_labels_expression(
    x: PropertyOrLabelsExpression,
) -> PropertyOrLabelsExpressionView
    decreases x,
{
    PropertyOrLabelsExpressionView {
        atom: view_atom(x.atom),
        property_lookup: view_strings(x.property_lookup@),
        node_labels: view_strings(x.node_labels@),
    }
}

pub open spec fn view_function_invocation(x: FunctionInvocation) -> FunctionInvocationView
    decreases x,
{
    FunctionInvocationView {
        function_name: x.function_name@,
        distinct: x.distinct,
        arguments: view_expression_seq(x.arguments@),
    }
}

pub open spec fn view_existential_subquery(x: ExistentialSubquery) -> ExistentialSubqueryView
    decreases x,
{
    match x {
        ExistentialSubquery::RegularQuery(a) => ExistentialSubqueryView::RegularQuery(
            view_regular_query(a),
        ),
        ExistentialSubquery::PatternWhere { pattern, where_ } => ExistentialSubqueryView::PatternWhere {
            pattern: view_pattern(pattern),
            where_: match where_ {
                Some(v) => Some(view_expression(v)),
                None => None,
            },
        },
    }
}

pub open spec fn view_literal(x: Literal) -> LiteralView
    decreases x,
{
    match x {
        Literal::String(a) => LiteralView::String(a@),
        Literal::Number(a) => LiteralView::Number(view_number_literal(a)),
        Literal::Boolean(a) => LiteralView::Boolean(a),
        Literal::Null => LiteralView::Null,
        Literal::MapLiteral(a) => LiteralView::MapLiteral(view_property_map(a)),
        Literal::ListLiteral(a) => LiteralView::ListLiteral(view_expression_seq(a@)),
    }
}

pub open spec fn view_number_literal(x: NumberLiteral) -> NumberLiteralView
    decreases x,
{
    match x {
        NumberLiteral::Integer(a) => NumberLiteralView::Integer(a),
        NumberLiteral::Double(a) => NumberLiteralView::Double(a@),
    }
}

pub open spec fn view_union_seq(s: Seq<Union>) -> Seq<UnionView>
    decreases s,
{
    Seq::new(
        s.len(),
        |i: int|
            if 0 <= i < s.len() {
                view_union(s[i])
            } else {
                arbitrary()
            },
    )
}

pub open spec fn view_reading_clause_seq(s: Seq<ReadingClause>) -> Seq<ReadingClauseView>
    decreases s,
{
    Seq::new(
        s.len(),
        |i: int|
            if 0 <= i < s.len() {
                view_reading_clause(s[i])
            } else {
                arbitrary()
            },
    )
}

pub open spec fn view_updating_clause_seq(s: Seq<UpdatingClause>) -> Seq<UpdatingClauseView>
    decreases s,
{
    Seq::new(
        s.len(),
        |i: int|
            if 0 <= i < s.len() {
                view_updating_clause(s[i])
            } else {
                arbitrary()
            },
    )
}

pub open spec fn view_multi_part_query_part_seq(
    s: Seq<MultiPartQueryPart>,
) -> Seq<MultiPartQueryPartView>
    decreases s,
{
    Seq::new(
        s.len(),
        |i: int|
            if 0 <= i < s.len() {
                view_multi_part_query_part(s[i])
            } else {
                arbitrary()
            },
    )
}

pub open spec fn view_merge_action_seq(s: Seq<MergeAction>) -> Seq<MergeActionView>
    decreases s,
{
    Seq::new(
        s.len(),
        |i: int|
            if 0 <= i < s.len() {
                view_merge_action(s[i])
            } else {
                arbitrary()
            },
    )
}

pub open spec fn view_pattern_part_seq(s: Seq<PatternPart>) -> Seq<PatternPartView>
    decreases s,
{
    Seq::new(
        s.len(),
        |i: int|
            if 0 <= i < s.len() {
                view_pattern_part(s[i])
            } else {
                arbitrary()
            },
    )
}

pub open spec fn view_steps(
    s: Seq<(RelationshipPattern, NodePattern)>,
) -> Seq<(RelationshipPatternView, NodePatternView)>
    decreases s,
{
    Seq::new(
        s.len(),
        |i: int|
            if 0 <= i < s.len() {
                (view_relationship_pattern(s[i].0), view_node_pattern(s[i].1))
            } else {
                arbitrary()
            },
    )
}

pub open spec fn view_set_item_seq(s: Seq<SetItem>) -> Seq<SetItemView>
    decreases s,
{
    Seq::new(
        s.len(),
        |i: int|
            if 0 <= i < s.len() {
                view_set_item(s[i])
            } else {
                arbitrary()
            },
    )
}

pub open spec fn view_expression_seq(s: Seq<Expression>) -> Seq<ExpressionView>
    decreases s,
{
    Seq::new(
        s.len(),
        |i: int|
            if 0 <= i < s.len() {
                view_expression(s[i])
            } else {
                arbitrary()
            },
    )
}

pub open spec fn view_remove_item_seq(s: Seq<RemoveItem>) -> Seq<RemoveItemView>
    decreases s,
{
    Seq::new(
        s.len(),
        |i: int|
            if 0 <= i < s.len() {
                view_remove_item(s[i])
            } else {
                arbitrary()
            },
    )
}

pub open spec fn view_alternatives(
    s: Seq<(Expression, Expression)>,
) -> Seq<(ExpressionView, ExpressionView)>
    decreases s,
{
    Seq::new(
        s.len(),
        |i: int|
            if 0 <= i < s.len() {
                (view_expression(s[i].0), view_expression(s[i].1))
            } else {
                arbitrary()
            },
    )
}

pub open spec fn view_sort_item_seq(s: Seq<SortItem>) -> Seq<SortItemView>
    decreases s,
{
    Seq::new(
        s.len(),
        |i: int|
            if 0 <= i < s.len() {
                view_sort_item(s[i])
            } else {
                arbitrary()
            },
    )
}

pub open spec fn view_projection_item_seq(s: Seq<ProjectionItem>) -> Seq<ProjectionItemView>
    decreases s,
{
    Seq::new(
        s.len(),
        |i: int|
            if 0 <= i < s.len() {
                view_projection_item(s[i])
            } else {
                arbitrary()
            },
    )
}

pub open spec fn view_yield_item_seq(s: Seq<YieldItem>) -> Seq<YieldItemView>
    decreases s,
{
    Seq::new(
        s.len(),
        |i: int|
            if 0 <= i < s.len() {
                view_yield_item(s[i])
            } else {
                arbitrary()
            },
    )
}

pub open spec fn view_xor_expression_seq(s: Seq<XorExpression>) -> Seq<XorExpressionView>
    decreases s,
{
    Seq::new(
        s.len(),
        |i: int|
            if 0 <= i < s.len() {
                view_xor_expression(s[i])
            } else {
                arbitrary()
            },
    )
}

pub open spec fn view_and_expression_seq(s: Seq<AndExpression>) -> Seq<AndExpressionView>
    decreases s,
{
    Seq::new(
        s.len(),
        |i: int|
            if 0 <= i < s.len() {
                view_and_expression(s[i])
            } else {
                arbitrary()
            },
    )
}

pub open spec fn view_not_expression_seq(s: Seq<NotExpression>) -> Seq<NotExpressionView>
    decreases s,
{
    Seq::new(
        s.len(),
        |i: int|
            if 0 <= i < s.len() {
                view_not_expression(s[i])
            } else {
                arbitrary()
            },
    )
}

pub open spec fn view_comparisons(
    s: Seq<(ComparisonOperator, AddOrSubtractExpression)>,
) -> Seq<(ComparisonOperator, AddOrSubtractExpressionView)>
    decreases s,
{
    Seq::new(
        s.len(),
        |i: int|
            if 0 <= i < s.len() {
                (s[i].0, view_add_or_subtract_expression(s[i].1))
            } else {
                arbitrary()
            },
    )
}

pub open spec fn view_additions(
    s: Seq<(PlusMinusOperator, MultiplyDivideModuloExpression)>,
) -> Seq<(PlusMinusOperator, MultiplyDivideModuloExpressionView)>
    decreases s,
{
    Seq::new(
        s.len(),
        |i: int|
            if 0 <= i < s.len() {
                (s[i].0, view_multiply_divide_modulo_expression(s[i].1))
            } else {
                arbitrary()
            },
    )
}

pub open spec fn view_multiplications(
    s: Seq<(MultiplyDivideModuloOperator, PowerOfExpression)>,
) -> Seq<(MultiplyDivideModuloOperator, PowerOfExpressionView)>
    decreases s,
{
    Seq::new(
        s.len(),
        |i: int|
            if 0 <= i < s.len() {
                (s[i].0, view_power_of_expression(s[i].1))
            } else {
                arbitrary()
            },
    )
}

pub open spec fn view_unary_add_or_subtract_expression_seq(
    s: Seq<UnaryAddOrSubtractExpression>,
) -> Seq<UnaryAddOrSubtractExpressionView>
    decreases s,
{
    Seq::new(
        s.len(),
        |i: int|
            if 0 <= i < s.len() {
                view_unary_add_or_subtract_expression(s[i])
            } else {
                arbitrary()
            },
    )
}

pub open spec fn view_string_list_null_operator_expression_inner_seq(
    s: Seq<StringListNullOperatorExpressionInner>,
) -> Seq<StringListNullOperatorExpressionInnerView>
    decreases s,
{
    Seq::new(
        s.len(),
        |i: int|
            if 0 <= i < s.len() {
                view_string_list_null_operator_expression_inner(s[i])
            } else {
                arbitrary()
            },
    )
}
impl View for Query {
    type V = QueryView;

    open spec fn view(&self) -> QueryView {
        view_query(*self)
    }
}

impl View for SingleQuery {
    type V = SingleQueryView;

    open spec fn view(&self) -> SingleQueryView {
        view_single_query(*self)
    }
}

impl View for RegularQuery {
    type V = RegularQueryView;

    open spec fn view(&self) -> RegularQueryView {
        view_regular_query(*self)
    }
}

impl View for Union {
    type V = UnionView;

    open spec fn view(&self) -> UnionView {
        view_union(*self)
    }
}

impl View for SinglePartQuery {
    type V = SinglePartQueryView;

    open spec fn view(&self) -> SinglePartQueryView {
        view_single_part_query(*self)
    }
}

impl View for MultiPartQuery {
    type V = MultiPartQueryView;

    open spec fn view(&self) -> MultiPartQueryView {
        view_multi_part_query(*self)
    }
}

impl View for MultiPartQueryPart {
    type V = MultiPartQueryPartView;

    open spec fn view(&self) -> MultiPartQueryPartView {
        view_multi_part_query_part(*self)
    }
}

impl View for With {
    type V = WithView;

    open spec fn view(&self) -> WithView {
        view_with(*self)
    }
}

impl View for UpdatingClause {
    type V = UpdatingClauseView;

    open spec fn view(&self) -> UpdatingClauseView {
        view_updating_clause(*self)
    }
}

impl View for Merge {
    type V = MergeView;

    open spec fn view(&self) -> MergeView {
        view_merge(*self)
    }
}

impl View for MergeAction {
    type V = MergeActionView;

    open spec fn view(&self) -> MergeActionView {
        view_merge_action(*self)
    }
}

impl View for Create {
    type V = CreateView;

    open spec fn view(&self) -> CreateView {
        view_create(*self)
    }
}

impl View for Pattern {
    type V = PatternView;

    open spec fn view(&self) -> PatternView {
        view_pattern(*self)
    }
}

impl View for PatternPart {
    type V = PatternPartView;

    open spec fn view(&self) -> PatternPartView {
        view_pattern_part(*self)
    }
}

impl View for PatternElement {
    type V = PatternElementView;

    open spec fn view(&self) -> PatternElementView {
        view_pattern_element(*self)
    }
}

impl View for NodePattern {
    type V = NodePatternView;

    open spec fn view(&self) -> NodePatternView {
        view_node_pattern(*self)
    }
}

impl View for RelationshipsPattern {
    type V = RelationshipsPatternView;

    open spec fn view(&self) -> RelationshipsPatternView {
        view_relationships_pattern(*self)
    }
}

impl View for RelationshipPattern {
    type V = RelationshipPatternView;

    open spec fn view(&self) -> RelationshipPatternView {
        view_relationship_pattern(*self)
    }
}

impl View for RelationshipDetail {
    type V = RelationshipDetailView;

    open spec fn view(&self) -> RelationshipDetailView {
        view_relationship_detail(*self)
    }
}

impl View for Properties {
    type V = PropertiesView;

    open spec fn view(&self) -> PropertiesView {
        view_properties(*self)
    }
}

impl View for SetClause {
    type V = SetClauseView;

    open spec fn view(&self) -> SetClauseView {
        view_set_clause(*self)
    }
}

impl View for SetItem {
    type V = SetItemView;

    open spec fn view(&self) -> SetItemView {
        view_set_item(*self)
    }
}

impl View for Delete {
    type V = DeleteView;

    open spec fn view(&self) -> DeleteView {
        view_delete(*self)
    }
}

impl View for Remove {
    type V = RemoveView;

    open spec fn view(&self) -> RemoveView {
        view_remove(*self)
    }
}

impl View for RemoveItem {
    type V = RemoveItemView;

    open spec fn view(&self) -> RemoveItemView {
        view_remove_item(*self)
    }
}

impl View for PropertyExpression {
    type V = PropertyExpressionView;

    open spec fn view(&self) -> PropertyExpressionView {
        view_property_expression(*self)
    }
}

impl View for Atom {
    type V = AtomView;

    open spec fn view(&self) -> AtomView {
        view_atom(*self)
    }
}

impl View for PatternComprehension {
    type V = PatternComprehensionView;

    open spec fn view(&self) -> PatternComprehensionView {
        view_pattern_comprehension(*self)
    }
}

impl View for ListComprehension {
    type V = ListComprehensionView;

    open spec fn view(&self) -> ListComprehensionView {
        view_list_comprehension(*self)
    }
}

impl View for IdInColl {
    type V = IdInCollView;

    open spec fn view(&self) -> IdInCollView {
        view_id_in_coll(*self)
    }
}

impl View for FilterExpression {
    type V = FilterExpressionView;

    open spec fn view(&self) -> FilterExpressionView {
        view_filter_expression(*self)
    }
}

impl View for CaseExpression {
    type V = CaseExpressionView;

    open spec fn view(&self) -> CaseExpressionView {
        view_case_expression(*self)
    }
}

impl View for ReadingClause {
    type V = ReadingClauseView;

    open spec fn view(&self) -> ReadingClauseView {
        view_reading_clause(*self)
    }
}

impl View for Match {
    type V = MatchView;

    open spec fn view(&self) -> MatchView {
        view_match(*self)
    }
}

impl View for Unwind {
    type V = UnwindView;

    open spec fn view(&self) -> UnwindView {
        view_unwind(*self)
    }
}

impl View for InQueryCall {
    type V = InQueryCallView;

    open spec fn view(&self) -> InQueryCallView {
        view_in_query_call(*self)
    }
}

impl View for ExplicitProcedureInvocation {
    type V = ExplicitProcedureInvocationView;

    open spec fn view(&self) -> ExplicitProcedureInvocationView {
        view_explicit_procedure_invocation(*self)
    }
}

impl View for ImplicitProcedureInvocation {
    type V = ImplicitProcedureInvocationView;

    open spec fn view(&self) -> ImplicitProcedureInvocationView {
        view_implicit_procedure_invocation(*self)
    }
}

impl View for ProcedureInvocation {
    type V = ProcedureInvocationView;

    open spec fn view(&self) -> ProcedureInvocationView {
        view_procedure_invocation(*self)
    }
}

impl View for ProjectionBody {
    type V = ProjectionBodyView;

    open spec fn view(&self) -> ProjectionBodyView {
        view_projection_body(*self)
    }
}

impl View for Order {
    type V = OrderView;

    open spec fn view(&self) -> OrderView {
        view_order(*self)
    }
}

impl View for SortItem {
    type V = SortItemView;

    open spec fn view(&self) -> SortItemView {
        view_sort_item(*self)
    }
}

impl View for Skip {
    type V = SkipView;

    open spec fn view(&self) -> SkipView {
        view_skip(*self)
    }
}

impl View for Limit {
    type V = LimitView;

    open spec fn view(&self) -> LimitView {
        view_limit(*self)
    }
}

impl View for ProjectionItems {
    type V = ProjectionItemsView;

    open spec fn view(&self) -> ProjectionItemsView {
        view_projection_items(*self)
    }
}

impl View for ProjectionItem {
    type V = ProjectionItemView;

    open spec fn view(&self) -> ProjectionItemView {
        view_projection_item(*self)
    }
}

impl View for StandaloneCall {
    type V = StandaloneCallView;

    open spec fn view(&self) -> StandaloneCallView {
        view_standalone_call(*self)
    }
}

impl View for StarOrYieldItems {
    type V = StarOrYieldItemsView;

    open spec fn view(&self) -> StarOrYieldItemsView {
        view_star_or_yield_items(*self)
    }
}

impl View for YieldItems {
    type V = YieldItemsView;

    open spec fn view(&self) -> YieldItemsView {
        view_yield_items(*self)
    }
}

impl View for YieldItem {
    type V = YieldItemView;

    open spec fn view(&self) -> YieldItemView {
        view_yield_item(*self)
    }
}

impl View for ProcedureResultField {
    type V = ProcedureResultFieldView;

    open spec fn view(&self) -> ProcedureResultFieldView {
        view_procedure_result_field(*self)
    }
}

impl View for OrExpression {
    type V = OrExpressionView;

    open spec fn view(&self) -> OrExpressionView {
        view_expression(*self)
    }
}

impl View for XorExpression {
    type V = XorExpressionView;

    open spec fn view(&self) -> XorExpressionView {
        view_xor_expression(*self)
    }
}

impl View for AndExpression {
    type V = AndExpressionView;

    open spec fn view(&self) -> AndExpressionView {
        view_and_expression(*self)
    }
}

impl View for NotExpression {
    type V = NotExpressionView;

    open spec fn view(&self) -> NotExpressionView {
        view_not_expression(*self)
    }
}

impl View for ComparisonExpression {
    type V = ComparisonExpressionView;

    open spec fn view(&self) -> ComparisonExpressionView {
        view_comparison_expression(*self)
    }
}

impl View for AddOrSubtractExpression {
    type V = AddOrSubtractExpressionView;

    open spec fn view(&self) -> AddOrSubtractExpressionView {
        view_add_or_subtract_expression(*self)
    }
}

impl View for MultiplyDivideModuloExpression {
    type V = MultiplyDivideModuloExpressionView;

    open spec fn view(&self) -> MultiplyDivideModuloExpressionView {
        view_multiply_divide_modulo_expression(*self)
    }
}

impl View for PowerOfExpression {
    type V = PowerOfExpressionView;

    open spec fn view(&self) -> PowerOfExpressionView {
        view_power_of_expression(*self)
    }
}

impl View for UnaryAddOrSubtractExpression {
    type V = UnaryAddOrSubtractExpressionView;

    open spec fn view(&self) -> UnaryAddOrSubtractExpressionView {
        view_unary_add_or_subtract_expression(*self)
    }
}

impl View for StringListNullOperatorExpression {
    type V = StringListNullOperatorExpressionView;

    open spec fn view(&self) -> StringListNullOperatorExpressionView {
        view_string_list_null_operator_expression(*self)
    }
}

impl View for StringListNullOperatorExpressionInner {
    type V = StringListNullOperatorExpressionInnerView;

    open spec fn view(&self) -> StringListNullOperatorExpressionInnerView {
        view_string_list_null_operator_expression_inner(*self)
    }
}

impl View for StringOperatorExpression {
    type V = StringOperatorExpressionView;

    open spec fn view(&self) -> StringOperatorExpressionView {
        view_string_operator_expression(*self)
    }
}

impl View for ListOperatorExpression {
    type V = ListOperatorExpressionView;

    open spec fn view(&self) -> ListOperatorExpressionView {
        view_list_operator_expression(*self)
    }
}

impl View for PropertyOrLabelsExpression {
    type V = PropertyOrLabelsExpressionView;

    open spec fn view(&self) -> PropertyOrLabelsExpressionView {
        view_property_or_labels_expression(*self)
    }
}

impl View for FunctionInvocation {
    type V = FunctionInvocationView;

    open spec fn view(&self) -> FunctionInvocationView {
        view_function_invocation(*self)
    }
}

impl View for ExistentialSubquery {
    type V = ExistentialSubqueryView;

    open spec fn view(&self) -> ExistentialSubqueryView {
        view_existential_subquery(*self)
    }
}

impl View for Literal {
    type V = LiteralView;

    open spec fn view(&self) -> LiteralView {
        view_literal(*self)
    }
}

impl View for NumberLiteral {
    type V = NumberLiteralView;

    open spec fn view(&self) -> NumberLiteralView {
        view_number_literal(*self)
    }
}
} // verus!
