//! The syntax tree of a Cypher query. A tree is built once, owns all its
//! parts, and is not changed afterwards.

use vstd::prelude::*;

use crate::ast::property_map::PropertyMap;

verus! {

/// The six comparison operators.
#[derive(Clone, Copy, Debug, PartialEq, Eq, Structural)]
pub enum ComparisonOperator {
    Equal,
    NotEqual,
    LessThan,
    GreaterThan,
    LessEqual,
    GreaterEqual,
}

/// Binary `+` and `-`.
#[derive(Clone, Copy, Debug, PartialEq, Eq, Structural)]
pub enum PlusMinusOperator {
    Plus,
    Minus,
}

/// Binary `*`, `/` and `%`.
#[derive(Clone, Copy, Debug, PartialEq, Eq, Structural)]
pub enum MultiplyDivideModuloOperator {
    Multiply,
    Divide,
    Modulo,
}

/// The three string tests.
#[derive(Clone, Copy, Debug, PartialEq, Eq, Structural)]
pub enum StringOperator {
    StartsWith,
    EndsWith,
    Contains,
}

/// `IS NULL`, or `IS NOT NULL` when `not` is set.
#[derive(Clone, Copy, Debug, PartialEq, Eq, Structural)]
pub struct NullOperatorExpression {
    pub not: bool,
}

/// A whole statement: an ordinary query or a bare procedure call.
#[derive(Debug, PartialEq, Eq)]
pub enum Query {
    RegularQuery(RegularQuery),
    StandaloneCall(StandaloneCall),
}

/// One query without `UNION`: a single part, or several parts chained by `WITH`.
#[derive(Debug, PartialEq, Eq)]
pub enum SingleQuery {
    SinglePartQuery(SinglePartQuery),
    MultiPartQuery(MultiPartQuery),
}

/// A query followed by its `UNION` branches, in source order.
#[derive(Debug, PartialEq, Eq)]
pub struct RegularQuery {
    pub query: SingleQuery,
    pub union: Vec<Union>,
}

/// One `UNION` branch; `all` records `UNION ALL`.
#[derive(Debug, PartialEq, Eq)]
pub struct Union {
    pub all: bool,
    pub query: SingleQuery,
}

/// Reading clauses, updating clauses and an optional `RETURN`.
#[derive(Debug, PartialEq, Eq)]
pub struct SinglePartQuery {
    pub reading_clauses: Vec<ReadingClause>,
    pub updating_clauses: Vec<UpdatingClause>,
    pub return_: Option<ProjectionBody>,
}

/// The `WITH`-terminated parts of a query and the single-part query that ends it.
#[derive(Debug, PartialEq, Eq)]
pub struct MultiPartQuery {
    pub parts: Vec<MultiPartQueryPart>,
    pub query: SinglePartQuery,
}

/// The clauses that lead up to one `WITH`, and that `WITH`.
#[derive(Debug, PartialEq, Eq)]
pub struct MultiPartQueryPart {
    pub reading_clauses: Vec<ReadingClause>,
    pub updating_clauses: Vec<UpdatingClause>,
    pub with: With,
}

/// A `WITH` projection and its optional `WHERE` filter.
#[derive(Debug, PartialEq, Eq)]
pub struct With {
    pub projection_body: ProjectionBody,
    pub where_: Option<Expression>,
}

/// A clause that writes to the graph.
#[derive(Debug, PartialEq, Eq)]
pub enum UpdatingClause {
    Create(Create),
    Merge(Merge),
    Delete(Delete),
    SetClause(SetClause),
    Remove(Remove),
}

/// `MERGE` of one pattern part with its `ON MATCH` / `ON CREATE` actions in source order.
#[derive(Debug, PartialEq, Eq)]
pub struct Merge {
    pub pattern_part: PatternPart,
    pub actions: Vec<MergeAction>,
}

/// What a `MERGE` sets when it matched, or when it created.
#[derive(Debug, PartialEq, Eq)]
pub enum MergeAction {
    Match(SetClause),
    Create(SetClause),
}

/// `CREATE` of a pattern.
#[derive(Debug, PartialEq, Eq)]
pub struct Create {
    pub pattern: Pattern,
}

/// The comma-separated parts of a pattern, in source order.
#[derive(Debug, PartialEq, Eq)]
pub struct Pattern {
    pub parts: Vec<PatternPart>,
}

/// One path of a pattern, optionally bound to a variable.
#[derive(Debug, PartialEq, Eq)]
pub struct PatternPart {
    pub variable: Option<String>,
    pub pattern_element: PatternElement,
}

/// A starting node and the chain of (relationship, node) steps that follow it, left to right.
#[derive(Debug, PartialEq, Eq)]
pub struct PatternElement {
    pub node_pattern: NodePattern,
    pub relationship_patterns: Vec<(RelationshipPattern, NodePattern)>,
}

/// A node in a pattern: binding variable, labels, properties.
#[derive(Debug, PartialEq, Eq)]
pub struct NodePattern {
    pub variable: Option<String>,
    pub node_labels: Vec<String>,
    pub properties: Option<Properties>,
}

/// A path used as an expression: a node followed by at least one step.
#[derive(Debug, PartialEq, Eq)]
pub struct RelationshipsPattern {
    pub node: NodePattern,
    pub relationships: Vec<(RelationshipPattern, NodePattern)>,
}

/// A relationship in a pattern, by the arrowheads written on it.
#[derive(Debug, PartialEq, Eq)]
pub enum RelationshipPattern {
    LeftAndRight(Option<RelationshipDetail>),
    Left(Option<RelationshipDetail>),
    Right(Option<RelationshipDetail>),
    Undirected(Option<RelationshipDetail>),
}

/// What stands between the brackets of a relationship: variable, type alternatives, properties.
#[derive(Debug, PartialEq, Eq)]
pub struct RelationshipDetail {
    pub variable: Option<String>,
    pub relationship_types: Vec<String>,
    pub properties: Option<Properties>,
}

/// The properties of a node or relationship: a parameter, or an inline map.
#[derive(Debug, PartialEq, Eq)]
pub enum Properties {
    Parameter(String),
    MapLiteral(PropertyMap),
}

/// The items of a `SET` clause, in source order.
#[derive(Debug, PartialEq, Eq)]
pub struct SetClause {
    pub items: Vec<SetItem>,
}

/// One assignment of a `SET` clause.
#[derive(Debug, PartialEq, Eq)]
pub enum SetItem {
    AssignPropertyExpression {
        property_expression: PropertyExpression,
        expression: Expression,
    },
    AssignVariable {
        variable: String,
        expression: Expression,
    },
    IncrementVariable {
        variable: String,
        expression: Expression,
    },
    VariableNodeLabels {
        variable: String,
        node_labels: Vec<String>,
    },
}

/// `DELETE`, or `DETACH DELETE`, of the listed expressions.
#[derive(Debug, PartialEq, Eq)]
pub struct Delete {
    pub detach: bool,
    pub expressions: Vec<Expression>,
}

/// The items of a `REMOVE` clause, in source order.
#[derive(Debug, PartialEq, Eq)]
pub struct Remove {
    pub items: Vec<RemoveItem>,
}

/// One item of a `REMOVE` clause: labels of a variable, or a property.
#[derive(Debug, PartialEq, Eq)]
pub enum RemoveItem {
    VariableNodeLabels {
        variable: String,
        node_labels: Vec<String>,
    },
    PropertyExpression(PropertyExpression),
}

/// An atom followed by a path of property keys.
#[derive(Debug, PartialEq, Eq)]
pub struct PropertyExpression {
    pub atom: Atom,
    pub property_path: Vec<String>,
}

/// The leaf of an expression.
#[derive(Debug, PartialEq, Eq)]
pub enum Atom {
    Literal(Literal),
    Parameter(String),
    CaseExpression(CaseExpression),
    CountStar,
    ListComprehension(ListComprehension),
    PatternComprehension(PatternComprehension),
    All(FilterExpression),
    Any(FilterExpression),
    NoneOf(FilterExpression),
    Single(FilterExpression),
    RelationshipsPattern(RelationshipsPattern),
    ParenthesizedExpression(Expression),
    FunctionInvocation(FunctionInvocation),
    ExistentialSubquery(ExistentialSubquery),
    Variable(String),
}

/// A pattern comprehension: `[p = pattern WHERE filter | expression]`.
#[derive(Debug, PartialEq, Eq)]
pub struct PatternComprehension {
    pub variable: Option<String>,
    pub relationship_pattern: RelationshipPattern,
    pub where_: Option<Expression>,
    pub expression: Expression,
}

/// A list comprehension: `[x IN list WHERE filter | expression]`.
#[derive(Debug, PartialEq, Eq)]
pub struct ListComprehension {
    pub filter_expression: FilterExpression,
    pub expression: Option<Expression>,
}

/// A variable ranging over a collection: `x IN list`.
#[derive(Debug, PartialEq, Eq)]
pub struct IdInColl {
    pub variable: String,
    pub expression: Expression,
}

/// A variable ranging over a collection, with an optional `WHERE` filter.
#[derive(Debug, PartialEq, Eq)]
pub struct FilterExpression {
    pub id_in_coll: IdInColl,
    pub where_: Option<Expression>,
}

/// `CASE`: optional subject, the `WHEN`/`THEN` pairs in source order, optional `ELSE`.
#[derive(Debug, PartialEq, Eq)]
pub struct CaseExpression {
    pub expression: Option<Expression>,
    pub alternatives: Vec<(Expression, Expression)>,
    pub else_: Option<Expression>,
}

/// A clause that reads from the graph.
#[derive(Debug, PartialEq, Eq)]
pub enum ReadingClause {
    Match(Match),
    Unwind(Unwind),
    InQueryCall(InQueryCall),
}

/// `MATCH` or `OPTIONAL MATCH` of a pattern, with an optional `WHERE` filter.
#[derive(Debug, PartialEq, Eq)]
pub struct Match {
    pub optional: bool,
    pub pattern: Pattern,
    pub where_: Option<Expression>,
}

/// `UNWIND expression AS variable`.
#[derive(Debug, PartialEq, Eq)]
pub struct Unwind {
    pub expression: Expression,
    pub variable: String,
}

/// `CALL` inside a query, with its optional `YIELD`.
#[derive(Debug, PartialEq, Eq)]
pub struct InQueryCall {
    pub invocation: ExplicitProcedureInvocation,
    pub yield_items: Option<YieldItems>,
}

/// A procedure name with its argument list.
#[derive(Debug, PartialEq, Eq)]
pub struct ExplicitProcedureInvocation {
    pub name: String,
    pub arguments: Vec<Expression>,
}

/// A procedure name without an argument list.
#[derive(Debug, PartialEq, Eq)]
pub struct ImplicitProcedureInvocation {
    pub name: String,
}

/// How a standalone `CALL` names its procedure.
#[derive(Debug, PartialEq, Eq)]
pub enum ProcedureInvocation {
    Explicit(ExplicitProcedureInvocation),
    Implicit(ImplicitProcedureInvocation),
}

/// What `RETURN` and `WITH` share: `DISTINCT`, the items, `ORDER BY`, `SKIP`, `LIMIT`.
#[derive(Debug, PartialEq, Eq)]
pub struct ProjectionBody {
    pub distinct: bool,
    pub items: ProjectionItems,
    pub order: Option<Order>,
    pub skip: Option<Skip>,
    pub limit: Option<Limit>,
}

/// The sort items of `ORDER BY`, in source order.
#[derive(Debug, PartialEq, Eq)]
pub struct Order {
    pub items: Vec<SortItem>,
}

/// One sort key and its direction.
#[derive(Debug, PartialEq, Eq)]
pub enum SortItem {
    Ascending(Expression),
    Descending(Expression),
}

/// `SKIP expression`.
#[derive(Debug, PartialEq, Eq)]
pub struct Skip {
    pub expression: Expression,
}

/// `LIMIT expression`.
#[derive(Debug, PartialEq, Eq)]
pub struct Limit {
    pub expression: Expression,
}

/// The projected columns; `star` records a leading `*`.
#[derive(Debug, PartialEq, Eq)]
pub struct ProjectionItems {
    pub star: bool,
    pub items: Vec<ProjectionItem>,
}

/// One projected column, optionally renamed with `AS`.
#[derive(Debug, PartialEq, Eq)]
pub enum ProjectionItem {
    Expression(Expression),
    AsVariable {
        expression: Expression,
        variable: String,
    },
}

/// A bare `CALL` and its optional `YIELD`.
#[derive(Debug, PartialEq, Eq)]
pub struct StandaloneCall {
    pub invocation: ProcedureInvocation,
    pub yield_: Option<StarOrYieldItems>,
}

/// `YIELD *` or an explicit list.
#[derive(Debug, PartialEq, Eq)]
pub enum StarOrYieldItems {
    Star,
    YieldItems(YieldItems),
}

/// The result fields that a call yields, with an optional `WHERE` filter.
#[derive(Debug, PartialEq, Eq)]
pub enum YieldItems {
    Star,
    Items {
        items: Vec<YieldItem>,
        where_: Option<Expression>,
    },
}

/// One yielded field, optionally renamed: `field AS variable`.
#[derive(Debug, PartialEq, Eq)]
pub struct YieldItem {
    pub procedure_result_field: Option<String>,
    pub variable: String,
}

/// The name of a field in a procedure's result.
#[derive(Debug, PartialEq, Eq)]
pub struct ProcedureResultField {
    pub name: String,
}

/// The operands of `OR`, in source order; a single operand when no `OR` was written.
#[derive(Debug, PartialEq, Eq)]
pub struct OrExpression(pub Vec<XorExpression>);

/// An expression is the loosest-binding level, `OR`.
pub type Expression = OrExpression;

/// The operands of `XOR`, in source order.
#[derive(Debug, PartialEq, Eq)]
pub struct XorExpression(pub Vec<AndExpression>);

/// The operands of `AND`, in source order.
#[derive(Debug, PartialEq, Eq)]
pub struct AndExpression(pub Vec<NotExpression>);

/// A comparison under a run of `NOT`; `not` is true when the run has odd length.
#[derive(Debug, PartialEq, Eq)]
pub struct NotExpression {
    pub not: bool,
    pub expression: ComparisonExpression,
}

/// A first operand and the (operator, operand) pairs chained onto it.
#[derive(Debug, PartialEq, Eq)]
pub struct ComparisonExpression {
    pub expression: AddOrSubtractExpression,
    pub comparisons: Vec<(ComparisonOperator, AddOrSubtractExpression)>,
}

/// A first term and the (`+` or `-`, term) pairs that follow, left to right.
#[derive(Debug, PartialEq, Eq)]
pub struct AddOrSubtractExpression {
    pub expression: MultiplyDivideModuloExpression,
    pub operations: Vec<(PlusMinusOperator, MultiplyDivideModuloExpression)>,
}

/// A first factor and the (`*`, `/` or `%`, factor) pairs that follow, left to right.
#[derive(Debug, PartialEq, Eq)]
pub struct MultiplyDivideModuloExpression {
    pub expression: PowerOfExpression,
    pub operations: Vec<(MultiplyDivideModuloOperator, PowerOfExpression)>,
}

/// The operands of `^`, in source order; how they associate is left to the consumer.
#[derive(Debug, PartialEq, Eq)]
pub struct PowerOfExpression(pub Vec<UnaryAddOrSubtractExpression>);

/// An operand under a run of signs; `negate` is true when the run holds an odd number of `-`.
#[derive(Debug, PartialEq, Eq)]
pub struct UnaryAddOrSubtractExpression {
    pub negate: bool,
    pub expression: StringListNullOperatorExpression,
}

/// An operand and the string, list and null tests applied to it, in source order.
#[derive(Debug, PartialEq, Eq)]
pub struct StringListNullOperatorExpression {
    pub expression: PropertyOrLabelsExpression,
    pub operations: Vec<StringListNullOperatorExpressionInner>,
}

/// One postfix test: on a string, on a list, or for null.
#[derive(Debug, PartialEq, Eq)]
pub enum StringListNullOperatorExpressionInner {
    StringOperator(StringOperatorExpression),
    ListOperator(ListOperatorExpression),
    NullOperator(NullOperatorExpression),
}

/// `STARTS WITH`, `ENDS WITH` or `CONTAINS`, and its right-hand side.
#[derive(Debug, PartialEq, Eq)]
pub struct StringOperatorExpression {
    pub operator: StringOperator,
    pub expression: PropertyOrLabelsExpression,
}

/// `IN list`, `[index]`, or `[from..to]` with either bound optional.
#[derive(Debug, PartialEq, Eq)]
pub enum ListOperatorExpression {
    In(PropertyOrLabelsExpression),
    Index(Expression),
    Range(Option<Expression>, Option<Expression>),
}

/// An atom, the property path looked up on it, and the labels tested on it.
#[derive(Debug, PartialEq, Eq)]
pub struct PropertyOrLabelsExpression {
    pub atom: Atom,
    pub property_lookup: Vec<String>,
    pub node_labels: Vec<String>,
}

/// A function call: name, `DISTINCT` flag, arguments in source order.
#[derive(Debug, PartialEq, Eq)]
pub struct FunctionInvocation {
    pub function_name: String,
    pub distinct: bool,
    pub arguments: Vec<Expression>,
}

/// `EXISTS { ... }` over a whole query, or over a pattern with an optional filter.
#[derive(Debug, PartialEq, Eq)]
pub enum ExistentialSubquery {
    RegularQuery(RegularQuery),
    PatternWhere {
        pattern: Pattern,
        where_: Option<Expression>,
    },
}

/// A literal value; maps and lists hold expressions, not values.
#[derive(Debug, PartialEq, Eq)]
pub enum Literal {
    String(String),
    Number(NumberLiteral),
    Boolean(bool),
    Null,
    MapLiteral(PropertyMap),
    ListLiteral(Vec<Expression>),
}

/// An integer by value, or a double by its lexeme as written in the query.
#[derive(Debug, PartialEq, Eq)]
pub enum NumberLiteral {
    Integer(i64),
    Double(String),
}
} // verus!
