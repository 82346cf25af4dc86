//! Syntax trees: of Cypher in [`cypher`], with their mathematical values in
//! [`model`], and of GQL programs here.

use vstd::prelude::*;

pub mod cypher;
pub mod model;
pub mod property_map;

verus! {

/// A GQL program: what it does, and whether it closes the session at its end.
#[derive(Debug, PartialEq, Eq)]
pub struct GqlProgram {
    pub program_activity: ProgramActivity,
    pub session_close: bool,
}

/// What a program does: it works on the session, or it runs a transaction.
#[derive(Debug, PartialEq, Eq)]
pub enum ProgramActivity {
    Session(SessionActivity),
    Transaction(TransactionActivity),
}

/// The commands that set and reset parts of the session, in source order.
#[derive(Debug, PartialEq, Eq)]
pub struct SessionActivity {
    pub session_set_commands: Vec<SessionSetCommand>,
    pub session_reset_commands: Vec<SessionResetCommand>,
}

/// A transaction: how it starts, the procedure it runs, and how it ends.
#[derive(Debug, PartialEq, Eq)]
pub struct TransactionActivity {
    pub start_transaction: Option<TransactionCharacteristics>,
    pub procedure_specification: Option<ProcedureSpecification>,
    pub end_translation: Option<EndTransactionCommand>,
}

/// How a transaction ends.
#[derive(Clone, Copy, Debug, PartialEq, Eq, Structural)]
pub enum EndTransactionCommand {
    Commit,
    Rollback,
}

/// The access modes a transaction is started with.
#[derive(Debug, PartialEq, Eq)]
pub struct TransactionCharacteristics {
    pub access_mode: Vec<TransactionAccessMode>,
}

/// Whether a transaction may write.
#[derive(Clone, Copy, Debug, PartialEq, Eq, Structural)]
pub enum TransactionAccessMode {
    ReadWrite,
    ReadOnly,
}

/// One `SESSION SET` command, by what it sets.
#[derive(Debug, PartialEq, Eq)]
pub enum SessionSetCommand {
    Schema(SchemaReference),
    Graph(GraphExpression),
    TimeZone(String),
    Paramater(SessionSetParameterClause),
}

/// A reference to a schema: a path in the catalog, or a parameter that holds one.
#[derive(Debug, PartialEq, Eq)]
pub enum SchemaReference {
    CatalogSchemaReference(CatalogSchemaReference),
    ReferenceParameterSpecification(String),
}

/// An expression that denotes a graph.
#[derive(Debug, PartialEq, Eq)]
pub enum GraphExpression {
    ObjectExpressionPrimary(ObjectExpressionPrimary),
    GraphReference(GraphReference),
    BindingTableReference(BindingTableReference),
    ObjectNameOrBindingVariable(ObjectNameOrBindingVariable),
}

/// `SESSION SET GRAPH` of a named session parameter.
#[derive(Debug, PartialEq, Eq)]
pub struct SessionSetGraphParameterClause {
    pub parameter_name: String,
    pub initializer: OptTypedGraphInitializer,
}

/// The name of a session parameter, and whether it is set only if it does not exist.
#[derive(Debug, PartialEq, Eq)]
pub struct SessionSetParameterName {
    pub if_not_exists: bool,
    pub name: String,
}

/// What a `SESSION SET` of a parameter assigns: a graph, a binding table, or a value.
#[derive(Debug, PartialEq, Eq)]
pub enum SessionSetParameterClause {
    GraphParameter(SessionSetGraphParameterClause),
    BindingTableParameter(GraphType),
    ValueParameter(ValueExpression),
}

/// The initial graph of a parameter, with the type it is declared to have, if any.
#[derive(Debug, PartialEq, Eq)]
pub struct OptTypedGraphInitializer {
    pub typed: bool,
    pub reference_value_type: Option<GraphReferenceValueType>,
    pub initializer: GraphExpression,
}

/// The type of a reference to a graph: open or closed.
#[derive(Debug, PartialEq, Eq)]
pub enum GraphReferenceValueType {
    Open(OpenGraphReferenceValueType),
    Closed(ClosedGraphReferenceValueType),
}

/// The type of a reference to any graph. Its parts are not modelled.
#[derive(Debug, PartialEq, Eq)]
pub struct OpenGraphReferenceValueType {
}

/// The type of a reference to a graph of a given graph type. Its parts are not modelled.
#[derive(Debug, PartialEq, Eq)]
pub struct ClosedGraphReferenceValueType {
}

/// What a `SESSION RESET` command resets.
#[derive(Debug, PartialEq, Eq)]
pub enum SessionResetArgument {
    Parameters,
    Characteristics,
    Schema,
    Graph,
    TimeZone,
    Parameter(String),
}

/// One `SESSION RESET` command.
#[derive(Debug, PartialEq, Eq)]
pub struct SessionResetCommand {
    pub arguments: Vec<SessionResetArgument>,
}

/// A path to a schema in the catalog, from its root or from the current schema.
#[derive(Debug, PartialEq, Eq)]
pub enum CatalogSchemaReference {
    Absolute(AbsoluteCatalogSchemaReference),
    Relative(RelativeCatalogSchemaReference),
}

/// A schema path from the root of the catalog. Its parts are not modelled.
#[derive(Debug, PartialEq, Eq)]
pub enum AbsoluteCatalogSchemaReference {
    Unspecified,
}

/// A schema path from the current schema. Its parts are not modelled.
#[derive(Debug, PartialEq, Eq)]
pub enum RelativeCatalogSchemaReference {
    Unspecified,
}

/// A primary expression that denotes an object. Its forms are not modelled.
#[derive(Debug, PartialEq, Eq)]
pub enum ObjectExpressionPrimary {
    Unspecified,
}

/// A reference to a graph in the catalog. Its forms are not modelled.
#[derive(Debug, PartialEq, Eq)]
pub enum GraphReference {
    Unspecified,
}

/// A reference to a binding table. Its forms are not modelled.
#[derive(Debug, PartialEq, Eq)]
pub enum BindingTableReference {
    Unspecified,
}

/// An object name or a binding variable. Its forms are not modelled.
#[derive(Debug, PartialEq, Eq)]
pub enum ObjectNameOrBindingVariable {
    Unspecified,
}

/// A graph type. Its forms are not modelled.
#[derive(Debug, PartialEq, Eq)]
pub enum GraphType {
    Unspecified,
}

/// A value expression. Its forms are not modelled.
#[derive(Debug, PartialEq, Eq)]
pub enum ValueExpression {
    Unspecified,
}

/// The procedure a transaction runs, by what it may modify.
#[derive(Debug, PartialEq, Eq)]
pub enum ProcedureSpecification {
    CatalogModifying(CatalogModifyingProcedureSpecification),
    DataModifying(DataModifyingProcedureSpecification),
    Query(ProcedureBody),
}

/// A procedure that modifies the catalog. Its parts are not modelled.
#[derive(Debug, PartialEq, Eq)]
pub struct CatalogModifyingProcedureSpecification {
}

/// A procedure that modifies data. Its parts are not modelled.
#[derive(Debug, PartialEq, Eq)]
pub struct DataModifyingProcedureSpecification {
}

/// The body of a procedure: the schema it runs at, its variable definitions, its statements.
#[derive(Debug, PartialEq, Eq)]
pub struct ProcedureBody {
    pub at_schema: Option<SchemaReference>,
    pub binding_variable_definition_block: Option<BindingVariableDefinitionBlock>,
    pub statement_block: StatementBlock,
}

/// The variable definitions that open a procedure body. Its parts are not modelled.
#[derive(Debug, PartialEq, Eq)]
pub struct BindingVariableDefinitionBlock {
}

/// The statements of a procedure body, in source order.
#[derive(Debug, PartialEq, Eq)]
pub struct StatementBlock {
    pub statements: Vec<Statement>,
}

/// One statement of a procedure body.
#[derive(Debug, PartialEq, Eq)]
pub enum Statement {
    CompositeQuery(CompositeQueryExpression),
    LinearDataModifying(LinearDataModifyingStatement),
    LinearCatalogModifying(LinearCatalogModifyingStatement),
}

/// The operator that joins two queries.
#[derive(Clone, Copy, Debug, PartialEq, Eq, Structural)]
pub enum SetOperator {
    Union(SetQuantifier),
    Intersect(SetQuantifier),
    Except(SetQuantifier),
    Otherwise,
}

/// Whether a set operator keeps duplicates.
#[derive(Clone, Copy, Debug, PartialEq, Eq, Structural)]
pub enum SetQuantifier {
    Distinct,
    All,
}

/// A query and the (operator, query) pairs joined onto it, in source order.
#[derive(Debug, PartialEq, Eq)]
pub struct CompositeQueryExpression {
    pub query: LinearQueryStatement,
    pub partial_conjunctions: Vec<(SetOperator, LinearQueryStatement)>,
}

/// A linear query, on a graph it names or on the ambient graph.
#[derive(Debug, PartialEq, Eq)]
pub enum LinearQueryStatement {
    Focused(FocusedLinearQueryStatement),
    Ambient(AmbientLinearQueryStatement),
}

/// A linear query on a graph it names. Its forms are not modelled.
#[derive(Debug, PartialEq, Eq)]
pub enum FocusedLinearQueryStatement {
    Unspecified,
}

/// A linear query on the ambient graph. Its forms are not modelled.
#[derive(Debug, PartialEq, Eq)]
pub enum AmbientLinearQueryStatement {
    Unspecified,
}

/// A linear statement that modifies data. Its forms are not modelled.
#[derive(Debug, PartialEq, Eq)]
pub enum LinearDataModifyingStatement {
    Unspecified,
}

/// A linear statement that modifies the catalog. Its forms are not modelled.
#[derive(Debug, PartialEq, Eq)]
pub enum LinearCatalogModifyingStatement {
    Unspecified,
}

} // verus!
