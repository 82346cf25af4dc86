//! The parse tree that the grammar engine produces and the elaborators
//! consume: nodes labelled with the rule that matched, each with its text,
//! its span and its children.

use vstd::prelude::*;

verus! {

/// The rule identifiers of the Cypher grammar: every label a parse-tree node
/// can carry. Keywords and operator tokens are rules of their own, so a node's
/// children show which of them were written.
#[allow(non_camel_case_types)]
#[derive(Clone, Copy, Debug, PartialEq, Eq, Hash, Structural)]
pub enum Rule {
    Cypher,
    Statement,
    Query,
    RegularQuery,
    Union,
    SingleQuery,
    SinglePartQuery,
    MultiPartQuery,
    UpdatingClause,
    ReadingClause,
    Match,
    Unwind,
    Merge,
    MergeAction,
    Create,
    SetClause,
    SetItem,
    Delete,
    Remove,
    RemoveItem,
    InQueryCall,
    StandaloneCall,
    YieldItems,
    YieldItem,
    With,
    Return,
    ProjectionBody,
    ProjectionItems,
    ProjectionItem,
    Order,
    Skip,
    Limit,
    SortItem,
    Where,
    Pattern,
    PatternPart,
    AnonymousPatternPart,
    PatternElement,
    RelationshipsPattern,
    NodePattern,
    PatternElementChain,
    RelationshipPattern,
    RelationshipDetail,
    Properties,
    RelationshipTypes,
    NodeLabels,
    NodeLabel,
    RangeLiteral,
    LabelName,
    RelTypeName,
    PropertyExpression,
    Expression,
    OrExpression,
    XorExpression,
    AndExpression,
    NotExpression,
    ComparisonExpression,
    PartialComparisonExpression,
    AddOrSubtractExpression,
    MultiplyDivideModuloExpression,
    PowerOfExpression,
    UnaryAddOrSubtractExpression,
    StringListNullOperatorExpression,
    ListOperatorExpression,
    StringOperatorExpression,
    NullOperatorExpression,
    PropertyOrLabelsExpression,
    PropertyLookup,
    Atom,
    CountStarExpression,
    AllFilterExpression,
    AnyFilterExpression,
    NoneFilterExpression,
    SingleFilterExpression,
    CaseExpression,
    CaseAlternative,
    ListComprehension,
    PatternComprehension,
    FilterExpression,
    IdInColl,
    ParenthesizedExpression,
    ExistentialSubquery,
    FunctionInvocation,
    FunctionName,
    ExplicitProcedureInvocation,
    ImplicitProcedureInvocation,
    ProcedureResultField,
    ProcedureName,
    Namespace,
    Variable,
    Literal,
    BooleanLiteral,
    NumberLiteral,
    IntegerLiteral,
    DoubleLiteral,
    StringLiteral,
    StringDoubleText,
    StringDoubleTextChar,
    StringSingleText,
    StringSingleTextChar,
    EscapedChar,
    ListLiteral,
    MapLiteral,
    PropertyKeyName,
    Parameter,
    SchemaName,
    SymbolicName,
    IdentifierStart,
    IdentifierPart,
    UNION,
    ALL,
    OPTIONAL,
    MATCH,
    UNWIND,
    AS,
    MERGE,
    ON,
    CREATE,
    SET,
    DETACH,
    DELETE,
    REMOVE,
    CALL,
    YIELD,
    WITH,
    RETURN,
    DISTINCT,
    ORDER,
    BY,
    SKIP,
    LIMIT,
    ASCENDING,
    ASC,
    DESCENDING,
    DESC,
    WHERE,
    OR,
    XOR,
    AND,
    NOT,
    IN,
    STARTS,
    ENDS,
    CONTAINS,
    IS,
    NULL,
    COUNT,
    ANY_,
    NONE,
    SINGLE,
    TRUE,
    FALSE,
    EXISTS,
    CASE,
    ELSE,
    END,
    WHEN,
    THEN,
    STAR,
    PLUS,
    MINUS,
    MULTIPLY,
    DIVIDE,
    MODULO,
    POW,
    EQ,
    NE,
    LT,
    GT,
    LE,
    GE,
    INCREMENT,
    DOT_DOT,
    Dash,
    LeftArrowHead,
    RightArrowHead,
    SP,
    Blank,
    Whitespace,
    Comment,
    EOI,
}

/// A node of the parse tree that the grammar engine hands over: the rule that
/// matched, the exact text it matched, the byte span of that text in the
/// query, and the nodes matched inside it, in source order.
#[derive(Debug, PartialEq, Eq)]
pub struct ParseNode {
    pub rule: Rule,
    pub text: String,
    pub start: usize,
    pub end: usize,
    pub children: Vec<ParseNode>,
}

/// The mathematical value of a [`ParseNode`].
pub struct NodeView {
    pub rule: Rule,
    pub text: Seq<char>,
    pub start: usize,
    pub end: usize,
    pub children: Seq<NodeView>,
}

/// The value of a node: its own fields, and the values of its children in order.
pub open spec fn node_view(n: ParseNode) -> NodeView
    decreases n,
{
    NodeView {
        rule: n.rule,
        text: n.text@,
        start: n.start,
        end: n.end,
        children: Seq::new(
            n.children@.len(),
            |i: int|
                if 0 <= i < n.children@.len() {
                    node_view(n.children@[i])
                } else {
                    arbitrary()
                },
        ),
    }
}

impl View for ParseNode {
    type V = NodeView;

    open spec fn view(&self) -> NodeView {
        node_view(*self)
    }
}

/// The children of a node's value are the values of its children.
pub proof fn lemma_children(n: ParseNode)
    ensures
        n@.children.len() == n.children@.len(),
        forall|i: int| 0 <= i < n.children@.len() ==> #[trigger] n@.children[i] == n.children@[i]@,
{
}

impl ParseNode {
    /// A node without children.
    pub fn leaf(rule: Rule, text: String, start: usize, end: usize) -> (n: ParseNode)
        ensures
            n@ == (NodeView { rule, text: text@, start, end, children: Seq::empty() }),
    {
        let n = ParseNode { rule, text, start, end, children: Vec::new() };
        assert(n@.children =~= Seq::empty());
        n
    }
}

} // verus!
