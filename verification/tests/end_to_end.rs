use open_cypher::error::SyntaxError;
use open_cypher::tree::{ParseNode, Rule};
use pest::error::{ErrorVariant, InputLocation};
use pest::iterators::Pair;

const GRAMMAR: &str = r#"
Cypher = { SOI ~ Blank? ~ Statement ~ (Blank? ~ ";")? ~ Blank? ~ EOI }
Statement = { Query }
Query = { RegularQuery | StandaloneCall }

RegularQuery = { SingleQuery ~ (SP? ~ Union)* }
Union = { (UNION ~ SP ~ ALL ~ SP? ~ SingleQuery) | (UNION ~ SP? ~ SingleQuery) }
SingleQuery = { MultiPartQuery | SinglePartQuery }
SinglePartQuery = {
    ((ReadingClause ~ SP?)* ~ Return)
  | ((ReadingClause ~ SP?)* ~ UpdatingClause ~ (SP? ~ UpdatingClause)* ~ (SP? ~ Return)?)
}
MultiPartQuery = { ((ReadingClause ~ SP?)* ~ (UpdatingClause ~ SP?)* ~ With ~ SP?)+ ~ SinglePartQuery }

UpdatingClause = { Create | Merge | Delete | Set | Remove }
ReadingClause = { Match | Unwind | InQueryCall }

Match = { (OPTIONAL ~ SP)? ~ MATCH ~ SP? ~ Pattern ~ (SP? ~ Where)? }
Unwind = { UNWIND ~ SP? ~ Expression ~ SP ~ AS ~ SP ~ Variable }
Merge = { MERGE ~ SP? ~ PatternPart ~ (SP ~ MergeAction)* }
MergeAction = { (ON ~ SP ~ MATCH ~ SP ~ Set) | (ON ~ SP ~ CREATE ~ SP ~ Set) }
Create = { CREATE ~ SP? ~ Pattern }
Set = { SET ~ SP? ~ SetItem ~ (SP? ~ "," ~ SP? ~ SetItem)* }
SetItem = {
    (PropertyExpression ~ SP? ~ EQ ~ SP? ~ Expression)
  | (Variable ~ SP? ~ EQ ~ SP? ~ Expression)
  | (Variable ~ SP? ~ INCREMENT ~ SP? ~ Expression)
  | (Variable ~ SP? ~ NodeLabels)
}
Delete = { (DETACH ~ SP)? ~ DELETE ~ SP? ~ Expression ~ (SP? ~ "," ~ SP? ~ Expression)* }
Remove = { REMOVE ~ SP ~ RemoveItem ~ (SP? ~ "," ~ SP? ~ RemoveItem)* }
RemoveItem = { (Variable ~ NodeLabels) | PropertyExpression }

InQueryCall = { CALL ~ SP ~ ExplicitProcedureInvocation ~ (SP? ~ YIELD ~ SP ~ YieldItems)? }
StandaloneCall = {
    CALL ~ SP ~ (ExplicitProcedureInvocation | ImplicitProcedureInvocation)
  ~ (SP? ~ YIELD ~ SP ~ (STAR | YieldItems))?
}
YieldItems = { YieldItem ~ (SP? ~ "," ~ SP? ~ YieldItem)* ~ (SP? ~ Where)? }
YieldItem = { (ProcedureResultField ~ SP ~ AS ~ SP)? ~ Variable }

With = { WITH ~ ProjectionBody ~ (SP? ~ Where)? }
Return = { RETURN ~ ProjectionBody }
ProjectionBody = { (SP? ~ DISTINCT)? ~ SP ~ ProjectionItems ~ (SP ~ Order)? ~ (SP ~ Skip)? ~ (SP ~ Limit)? }
ProjectionItems = {
    (STAR ~ (SP? ~ "," ~ SP? ~ ProjectionItem)*)
  | (ProjectionItem ~ (SP? ~ "," ~ SP? ~ ProjectionItem)*)
}
ProjectionItem = { (Expression ~ SP ~ AS ~ SP ~ Variable) | Expression }
Order = { ORDER ~ SP ~ BY ~ SP ~ SortItem ~ (SP? ~ "," ~ SP? ~ SortItem)* }
Skip = { SKIP ~ SP ~ Expression }
Limit = { LIMIT ~ SP ~ Expression }
SortItem = { Expression ~ (SP? ~ (ASCENDING | ASC | DESCENDING | DESC))? }
Where = { WHERE ~ SP ~ Expression }

Pattern = { PatternPart ~ (SP? ~ "," ~ SP? ~ PatternPart)* }
PatternPart = { (Variable ~ SP? ~ "=" ~ SP? ~ AnonymousPatternPart) | AnonymousPatternPart }
AnonymousPatternPart = { PatternElement }
PatternElement = { (NodePattern ~ (SP? ~ PatternElementChain)*) | ("(" ~ PatternElement ~ ")") }
RelationshipsPattern = { NodePattern ~ (SP? ~ PatternElementChain)+ }
NodePattern = { "(" ~ SP? ~ (Variable ~ SP?)? ~ (NodeLabels ~ SP?)? ~ (Properties ~ SP?)? ~ ")" }
PatternElementChain = { RelationshipPattern ~ SP? ~ NodePattern }
RelationshipPattern = {
    (LeftArrowHead ~ SP? ~ Dash ~ SP? ~ RelationshipDetail? ~ SP? ~ Dash ~ SP? ~ RightArrowHead)
  | (LeftArrowHead ~ SP? ~ Dash ~ SP? ~ RelationshipDetail? ~ SP? ~ Dash)
  | (Dash ~ SP? ~ RelationshipDetail? ~ SP? ~ Dash ~ SP? ~ RightArrowHead)
  | (Dash ~ SP? ~ RelationshipDetail? ~ SP? ~ Dash)
}
RelationshipDetail = {
    "[" ~ SP? ~ (Variable ~ SP?)? ~ (RelationshipTypes ~ SP?)? ~ RangeLiteral? ~ (Properties ~ SP?)? ~ "]"
}
Properties = { MapLiteral | Parameter }
RelationshipTypes = { ":" ~ SP? ~ RelTypeName ~ (SP? ~ "|" ~ ":"? ~ SP? ~ RelTypeName)* }
NodeLabels = { NodeLabel ~ (SP? ~ NodeLabel)* }
NodeLabel = { ":" ~ SP? ~ LabelName }
RangeLiteral = { "*" ~ SP? ~ (IntegerLiteral ~ SP?)? ~ (".." ~ SP? ~ (IntegerLiteral ~ SP?)?)? }
LabelName = { SchemaName }
RelTypeName = { SchemaName }

PropertyExpression = { Atom ~ SP? ~ PropertyLookup }
Expression = { OrExpression }
OrExpression = { XorExpression ~ (SP ~ OR ~ SP ~ XorExpression)* }
XorExpression = { AndExpression ~ (SP ~ XOR ~ SP ~ AndExpression)* }
AndExpression = { NotExpression ~ (SP ~ AND ~ SP ~ NotExpression)* }
NotExpression = { (NOT ~ SP?)* ~ ComparisonExpression }
ComparisonExpression = { AddOrSubtractExpression ~ (SP? ~ PartialComparisonExpression)* }
PartialComparisonExpression = {
    (NE ~ SP? ~ AddOrSubtractExpression)
  | (LE ~ SP? ~ AddOrSubtractExpression)
  | (GE ~ SP? ~ AddOrSubtractExpression)
  | (EQ ~ SP? ~ AddOrSubtractExpression)
  | (LT ~ SP? ~ AddOrSubtractExpression)
  | (GT ~ SP? ~ AddOrSubtractExpression)
}
AddOrSubtractExpression = {
    MultiplyDivideModuloExpression
  ~ ((SP? ~ PLUS ~ SP? ~ MultiplyDivideModuloExpression) | (SP? ~ MINUS ~ SP? ~ MultiplyDivideModuloExpression))*
}
MultiplyDivideModuloExpression = {
    PowerOfExpression
  ~ ((SP? ~ MULTIPLY ~ SP? ~ PowerOfExpression)
    | (SP? ~ DIVIDE ~ SP? ~ PowerOfExpression)
    | (SP? ~ MODULO ~ SP? ~ PowerOfExpression))*
}
PowerOfExpression = { UnaryAddOrSubtractExpression ~ (SP? ~ POW ~ SP? ~ UnaryAddOrSubtractExpression)* }
UnaryAddOrSubtractExpression = { ((PLUS | MINUS) ~ SP?)* ~ StringListNullOperatorExpression }
StringListNullOperatorExpression = {
    PropertyOrLabelsExpression ~ (StringOperatorExpression | ListOperatorExpression | NullOperatorExpression)*
}
ListOperatorExpression = {
    (SP ~ IN ~ SP? ~ PropertyOrLabelsExpression)
  | (SP? ~ "[" ~ SP? ~ Expression ~ SP? ~ "]")
  | (SP? ~ "[" ~ SP? ~ (Expression ~ SP?)? ~ DOT_DOT ~ SP? ~ (Expression ~ SP?)? ~ "]")
}
StringOperatorExpression = {
    ((SP ~ STARTS ~ SP ~ WITH) | (SP ~ ENDS ~ SP ~ WITH) | (SP ~ CONTAINS)) ~ SP? ~ PropertyOrLabelsExpression
}
NullOperatorExpression = { (SP ~ IS ~ SP ~ NOT ~ SP ~ NULL) | (SP ~ IS ~ SP ~ NULL) }
PropertyOrLabelsExpression = { Atom ~ (SP? ~ PropertyLookup)? ~ (SP? ~ NodeLabels)? }
PropertyLookup = { "." ~ SP? ~ PropertyKeyName ~ (SP? ~ "." ~ SP? ~ PropertyKeyName)* }

Atom = {
    Literal
  | Parameter
  | CaseExpression
  | CountStarExpression
  | ListComprehension
  | PatternComprehension
  | AllFilterExpression
  | AnyFilterExpression
  | NoneFilterExpression
  | SingleFilterExpression
  | RelationshipsPattern
  | ParenthesizedExpression
  | ExistentialSubquery
  | FunctionInvocation
  | Variable
}
CountStarExpression = { COUNT ~ SP? ~ "(" ~ SP? ~ "*" ~ SP? ~ ")" }
AllFilterExpression = { ALL ~ SP? ~ "(" ~ SP? ~ FilterExpression ~ SP? ~ ")" }
AnyFilterExpression = { ANY_ ~ SP? ~ "(" ~ SP? ~ FilterExpression ~ SP? ~ ")" }
NoneFilterExpression = { NONE ~ SP? ~ "(" ~ SP? ~ FilterExpression ~ SP? ~ ")" }
SingleFilterExpression = { SINGLE ~ SP? ~ "(" ~ SP? ~ FilterExpression ~ SP? ~ ")" }
CaseExpression = {
    ((CASE ~ (SP? ~ CaseAlternative)+) | (CASE ~ SP? ~ Expression ~ (SP? ~ CaseAlternative)+))
  ~ (SP? ~ ELSE ~ SP? ~ Expression)? ~ SP? ~ END
}
CaseAlternative = { WHEN ~ SP? ~ Expression ~ SP? ~ THEN ~ SP? ~ Expression }
ListComprehension = { "[" ~ SP? ~ FilterExpression ~ (SP? ~ "|" ~ SP? ~ Expression)? ~ SP? ~ "]" }
PatternComprehension = {
    "[" ~ SP? ~ (Variable ~ SP? ~ "=" ~ SP?)? ~ RelationshipsPattern ~ SP? ~ (Where ~ SP?)? ~ "|" ~ SP? ~ Expression ~ SP? ~ "]"
}
FilterExpression = { IdInColl ~ (SP? ~ Where)? }
IdInColl = { Variable ~ SP ~ IN ~ SP ~ Expression }
ParenthesizedExpression = { "(" ~ SP? ~ Expression ~ SP? ~ ")" }
ExistentialSubquery = { EXISTS ~ SP? ~ "{" ~ SP? ~ (RegularQuery | (Pattern ~ (SP? ~ Where)?)) ~ SP? ~ "}" }
FunctionInvocation = {
    FunctionName ~ SP? ~ "(" ~ SP? ~ (DISTINCT ~ SP?)? ~ (Expression ~ SP? ~ ("," ~ SP? ~ Expression ~ SP?)*)? ~ ")"
}
FunctionName = @{ Namespace ~ SymbolicName }
ExplicitProcedureInvocation = {
    ProcedureName ~ SP? ~ "(" ~ SP? ~ (Expression ~ SP? ~ ("," ~ SP? ~ Expression ~ SP?)*)? ~ ")"
}
ImplicitProcedureInvocation = { ProcedureName }
ProcedureResultField = @{ SymbolicName }
ProcedureName = @{ Namespace ~ SymbolicName }
Namespace = { (SymbolicName ~ ".")* }
Variable = @{ SymbolicName }

Literal = { NumberLiteral | StringLiteral | BooleanLiteral | NULL | MapLiteral | ListLiteral }
BooleanLiteral = { TRUE | FALSE }
NumberLiteral = { DoubleLiteral | IntegerLiteral }
IntegerLiteral = @{ ("0x" ~ ASCII_HEX_DIGIT+) | ("0" ~ ASCII_OCT_DIGIT+) | ASCII_DIGIT+ }
DoubleLiteral = @{
    (((ASCII_DIGIT+ ~ "." ~ ASCII_DIGIT+) | ("." ~ ASCII_DIGIT+) | ASCII_DIGIT+) ~ ^"e" ~ "-"? ~ ASCII_DIGIT+)
  | (ASCII_DIGIT* ~ "." ~ ASCII_DIGIT+)
}
StringLiteral = ${ ("\"" ~ StringDoubleText ~ "\"") | ("'" ~ StringSingleText ~ "'") }
StringDoubleText = ${ StringDoubleTextChar* }
StringDoubleTextChar = ${ (!("\"" | "\\") ~ ANY) | EscapedChar }
StringSingleText = ${ StringSingleTextChar* }
StringSingleTextChar = ${ (!("'" | "\\") ~ ANY) | EscapedChar }
EscapedChar = @{
    "\\" ~ ("\\" | "'" | "\"" | ^"b" | ^"f" | ^"n" | ^"r" | ^"t"
      | (^"u" ~ ASCII_HEX_DIGIT{8}) | (^"u" ~ ASCII_HEX_DIGIT{4}))
}
ListLiteral = { "[" ~ SP? ~ (Expression ~ SP? ~ ("," ~ SP? ~ Expression ~ SP?)*)? ~ "]" }
MapLiteral = {
    "{" ~ SP?
  ~ (PropertyKeyName ~ SP? ~ ":" ~ SP? ~ Expression ~ SP?
    ~ ("," ~ SP? ~ PropertyKeyName ~ SP? ~ ":" ~ SP? ~ Expression ~ SP?)*)?
  ~ "}"
}
PropertyKeyName = { SchemaName }
Parameter = @{ "$" ~ (SymbolicName | ASCII_DIGIT+) }
SchemaName = @{ SymbolicName }
SymbolicName = @{ ("`" ~ (!"`" ~ ANY)* ~ "`")+ | (IdentifierStart ~ IdentifierPart*) }
IdentifierStart = _{ LETTER | "_" }
IdentifierPart = _{ LETTER | NUMBER | "_" }

UNION = @{ ^"UNION" ~ !IdentifierPart }
ALL = @{ ^"ALL" ~ !IdentifierPart }
OPTIONAL = @{ ^"OPTIONAL" ~ !IdentifierPart }
MATCH = @{ ^"MATCH" ~ !IdentifierPart }
UNWIND = @{ ^"UNWIND" ~ !IdentifierPart }
AS = @{ ^"AS" ~ !IdentifierPart }
MERGE = @{ ^"MERGE" ~ !IdentifierPart }
ON = @{ ^"ON" ~ !IdentifierPart }
CREATE = @{ ^"CREATE" ~ !IdentifierPart }
SET = @{ ^"SET" ~ !IdentifierPart }
DETACH = @{ ^"DETACH" ~ !IdentifierPart }
DELETE = @{ ^"DELETE" ~ !IdentifierPart }
REMOVE = @{ ^"REMOVE" ~ !IdentifierPart }
CALL = @{ ^"CALL" ~ !IdentifierPart }
YIELD = @{ ^"YIELD" ~ !IdentifierPart }
WITH = @{ ^"WITH" ~ !IdentifierPart }
RETURN = @{ ^"RETURN" ~ !IdentifierPart }
DISTINCT = @{ ^"DISTINCT" ~ !IdentifierPart }
ORDER = @{ ^"ORDER" ~ !IdentifierPart }
BY = @{ ^"BY" ~ !IdentifierPart }
SKIP = @{ ^"SKIP" ~ !IdentifierPart }
LIMIT = @{ ^"LIMIT" ~ !IdentifierPart }
ASCENDING = @{ ^"ASCENDING" ~ !IdentifierPart }
ASC = @{ ^"ASC" ~ !IdentifierPart }
DESCENDING = @{ ^"DESCENDING" ~ !IdentifierPart }
DESC = @{ ^"DESC" ~ !IdentifierPart }
WHERE = @{ ^"WHERE" ~ !IdentifierPart }
OR = @{ ^"OR" ~ !IdentifierPart }
XOR = @{ ^"XOR" ~ !IdentifierPart }
AND = @{ ^"AND" ~ !IdentifierPart }
NOT = @{ ^"NOT" ~ !IdentifierPart }
IN = @{ ^"IN" ~ !IdentifierPart }
STARTS = @{ ^"STARTS" ~ !IdentifierPart }
ENDS = @{ ^"ENDS" ~ !IdentifierPart }
CONTAINS = @{ ^"CONTAINS" ~ !IdentifierPart }
IS = @{ ^"IS" ~ !IdentifierPart }
NULL = @{ ^"NULL" ~ !IdentifierPart }
COUNT = @{ ^"COUNT" ~ !IdentifierPart }
ANY_ = @{ ^"ANY" ~ !IdentifierPart }
NONE = @{ ^"NONE" ~ !IdentifierPart }
SINGLE = @{ ^"SINGLE" ~ !IdentifierPart }
TRUE = @{ ^"TRUE" ~ !IdentifierPart }
FALSE = @{ ^"FALSE" ~ !IdentifierPart }
EXISTS = @{ ^"EXISTS" ~ !IdentifierPart }
CASE = @{ ^"CASE" ~ !IdentifierPart }
ELSE = @{ ^"ELSE" ~ !IdentifierPart }
END = @{ ^"END" ~ !IdentifierPart }
WHEN = @{ ^"WHEN" ~ !IdentifierPart }
THEN = @{ ^"THEN" ~ !IdentifierPart }

STAR = { "*" }
PLUS = { "+" }
MINUS = { "-" }
MULTIPLY = { "*" }
DIVIDE = { "/" }
MODULO = { "%" }
POW = { "^" }
EQ = { "=" }
NE = { "<>" }
LT = { "<" }
GT = { ">" }
LE = { "<=" }
GE = { ">=" }
INCREMENT = { "+=" }
DOT_DOT = { ".." }
Dash = { "-" }
LeftArrowHead = { "<" }
RightArrowHead = { ">" }

SP = @{ (Whitespace | Comment)+ }
Blank = _{ (Whitespace | Comment)+ }
Whitespace = _{ " " | "\t" | "\n" | "\r" | "\u{000B}" | "\u{000C}" }
Comment = _{ ("/*" ~ (!"*/" ~ ANY)* ~ "*/") | ("//" ~ (!("\n" | "\r") ~ ANY)*) }
"#;

fn rule_of(name: &str) -> Rule {
    match name {
        "Cypher" => Rule::Cypher,
        "Statement" => Rule::Statement,
        "Query" => Rule::Query,
        "RegularQuery" => Rule::RegularQuery,
        "Union" => Rule::Union,
        "SingleQuery" => Rule::SingleQuery,
        "SinglePartQuery" => Rule::SinglePartQuery,
        "MultiPartQuery" => Rule::MultiPartQuery,
        "UpdatingClause" => Rule::UpdatingClause,
        "ReadingClause" => Rule::ReadingClause,
        "Match" => Rule::Match,
        "Unwind" => Rule::Unwind,
        "Merge" => Rule::Merge,
        "MergeAction" => Rule::MergeAction,
        "Create" => Rule::Create,
        "Set" => Rule::SetClause,
        "SetItem" => Rule::SetItem,
        "Delete" => Rule::Delete,
        "Remove" => Rule::Remove,
        "RemoveItem" => Rule::RemoveItem,
        "InQueryCall" => Rule::InQueryCall,
        "StandaloneCall" => Rule::StandaloneCall,
        "YieldItems" => Rule::YieldItems,
        "YieldItem" => Rule::YieldItem,
        "With" => Rule::With,
        "Return" => Rule::Return,
        "ProjectionBody" => Rule::ProjectionBody,
        "ProjectionItems" => Rule::ProjectionItems,
        "ProjectionItem" => Rule::ProjectionItem,
        "Order" => Rule::Order,
        "Skip" => Rule::Skip,
        "Limit" => Rule::Limit,
        "SortItem" => Rule::SortItem,
        "Where" => Rule::Where,
        "Pattern" => Rule::Pattern,
        "PatternPart" => Rule::PatternPart,
        "AnonymousPatternPart" => Rule::AnonymousPatternPart,
        "PatternElement" => Rule::PatternElement,
        "RelationshipsPattern" => Rule::RelationshipsPattern,
        "NodePattern" => Rule::NodePattern,
        "PatternElementChain" => Rule::PatternElementChain,
        "RelationshipPattern" => Rule::RelationshipPattern,
        "RelationshipDetail" => Rule::RelationshipDetail,
        "Properties" => Rule::Properties,
        "RelationshipTypes" => Rule::RelationshipTypes,
        "NodeLabels" => Rule::NodeLabels,
        "NodeLabel" => Rule::NodeLabel,
        "RangeLiteral" => Rule::RangeLiteral,
        "LabelName" => Rule::LabelName,
        "RelTypeName" => Rule::RelTypeName,
        "PropertyExpression" => Rule::PropertyExpression,
        "Expression" => Rule::Expression,
        "OrExpression" => Rule::OrExpression,
        "XorExpression" => Rule::XorExpression,
        "AndExpression" => Rule::AndExpression,
        "NotExpression" => Rule::NotExpression,
        "ComparisonExpression" => Rule::ComparisonExpression,
        "PartialComparisonExpression" => Rule::PartialComparisonExpression,
        "AddOrSubtractExpression" => Rule::AddOrSubtractExpression,
        "MultiplyDivideModuloExpression" => Rule::MultiplyDivideModuloExpression,
        "PowerOfExpression" => Rule::PowerOfExpression,
        "UnaryAddOrSubtractExpression" => Rule::UnaryAddOrSubtractExpression,
        "StringListNullOperatorExpression" => Rule::StringListNullOperatorExpression,
        "ListOperatorExpression" => Rule::ListOperatorExpression,
        "StringOperatorExpression" => Rule::StringOperatorExpression,
        "NullOperatorExpression" => Rule::NullOperatorExpression,
        "PropertyOrLabelsExpression" => Rule::PropertyOrLabelsExpression,
        "PropertyLookup" => Rule::PropertyLookup,
        "Atom" => Rule::Atom,
        "CountStarExpression" => Rule::CountStarExpression,
        "AllFilterExpression" => Rule::AllFilterExpression,
        "AnyFilterExpression" => Rule::AnyFilterExpression,
        "NoneFilterExpression" => Rule::NoneFilterExpression,
        "SingleFilterExpression" => Rule::SingleFilterExpression,
        "CaseExpression" => Rule::CaseExpression,
        "CaseAlternative" => Rule::CaseAlternative,
        "ListComprehension" => Rule::ListComprehension,
        "PatternComprehension" => Rule::PatternComprehension,
        "FilterExpression" => Rule::FilterExpression,
        "IdInColl" => Rule::IdInColl,
        "ParenthesizedExpression" => Rule::ParenthesizedExpression,
        "ExistentialSubquery" => Rule::ExistentialSubquery,
        "FunctionInvocation" => Rule::FunctionInvocation,
        "FunctionName" => Rule::FunctionName,
        "ExplicitProcedureInvocation" => Rule::ExplicitProcedureInvocation,
        "ImplicitProcedureInvocation" => Rule::ImplicitProcedureInvocation,
        "ProcedureResultField" => Rule::ProcedureResultField,
        "ProcedureName" => Rule::ProcedureName,
        "Namespace" => Rule::Namespace,
        "Variable" => Rule::Variable,
        "Literal" => Rule::Literal,
        "BooleanLiteral" => Rule::BooleanLiteral,
        "NumberLiteral" => Rule::NumberLiteral,
        "IntegerLiteral" => Rule::IntegerLiteral,
        "DoubleLiteral" => Rule::DoubleLiteral,
        "StringLiteral" => Rule::StringLiteral,
        "StringDoubleText" => Rule::StringDoubleText,
        "StringDoubleTextChar" => Rule::StringDoubleTextChar,
        "StringSingleText" => Rule::StringSingleText,
        "StringSingleTextChar" => Rule::StringSingleTextChar,
        "EscapedChar" => Rule::EscapedChar,
        "ListLiteral" => Rule::ListLiteral,
        "MapLiteral" => Rule::MapLiteral,
        "PropertyKeyName" => Rule::PropertyKeyName,
        "Parameter" => Rule::Parameter,
        "SchemaName" => Rule::SchemaName,
        "SymbolicName" => Rule::SymbolicName,
        "IdentifierStart" => Rule::IdentifierStart,
        "IdentifierPart" => Rule::IdentifierPart,
        "UNION" => Rule::UNION,
        "ALL" => Rule::ALL,
        "OPTIONAL" => Rule::OPTIONAL,
        "MATCH" => Rule::MATCH,
        "UNWIND" => Rule::UNWIND,
        "AS" => Rule::AS,
        "MERGE" => Rule::MERGE,
        "ON" => Rule::ON,
        "CREATE" => Rule::CREATE,
        "SET" => Rule::SET,
        "DETACH" => Rule::DETACH,
        "DELETE" => Rule::DELETE,
        "REMOVE" => Rule::REMOVE,
        "CALL" => Rule::CALL,
        "YIELD" => Rule::YIELD,
        "WITH" => Rule::WITH,
        "RETURN" => Rule::RETURN,
        "DISTINCT" => Rule::DISTINCT,
        "ORDER" => Rule::ORDER,
        "BY" => Rule::BY,
        "SKIP" => Rule::SKIP,
        "LIMIT" => Rule::LIMIT,
        "ASCENDING" => Rule::ASCENDING,
        "ASC" => Rule::ASC,
        "DESCENDING" => Rule::DESCENDING,
        "DESC" => Rule::DESC,
        "WHERE" => Rule::WHERE,
        "OR" => Rule::OR,
        "XOR" => Rule::XOR,
        "AND" => Rule::AND,
        "NOT" => Rule::NOT,
        "IN" => Rule::IN,
        "STARTS" => Rule::STARTS,
        "ENDS" => Rule::ENDS,
        "CONTAINS" => Rule::CONTAINS,
        "IS" => Rule::IS,
        "NULL" => Rule::NULL,
        "COUNT" => Rule::COUNT,
        "ANY_" => Rule::ANY_,
        "NONE" => Rule::NONE,
        "SINGLE" => Rule::SINGLE,
        "TRUE" => Rule::TRUE,
        "FALSE" => Rule::FALSE,
        "EXISTS" => Rule::EXISTS,
        "CASE" => Rule::CASE,
        "ELSE" => Rule::ELSE,
        "END" => Rule::END,
        "WHEN" => Rule::WHEN,
        "THEN" => Rule::THEN,
        "STAR" => Rule::STAR,
        "PLUS" => Rule::PLUS,
        "MINUS" => Rule::MINUS,
        "MULTIPLY" => Rule::MULTIPLY,
        "DIVIDE" => Rule::DIVIDE,
        "MODULO" => Rule::MODULO,
        "POW" => Rule::POW,
        "EQ" => Rule::EQ,
        "NE" => Rule::NE,
        "LT" => Rule::LT,
        "GT" => Rule::GT,
        "LE" => Rule::LE,
        "GE" => Rule::GE,
        "INCREMENT" => Rule::INCREMENT,
        "DOT_DOT" => Rule::DOT_DOT,
        "Dash" => Rule::Dash,
        "LeftArrowHead" => Rule::LeftArrowHead,
        "RightArrowHead" => Rule::RightArrowHead,
        "SP" => Rule::SP,
        "Blank" => Rule::Blank,
        "Whitespace" => Rule::Whitespace,
        "Comment" => Rule::Comment,
        "EOI" => Rule::EOI,
        other => panic!("the grammar has no rule {}", other),
    }
}

fn node_of(pair: Pair<&str>) -> ParseNode {
    let span = pair.as_span();
    ParseNode {
        rule: rule_of(pair.as_rule()),
        text: pair.as_str().to_string(),
        start: span.start(),
        end: span.end(),
        children: pair.into_inner().map(node_of).collect(),
    }
}

/// Matches a text against the grammar, as the grammar engine does for the library.
fn grammar_match(text: &str) -> Result<ParseNode, SyntaxError> {
    let (_, rules) = pest_meta::parse_and_optimize(GRAMMAR).expect("the grammar is well formed");
    let vm = pest_vm::Vm::new(rules);
    let outcome = match vm.parse("Cypher", text) {
        Ok(mut pairs) => Ok(node_of(pairs.next().expect("a match has a root"))),
        Err(e) => {
            let rule = match &e.variant {
                ErrorVariant::ParsingError { positives, negatives } => {
                    match positives.first().or(negatives.first()) {
                        Some(name) => rule_of(name),
                        None => Rule::Cypher,
                    }
                },
                ErrorVariant::CustomError { .. } => Rule::Cypher,
            };
            let (start, end) = match e.location {
                InputLocation::Pos(at) => (at, at),
                InputLocation::Span((from, to)) => (from, to),
            };
            Err(SyntaxError { rule, start, end })
        },
    };
    outcome
}

use open_cypher::ast::cypher::{
    AddOrSubtractExpression, AndExpression, Atom, ComparisonExpression, Expression, Literal,
    MultiplyDivideModuloExpression, NotExpression, NumberLiteral, OrExpression, PowerOfExpression,
    PropertyOrLabelsExpression, StringListNullOperatorExpression, UnaryAddOrSubtractExpression,
    XorExpression,
};

fn operand(atom: Atom) -> PropertyOrLabelsExpression {
    PropertyOrLabelsExpression { atom, property_lookup: vec![], node_labels: vec![] }
}

fn tested(expression: PropertyOrLabelsExpression) -> StringListNullOperatorExpression {
    StringListNullOperatorExpression { expression, operations: vec![] }
}

fn signed(expression: StringListNullOperatorExpression) -> UnaryAddOrSubtractExpression {
    UnaryAddOrSubtractExpression { negate: false, expression }
}

fn product(expression: StringListNullOperatorExpression) -> MultiplyDivideModuloExpression {
    MultiplyDivideModuloExpression { expression: PowerOfExpression(vec![signed(expression)]), operations: vec![] }
}

fn sum(expression: MultiplyDivideModuloExpression) -> AddOrSubtractExpression {
    AddOrSubtractExpression { expression, operations: vec![] }
}

fn comparison(expression: AddOrSubtractExpression) -> ComparisonExpression {
    ComparisonExpression { expression, comparisons: vec![] }
}

fn negatable(expression: ComparisonExpression) -> NotExpression {
    NotExpression { not: false, expression }
}

fn expression_of(expression: ComparisonExpression) -> Expression {
    OrExpression(vec![XorExpression(vec![AndExpression(vec![negatable(expression)])])])
}

fn expression_of_operand(e: PropertyOrLabelsExpression) -> Expression {
    expression_of(comparison(sum(product(tested(e)))))
}

fn expression_of_atom(atom: Atom) -> Expression {
    expression_of_operand(operand(atom))
}

fn variable(name: &str) -> Expression {
    expression_of_atom(Atom::Variable(name.to_string()))
}

fn integer(value: i64) -> Expression {
    expression_of_atom(Atom::Literal(Literal::Number(NumberLiteral::Integer(value))))
}

fn integer_product(value: i64) -> MultiplyDivideModuloExpression {
    product(tested(operand(Atom::Literal(Literal::Number(NumberLiteral::Integer(value))))))
}

fn integer_power(value: i64) -> PowerOfExpression {
    PowerOfExpression(vec![signed(tested(operand(Atom::Literal(Literal::Number(NumberLiteral::Integer(value))))))])
}

fn variable_sum(name: &str) -> AddOrSubtractExpression {
    sum(product(tested(operand(Atom::Variable(name.to_string())))))
}

fn property(name: &str, path: &[&str]) -> PropertyOrLabelsExpression {
    PropertyOrLabelsExpression {
        atom: Atom::Variable(name.to_string()),
        property_lookup: path.iter().map(|key| key.to_string()).collect(),
        node_labels: vec![],
    }
}

use open_cypher::ast::cypher::{
    CaseExpression, ComparisonOperator, Create, Delete, ExistentialSubquery,
    ExplicitProcedureInvocation, FilterExpression, FunctionInvocation, IdInColl,
    ImplicitProcedureInvocation, InQueryCall, Limit, ListComprehension, ListOperatorExpression, Match,
    Merge, MergeAction, MultiplyDivideModuloOperator, NodePattern, NullOperatorExpression, Order,
    Pattern, PatternElement, PatternPart, PlusMinusOperator, ProcedureInvocation, ProjectionBody,
    ProjectionItem, ProjectionItems, Properties, PropertyExpression, Query, ReadingClause,
    RegularQuery, RelationshipDetail, RelationshipPattern, Remove, RemoveItem, SetClause, SetItem,
    SinglePartQuery, SingleQuery, Skip, SortItem, StandaloneCall, StarOrYieldItems,
    StringListNullOperatorExpressionInner, StringOperator, StringOperatorExpression, Unwind,
    UpdatingClause, YieldItem, YieldItems,
};
use open_cypher::error::{Fault, FaultKind, ParseError, Unsupported};
use open_cypher::parse_cypher;

fn parse_text(text: &str) -> Result<Query, ParseError> {
    parse_cypher(grammar_match(text))
}

fn regular(text: &str) -> RegularQuery {
    match parse_text(text) {
        Ok(Query::RegularQuery(q)) => q,
        other => panic!("{:?} is no regular query: {:?}", text, other),
    }
}

fn single_part(text: &str) -> SinglePartQuery {
    let q = regular(text);
    assert!(q.union.is_empty());
    match q.query {
        SingleQuery::SinglePartQuery(s) => s,
        other => panic!("{:?} has several parts: {:?}", text, other),
    }
}

fn projection(text: &str) -> ProjectionBody {
    single_part(text).return_.expect("a RETURN")
}

/// The expression `e` of the query `RETURN e`.
fn returned(expression: &str) -> Expression {
    let body = projection(&format!("RETURN {}", expression));
    assert_eq!(body.items.items.len(), 1);
    match body.items.items.into_iter().next() {
        Some(ProjectionItem::Expression(e)) => e,
        other => panic!("{:?}", other),
    }
}

fn only<T: std::fmt::Debug>(items: Vec<T>) -> T {
    assert_eq!(items.len(), 1, "{:?}", items);
    items.into_iter().next().expect("one item")
}

fn only_comparison(e: Expression) -> ComparisonExpression {
    let not = only(only(only(e.0).0).0);
    assert!(!not.not);
    not.expression
}

fn only_sum(e: Expression) -> AddOrSubtractExpression {
    let c = only_comparison(e);
    assert!(c.comparisons.is_empty());
    c.expression
}

fn only_product(e: Expression) -> MultiplyDivideModuloExpression {
    let s = only_sum(e);
    assert!(s.operations.is_empty());
    s.expression
}

fn only_signed(e: Expression) -> UnaryAddOrSubtractExpression {
    let p = only_product(e);
    assert!(p.operations.is_empty());
    only(p.expression.0)
}

fn only_tested(e: Expression) -> StringListNullOperatorExpression {
    let u = only_signed(e);
    assert!(!u.negate);
    u.expression
}

fn only_atom(e: Expression) -> Atom {
    let t = only_tested(e);
    assert!(t.operations.is_empty());
    assert!(t.expression.property_lookup.is_empty());
    assert!(t.expression.node_labels.is_empty());
    t.expression.atom
}

fn node(variable: Option<&str>, labels: &[&str]) -> NodePattern {
    NodePattern {
        variable: variable.map(|v| v.to_string()),
        node_labels: labels.iter().map(|l| l.to_string()).collect(),
        properties: None,
    }
}

fn typed(name: &str) -> Option<RelationshipDetail> {
    Some(RelationshipDetail { variable: None, relationship_types: vec![name.to_string()], properties: None })
}

fn path(start: NodePattern, steps: Vec<(RelationshipPattern, NodePattern)>) -> Pattern {
    Pattern {
        parts: vec![PatternPart {
            variable: None,
            pattern_element: PatternElement { node_pattern: start, relationship_patterns: steps },
        }],
    }
}

fn internal(result: Result<Query, ParseError>) -> Fault {
    match result {
        Err(ParseError::Internal(f)) => f,
        other => panic!("no internal fault: {:?}", other),
    }
}

#[test]
fn same_text_elaborates_to_equal_trees() {
    let text = "MATCH (a)-[:KNOWS]->(b) WHERE a.age >= 18 RETURN DISTINCT b.name ORDER BY b.name DESC";
    let first = parse_text(text);
    let second = parse_text(text);
    assert!(first.is_ok());
    assert_eq!(first, second);
    let bad = "MATCH (a)-[*1..2]->(b) RETURN b";
    assert!(parse_text(bad).is_err());
    assert_eq!(parse_text(bad), parse_text(bad));
}

#[test]
fn product_is_grouped_under_sum() {
    let s = only_sum(returned("1 + 2 * 3"));
    assert_eq!(s.expression, integer_product(1));
    assert_eq!(
        s.operations,
        vec![(
            PlusMinusOperator::Plus,
            MultiplyDivideModuloExpression {
                expression: integer_power(2),
                operations: vec![(MultiplyDivideModuloOperator::Multiply, integer_power(3))],
            },
        )]
    );
}

#[test]
fn product_before_sum_is_grouped_too() {
    let s = only_sum(returned("1 * 2 + 3"));
    assert_eq!(
        s.expression,
        MultiplyDivideModuloExpression {
            expression: integer_power(1),
            operations: vec![(MultiplyDivideModuloOperator::Multiply, integer_power(2))],
        }
    );
    assert_eq!(s.operations, vec![(PlusMinusOperator::Plus, integer_product(3))]);
}

#[test]
fn sums_apply_left_to_right() {
    let s = only_sum(returned("1 - 2 + 3 - 4"));
    assert_eq!(s.expression, integer_product(1));
    assert_eq!(
        s.operations,
        vec![
            (PlusMinusOperator::Minus, integer_product(2)),
            (PlusMinusOperator::Plus, integer_product(3)),
            (PlusMinusOperator::Minus, integer_product(4)),
        ]
    );
}

#[test]
fn products_keep_their_operators() {
    let p = only_product(returned("8 / 4 % 3 * 2"));
    assert_eq!(p.expression, integer_power(8));
    assert_eq!(
        p.operations,
        vec![
            (MultiplyDivideModuloOperator::Divide, integer_power(4)),
            (MultiplyDivideModuloOperator::Modulo, integer_power(3)),
            (MultiplyDivideModuloOperator::Multiply, integer_power(2)),
        ]
    );
}

#[test]
fn and_is_grouped_under_or() {
    let e = returned("a OR b AND c");
    assert_eq!(e.0.len(), 2);
    let mut operands = e.0.into_iter();
    let first = only(only(operands.next().expect("a").0).0);
    assert_eq!(first, negatable(comparison(variable_sum("a"))));
    let second = only(operands.next().expect("b AND c").0);
    assert_eq!(
        second.0,
        vec![negatable(comparison(variable_sum("b"))), negatable(comparison(variable_sum("c")))]
    );
}

#[test]
fn xor_keeps_every_operand() {
    let e = returned("a XOR b XOR c");
    let xor = only(e.0);
    assert_eq!(
        xor.0,
        vec![
            AndExpression(vec![negatable(comparison(variable_sum("a")))]),
            AndExpression(vec![negatable(comparison(variable_sum("b")))]),
            AndExpression(vec![negatable(comparison(variable_sum("c")))]),
        ]
    );
}

#[test]
fn sum_is_grouped_under_comparison() {
    let c = only_comparison(returned("a = b + c"));
    assert_eq!(c.expression, variable_sum("a"));
    let mut right = variable_sum("b");
    right.operations.push((PlusMinusOperator::Plus, product(tested(operand(Atom::Variable("c".to_string()))))));
    assert_eq!(c.comparisons, vec![(ComparisonOperator::Equal, right)]);
}

#[test]
fn comparison_chain_is_kept_as_written() {
    let c = only_comparison(returned("a < b > c <= d >= e <> f = g"));
    assert_eq!(c.expression, variable_sum("a"));
    assert_eq!(
        c.comparisons,
        vec![
            (ComparisonOperator::LessThan, variable_sum("b")),
            (ComparisonOperator::GreaterThan, variable_sum("c")),
            (ComparisonOperator::LessEqual, variable_sum("d")),
            (ComparisonOperator::GreaterEqual, variable_sum("e")),
            (ComparisonOperator::NotEqual, variable_sum("f")),
            (ComparisonOperator::Equal, variable_sum("g")),
        ]
    );
}

#[test]
fn power_operands_are_a_flat_list() {
    let p = only_product(returned("2 ^ 3 ^ 4"));
    assert!(p.operations.is_empty());
    let five = |v: i64| signed(tested(operand(Atom::Literal(Literal::Number(NumberLiteral::Integer(v))))));
    assert_eq!(p.expression, PowerOfExpression(vec![five(2), five(3), five(4)]));
}

#[test]
fn unary_minus_is_kept_by_parity() {
    let five = tested(operand(Atom::Literal(Literal::Number(NumberLiteral::Integer(5)))));
    for (text, negate) in [
        ("5", false),
        ("-5", true),
        ("--5", false),
        ("---5", true),
        ("+5", false),
        ("-+-5", false),
        ("+-+5", true),
        ("- - -5", true),
    ] {
        let u = only_signed(returned(text));
        assert_eq!(u.negate, negate, "{}", text);
        assert_eq!(u.expression, five, "{}", text);
    }
}

#[test]
fn not_is_kept_by_parity() {
    for (text, not) in [("a", false), ("NOT a", true), ("NOT NOT a", false), ("NOT NOT NOT a", true)] {
        let n = only(only(only(returned(text).0).0).0);
        assert_eq!(n.not, not, "{}", text);
        assert_eq!(n.expression, comparison(variable_sum("a")), "{}", text);
    }
}

#[test]
fn string_escapes_are_decoded() {
    for (text, decoded) in [
        ("'a\\nb'", "a\nb"),
        ("'\\u0041'", "A"),
        ("\"a\\nb\"", "a\nb"),
        ("'\\U0001F600'", "\u{1F600}"),
        ("'it\\'s'", "it's"),
        ("\"say \\\"hi\\\"\"", "say \"hi\""),
        ("'\\t\\r\\b\\f'", "\t\r\u{8}\u{c}"),
        ("'\\T\\R\\B\\F\\N'", "\t\r\u{8}\u{c}\n"),
        ("''", ""),
        ("'plain text'", "plain text"),
        ("'\\u00e9t\\u00E9'", "\u{e9}t\u{e9}"),
    ] {
        assert_eq!(only_atom(returned(text)), Atom::Literal(Literal::String(decoded.to_string())), "{}", text);
    }
    assert_eq!("a\nb".chars().count(), 3);
}

#[test]
fn unknown_escape_is_an_internal_fault() {
    let f = internal(parse_text("RETURN 'a\\\\b'"));
    assert_eq!(f.kind, FaultKind::MalformedText);
    assert_eq!(f.found, Rule::EscapedChar);
    assert_eq!((f.start, f.end), (9, 11));
    let f = internal(parse_text("RETURN '\\uD800'"));
    assert_eq!(f.kind, FaultKind::MalformedText);
    assert_eq!(f.found, Rule::EscapedChar);
}

#[test]
fn chain_keeps_its_order() {
    let q = single_part("MATCH (a)-[:X]->(b)-[:Y]->(c) RETURN a");
    let m = match only(q.reading_clauses) {
        ReadingClause::Match(m) => m,
        other => panic!("{:?}", other),
    };
    assert_eq!(
        m.pattern,
        path(
            node(Some("a"), &[]),
            vec![
                (RelationshipPattern::Right(typed("X")), node(Some("b"), &[])),
                (RelationshipPattern::Right(typed("Y")), node(Some("c"), &[])),
            ],
        )
    );
}

#[test]
fn arrowheads_give_the_direction() {
    let q = single_part("MATCH (a)<-[:X]-(b)-[:Y]-(c)<-[:Z]->(d)--(e)-->(f)<--(g) RETURN a");
    let m = match only(q.reading_clauses) {
        ReadingClause::Match(m) => m,
        other => panic!("{:?}", other),
    };
    assert_eq!(
        m.pattern,
        path(
            node(Some("a"), &[]),
            vec![
                (RelationshipPattern::Left(typed("X")), node(Some("b"), &[])),
                (RelationshipPattern::Undirected(typed("Y")), node(Some("c"), &[])),
                (RelationshipPattern::LeftAndRight(typed("Z")), node(Some("d"), &[])),
                (RelationshipPattern::Undirected(None), node(Some("e"), &[])),
                (RelationshipPattern::Right(None), node(Some("f"), &[])),
                (RelationshipPattern::Left(None), node(Some("g"), &[])),
            ],
        )
    );
}

#[test]
fn relationship_detail_is_collected() {
    let q = single_part("MATCH (a:Person:Admin)-[r:KNOWS|LIKES {since: 2020}]->(:Person $props) RETURN r");
    let m = match only(q.reading_clauses) {
        ReadingClause::Match(m) => m,
        other => panic!("{:?}", other),
    };
    let element = only(m.pattern.parts).pattern_element;
    assert_eq!(element.node_pattern, node(Some("a"), &["Person", "Admin"]));
    let (relationship, target) = only(element.relationship_patterns);
    let detail = match relationship {
        RelationshipPattern::Right(Some(d)) => d,
        other => panic!("{:?}", other),
    };
    assert_eq!(detail.variable, Some("r".to_string()));
    assert_eq!(detail.relationship_types, vec!["KNOWS".to_string(), "LIKES".to_string()]);
    match detail.properties {
        Some(Properties::MapLiteral(map)) => {
            assert_eq!(map.len(), 1);
            assert_eq!(map.get(&"since".to_string()), Some(&integer(2020)));
        },
        other => panic!("{:?}", other),
    }
    assert_eq!(target.variable, None);
    assert_eq!(target.node_labels, vec!["Person".to_string()]);
    assert_eq!(target.properties, Some(Properties::Parameter("$props".to_string())));
}

#[test]
fn named_and_parenthesised_paths() {
    let q = single_part("MATCH p = ((a)-->(b)), (c) RETURN p");
    let m = match only(q.reading_clauses) {
        ReadingClause::Match(m) => m,
        other => panic!("{:?}", other),
    };
    assert_eq!(
        m.pattern.parts,
        vec![
            PatternPart {
                variable: Some("p".to_string()),
                pattern_element: PatternElement {
                    node_pattern: node(Some("a"), &[]),
                    relationship_patterns: vec![(RelationshipPattern::Right(None), node(Some("b"), &[]))],
                },
            },
            PatternPart {
                variable: None,
                pattern_element: PatternElement { node_pattern: node(Some("c"), &[]), relationship_patterns: vec![] },
            },
        ]
    );
}

#[test]
fn variable_length_relationship_is_an_internal_fault() {
    let f = internal(parse_text("MATCH (a)-[*1..2]->(b) RETURN b"));
    assert_eq!(f.kind, FaultKind::UnexpectedRule);
    assert_eq!(f.rule, Rule::RelationshipDetail);
    assert_eq!(f.found, Rule::RangeLiteral);
    assert_eq!((f.start, f.end), (11, 16));
}

#[test]
fn absent_clauses_stay_absent() {
    let q = single_part("MATCH (n) RETURN n");
    assert!(q.updating_clauses.is_empty());
    assert_eq!(
        q.reading_clauses,
        vec![ReadingClause::Match(Match { optional: false, pattern: path(node(Some("n"), &[]), vec![]), where_: None })]
    );
    assert_eq!(
        q.return_,
        Some(ProjectionBody {
            distinct: false,
            items: ProjectionItems { star: false, items: vec![ProjectionItem::Expression(variable("n"))] },
            order: None,
            skip: None,
            limit: None,
        })
    );
}

#[test]
fn present_clauses_are_kept() {
    let q = single_part("OPTIONAL MATCH (n) WHERE n RETURN DISTINCT *, n ORDER BY n ASC, n DESCENDING SKIP 1 LIMIT 2");
    assert_eq!(
        q.reading_clauses,
        vec![ReadingClause::Match(Match {
            optional: true,
            pattern: path(node(Some("n"), &[]), vec![]),
            where_: Some(variable("n")),
        })]
    );
    assert_eq!(
        q.return_,
        Some(ProjectionBody {
            distinct: true,
            items: ProjectionItems { star: true, items: vec![ProjectionItem::Expression(variable("n"))] },
            order: Some(Order { items: vec![SortItem::Ascending(variable("n")), SortItem::Descending(variable("n"))] }),
            skip: Some(Skip { expression: integer(1) }),
            limit: Some(Limit { expression: integer(2) }),
        })
    );
}

#[test]
fn unterminated_string_is_a_syntax_error() {
    let text = "RETURN 'abc";
    match parse_text(text) {
        Err(ParseError::Syntax(e)) => {
            assert!(7 <= e.start && e.start <= text.len(), "{:?}", e);
            assert!(e.start <= e.end && e.end <= text.len(), "{:?}", e);
        },
        other => panic!("no syntax error: {:?}", other),
    }
}

#[test]
fn text_that_is_no_query_is_a_syntax_error() {
    for text in ["", "MATCH", "RETURN", "MATCH (n RETURN n", "RETURN 1 +", "FOO (n)", "RETURN 'a' 'b'"] {
        assert!(matches!(parse_text(text), Err(ParseError::Syntax(_))), "{:?}", text);
    }
}

#[test]
fn filtered_sorted_limited_query() {
    let q = parse_text("MATCH (n:Person) WHERE n.age > 30 RETURN n.name AS name ORDER BY name LIMIT 10");
    let mut filter = comparison(sum(product(tested(property("n", &["age"])))));
    filter.comparisons.push((
        ComparisonOperator::GreaterThan,
        sum(integer_product(30)),
    ));
    let expected = Query::RegularQuery(RegularQuery {
        query: SingleQuery::SinglePartQuery(SinglePartQuery {
            reading_clauses: vec![ReadingClause::Match(Match {
                optional: false,
                pattern: path(node(Some("n"), &["Person"]), vec![]),
                where_: Some(expression_of(filter)),
            })],
            updating_clauses: vec![],
            return_: Some(ProjectionBody {
                distinct: false,
                items: ProjectionItems {
                    star: false,
                    items: vec![ProjectionItem::AsVariable {
                        expression: expression_of_operand(property("n", &["name"])),
                        variable: "name".to_string(),
                    }],
                },
                order: Some(Order { items: vec![SortItem::Ascending(variable("name"))] }),
                skip: None,
                limit: Some(Limit { expression: integer(10) }),
            }),
        }),
        union: vec![],
    });
    assert_eq!(q, Ok(expected));
}

#[test]
fn blanks_and_case_do_not_matter() {
    let plain = parse_text("MATCH (n) RETURN n");
    assert!(plain.is_ok());
    assert_eq!(parse_text("  match (n)\n\treturn n ;  "), plain);
    assert_eq!(parse_text("MATCH /* all nodes */ (n) RETURN n // done"), plain);
}

#[test]
fn union_branches_are_kept_in_order() {
    let q = regular("RETURN 1 UNION ALL RETURN 2 UNION RETURN 3");
    let part = |v: i64| {
        SingleQuery::SinglePartQuery(SinglePartQuery {
            reading_clauses: vec![],
            updating_clauses: vec![],
            return_: Some(ProjectionBody {
                distinct: false,
                items: ProjectionItems { star: false, items: vec![ProjectionItem::Expression(integer(v))] },
                order: None,
                skip: None,
                limit: None,
            }),
        })
    };
    assert_eq!(q.query, part(1));
    assert_eq!(q.union.len(), 2);
    assert!(q.union[0].all);
    assert_eq!(q.union[0].query, part(2));
    assert!(!q.union[1].all);
    assert_eq!(q.union[1].query, part(3));
}

#[test]
fn with_closes_a_part() {
    let q = regular("MATCH (a) CREATE (b) WITH a WHERE a MATCH (c) WITH c RETURN c");
    let multi = match q.query {
        SingleQuery::MultiPartQuery(m) => m,
        other => panic!("{:?}", other),
    };
    assert_eq!(multi.parts.len(), 2);
    assert_eq!(multi.parts[0].reading_clauses.len(), 1);
    assert_eq!(multi.parts[0].updating_clauses.len(), 1);
    assert_eq!(multi.parts[0].with.where_, Some(variable("a")));
    assert_eq!(
        multi.parts[0].with.projection_body.items,
        ProjectionItems { star: false, items: vec![ProjectionItem::Expression(variable("a"))] }
    );
    assert_eq!(multi.parts[1].reading_clauses.len(), 1);
    assert!(multi.parts[1].updating_clauses.is_empty());
    assert_eq!(multi.parts[1].with.where_, None);
    assert!(multi.query.reading_clauses.is_empty());
    assert!(multi.query.return_.is_some());
}

#[test]
fn updating_clauses_are_told_apart() {
    let q = single_part("CREATE (a:A) MERGE (b) DETACH DELETE a, b DELETE a SET a.x = 1 REMOVE a.x");
    let mut clauses = q.updating_clauses.into_iter();
    assert_eq!(
        clauses.next(),
        Some(UpdatingClause::Create(Create { pattern: path(node(Some("a"), &["A"]), vec![]) }))
    );
    match clauses.next() {
        Some(UpdatingClause::Merge(Merge { pattern_part, actions })) => {
            assert_eq!(pattern_part.pattern_element.node_pattern, node(Some("b"), &[]));
            assert!(actions.is_empty());
        },
        other => panic!("{:?}", other),
    }
    assert_eq!(
        clauses.next(),
        Some(UpdatingClause::Delete(Delete { detach: true, expressions: vec![variable("a"), variable("b")] }))
    );
    assert_eq!(
        clauses.next(),
        Some(UpdatingClause::Delete(Delete { detach: false, expressions: vec![variable("a")] }))
    );
    let target = || PropertyExpression { atom: Atom::Variable("a".to_string()), property_path: vec!["x".to_string()] };
    assert_eq!(
        clauses.next(),
        Some(UpdatingClause::SetClause(SetClause {
            items: vec![SetItem::AssignPropertyExpression { property_expression: target(), expression: integer(1) }],
        }))
    );
    assert_eq!(
        clauses.next(),
        Some(UpdatingClause::Remove(Remove { items: vec![RemoveItem::PropertyExpression(target())] }))
    );
    assert_eq!(clauses.next(), None);
}

#[test]
fn set_items_are_told_apart() {
    let q = single_part("MATCH (n) SET n.a.b = 1, n = $p, n += $q, n:A:B");
    let set = match only(q.updating_clauses) {
        UpdatingClause::SetClause(s) => s,
        other => panic!("{:?}", other),
    };
    assert_eq!(
        set.items,
        vec![
            SetItem::AssignPropertyExpression {
                property_expression: PropertyExpression {
                    atom: Atom::Variable("n".to_string()),
                    property_path: vec!["a".to_string(), "b".to_string()],
                },
                expression: integer(1),
            },
            SetItem::AssignVariable {
                variable: "n".to_string(),
                expression: expression_of_atom(Atom::Parameter("$p".to_string())),
            },
            SetItem::IncrementVariable {
                variable: "n".to_string(),
                expression: expression_of_atom(Atom::Parameter("$q".to_string())),
            },
            SetItem::VariableNodeLabels { variable: "n".to_string(), node_labels: vec!["A".to_string(), "B".to_string()] },
        ]
    );
}

#[test]
fn remove_items_are_told_apart() {
    let q = single_part("MATCH (n) REMOVE n:A:B, n.x");
    let remove = match only(q.updating_clauses) {
        UpdatingClause::Remove(r) => r,
        other => panic!("{:?}", other),
    };
    assert_eq!(
        remove.items,
        vec![
            RemoveItem::VariableNodeLabels { variable: "n".to_string(), node_labels: vec!["A".to_string(), "B".to_string()] },
            RemoveItem::PropertyExpression(PropertyExpression {
                atom: Atom::Variable("n".to_string()),
                property_path: vec!["x".to_string()],
            }),
        ]
    );
}

#[test]
fn merge_actions_keep_their_order() {
    let q = single_part("MERGE (n) ON CREATE SET n.a = 1 ON MATCH SET n.b = 2 ON CREATE SET n.c = 3");
    let merge = match only(q.updating_clauses) {
        UpdatingClause::Merge(m) => m,
        other => panic!("{:?}", other),
    };
    let set = |key: &str, value: i64| SetClause {
        items: vec![SetItem::AssignPropertyExpression {
            property_expression: PropertyExpression {
                atom: Atom::Variable("n".to_string()),
                property_path: vec![key.to_string()],
            },
            expression: integer(value),
        }],
    };
    assert_eq!(
        merge.actions,
        vec![MergeAction::Create(set("a", 1)), MergeAction::Match(set("b", 2)), MergeAction::Create(set("c", 3))]
    );
}

#[test]
fn unwind_binds_a_variable() {
    let q = single_part("UNWIND [1, 2] AS x RETURN x");
    assert_eq!(
        q.reading_clauses,
        vec![ReadingClause::Unwind(Unwind {
            expression: expression_of_atom(Atom::Literal(Literal::ListLiteral(vec![integer(1), integer(2)]))),
            variable: "x".to_string(),
        })]
    );
}

#[test]
fn standalone_calls() {
    let call = |text: &str| match parse_text(text) {
        Ok(Query::StandaloneCall(c)) => c,
        other => panic!("{:?}", other),
    };
    assert_eq!(
        call("CALL db.labels"),
        StandaloneCall {
            invocation: ProcedureInvocation::Implicit(ImplicitProcedureInvocation { name: "db.labels".to_string() }),
            yield_: None,
        }
    );
    assert_eq!(
        call("CALL db.find(1, x) YIELD *"),
        StandaloneCall {
            invocation: ProcedureInvocation::Explicit(ExplicitProcedureInvocation {
                name: "db.find".to_string(),
                arguments: vec![integer(1), variable("x")],
            }),
            yield_: Some(StarOrYieldItems::Star),
        }
    );
    assert_eq!(
        call("CALL db.find() YIELD a AS b, c WHERE b"),
        StandaloneCall {
            invocation: ProcedureInvocation::Explicit(ExplicitProcedureInvocation {
                name: "db.find".to_string(),
                arguments: vec![],
            }),
            yield_: Some(StarOrYieldItems::YieldItems(YieldItems::Items {
                items: vec![
                    YieldItem { procedure_result_field: Some("a".to_string()), variable: "b".to_string() },
                    YieldItem { procedure_result_field: None, variable: "c".to_string() },
                ],
                where_: Some(variable("b")),
            })),
        }
    );
}

#[test]
fn call_inside_a_query() {
    let q = single_part("CALL db.labels() YIELD label RETURN label");
    assert_eq!(
        q.reading_clauses,
        vec![ReadingClause::InQueryCall(InQueryCall {
            invocation: ExplicitProcedureInvocation { name: "db.labels".to_string(), arguments: vec![] },
            yield_items: Some(YieldItems::Items {
                items: vec![YieldItem { procedure_result_field: None, variable: "label".to_string() }],
                where_: None,
            }),
        })]
    );
}

#[test]
fn postfix_tests_keep_their_order() {
    let t = only_tested(returned("a STARTS WITH b ENDS WITH c CONTAINS d IN e IS NULL IS NOT NULL"));
    assert_eq!(t.expression, operand(Atom::Variable("a".to_string())));
    let string = |operator: StringOperator, name: &str| {
        StringListNullOperatorExpressionInner::StringOperator(StringOperatorExpression {
            operator,
            expression: operand(Atom::Variable(name.to_string())),
        })
    };
    assert_eq!(
        t.operations,
        vec![
            string(StringOperator::StartsWith, "b"),
            string(StringOperator::EndsWith, "c"),
            string(StringOperator::Contains, "d"),
            StringListNullOperatorExpressionInner::ListOperator(ListOperatorExpression::In(operand(Atom::Variable(
                "e".to_string()
            )))),
            StringListNullOperatorExpressionInner::NullOperator(NullOperatorExpression { not: false }),
            StringListNullOperatorExpressionInner::NullOperator(NullOperatorExpression { not: true }),
        ]
    );
}

#[test]
fn index_and_ranges() {
    let t = only_tested(returned("a[0][1..2][..3][4..][..]"));
    let list = |o: ListOperatorExpression| StringListNullOperatorExpressionInner::ListOperator(o);
    assert_eq!(
        t.operations,
        vec![
            list(ListOperatorExpression::Index(integer(0))),
            list(ListOperatorExpression::Range(Some(integer(1)), Some(integer(2)))),
            list(ListOperatorExpression::Range(None, Some(integer(3)))),
            list(ListOperatorExpression::Range(Some(integer(4)), None)),
            list(ListOperatorExpression::Range(None, None)),
        ]
    );
}

#[test]
fn property_path_and_labels() {
    let t = only_tested(returned("a.b.c:X:Y"));
    assert!(t.operations.is_empty());
    assert_eq!(
        t.expression,
        PropertyOrLabelsExpression {
            atom: Atom::Variable("a".to_string()),
            property_lookup: vec!["b".to_string(), "c".to_string()],
            node_labels: vec!["X".to_string(), "Y".to_string()],
        }
    );
}

#[test]
fn atoms_are_told_apart() {
    assert_eq!(only_atom(returned("$param")), Atom::Parameter("$param".to_string()));
    assert_eq!(only_atom(returned("$1")), Atom::Parameter("$1".to_string()));
    assert_eq!(only_atom(returned("count(*)")), Atom::CountStar);
    assert_eq!(only_atom(returned("COUNT ( * )")), Atom::CountStar);
    assert_eq!(only_atom(returned("(a)")), Atom::ParenthesizedExpression(variable("a")));
    assert_eq!(only_atom(returned("`a b`")), Atom::Variable("`a b`".to_string()));
    assert_eq!(only_atom(returned("null")), Atom::Literal(Literal::Null));
    assert_eq!(only_atom(returned("true")), Atom::Literal(Literal::Boolean(true)));
    assert_eq!(only_atom(returned("false")), Atom::Literal(Literal::Boolean(false)));
    assert_eq!(only_atom(returned("nullable")), Atom::Variable("nullable".to_string()));
    assert_eq!(only_atom(returned("[]")), Atom::Literal(Literal::ListLiteral(vec![])));
    assert_eq!(
        only_atom(returned("f(a, 1)")),
        Atom::FunctionInvocation(FunctionInvocation {
            function_name: "f".to_string(),
            distinct: false,
            arguments: vec![variable("a"), integer(1)],
        })
    );
    assert_eq!(
        only_atom(returned("a.b.collect(DISTINCT x)")),
        Atom::FunctionInvocation(FunctionInvocation {
            function_name: "a.b.collect".to_string(),
            distinct: true,
            arguments: vec![variable("x")],
        })
    );
}

#[test]
fn boolean_must_be_spelled_in_lower_case() {
    let f = internal(parse_text("RETURN TRUE"));
    assert_eq!(f.kind, FaultKind::MalformedText);
    assert_eq!(f.rule, Rule::Literal);
    assert_eq!(f.found, Rule::BooleanLiteral);
    assert_eq!((f.start, f.end), (7, 11));
}

#[test]
fn numbers_are_read() {
    let number = |text: &str| match only_atom(returned(text)) {
        Atom::Literal(Literal::Number(n)) => n,
        other => panic!("{:?}", other),
    };
    assert_eq!(number("0"), NumberLiteral::Integer(0));
    assert_eq!(number("007"), NumberLiteral::Integer(7));
    assert_eq!(number("9223372036854775807"), NumberLiteral::Integer(i64::MAX));
    assert_eq!(number("1.5"), NumberLiteral::Double("1.5".to_string()));
    assert_eq!(number(".5"), NumberLiteral::Double(".5".to_string()));
    assert_eq!(number("1e10"), NumberLiteral::Double("1e10".to_string()));
    assert_eq!(number("1.5E-3"), NumberLiteral::Double("1.5E-3".to_string()));
    let text = "9223372036854775807";
    assert_eq!(text.parse::<i64>(), Ok(i64::MAX));
    assert_eq!("1.5E-3".parse::<f64>(), Ok(0.0015));
}

#[test]
fn integer_that_does_not_fit_is_an_internal_fault() {
    for text in ["9223372036854775808", "0x1F", "99999999999999999999999"] {
        let f = internal(parse_text(&format!("RETURN {}", text)));
        assert_eq!(f.kind, FaultKind::MalformedText, "{}", text);
        assert_eq!(f.rule, Rule::NumberLiteral, "{}", text);
        assert_eq!(f.found, Rule::IntegerLiteral, "{}", text);
        assert_eq!((f.start, f.end), (7, 7 + text.len()), "{}", text);
    }
    let u = only_signed(returned("-9223372036854775807"));
    assert!(u.negate);
}

#[test]
fn map_literal_keeps_the_last_expression_of_a_key() {
    let map = match only_atom(returned("{a: 1, b: 2, a: 3}")) {
        Atom::Literal(Literal::MapLiteral(m)) => m,
        other => panic!("{:?}", other),
    };
    assert_eq!(map.len(), 2);
    assert_eq!(map.get(&"a".to_string()), Some(&integer(3)));
    assert_eq!(map.get(&"b".to_string()), Some(&integer(2)));
    assert_eq!(map.get(&"c".to_string()), None);
    assert_eq!(map.entry(0), Some((&"a".to_string(), &integer(3))));
    assert_eq!(map.entry(1), Some((&"b".to_string(), &integer(2))));
    assert_eq!(map.entry(2), None);
}

#[test]
fn case_expressions() {
    let case = |text: &str| match only_atom(returned(text)) {
        Atom::CaseExpression(c) => c,
        other => panic!("{:?}", other),
    };
    assert_eq!(
        case("CASE WHEN a THEN 1 WHEN b THEN 2 ELSE 3 END"),
        CaseExpression {
            expression: None,
            alternatives: vec![(variable("a"), integer(1)), (variable("b"), integer(2))],
            else_: Some(integer(3)),
        }
    );
    assert_eq!(
        case("CASE x WHEN 1 THEN a END"),
        CaseExpression { expression: Some(variable("x")), alternatives: vec![(integer(1), variable("a"))], else_: None }
    );
}

#[test]
fn comprehension_and_quantifiers() {
    let filter = |where_: Option<Expression>| FilterExpression {
        id_in_coll: IdInColl { variable: "x".to_string(), expression: variable("xs") },
        where_,
    };
    assert_eq!(
        only_atom(returned("[x IN xs WHERE x | x]")),
        Atom::ListComprehension(ListComprehension {
            filter_expression: filter(Some(variable("x"))),
            expression: Some(variable("x")),
        })
    );
    assert_eq!(
        only_atom(returned("[x IN xs WHERE x]")),
        Atom::ListComprehension(ListComprehension { filter_expression: filter(Some(variable("x"))), expression: None })
    );
    assert_eq!(only_atom(returned("all(x IN xs WHERE x)")), Atom::All(filter(Some(variable("x")))));
    assert_eq!(only_atom(returned("ANY (x IN xs)")), Atom::Any(filter(None)));
    assert_eq!(only_atom(returned("none(x IN xs WHERE x)")), Atom::NoneOf(filter(Some(variable("x")))));
    assert_eq!(only_atom(returned("single(x IN xs)")), Atom::Single(filter(None)));
}

#[test]
fn path_as_an_expression() {
    match only_atom(returned("(a)-[:X]->(b)")) {
        Atom::RelationshipsPattern(p) => {
            assert_eq!(p.node, node(Some("a"), &[]));
            assert_eq!(p.relationships, vec![(RelationshipPattern::Right(typed("X")), node(Some("b"), &[]))]);
        },
        other => panic!("{:?}", other),
    }
}

#[test]
fn existential_subqueries() {
    match only_atom(returned("EXISTS { (a)-->(b) WHERE b }")) {
        Atom::ExistentialSubquery(ExistentialSubquery::PatternWhere { pattern, where_ }) => {
            assert_eq!(
                pattern,
                path(node(Some("a"), &[]), vec![(RelationshipPattern::Right(None), node(Some("b"), &[]))])
            );
            assert_eq!(where_, Some(variable("b")));
        },
        other => panic!("{:?}", other),
    }
    match only_atom(returned("exists { MATCH (a) RETURN a }")) {
        Atom::ExistentialSubquery(ExistentialSubquery::RegularQuery(q)) => {
            assert!(q.union.is_empty());
            assert!(matches!(q.query, SingleQuery::SinglePartQuery(_)));
        },
        other => panic!("{:?}", other),
    }
}

#[test]
fn pattern_comprehension_is_not_supported() {
    let text = "RETURN [(a)-->(b) | b.name]";
    assert_eq!(
        parse_text(text),
        Err(ParseError::Unsupported(Unsupported { rule: Rule::PatternComprehension, start: 7, end: text.len() }))
    );
}
