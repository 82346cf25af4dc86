//! A front end for graph query languages. The text of an openCypher query is
//! matched against the grammar by a grammar engine; this library elaborates
//! the engine's parse tree into a typed syntax tree, or says why it cannot.
//!
//! Every elaborator is specified by a function from the value of a parse-tree
//! node to the value of the syntax tree, and is verified to compute it.

pub mod ast;
pub mod decode;
pub mod error;
pub mod parser;
pub mod tree;

pub use parser::cypher::parse as parse_cypher;
pub use parser::iso_39075::parse as parse_gql;
