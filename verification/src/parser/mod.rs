//! The elaborators: from parse-tree nodes to syntax trees, in one pass from
//! the root down, one function for each kind of node.

pub mod atom;
pub mod call;
pub mod clause;
pub mod cypher;
pub mod expression;
pub mod iso_39075;
pub mod laws;
pub mod literal;
pub mod pattern;
pub mod projection;
