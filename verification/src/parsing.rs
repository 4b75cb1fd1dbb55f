//! The parsing phase: the nodes of the syntax tree that the (external)
//! grammar consumer builds from the token stream.

pub mod nodes;
