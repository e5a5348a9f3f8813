//! A small front-end core for a tree-walking interpreter: lexical tokens,
//! a tagged expression-tree node type with its construction API, and a
//! singly-linked list used as a supporting container.

pub mod expr;
pub mod list;
pub mod token;
