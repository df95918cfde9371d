//! Name registries used when lowering Cypher queries to their high-level
//! intermediate representation.
pub mod hir;
