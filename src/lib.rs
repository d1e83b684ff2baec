//! Semantic model of a hardware-description-language analyzer: structural
//! types with their canonical rendering, a constant evaluator for widths,
//! scoped namespaces and a symbol table, and the system-function check.

pub mod expression;
pub mod types;
pub mod evaluator;
pub mod token;
pub mod namespace;
pub mod analyzer_error;
pub mod symbol;
pub mod symbol_table;
pub mod syntax;
pub mod check_system_function;
