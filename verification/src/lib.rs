//! Schema-driven code generation: from a catalog of tables and columns to
//! parameterised SQL statements and protocol message and service definitions.

pub mod catalog;
pub mod crud;
pub mod gen;
pub mod proto;
pub mod utils;
