//! The generation engine: naming, per-table configuration, SQL templates and
//! the protocol definition emitter.

pub use conf::{Config, TableConfig};
pub use crud::crud;
pub use data::Named;
pub use plugin::{Catalog, CodeGenRequest, CodeGenResponse, Column, File, Schema, Table};
pub use proto::proto_gen;

pub mod conf;
pub mod crud;
pub mod data;
pub mod plugin;
pub mod proto;
pub mod text;
