//! The MSI package plan: tables, rows, streams and the cabinet, computed
//! from an installer configuration.
pub mod identity;
pub mod msi_spec;
pub mod builder;
pub mod filename;
pub mod finalizer;
pub mod package;
pub mod paths;
pub mod plan;
pub mod resort;
pub mod rows;
pub mod schema;
pub mod screens;
pub mod tables;
pub mod ui;
pub use msi_spec::MsiSpec;
