//! Builder generation for records with named fields.
//!
//! The input is a record definition (`syntax`). From its field list the
//! library derives a staging structure, one setter per field and a validating
//! `build` step (`expand`) and writes them out as Rust source (`render`). The
//! run-time behaviour of a generated builder is given as executable code
//! (`staging`), and `command` holds one record with its generated builder.
pub mod syntax;
pub mod expand;
pub mod staging;
pub mod command;
pub mod render;
