//! A small schema language compiled into type declarations for Rust, Go and
//! TypeScript.
//!
//! Each line of a schema is `<type> [parameter]* <name>`. The classifier
//! (`tokenizer`) turns a line into a node and folds the nodes, by their order
//! alone, into modules holding structs and enums holding fields. The registry
//! (`reusability`) lists the declared structs and enums so that a field can
//! refer to one of them. Each target (`rust_target`, `go_target`,
//! `ts_target`) renders the tree; `config` ties the steps together.

pub mod case;
pub mod clargs;
pub mod conditions;
pub mod config;
pub mod generator;
pub mod go_target;
pub mod laws;
pub mod reusability;
pub mod rust_target;
pub mod text;
pub mod tokenizer;
pub mod ts_target;
