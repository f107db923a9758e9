//! A bridge compiler for Qt objects declared in Rust.
//!
//! A module of declarations (objects with properties, invokables and signals)
//! is validated, resolved into a typed model and emitted as two artefacts that
//! agree with each other: a C++ class for Qt's meta-object system and the glue
//! declarations that both languages compile against.

pub mod text;
pub mod diag;
pub mod decl;
pub mod model;
pub mod catalogue;
pub mod typemap;
pub mod validate;
pub mod names;
pub mod semantic;
pub mod wf;
pub mod builder;
pub mod ir;
pub mod lower;
pub mod render;
pub mod compile;
pub mod example;
pub mod meaning;
pub mod laws;
pub mod arch;
pub mod syntax;
