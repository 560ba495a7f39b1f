//! A small dynamically typed expression language: syntax trees, a chained
//! scope store, runtime values with a prototype-style type registry, and a
//! tree-walking evaluator proved equal to a big-step semantics.

pub mod ast;
pub mod runtimes;
pub mod env;
pub mod semantics;
pub mod builtins;
pub mod vm;
pub mod scope_utils;
pub mod utils;
pub mod laws;
