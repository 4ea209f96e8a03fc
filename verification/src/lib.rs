//! A verified model of a class/object bridge between a native host and an
//! embedded dynamic scripting runtime.
//!
//! Native "classes" become script-visible tables with properties, methods,
//! per-class lifecycle hooks and a signal namespace. The runtime's table
//! store is modelled explicitly (`state`), so that reference semantics --
//! a published class and the handle it was built from alias the same
//! underlying table -- are part of what is proved. Field accesses that
//! miss every declared property resolve through a two-tier fallback
//! (`resolve`), and the per-class metadata record reaches runtime-scoped
//! values only through indirect handles that are re-resolved on every use
//! (`class`).

pub mod class;
pub mod property;
pub mod resolve;
pub mod state;
pub mod value;
