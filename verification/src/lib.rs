//! The types of a Python type checker: their data, and what the checker does with them.
//!
//! Types are mutually recursive data. [`data`] declares them, [`view`] gives each a mathematical
//! model, and all contracts speak of the models. [`slots`] says which types a type holds directly;
//! the walks over types in [`search`], [`transform`], [`truncate`], [`subst`], [`positions`] and
//! [`dsl`] are stated over that.
pub mod copy;
pub mod data;
pub mod digest;
pub mod dsl;
pub mod equal;
pub mod equivalence;
pub mod equiv;
pub mod forms;
pub mod functions;
pub mod held;
pub mod identity;
pub mod materialize;
pub mod metadata;
pub mod names;
pub mod order;
pub mod order_laws;
pub mod outside;
pub mod parts;
pub mod positions;
pub mod rewrite;
pub mod rewrite_laws;
pub mod same;
pub mod search;
pub mod slots;
pub mod spell;
pub mod spelling;
pub mod styles;
pub mod subst;
pub mod tables;
pub mod targs;
pub mod tokens;
pub mod toplevel;
pub mod tparams;
pub mod transform;
pub mod truncate;
pub mod variables;
pub mod view;
pub mod visit;
