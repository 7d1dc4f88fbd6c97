//! A SQL-dialect-agnostic front end to a relational-algebra compiler and
//! differential-privacy rewriting engine.
//!
//! A [`dataset::Dataset`] is built from serialized descriptors and holds a set
//! of SQL tables.  A [`relation::Relation`] is an immutable operator tree
//! compiled from a SQL query against a dataset, in any supported
//! [`dialect::Dialect`].  A relation can be rewritten so that the contribution
//! of a designated privacy unit is bounded and its aggregates are noised; the
//! rewrite returns a [`dp_event::RelationWithDpEvent`] pairing the new
//! relation with a [`dp_event::DpEvent`] accounting of the privacy loss.
//!
//! Numeric parameters that the engine consumes as floating-point values cross
//! this crate's boundary in exact textual or bit form: inputs (budgets,
//! bounds) are decimal strings, outputs (noise multipliers) are IEEE-754 bit
//! patterns.
//!
//! The crate's own verified functions do not panic.  The engine behind the
//! trusted bindings, however, unwraps some of its internal errors: on inputs
//! it refuses that way — an ill-typed or unsupported query at compilation, a
//! literal kind a dialect's translator does not implement at rendering, a
//! descriptor whose columns collide with the admin column names, some failed
//! rewrite steps, an incompatible substituted schema — it aborts the process
//! instead of returning an error.  The entry points that inherit this, each
//! saying so in its documentation, are [`dataset::Dataset::relations`],
//! [`dataset::Dataset::relation`], [`dataset::Dataset::from_queries`],
//! [`relation::Relation::from_query`], [`relation::Relation::to_query`],
//! [`relation::Relation::with_field`], [`relation::Relation::compose`] and
//! the two privacy rewrites.

pub mod bindings;
pub mod dataset;
pub mod dialect;
pub mod dp_event;
pub mod error;
pub mod relation;
pub mod utils;

pub use crate::dataset::Dataset;
pub use crate::dialect::Dialect;
pub use crate::dp_event::{DpEvent, RelationWithDpEvent};
pub use crate::relation::{Relation, Strategy};
pub use crate::utils::tables_prefix;
