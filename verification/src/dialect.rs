//! The supported SQL dialects.

use vstd::prelude::*;

verus! {

/// A SQL grammar and rendering variant.
///
/// Queries are parsed and rendered against one of these dialects; the
/// canonical relational representation itself is dialect-independent.
#[derive(Clone, Copy, PartialEq, Eq, Structural, Debug)]
pub enum Dialect {
    PostgreSql,
    MsSql,
    BigQuery,
    MySql,
    Hive,
    Databricks,
    RedshiftSql,
}

} // verus!
