//! Utilities on raw SQL text.

use vstd::prelude::*;

use crate::bindings;
use crate::dialect::Dialect;
use crate::error::{Error, ErrorKind};

verus! {

/// The base-table prefixes a query yields under a dialect: a function of the
/// query text and the dialect alone.
pub open spec fn tables_prefix_of(query: Seq<char>, dialect: Dialect) -> Option<Seq<Seq<char>>> {
    match dialect {
        Dialect::PostgreSql => bindings::postgresql_tables_prefix_of(query),
        Dialect::MsSql => bindings::mssql_tables_prefix_of(query),
        Dialect::BigQuery => bindings::bigquery_tables_prefix_of(query),
        Dialect::MySql => bindings::mysql_tables_prefix_of(query),
        Dialect::Hive => bindings::hive_tables_prefix_of(query),
        Dialect::Databricks => bindings::databricks_tables_prefix_of(query),
        Dialect::RedshiftSql => bindings::redshiftsql_tables_prefix_of(query),
    }
}

/// Extracts the prefix of every fully qualified base-table name referenced by
/// a query: for each base table written `prefix.schema.table` the leading
/// identifier.  Quoting must agree with the dialect.  The result is the
/// extraction's, a function of the query text and dialect alone; a query
/// that cannot be parsed, or whose table names are quoted wrongly, is
/// rejected with a parse error, exactly when the extraction yields nothing.
pub fn tables_prefix(query: &str, dialect: Dialect) -> (r: Result<Vec<String>, Error>)
    ensures
        match r {
            Ok(v) => tables_prefix_of(query@, dialect) == Some(v.deep_view()),
            Err(e) => tables_prefix_of(query@, dialect) is None && e.kind == ErrorKind::Parse,
        },
{
    match dialect {
        Dialect::PostgreSql => bindings::tables_prefix_postgresql(query),
        Dialect::MsSql => bindings::tables_prefix_mssql(query),
        Dialect::BigQuery => bindings::tables_prefix_bigquery(query),
        Dialect::MySql => bindings::tables_prefix_mysql(query),
        Dialect::Hive => bindings::tables_prefix_hive(query),
        Dialect::Databricks => bindings::tables_prefix_databricks(query),
        Dialect::RedshiftSql => bindings::tables_prefix_redshiftsql(query),
    }
}

} // verus!
