//! Datasets: sets of SQL tables built from serialized descriptors.

use vstd::prelude::*;

use crate::bindings;
use crate::dialect::Dialect;
use crate::error::{Error, ErrorKind};
use crate::relation::Relation;
use qrlew::relation::Relation as QRelation;
use std::sync::Arc;

verus! {

/// A set of SQL tables with their schemas and optional size statistics.
///
/// Built once from three serialized descriptors (dataset identity, schema,
/// size statistics) and immutable afterwards: every constraint-narrowing
/// operation returns a new `Dataset`.
#[derive(Clone)]
pub struct Dataset {
    pub data: qrlew_sarus::data_spec::Dataset,
}

/// Compiles one SQL query against the given base relations, in the given
/// dialect.
pub(crate) fn compile_with_dialect(
    query: &str,
    dialect: Dialect,
    relations: &Vec<(Vec<String>, Arc<QRelation>)>,
) -> (r: Result<QRelation, Error>)
    ensures
        r matches Err(e) ==> (e.kind == ErrorKind::Parse || e.kind == ErrorKind::Type),
{
    match dialect {
        Dialect::PostgreSql => bindings::parse_to_relation_postgresql(query, relations),
        Dialect::MsSql => bindings::parse_to_relation_mssql(query, relations),
        Dialect::BigQuery => bindings::parse_to_relation_bigquery(query, relations),
        Dialect::MySql => bindings::parse_to_relation_mysql(query, relations),
        Dialect::Hive => bindings::parse_to_relation_hive(query, relations),
        Dialect::Databricks => bindings::parse_to_relation_databricks(query, relations),
        Dialect::RedshiftSql => bindings::parse_to_relation_redshiftsql(query, relations),
    }
}

/// An owned copy of a path.
pub(crate) fn clone_path(path: &Vec<String>) -> (r: Vec<String>)
    ensures
        r.deep_view() == path.deep_view(),
{
    let mut out: Vec<String> = Vec::new();
    let mut i: usize = 0;
    while i < path.len()
        invariant
            i <= path@.len(),
            out@.len() == i as int,
            forall|j: int| 0 <= j < i as int ==> (#[trigger] out@[j])@ == path@[j]@,
        decreases path@.len() - i,
    {
        out.push(path[i].clone());
        i = i + 1;
    }
    proof {
        assert(out.deep_view() =~= path.deep_view());
    }
    out
}

impl Dataset {
    /// Parses a `Dataset` from its three serialized descriptors.  Succeeds
    /// exactly when the dataset and schema descriptors are well formed; a
    /// malformed size descriptor is treated as absent, a malformed dataset
    /// or schema descriptor is rejected with a parse error.  The parsed
    /// value is not pinned: the descriptors hold map-typed fields that
    /// iterate in per-instance hash order, so two parses of the same text
    /// are not interchangeable values.
    pub fn new(dataset: &str, schema: &str, size: &str) -> (r: Result<Dataset, Error>)
        ensures
            r is Ok <==> bindings::descriptors_parse(dataset@, schema@),
            r matches Err(e) ==> e.kind == ErrorKind::Parse,
    {
        match bindings::dataset_parse(dataset, schema, size) {
            Ok(data) => Ok(Dataset { data }),
            Err(e) => Err(e),
        }
    }

    /// The serialized form of this dataset's schema descriptor: a function
    /// of the dataset alone, so two calls agree.
    pub fn schema(&self) -> (r: Result<String, Error>)
        ensures
            match r {
                Ok(s) => bindings::dataset_schema_json_of(self.data) == Some(s@),
                Err(e) => bindings::dataset_schema_json_of(self.data) is None && e.kind
                    == ErrorKind::Translation,
            },
    {
        bindings::dataset_schema_json(&self.data)
    }

    /// The serialized form of this dataset's size descriptor, if it has
    /// one: a function of the dataset alone.
    pub fn size(&self) -> (r: Option<String>)
        ensures
            match r {
                Some(s) => bindings::dataset_size_json_of(self.data) == Some(s@),
                None => bindings::dataset_size_json_of(self.data) is None,
            },
    {
        bindings::dataset_size_json(&self.data)
    }

    /// Returns a new `Dataset` in which the named numeric column is bounded
    /// by the given range.  The bounds are decimal strings such as "20" or
    /// "0.5".  Succeeds exactly when the engine's narrowing does, and then
    /// holds its result; a bound that does not denote a number is rejected
    /// with a parse error, an unknown column with a type error.
    pub fn with_range(
        &self,
        schema_name: Option<&str>,
        table_name: &str,
        field_name: &str,
        min: &str,
        max: &str,
    ) -> (r: Result<Dataset, Error>)
        ensures
            match r {
                Ok(d) => bindings::with_range_of(
                    self.data,
                    bindings::option_text_view(schema_name),
                    table_name@,
                    field_name@,
                    min@,
                    max@,
                ) == Some(d.data),
                Err(e) => bindings::with_range_of(
                    self.data,
                    bindings::option_text_view(schema_name),
                    table_name@,
                    field_name@,
                    min@,
                    max@,
                ) is None && (e.kind == ErrorKind::Parse || e.kind == ErrorKind::Type),
            },
    {
        match bindings::dataset_with_range(&self.data, schema_name, table_name, field_name, min, max) {
            Ok(data) => Ok(Dataset { data }),
            Err(e) => Err(e),
        }
    }

    /// Returns a new `Dataset` in which the named text column is restricted
    /// to the given possible values.  Succeeds exactly when the engine's
    /// narrowing does, and then holds its result.
    pub fn with_possible_values(
        &self,
        schema_name: Option<&str>,
        table_name: &str,
        field_name: &str,
        possible_values: &Vec<String>,
    ) -> (r: Result<Dataset, Error>)
        ensures
            match r {
                Ok(d) => bindings::with_possible_values_of(
                    self.data,
                    bindings::option_text_view(schema_name),
                    table_name@,
                    field_name@,
                    possible_values.deep_view(),
                ) == Some(d.data),
                Err(e) => bindings::with_possible_values_of(
                    self.data,
                    bindings::option_text_view(schema_name),
                    table_name@,
                    field_name@,
                    possible_values.deep_view(),
                ) is None && e.kind == ErrorKind::Type,
            },
    {
        match bindings::dataset_with_possible_values(
            &self.data,
            schema_name,
            table_name,
            field_name,
            possible_values,
        ) {
            Ok(data) => Ok(Dataset { data }),
            Err(e) => Err(e),
        }
    }

    /// Returns a new `Dataset` in which the named column carries the given
    /// constraint (such as "_UNIQUE_"), or no constraint.  Succeeds exactly
    /// when the engine's narrowing does, and then holds its result.
    pub fn with_constraint(
        &self,
        schema_name: Option<&str>,
        table_name: &str,
        field_name: &str,
        constraint: Option<&str>,
    ) -> (r: Result<Dataset, Error>)
        ensures
            match r {
                Ok(d) => bindings::with_constraint_of(
                    self.data,
                    bindings::option_text_view(schema_name),
                    table_name@,
                    field_name@,
                    bindings::option_text_view(constraint),
                ) == Some(d.data),
                Err(e) => bindings::with_constraint_of(
                    self.data,
                    bindings::option_text_view(schema_name),
                    table_name@,
                    field_name@,
                    bindings::option_text_view(constraint),
                ) is None && e.kind == ErrorKind::Type,
            },
    {
        match bindings::dataset_with_constraint(
            &self.data,
            schema_name,
            table_name,
            field_name,
            constraint,
        ) {
            Ok(data) => Ok(Dataset { data }),
            Err(e) => Err(e),
        }
    }

    /// The dataset's base relations, each with its hierarchical path: the
    /// engine's deterministic list, so two calls yield equal sequences.  A
    /// descriptor whose table columns collide with the engine's admin column
    /// names makes the engine abort instead of returning.
    pub fn relations(&self) -> (r: Vec<(Vec<String>, Relation)>)
        ensures
            r@.len() == bindings::dataset_relations_of(self.data).len(),
            forall|i: int|
                0 <= i < r@.len() ==> (#[trigger] r@[i]).0.deep_view()
                    == bindings::dataset_relations_of(self.data)[i].0 && r@[i].1.0
                    == bindings::dataset_relations_of(self.data)[i].1,
    {
        let pairs = bindings::dataset_relations(&self.data);
        let mut out: Vec<(Vec<String>, Relation)> = Vec::new();
        let mut i: usize = 0;
        while i < pairs.len()
            invariant
                i <= pairs@.len(),
                pairs@.len() == bindings::dataset_relations_of(self.data).len(),
                forall|j: int|
                    0 <= j < pairs@.len() ==> (#[trigger] pairs@[j]).0.deep_view()
                        == bindings::dataset_relations_of(self.data)[j].0 && pairs@[j].1
                        == bindings::dataset_relations_of(self.data)[j].1,
                out@.len() == i as int,
                forall|j: int|
                    0 <= j < i as int ==> (#[trigger] out@[j]).0.deep_view()
                        == bindings::dataset_relations_of(self.data)[j].0 && out@[j].1.0
                        == bindings::dataset_relations_of(self.data)[j].1,
            decreases pairs@.len() - i,
        {
            let path = clone_path(&pairs[i].0);
            let relation = Relation::new(bindings::arc_relation_clone(&pairs[i].1));
            out.push((path, relation));
            i = i + 1;
        }
        out
    }

    /// Compiles a SQL query against this dataset into a `Relation`.  When no
    /// dialect is given, PostgreSql is assumed.  A query that cannot be
    /// parsed is rejected with a parse error; one the translation refuses
    /// with a type error.  The compiled relation is not a function of the
    /// inputs (the engine draws fresh names for unnamed derived tables,
    /// literal VALUES nodes and random() expressions from a process-global
    /// counter), so the success case is not pinned; an ill-typed query can
    /// make the engine abort instead of returning the type-kind error.
    pub fn relation(&self, query: &str, dialect: Option<Dialect>) -> (r: Result<Relation, Error>)
        ensures
            r matches Err(e) ==> (e.kind == ErrorKind::Parse || e.kind == ErrorKind::Type),
    {
        let d = match dialect {
            Some(d) => d,
            None => Dialect::PostgreSql,
        };
        let rels = bindings::dataset_relations(&self.data);
        match compile_with_dialect(query, d, &rels) {
            Ok(rel) => Ok(Relation::new(Arc::new(rel))),
            Err(e) => Err(e),
        }
    }

    /// Builds a new `Dataset` holding one relation per (path, query) pair,
    /// each query compiled against this dataset.  Fails on the first query
    /// that does not compile; compilation carries the caveats of
    /// `Dataset::relation`.
    pub fn from_queries(
        &self,
        queries: &Vec<(Vec<String>, String)>,
        dialect: Option<Dialect>,
    ) -> (r: Result<Dataset, Error>)
        ensures
            r matches Err(e) ==> (e.kind == ErrorKind::Parse || e.kind == ErrorKind::Type),
    {
        let d = match dialect {
            Some(d) => d,
            None => Dialect::PostgreSql,
        };
        let rels = bindings::dataset_relations(&self.data);
        let mut out: Vec<(Vec<String>, Arc<QRelation>)> = Vec::new();
        let mut i: usize = 0;
        while i < queries.len()
            invariant
                i <= queries.len(),
            decreases queries.len() - i,
        {
            match compile_with_dialect(queries[i].1.as_str(), d, &rels) {
                Ok(rel) => {
                    out.push((queries[i].0.clone(), Arc::new(rel)));
                },
                Err(e) => {
                    return Err(e);
                },
            }
            i = i + 1;
        }
        match bindings::dataset_from_relations(&out) {
            Ok(data) => Ok(Dataset { data }),
            Err(e) => Err(e),
        }
    }
}

} // verus!
