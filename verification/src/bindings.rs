//! Trusted bindings to the underlying relational-algebra engine.
//!
//! Everything the crate assumes about the `qrlew` and `qrlew_sarus` crates is
//! collected here: declarations of their opaque types, names for the results
//! of engine calls that are functions of their arguments alone, and thin
//! `external_body` wrappers around the engine calls.  Each wrapper's contract
//! states only what the engine's source shows; the logic around the calls
//! lives in the verified modules.
//!
//! Two caveats hold throughout and are repeated at the items they concern.
//! First, a result is named only where the engine computes it from the
//! arguments alone; compiling SQL text is not such a case, because the engine
//! draws fresh names for unnamed derived tables, literal VALUES nodes and
//! random() expressions from a process-global counter.  Second, the engine
//! unwraps some of its own internal errors: on inputs it refuses that way it
//! aborts the process instead of returning, and no contract here speaks of
//! such inputs (a contract constrains what a call returns).

use vstd::prelude::*;

use crate::dp_event::DpEventValue;
use crate::error::{Error, ErrorKind};
use qrlew::builder::With;
use qrlew::differential_privacy::dp_event::DpEvent as QDpEvent;
use qrlew::differential_privacy::DpParameters;
use qrlew::expr::Identifier;
use qrlew::privacy_unit_tracking::PrivacyUnit;
use qrlew::privacy_unit_tracking::Strategy as QStrategy;
use qrlew::rewriting::rewriting_rule::RelationWithDpEvent as QRelationWithDpEvent;
use qrlew::synthetic_data::SyntheticData;
use qrlew::dialect_translation::bigquery::BigQueryTranslator;
use qrlew::dialect_translation::databricks::DatabricksTranslator;
use qrlew::dialect_translation::hive::HiveTranslator;
use qrlew::dialect_translation::mssql::MsSqlTranslator;
use qrlew::dialect_translation::mysql::MySqlTranslator;
use qrlew::dialect_translation::postgresql::PostgreSqlTranslator;
use qrlew::dialect_translation::redshiftsql::RedshiftSqlTranslator;
use qrlew::dialect_translation::QueryToRelationTranslator;
use qrlew::dialect_translation::RelationWithTranslator;
use qrlew::hierarchy::Hierarchy;
use qrlew::relation::Relation as QRelation;
use qrlew::relation::Variant;
use qrlew::sql::relation::parse_with_dialect;
use qrlew::visitor::Acceptor;
use qrlew_sarus::data_spec::Dataset as SarusDataset;
use qrlew_sarus::protobuf::print_to_string;
use std::sync::Arc;

verus! {

#[verifier::external_type_specification]
#[verifier::external_body]
pub struct ExDataSpecDataset(SarusDataset);

#[verifier::external_type_specification]
#[verifier::external_body]
pub struct ExRelation(QRelation);

#[verifier::external_type_specification]
#[verifier::external_body]
pub struct ExPrivacyUnit(PrivacyUnit);

#[verifier::external_type_specification]
#[verifier::external_body]
pub struct ExPrivacyUnitPath(qrlew::privacy_unit_tracking::PrivacyUnitPath);

#[verifier::external_type_specification]
#[verifier::external_body]
pub struct ExStrategy(QStrategy);

#[verifier::external_type_specification]
#[verifier::external_body]
pub struct ExSyntheticData(SyntheticData);

#[verifier::external_type_specification]
#[verifier::external_body]
pub struct ExDpParameters(DpParameters);

#[verifier::external_type_specification]
#[verifier::external_body]
pub struct ExIdentifier(Identifier);

#[verifier::external_type_specification]
#[verifier::external_body]
pub struct ExDpEvent(QDpEvent);

#[verifier::external_type_specification]
#[verifier::external_body]
pub struct ExRelationWithDpEvent(QRelationWithDpEvent);

/// Relies on the derived Clone of qrlew_sarus::data_spec::Dataset.
pub assume_specification[ <SarusDataset as Clone>::clone ](dataset: &SarusDataset) -> SarusDataset;

/// The view of an optional text argument.
pub open spec fn option_text_view(text: Option<&str>) -> Option<Seq<char>> {
    match text {
        Some(s) => Some(s@),
        None => None,
    }
}

/// Whether the dataset and schema descriptor texts parse; parsing succeeds
/// or fails by the text alone, and the size descriptor never decides (a
/// malformed one is tolerated).  Only this success is named: the parsed
/// value itself is not, because the descriptors hold map-typed fields that
/// iterate in per-instance hash order, so two parses of the same text are
/// not interchangeable values (their printed forms may order map entries
/// differently).
pub uninterp spec fn descriptors_parse(dataset: Seq<char>, schema: Seq<char>) -> bool;

/// Relies on qrlew_sarus::data_spec::Dataset::parse_from_dataset_schema_size:
/// parses the dataset, schema and size descriptors; a malformed size
/// descriptor is tolerated and treated as absent.
#[verifier::external_body]
pub(crate) fn dataset_parse(dataset: &str, schema: &str, size: &str) -> (r: Result<
    SarusDataset,
    Error,
>)
    ensures
        r is Ok <==> descriptors_parse(dataset@, schema@),
        r matches Err(e) ==> e.kind == ErrorKind::Parse,
{
    SarusDataset::parse_from_dataset_schema_size(dataset, schema, size)
        .map_err(|e| Error { kind: ErrorKind::Parse, message: e.to_string() })
}

/// What serializing a dataset's schema descriptor yields, or nothing where
/// printing fails; a function of the dataset alone.
pub uninterp spec fn dataset_schema_json_of(dataset: SarusDataset) -> Option<Seq<char>>;

/// Relies on qrlew_sarus::protobuf::print_to_string applied to
/// data_spec::Dataset::schema: serializes the schema descriptor.
#[verifier::external_body]
pub(crate) fn dataset_schema_json(dataset: &SarusDataset) -> (r: Result<String, Error>)
    ensures
        match r {
            Ok(s) => dataset_schema_json_of(*dataset) == Some(s@),
            Err(e) => dataset_schema_json_of(*dataset) is None && e.kind == ErrorKind::Translation,
        },
{
    print_to_string(dataset.schema())
        .map_err(|e| Error { kind: ErrorKind::Translation, message: e.to_string() })
}

/// What serializing a dataset's size descriptor yields: nothing where there
/// is none or printing fails; a function of the dataset alone.
pub uninterp spec fn dataset_size_json_of(dataset: SarusDataset) -> Option<Seq<char>>;

/// Relies on qrlew_sarus::protobuf::print_to_string applied to
/// data_spec::Dataset::size: serializes the size descriptor when there is one
/// and it can be printed.
#[verifier::external_body]
pub(crate) fn dataset_size_json(dataset: &SarusDataset) -> (r: Option<String>)
    ensures
        match r {
            Some(s) => dataset_size_json_of(*dataset) == Some(s@),
            None => dataset_size_json_of(*dataset) is None,
        },
{
    dataset.size().and_then(|s| print_to_string(s).ok())
}

/// What narrowing a numeric column to a textual [min, max] range yields: a
/// dataset when the bounds denote numbers and the engine accepts the column,
/// nothing otherwise; a function of the arguments alone.
pub uninterp spec fn with_range_of(
    dataset: SarusDataset,
    schema_name: Option<Seq<char>>,
    table_name: Seq<char>,
    field_name: Seq<char>,
    min: Seq<char>,
    max: Seq<char>,
) -> Option<SarusDataset>;

/// Relies on qrlew_sarus::data_spec::Dataset::with_range: narrows a numeric
/// column to [min, max].  The bounds are decimal strings, converted here.
#[verifier::external_body]
pub(crate) fn dataset_with_range(
    dataset: &SarusDataset,
    schema_name: Option<&str>,
    table_name: &str,
    field_name: &str,
    min: &str,
    max: &str,
) -> (r: Result<SarusDataset, Error>)
    ensures
        match r {
            Ok(d) => with_range_of(
                *dataset,
                option_text_view(schema_name),
                table_name@,
                field_name@,
                min@,
                max@,
            ) == Some(d),
            Err(e) => with_range_of(
                *dataset,
                option_text_view(schema_name),
                table_name@,
                field_name@,
                min@,
                max@,
            ) is None && (e.kind == ErrorKind::Parse || e.kind == ErrorKind::Type),
        },
{
    let lo = min.parse().map_err(|e| Error { kind: ErrorKind::Parse, message: format!("{e}") })?;
    let hi = max.parse().map_err(|e| Error { kind: ErrorKind::Parse, message: format!("{e}") })?;
    dataset.with_range(schema_name, table_name, field_name, lo, hi)
        .map_err(|e| Error { kind: ErrorKind::Type, message: e.to_string() })
}

/// What restricting a text column to enumerated values yields, or nothing
/// where the engine refuses; a function of the arguments alone.
pub uninterp spec fn with_possible_values_of(
    dataset: SarusDataset,
    schema_name: Option<Seq<char>>,
    table_name: Seq<char>,
    field_name: Seq<char>,
    possible_values: Seq<Seq<char>>,
) -> Option<SarusDataset>;

/// Relies on qrlew_sarus::data_spec::Dataset::with_possible_values: narrows a
/// text column to an enumerated set of values.
#[verifier::external_body]
pub(crate) fn dataset_with_possible_values(
    dataset: &SarusDataset,
    schema_name: Option<&str>,
    table_name: &str,
    field_name: &str,
    possible_values: &Vec<String>,
) -> (r: Result<SarusDataset, Error>)
    ensures
        match r {
            Ok(d) => with_possible_values_of(
                *dataset,
                option_text_view(schema_name),
                table_name@,
                field_name@,
                possible_values.deep_view(),
            ) == Some(d),
            Err(e) => with_possible_values_of(
                *dataset,
                option_text_view(schema_name),
                table_name@,
                field_name@,
                possible_values.deep_view(),
            ) is None && e.kind == ErrorKind::Type,
        },
{
    dataset.with_possible_values(schema_name, table_name, field_name, possible_values)
        .map_err(|e| Error { kind: ErrorKind::Type, message: e.to_string() })
}

/// What recording a column constraint yields, or nothing where the engine
/// refuses; a function of the arguments alone.
pub uninterp spec fn with_constraint_of(
    dataset: SarusDataset,
    schema_name: Option<Seq<char>>,
    table_name: Seq<char>,
    field_name: Seq<char>,
    constraint: Option<Seq<char>>,
) -> Option<SarusDataset>;

/// Relies on qrlew_sarus::data_spec::Dataset::with_constraint: records a
/// uniqueness or primary-key constraint on a column.
#[verifier::external_body]
pub(crate) fn dataset_with_constraint(
    dataset: &SarusDataset,
    schema_name: Option<&str>,
    table_name: &str,
    field_name: &str,
    constraint: Option<&str>,
) -> (r: Result<SarusDataset, Error>)
    ensures
        match r {
            Ok(d) => with_constraint_of(
                *dataset,
                option_text_view(schema_name),
                table_name@,
                field_name@,
                option_text_view(constraint),
            ) == Some(d),
            Err(e) => with_constraint_of(
                *dataset,
                option_text_view(schema_name),
                table_name@,
                field_name@,
                option_text_view(constraint),
            ) is None && e.kind == ErrorKind::Type,
        },
{
    dataset.with_constraint(schema_name, table_name, field_name, constraint)
        .map_err(|e| Error { kind: ErrorKind::Type, message: e.to_string() })
}

/// A dataset's base relations with their paths, in the engine's path order.
/// A function of the dataset alone: the paths are the descriptor's table
/// paths, sorted, and each table relation is built from the stored schema
/// and statistics, named from its path.
pub uninterp spec fn dataset_relations_of(dataset: SarusDataset) -> Seq<
    (Seq<Seq<char>>, Arc<QRelation>),
>;

/// Relies on qrlew_sarus::data_spec::Dataset::relations: the dataset's base
/// relations, keyed by path, in the engine's deterministic path order.  The
/// engine unwraps the schema build: a descriptor whose table columns collide
/// with the admin column names makes it abort instead of returning.
#[verifier::external_body]
pub(crate) fn dataset_relations(dataset: &SarusDataset) -> (r: Vec<
    (Vec<String>, Arc<QRelation>),
>)
    ensures
        r@.len() == dataset_relations_of(*dataset).len(),
        forall|i: int|
            0 <= i < r@.len() ==> (#[trigger] r@[i]).0.deep_view() == dataset_relations_of(
                *dataset,
            )[i].0 && r@[i].1 == dataset_relations_of(*dataset)[i].1,
{
    dataset.relations().into_iter().collect()
}

/// Relies on qrlew_sarus::data_spec::Dataset's conversion from a hierarchy of
/// relations: rebuilds descriptor form from the given path-keyed relations.
#[verifier::external_body]
pub(crate) fn dataset_from_relations(relations: &Vec<(Vec<String>, Arc<QRelation>)>) -> (r: Result<
    SarusDataset,
    Error,
>)
    ensures
        r matches Err(e) ==> e.kind == ErrorKind::Parse,
{
    let h: Hierarchy<Arc<QRelation>> = relations.iter().cloned().collect();
    SarusDataset::try_from(&h)
        .map_err(|e| Error { kind: ErrorKind::Parse, message: e.to_string() })
}

/// What the engine prints for a relation's schema: a function of the
/// relation alone, since every relation node stores its derived schema.
pub uninterp spec fn schema_display_of(relation: QRelation) -> Seq<char>;

/// Relies on qrlew::relation::Relation's schema display: prints the schema
/// stored in the relation node.
#[verifier::external_body]
pub(crate) fn relation_schema_display(relation: &QRelation) -> (r: String)
    ensures
        r@ == schema_display_of(*relation),
{
    relation.schema().to_string()
}

/// The names of a relation's output fields, in schema order; a function of
/// the relation alone (the schema is stored in the node).
pub uninterp spec fn field_names_of(relation: QRelation) -> Seq<Seq<char>>;

/// Relies on qrlew::relation::Relation::schema and Field::name: the names of
/// the relation's output fields, in order.
#[verifier::external_body]
pub(crate) fn relation_field_names(relation: &QRelation) -> (r: Vec<String>)
    ensures
        r@.len() == field_names_of(*relation).len(),
        forall|i: int| 0 <= i < r@.len() ==> (#[trigger] r@[i])@ == field_names_of(*relation)[i],
{
    relation.schema().iter().map(|f| f.name().to_string()).collect()
}

/// The paths of the base tables a relation refers to, in the engine's
/// deterministic traversal order, each table once; a function of the
/// relation alone.
pub uninterp spec fn table_paths_of(relation: QRelation) -> Seq<Seq<Seq<char>>>;

/// Relies on the relation node iterator (qrlew::visitor::Acceptor::iter) and
/// on Table::path: the paths of the base tables the relation refers to.
#[verifier::external_body]
pub(crate) fn relation_table_paths(relation: &QRelation) -> (r: Vec<Vec<String>>)
    ensures
        r@.len() == table_paths_of(*relation).len(),
        forall|i: int|
            0 <= i < r@.len() ==> (#[trigger] r@[i]).deep_view() == table_paths_of(*relation)[i],
{
    relation.iter().filter_map(|node| match node {
        QRelation::Table(t) => Some(t.path().as_ref().to_vec()),
        _ => None,
    }).collect()
}

/// Whether the engine's path lookup finds a key for the given path: an exact
/// key, or else exactly one key the path is a suffix of.  A function of the
/// key set and the path alone.
pub uninterp spec fn hierarchy_contains_of(keys: Seq<Seq<Seq<char>>>, path: Seq<Seq<char>>) -> bool;

/// Relies on qrlew::hierarchy::Hierarchy::get, whose result depends only on
/// the key set: whether the path resolves against the given relations'
/// paths.
#[verifier::external_body]
pub(crate) fn relations_contain_path(
    relations: &Vec<(Vec<String>, crate::relation::Relation)>,
    path: &Vec<String>,
) -> (r: bool)
    ensures
        r == hierarchy_contains_of(
            crate::relation::relation_keys_view(relations@),
            path.deep_view(),
        ),
{
    let h: Hierarchy<()> = relations.iter().map(|(k, _)| (k.clone(), ())).collect();
    h.get(path).is_some()
}

/// The protobuf text form of a relation's schema data type, or nothing where
/// the conversion or printing fails; a function of the relation alone.
pub uninterp spec fn type_json_of(relation: QRelation) -> Option<Seq<char>>;

/// Relies on qrlew::relation::Relation::schema's data type, on its conversion
/// into a protobuf type, and on qrlew_sarus::protobuf::print_to_string.
#[verifier::external_body]
pub(crate) fn relation_type_json(relation: &QRelation) -> (r: Result<String, Error>)
    ensures
        match r {
            Ok(s) => type_json_of(*relation) == Some(s@),
            Err(e) => type_json_of(*relation) is None && e.kind == ErrorKind::Translation,
        },
{
    let data_type = qrlew::data_type::DataTyped::data_type(relation.schema());
    let proto: qrlew_sarus::protobuf::type_::Type = (&data_type).try_into()
        .map_err(|e: qrlew_sarus::data_spec::Error| Error { kind: ErrorKind::Translation, message: e.to_string() })?;
    print_to_string(&proto)
        .map_err(|e| Error { kind: ErrorKind::Translation, message: e.to_string() })
}

/// The GraphViz text of a relation, or nothing where rendering fails; a
/// function of the relation alone (nodes are named by content hash).
pub uninterp spec fn dot_of(relation: QRelation) -> Option<Seq<char>>;

/// Relies on qrlew::relation::Relation's GraphViz output, written into an
/// in-memory buffer.
#[verifier::external_body]
pub(crate) fn relation_dot(relation: &QRelation) -> (r: Result<String, Error>)
    ensures
        match r {
            Ok(s) => dot_of(*relation) == Some(s@),
            Err(e) => dot_of(*relation) is None && e.kind == ErrorKind::Translation,
        },
{
    let mut out: Vec<u8> = vec![];
    relation.dot(&mut out, &[])
        .map_err(|e| Error { kind: ErrorKind::Translation, message: e.to_string() })?;
    String::from_utf8(out)
        .map_err(|e| Error { kind: ErrorKind::Translation, message: e.to_string() })
}

/// Relies on qrlew::sql::relation::parse_with_dialect and on the conversion
/// of a parsed query with relations into a Relation, both with the PostgreSql
/// translator.  The compiled relation is not named: compiling draws fresh
/// names for unnamed derived tables, literal VALUES nodes and random()
/// expressions from a process-global counter, so it is not a function of the
/// arguments.  The conversion unwraps its builder's errors, so a parseable
/// but ill-typed query can abort the process instead of returning the
/// type-kind error.
#[verifier::external_body]
pub(crate) fn parse_to_relation_postgresql(
    query: &str,
    relations: &Vec<(Vec<String>, Arc<QRelation>)>,
) -> (r: Result<QRelation, Error>)
    ensures
        r matches Err(e) ==> (e.kind == ErrorKind::Parse || e.kind == ErrorKind::Type),
{
    let rels: Hierarchy<Arc<QRelation>> = relations.iter().cloned().collect();
    let parsed = parse_with_dialect(query, PostgreSqlTranslator.dialect())
        .map_err(|e| Error { kind: ErrorKind::Parse, message: e.to_string() })?;
    QRelation::try_from((parsed.with(&rels), PostgreSqlTranslator))
        .map_err(|e| Error { kind: ErrorKind::Type, message: e.to_string() })
}

/// As parse_to_relation_postgresql, with the MsSql translator.
#[verifier::external_body]
pub(crate) fn parse_to_relation_mssql(
    query: &str,
    relations: &Vec<(Vec<String>, Arc<QRelation>)>,
) -> (r: Result<QRelation, Error>)
    ensures
        r matches Err(e) ==> (e.kind == ErrorKind::Parse || e.kind == ErrorKind::Type),
{
    let rels: Hierarchy<Arc<QRelation>> = relations.iter().cloned().collect();
    let parsed = parse_with_dialect(query, MsSqlTranslator.dialect())
        .map_err(|e| Error { kind: ErrorKind::Parse, message: e.to_string() })?;
    QRelation::try_from((parsed.with(&rels), MsSqlTranslator))
        .map_err(|e| Error { kind: ErrorKind::Type, message: e.to_string() })
}

/// As parse_to_relation_postgresql, with the BigQuery translator.
#[verifier::external_body]
pub(crate) fn parse_to_relation_bigquery(
    query: &str,
    relations: &Vec<(Vec<String>, Arc<QRelation>)>,
) -> (r: Result<QRelation, Error>)
    ensures
        r matches Err(e) ==> (e.kind == ErrorKind::Parse || e.kind == ErrorKind::Type),
{
    let rels: Hierarchy<Arc<QRelation>> = relations.iter().cloned().collect();
    let parsed = parse_with_dialect(query, BigQueryTranslator.dialect())
        .map_err(|e| Error { kind: ErrorKind::Parse, message: e.to_string() })?;
    QRelation::try_from((parsed.with(&rels), BigQueryTranslator))
        .map_err(|e| Error { kind: ErrorKind::Type, message: e.to_string() })
}

/// As parse_to_relation_postgresql, with the MySql translator.
#[verifier::external_body]
pub(crate) fn parse_to_relation_mysql(
    query: &str,
    relations: &Vec<(Vec<String>, Arc<QRelation>)>,
) -> (r: Result<QRelation, Error>)
    ensures
        r matches Err(e) ==> (e.kind == ErrorKind::Parse || e.kind == ErrorKind::Type),
{
    let rels: Hierarchy<Arc<QRelation>> = relations.iter().cloned().collect();
    let parsed = parse_with_dialect(query, MySqlTranslator.dialect())
        .map_err(|e| Error { kind: ErrorKind::Parse, message: e.to_string() })?;
    QRelation::try_from((parsed.with(&rels), MySqlTranslator))
        .map_err(|e| Error { kind: ErrorKind::Type, message: e.to_string() })
}

/// As parse_to_relation_postgresql, with the Hive translator.
#[verifier::external_body]
pub(crate) fn parse_to_relation_hive(
    query: &str,
    relations: &Vec<(Vec<String>, Arc<QRelation>)>,
) -> (r: Result<QRelation, Error>)
    ensures
        r matches Err(e) ==> (e.kind == ErrorKind::Parse || e.kind == ErrorKind::Type),
{
    let rels: Hierarchy<Arc<QRelation>> = relations.iter().cloned().collect();
    let parsed = parse_with_dialect(query, HiveTranslator.dialect())
        .map_err(|e| Error { kind: ErrorKind::Parse, message: e.to_string() })?;
    QRelation::try_from((parsed.with(&rels), HiveTranslator))
        .map_err(|e| Error { kind: ErrorKind::Type, message: e.to_string() })
}

/// As parse_to_relation_postgresql, with the Databricks translator.
#[verifier::external_body]
pub(crate) fn parse_to_relation_databricks(
    query: &str,
    relations: &Vec<(Vec<String>, Arc<QRelation>)>,
) -> (r: Result<QRelation, Error>)
    ensures
        r matches Err(e) ==> (e.kind == ErrorKind::Parse || e.kind == ErrorKind::Type),
{
    let rels: Hierarchy<Arc<QRelation>> = relations.iter().cloned().collect();
    let parsed = parse_with_dialect(query, DatabricksTranslator.dialect())
        .map_err(|e| Error { kind: ErrorKind::Parse, message: e.to_string() })?;
    QRelation::try_from((parsed.with(&rels), DatabricksTranslator))
        .map_err(|e| Error { kind: ErrorKind::Type, message: e.to_string() })
}

/// As parse_to_relation_postgresql, with the RedshiftSql translator.
#[verifier::external_body]
pub(crate) fn parse_to_relation_redshiftsql(
    query: &str,
    relations: &Vec<(Vec<String>, Arc<QRelation>)>,
) -> (r: Result<QRelation, Error>)
    ensures
        r matches Err(e) ==> (e.kind == ErrorKind::Parse || e.kind == ErrorKind::Type),
{
    let rels: Hierarchy<Arc<QRelation>> = relations.iter().cloned().collect();
    let parsed = parse_with_dialect(query, RedshiftSqlTranslator.dialect())
        .map_err(|e| Error { kind: ErrorKind::Parse, message: e.to_string() })?;
    QRelation::try_from((parsed.with(&rels), RedshiftSqlTranslator))
        .map_err(|e| Error { kind: ErrorKind::Type, message: e.to_string() })
}

/// The PostgreSql rendering of a relation; a function of the relation alone
/// (the translation visits the stored tree, no fresh names are drawn).
pub uninterp spec fn postgresql_query_of(relation: QRelation) -> Seq<char>;

/// The MsSql rendering of a relation; a function of the relation alone.
pub uninterp spec fn mssql_query_of(relation: QRelation) -> Seq<char>;

/// The BigQuery rendering of a relation; a function of the relation alone.
pub uninterp spec fn bigquery_query_of(relation: QRelation) -> Seq<char>;

/// The MySql rendering of a relation; a function of the relation alone.
pub uninterp spec fn mysql_query_of(relation: QRelation) -> Seq<char>;

/// The Hive rendering of a relation; a function of the relation alone.
pub uninterp spec fn hive_query_of(relation: QRelation) -> Seq<char>;

/// The Databricks rendering of a relation; a function of the relation alone.
pub uninterp spec fn databricks_query_of(relation: QRelation) -> Seq<char>;

/// The RedshiftSql rendering of a relation; a function of the relation
/// alone.
pub uninterp spec fn redshiftsql_query_of(relation: QRelation) -> Seq<char>;

/// Relies on qrlew::ast::Query's conversion from a relation with the
/// PostgreSql translator, and on its display.  The translators have
/// unimplemented arms for some literal kinds (dates, times, binary and
/// nested values): rendering a relation holding such a literal aborts the
/// process instead of returning.
#[verifier::external_body]
pub(crate) fn render_postgresql(relation: &QRelation) -> (r: String)
    ensures
        r@ == postgresql_query_of(*relation),
{
    qrlew::ast::Query::from(RelationWithTranslator(relation, PostgreSqlTranslator)).to_string()
}

/// As render_postgresql, with the MsSql translator.
#[verifier::external_body]
pub(crate) fn render_mssql(relation: &QRelation) -> (r: String)
    ensures
        r@ == mssql_query_of(*relation),
{
    qrlew::ast::Query::from(RelationWithTranslator(relation, MsSqlTranslator)).to_string()
}

/// As render_postgresql, with the BigQuery translator.
#[verifier::external_body]
pub(crate) fn render_bigquery(relation: &QRelation) -> (r: String)
    ensures
        r@ == bigquery_query_of(*relation),
{
    qrlew::ast::Query::from(RelationWithTranslator(relation, BigQueryTranslator)).to_string()
}

/// As render_postgresql, with the MySql translator.
#[verifier::external_body]
pub(crate) fn render_mysql(relation: &QRelation) -> (r: String)
    ensures
        r@ == mysql_query_of(*relation),
{
    qrlew::ast::Query::from(RelationWithTranslator(relation, MySqlTranslator)).to_string()
}

/// As render_postgresql, with the Hive translator.
#[verifier::external_body]
pub(crate) fn render_hive(relation: &QRelation) -> (r: String)
    ensures
        r@ == hive_query_of(*relation),
{
    qrlew::ast::Query::from(RelationWithTranslator(relation, HiveTranslator)).to_string()
}

/// As render_postgresql, with the Databricks translator.
#[verifier::external_body]
pub(crate) fn render_databricks(relation: &QRelation) -> (r: String)
    ensures
        r@ == databricks_query_of(*relation),
{
    qrlew::ast::Query::from(RelationWithTranslator(relation, DatabricksTranslator)).to_string()
}

/// As render_postgresql, with the RedshiftSql translator.
#[verifier::external_body]
pub(crate) fn render_redshiftsql(relation: &QRelation) -> (r: String)
    ensures
        r@ == redshiftsql_query_of(*relation),
{
    qrlew::ast::Query::from(RelationWithTranslator(relation, RedshiftSqlTranslator)).to_string()
}

/// The base-table prefixes of a query under PostgreSql quoting, or nothing
/// where the query does not parse or a name is quoted wrongly; a function of
/// the query text alone.
pub uninterp spec fn postgresql_tables_prefix_of(query: Seq<char>) -> Option<Seq<Seq<char>>>;

/// As postgresql_tables_prefix_of, under MsSql quoting.
pub uninterp spec fn mssql_tables_prefix_of(query: Seq<char>) -> Option<Seq<Seq<char>>>;

/// As postgresql_tables_prefix_of, under BigQuery quoting.
pub uninterp spec fn bigquery_tables_prefix_of(query: Seq<char>) -> Option<Seq<Seq<char>>>;

/// As postgresql_tables_prefix_of, under MySql quoting.
pub uninterp spec fn mysql_tables_prefix_of(query: Seq<char>) -> Option<Seq<Seq<char>>>;

/// As postgresql_tables_prefix_of, under Hive quoting.
pub uninterp spec fn hive_tables_prefix_of(query: Seq<char>) -> Option<Seq<Seq<char>>>;

/// As postgresql_tables_prefix_of, under Databricks quoting.
pub uninterp spec fn databricks_tables_prefix_of(query: Seq<char>) -> Option<Seq<Seq<char>>>;

/// As postgresql_tables_prefix_of, under RedshiftSql quoting.
pub uninterp spec fn redshiftsql_tables_prefix_of(query: Seq<char>) -> Option<Seq<Seq<char>>>;

/// Relies on qrlew::sql::tables_prefix with the PostgreSql translator: the
/// leading identifier of every fully qualified base-table name in the query.
#[verifier::external_body]
pub(crate) fn tables_prefix_postgresql(query: &str) -> (r: Result<Vec<String>, Error>)
    ensures
        match r {
            Ok(v) => postgresql_tables_prefix_of(query@) == Some(v.deep_view()),
            Err(e) => postgresql_tables_prefix_of(query@) is None && e.kind == ErrorKind::Parse,
        },
{
    qrlew::sql::tables_prefix(query, PostgreSqlTranslator)
        .map_err(|e| Error { kind: ErrorKind::Parse, message: e.to_string() })
}

/// As tables_prefix_postgresql, with the MsSql translator.
#[verifier::external_body]
pub(crate) fn tables_prefix_mssql(query: &str) -> (r: Result<Vec<String>, Error>)
    ensures
        match r {
            Ok(v) => mssql_tables_prefix_of(query@) == Some(v.deep_view()),
            Err(e) => mssql_tables_prefix_of(query@) is None && e.kind == ErrorKind::Parse,
        },
{
    qrlew::sql::tables_prefix(query, MsSqlTranslator)
        .map_err(|e| Error { kind: ErrorKind::Parse, message: e.to_string() })
}

/// As tables_prefix_postgresql, with the BigQuery translator.
#[verifier::external_body]
pub(crate) fn tables_prefix_bigquery(query: &str) -> (r: Result<Vec<String>, Error>)
    ensures
        match r {
            Ok(v) => bigquery_tables_prefix_of(query@) == Some(v.deep_view()),
            Err(e) => bigquery_tables_prefix_of(query@) is None && e.kind == ErrorKind::Parse,
        },
{
    qrlew::sql::tables_prefix(query, BigQueryTranslator)
        .map_err(|e| Error { kind: ErrorKind::Parse, message: e.to_string() })
}

/// As tables_prefix_postgresql, with the MySql translator.
#[verifier::external_body]
pub(crate) fn tables_prefix_mysql(query: &str) -> (r: Result<Vec<String>, Error>)
    ensures
        match r {
            Ok(v) => mysql_tables_prefix_of(query@) == Some(v.deep_view()),
            Err(e) => mysql_tables_prefix_of(query@) is None && e.kind == ErrorKind::Parse,
        },
{
    qrlew::sql::tables_prefix(query, MySqlTranslator)
        .map_err(|e| Error { kind: ErrorKind::Parse, message: e.to_string() })
}

/// As tables_prefix_postgresql, with the Hive translator.
#[verifier::external_body]
pub(crate) fn tables_prefix_hive(query: &str) -> (r: Result<Vec<String>, Error>)
    ensures
        match r {
            Ok(v) => hive_tables_prefix_of(query@) == Some(v.deep_view()),
            Err(e) => hive_tables_prefix_of(query@) is None && e.kind == ErrorKind::Parse,
        },
{
    qrlew::sql::tables_prefix(query, HiveTranslator)
        .map_err(|e| Error { kind: ErrorKind::Parse, message: e.to_string() })
}

/// As tables_prefix_postgresql, with the Databricks translator.
#[verifier::external_body]
pub(crate) fn tables_prefix_databricks(query: &str) -> (r: Result<Vec<String>, Error>)
    ensures
        match r {
            Ok(v) => databricks_tables_prefix_of(query@) == Some(v.deep_view()),
            Err(e) => databricks_tables_prefix_of(query@) is None && e.kind == ErrorKind::Parse,
        },
{
    qrlew::sql::tables_prefix(query, DatabricksTranslator)
        .map_err(|e| Error { kind: ErrorKind::Parse, message: e.to_string() })
}

/// As tables_prefix_postgresql, with the RedshiftSql translator.
#[verifier::external_body]
pub(crate) fn tables_prefix_redshiftsql(query: &str) -> (r: Result<Vec<String>, Error>)
    ensures
        match r {
            Ok(v) => redshiftsql_tables_prefix_of(query@) == Some(v.deep_view()),
            Err(e) => redshiftsql_tables_prefix_of(query@) is None && e.kind == ErrorKind::Parse,
        },
{
    qrlew::sql::tables_prefix(query, RedshiftSqlTranslator)
        .map_err(|e| Error { kind: ErrorKind::Parse, message: e.to_string() })
}

/// Relies on the Clone of std::sync::Arc: a clone is the same shared value.
#[verifier::external_body]
pub(crate) fn arc_relation_clone(relation: &Arc<QRelation>) -> (r: Arc<QRelation>)
    ensures
        r == *relation,
{
    relation.clone()
}

/// Relies on qrlew::expr::Identifier's conversion from a path of names.
#[verifier::external_body]
pub(crate) fn identifier_from(path: Vec<String>) -> (r: Identifier) {
    Identifier::from(path)
}

/// Relies on qrlew::synthetic_data::SyntheticData::new: records which
/// synthetic table stands in for each original table path.
#[verifier::external_body]
pub(crate) fn synthetic_data_new(paths: Vec<(Vec<String>, Identifier)>) -> (r: SyntheticData) {
    SyntheticData::new(paths.into_iter().collect())
}

/// The views of a foreign-key chain: (foreign key, referenced table,
/// referenced field) hops.
pub open spec fn chain_view(chain: Seq<(String, String, String)>) -> Seq<
    (Seq<char>, Seq<char>, Seq<char>),
> {
    chain.map_values(|h: (String, String, String)| (h.0@, h.1@, h.2@))
}

/// The views of privacy-unit rows: (table, chain, protected-entity field).
pub open spec fn rows_view(rows: Seq<(String, Vec<(String, String, String)>, String)>) -> Seq<
    (Seq<char>, Seq<(Seq<char>, Seq<char>, Seq<char>)>, Seq<char>),
> {
    rows.map_values(
        |r: (String, Vec<(String, String, String)>, String)| (r.0@, chain_view(r.1@), r.2@),
    )
}

/// The views of privacy-unit rows that also carry a weight field.
pub open spec fn weighted_rows_view(
    rows: Seq<(String, Vec<(String, String, String)>, String, String)>,
) -> Seq<(Seq<char>, Seq<(Seq<char>, Seq<char>, Seq<char>)>, Seq<char>, Seq<char>)> {
    rows.map_values(
        |r: (String, Vec<(String, String, String)>, String, String)| (
            r.0@,
            chain_view(r.1@),
            r.2@,
            r.3@,
        ),
    )
}

/// The privacy unit built from rows and a hashing choice; a function of the
/// two alone.  The engine's conversion from bare rows builds the same value
/// as the one from (rows, true), so both share this name.
pub uninterp spec fn privacy_unit_of_rows(
    rows: Seq<(Seq<char>, Seq<(Seq<char>, Seq<char>, Seq<char>)>, Seq<char>)>,
    hash_privacy_unit: bool,
) -> PrivacyUnit;

/// The privacy unit built from weighted rows and a hashing choice; a
/// function of the two alone.
pub uninterp spec fn privacy_unit_of_weighted_rows(
    rows: Seq<(Seq<char>, Seq<(Seq<char>, Seq<char>, Seq<char>)>, Seq<char>, Seq<char>)>,
    hash_privacy_unit: bool,
) -> PrivacyUnit;

/// Relies on qrlew::privacy_unit_tracking::PrivacyUnit's conversion from a
/// list of (table, foreign-key chain, protected-entity field) rows, with
/// privacy-unit hashing on.
#[verifier::external_body]
pub(crate) fn privacy_unit_from_rows(
    rows: &Vec<(String, Vec<(String, String, String)>, String)>,
) -> (r: PrivacyUnit)
    ensures
        r == privacy_unit_of_rows(rows_view(rows@), true),
{
    let v: Vec<(&str, Vec<(&str, &str, &str)>, &str)> = rows.iter().map(
        |(t, path, f)| (t.as_str(), path.iter().map(|(a, b, c)| (a.as_str(), b.as_str(), c.as_str())).collect(), f.as_str()),
    ).collect();
    PrivacyUnit::from(v)
}

/// As privacy_unit_from_rows, with privacy-unit hashing as given.
#[verifier::external_body]
pub(crate) fn privacy_unit_from_rows_with_hash(
    rows: &Vec<(String, Vec<(String, String, String)>, String)>,
    hash_privacy_unit: bool,
) -> (r: PrivacyUnit)
    ensures
        r == privacy_unit_of_rows(rows_view(rows@), hash_privacy_unit),
{
    let v: Vec<(&str, Vec<(&str, &str, &str)>, &str)> = rows.iter().map(
        |(t, path, f)| (t.as_str(), path.iter().map(|(a, b, c)| (a.as_str(), b.as_str(), c.as_str())).collect(), f.as_str()),
    ).collect();
    PrivacyUnit::from((v, hash_privacy_unit))
}

/// As privacy_unit_from_rows_with_hash, for rows that also carry the name of
/// a weight field.
#[verifier::external_body]
pub(crate) fn privacy_unit_from_weighted_rows_with_hash(
    rows: &Vec<(String, Vec<(String, String, String)>, String, String)>,
    hash_privacy_unit: bool,
) -> (r: PrivacyUnit)
    ensures
        r == privacy_unit_of_weighted_rows(weighted_rows_view(rows@), hash_privacy_unit),
{
    let v: Vec<(&str, Vec<(&str, &str, &str)>, &str, &str)> = rows.iter().map(
        |(t, path, f, w)| (t.as_str(), path.iter().map(|(a, b, c)| (a.as_str(), b.as_str(), c.as_str())).collect(), f.as_str(), w.as_str()),
    ).collect();
    PrivacyUnit::from((v, hash_privacy_unit))
}

/// Relies on qrlew::privacy_unit_tracking::Strategy::Soft.
#[verifier::external_body]
pub(crate) fn strategy_soft() -> (r: QStrategy) {
    QStrategy::Soft
}

/// Relies on qrlew::privacy_unit_tracking::Strategy::Hard.
#[verifier::external_body]
pub(crate) fn strategy_hard() -> (r: QStrategy) {
    QStrategy::Hard
}

/// What a decimal text denotes as a 64-bit float, as its bit pattern, or
/// nothing where the text does not parse as a number; a function of the text
/// alone (str::parse with shortest-round-trip semantics).
pub uninterp spec fn f64_bits_of_text(text: Seq<char>) -> Option<u64>;

/// The bit pattern of the epsilon a DpParameters value holds; a function of
/// the value alone (a stored public field).
pub uninterp spec fn dp_epsilon_bits_of(parameters: DpParameters) -> u64;

/// The bit pattern of the delta a DpParameters value holds; a function of
/// the value alone (a stored public field).
pub uninterp spec fn dp_delta_bits_of(parameters: DpParameters) -> u64;

/// Relies on qrlew's DpParameters::from_epsilon_delta, with the engine's
/// default thresholding and multiplicity shares.  The budget values are
/// decimal strings, converted here and stored unchanged in the parameters.
#[verifier::external_body]
pub(crate) fn dp_parameters_from_epsilon_delta(epsilon: &str, delta: &str) -> (r: Result<
    DpParameters,
    Error,
>)
    ensures
        match r {
            Ok(p) => f64_bits_of_text(epsilon@) == Some(dp_epsilon_bits_of(p)) && f64_bits_of_text(
                delta@,
            ) == Some(dp_delta_bits_of(p)),
            Err(e) => (f64_bits_of_text(epsilon@) is None || f64_bits_of_text(delta@) is None)
                && e.kind == ErrorKind::Budget,
        },
        r is Ok <==> (f64_bits_of_text(epsilon@) is Some && f64_bits_of_text(delta@) is Some),
{
    let eps = epsilon.parse().map_err(|e| Error { kind: ErrorKind::Budget, message: format!("{e}") })?;
    let del = delta.parse().map_err(|e| Error { kind: ErrorKind::Budget, message: format!("{e}") })?;
    Ok(DpParameters::from_epsilon_delta(eps, del))
}

/// Relies on DpParameters::with_privacy_unit_max_multiplicity; the bound is
/// a decimal string, converted here.  A struct update: epsilon and delta are
/// kept.
#[verifier::external_body]
pub(crate) fn dp_parameters_with_max_multiplicity(
    parameters: DpParameters,
    max_multiplicity: &str,
) -> (r: Result<DpParameters, Error>)
    ensures
        r is Ok <==> f64_bits_of_text(max_multiplicity@) is Some,
        r matches Err(e) ==> e.kind == ErrorKind::Budget,
{
    let m = max_multiplicity.parse()
        .map_err(|e| Error { kind: ErrorKind::Budget, message: format!("{e}") })?;
    Ok(parameters.with_privacy_unit_max_multiplicity(m))
}

/// Relies on DpParameters::with_privacy_unit_max_multiplicity_share; the
/// bound is a decimal string, converted here.  A struct update: epsilon and
/// delta are kept.
#[verifier::external_body]
pub(crate) fn dp_parameters_with_max_multiplicity_share(
    parameters: DpParameters,
    max_multiplicity_share: &str,
) -> (r: Result<DpParameters, Error>)
    ensures
        r is Ok <==> f64_bits_of_text(max_multiplicity_share@) is Some,
        r matches Err(e) ==> e.kind == ErrorKind::Budget,
{
    let m = max_multiplicity_share.parse()
        .map_err(|e| Error { kind: ErrorKind::Budget, message: format!("{e}") })?;
    Ok(parameters.with_privacy_unit_max_multiplicity_share(m))
}

/// Relies on the public epsilon field of DpParameters: its bit pattern.
#[verifier::external_body]
pub(crate) fn dp_parameters_epsilon_bits(parameters: &DpParameters) -> (r: u64)
    ensures
        r == dp_epsilon_bits_of(*parameters),
{
    parameters.epsilon.to_bits()
}

/// Relies on the public delta field of DpParameters: its bit pattern.
#[verifier::external_body]
pub(crate) fn dp_parameters_delta_bits(parameters: &DpParameters) -> (r: u64)
    ensures
        r == dp_delta_bits_of(*parameters),
{
    parameters.delta.to_bits()
}

/// Relies on qrlew::relation::Relation::rewrite_as_privacy_unit_preserving:
/// attaches the privacy unit without spending noise budget.  With no
/// strategy the engine uses its hard strategy.  Every engine-side refusal
/// surfaces with the privacy-unit kind: the engine reports one rewrite error
/// for an unbindable privacy unit and for every other failed rewrite alike.
/// The engine also unwraps some rewrite steps (for example a synthetic-data
/// list that does not cover a table): such inputs abort the process instead
/// of returning.  The result is not named: rewriting draws fresh sampling
/// ids from a process-global counter.
#[verifier::external_body]
pub(crate) fn rewrite_as_privacy_unit_preserving(
    relation: &QRelation,
    relations: &Vec<(Vec<String>, Arc<QRelation>)>,
    synthetic_data: Option<SyntheticData>,
    privacy_unit: PrivacyUnit,
    dp_parameters: DpParameters,
    strategy: Option<QStrategy>,
) -> (r: Result<QRelationWithDpEvent, Error>)
    ensures
        r matches Err(e) ==> e.kind == ErrorKind::PrivacyUnit,
{
    let rels: Hierarchy<Arc<QRelation>> = relations.iter().cloned().collect();
    relation.rewrite_as_privacy_unit_preserving(&rels, synthetic_data, privacy_unit, dp_parameters, strategy)
        .map_err(|e| Error { kind: ErrorKind::PrivacyUnit, message: e.to_string() })
}

/// Relies on qrlew::relation::Relation::rewrite_with_differential_privacy:
/// rewrites the relation so that its aggregates are noised.  The same
/// caveats as for rewrite_as_privacy_unit_preserving hold: every engine-side
/// refusal, an unbounded aggregate included, surfaces with the privacy-unit
/// kind; some rewrite steps abort instead of returning; the result is not
/// named (fresh sampling ids from a process-global counter).
#[verifier::external_body]
pub(crate) fn rewrite_with_differential_privacy(
    relation: &QRelation,
    relations: &Vec<(Vec<String>, Arc<QRelation>)>,
    synthetic_data: Option<SyntheticData>,
    privacy_unit: PrivacyUnit,
    dp_parameters: DpParameters,
) -> (r: Result<QRelationWithDpEvent, Error>)
    ensures
        r matches Err(e) ==> e.kind == ErrorKind::PrivacyUnit,
{
    let rels: Hierarchy<Arc<QRelation>> = relations.iter().cloned().collect();
    relation.rewrite_with_differential_privacy(&rels, synthetic_data, privacy_unit, dp_parameters)
        .map_err(|e| Error { kind: ErrorKind::PrivacyUnit, message: e.to_string() })
}

/// Relies on RelationWithDpEvent::relation: the rewritten relation.
#[verifier::external_body]
pub(crate) fn rwdpe_relation(rewritten: &QRelationWithDpEvent) -> (r: Arc<QRelation>) {
    Arc::new(rewritten.relation().clone())
}

/// Relies on RelationWithDpEvent::dp_event: the accounting of the rewrite.
#[verifier::external_body]
pub(crate) fn rwdpe_dp_event(rewritten: &QRelationWithDpEvent) -> (r: DpEventValue) {
    dp_event_value(rewritten.dp_event())
}

/// Converts an engine accounting event into the crate's model, variant by
/// variant; floating-point fields become their bit patterns.  This function
/// and dp_event_value_sampled delegate to each other through their final
/// arms; together they handle every variant of the engine's event enum
/// concretely.
#[verifier::external_body]
pub(crate) fn dp_event_value(event: &QDpEvent) -> (r: DpEventValue) {
    match event {
        QDpEvent::NoOp => DpEventValue::NoOp,
        QDpEvent::Gaussian { noise_multiplier } => DpEventValue::Gaussian { noise_multiplier: noise_multiplier.to_bits() },
        QDpEvent::Laplace { noise_multiplier } => DpEventValue::Laplace { noise_multiplier: noise_multiplier.to_bits() },
        QDpEvent::EpsilonDelta { epsilon, delta } => DpEventValue::EpsilonDelta { epsilon: epsilon.to_bits(), delta: delta.to_bits() },
        QDpEvent::Composed { events } => DpEventValue::Composed { events: events.iter().map(dp_event_value).collect() },
        event => dp_event_value_sampled(event),
    }
}

/// Converts the sampling variants of an engine accounting event, variant by
/// variant.
#[verifier::external_body]
pub(crate) fn dp_event_value_sampled(event: &QDpEvent) -> (r: DpEventValue) {
    match event {
        QDpEvent::PoissonSampled { sampling_probability, event } => DpEventValue::PoissonSampled { sampling_probability: sampling_probability.to_bits(), event: Box::new(dp_event_value(event)) },
        QDpEvent::SampledWithReplacement { source_dataset_size, sample_size, event } => DpEventValue::SampledWithReplacement { source_dataset_size: *source_dataset_size, sample_size: *sample_size, event: Box::new(dp_event_value(event)) },
        QDpEvent::SampledWithoutReplacement { source_dataset_size, sample_size, event } => DpEventValue::SampledWithoutReplacement { source_dataset_size: *source_dataset_size, sample_size: *sample_size, event: Box::new(dp_event_value(event)) },
        event => dp_event_value(event),
    }
}

/// Whether a text parses as a SQL expression; a function of the text alone.
pub uninterp spec fn parses_as_expr(text: Seq<char>) -> bool;

/// Whether a text that parses as a SQL expression also converts into an
/// engine expression; a function of the text alone (the conversion succeeds
/// or fails by the expression's shape; only the ids it draws for random()
/// vary).
pub uninterp spec fn expr_of_text_converts(text: Seq<char>) -> bool;

/// Relies on qrlew::sql::parse_expr and on the conversion of the parsed
/// expression into an engine expression, then on Relation::with_field.  The
/// resulting relation is not named: an expression invoking random() draws a
/// fresh sampling id from a process-global counter, and the rebuild unwraps
/// its builder's errors, so an addition the schema refuses (for example a
/// field name colliding in the rebuilt map) can abort the process instead of
/// returning.
#[verifier::external_body]
pub(crate) fn relation_with_field(relation: &QRelation, name: &str, expr: &str) -> (r: Result<
    QRelation,
    Error,
>)
    ensures
        match r {
            Ok(_) => parses_as_expr(expr@) && expr_of_text_converts(expr@),
            Err(e) => (e.kind == ErrorKind::Parse || e.kind == ErrorKind::Type) && (
            !parses_as_expr(expr@) ==> e.kind == ErrorKind::Parse) && (parses_as_expr(expr@)
                && !expr_of_text_converts(expr@) ==> e.kind == ErrorKind::Type),
        },
{
    let parsed = qrlew::sql::parse_expr(expr)
        .map_err(|e| Error { kind: ErrorKind::Parse, message: e.to_string() })?;
    let converted: qrlew::expr::Expr = (&parsed).try_into()
        .map_err(|e: qrlew::sql::Error| Error { kind: ErrorKind::Type, message: e.to_string() })?;
    Ok(relation.clone().with_field(name, converted))
}

/// What renaming a relation's fields yields, given the (old name, new name)
/// mapping; a function of the relation and the mapping alone (the rebuilt
/// nodes are named by content hash).
pub uninterp spec fn renamed_relation_of(
    relation: QRelation,
    fields: Seq<(Seq<char>, Seq<char>)>,
) -> QRelation;

/// Relies on qrlew::relation::Relation::rename_fields; the closure hands
/// each field name to the crate's verified renaming function.  The rebuild
/// asserts that the renamed schema has no duplicate names and aborts
/// otherwise, so a mapping under which two field names collide is excluded
/// by the precondition.
#[verifier::external_body]
pub(crate) fn relation_rename_fields(relation: &QRelation, fields: &Vec<(String, String)>) -> (r:
    QRelation)
    requires
        forall|p: int, q: int|
            #![trigger field_names_of(*relation)[p], field_names_of(*relation)[q]]
            0 <= p < q < field_names_of(*relation).len() ==> crate::relation::renamed_spec(
                fields@,
                field_names_of(*relation)[p],
            ) != crate::relation::renamed_spec(fields@, field_names_of(*relation)[q]),
    ensures
        r == renamed_relation_of(*relation, crate::relation::string_pairs_view(fields@)),
{
    relation.clone().rename_fields(|n, _| crate::relation::renamed(fields, n))
}

/// The views of a list of (path, relation) substitution pairs.
pub open spec fn inner_pairs_view(inner: Seq<(Vec<String>, Arc<QRelation>)>) -> Seq<
    (Seq<Seq<char>>, Arc<QRelation>),
> {
    inner.map_values(|p: (Vec<String>, Arc<QRelation>)| (p.0.deep_view(), p.1))
}

/// The path keys of a list of (path, relation) substitution pairs.
pub open spec fn inner_keys_view(inner: Seq<(Vec<String>, Arc<QRelation>)>) -> Seq<
    Seq<Seq<char>>,
> {
    inner.map_values(|p: (Vec<String>, Arc<QRelation>)| p.0.deep_view())
}

/// What substituting a relation's base tables by path-keyed relations
/// yields; a function of the relation and the substitution alone (the
/// rebuilt nodes are named by content hash).
pub uninterp spec fn composed_of(
    relation: QRelation,
    inner: Seq<(Seq<Seq<char>>, Arc<QRelation>)>,
) -> QRelation;

/// Relies on qrlew::relation::Relation::compose: replaces the base tables of
/// the relation by the given path-keyed relations.  A table whose path the
/// hierarchy does not resolve would be kept unchanged by the engine, so the
/// precondition demands that every referenced path resolves.  The rebuild
/// can still abort the process where a substituted relation's schema is
/// incompatible with the table it replaces.
#[verifier::external_body]
pub(crate) fn relation_compose(
    relation: &QRelation,
    inner: &Vec<(Vec<String>, Arc<QRelation>)>,
) -> (r: QRelation)
    requires
        forall|i: int|
            0 <= i < table_paths_of(*relation).len() ==> hierarchy_contains_of(
                inner_keys_view(inner@),
                #[trigger] table_paths_of(*relation)[i],
            ),
    ensures
        r == composed_of(*relation, inner_pairs_view(inner@)),
{
    let h: Hierarchy<Arc<QRelation>> = inner.iter().cloned().collect();
    relation.compose(&h)
}

} // verus!
