//! Relations: immutable operator trees compiled from SQL queries, and their
//! privacy rewrites.

use vstd::prelude::*;

use crate::bindings;
use crate::dataset::Dataset;
use crate::dialect::Dialect;
use crate::dp_event::{DpEvent, RelationWithDpEvent};
use crate::error::{Error, ErrorKind, MissingKeyError};
use qrlew::differential_privacy::DpParameters;
use qrlew::privacy_unit_tracking::PrivacyUnit;
use qrlew::privacy_unit_tracking::Strategy as QStrategy;
use qrlew::relation::Relation as QRelation;
use qrlew::synthetic_data::SyntheticData;
use std::sync::Arc;

verus! {

/// The bit pattern of the smallest IEEE-754 double above every finite one.
pub const F64_INFINITY_BITS: u64 = 0x7FF0000000000000;

/// The bit pattern of the IEEE-754 double 1.0.
pub const F64_ONE_BITS: u64 = 0x3FF0000000000000;

/// The bit pattern of the IEEE-754 double -0.0.
pub const F64_NEGATIVE_ZERO_BITS: u64 = 0x8000000000000000;

/// An immutable operator tree (tables, maps, reduces, joins, set operations,
/// literal values) with a derived output schema, shared by reference count.
#[derive(Clone)]
pub struct Relation(pub Arc<QRelation>);

/// How strictly privacy-unit propagation must preserve the meaning of the
/// query: Soft fails whenever protecting would change the meaning, Hard
/// protects at all cost and succeeds most of the time.
#[derive(Clone, Copy, PartialEq, Eq, Structural, Debug)]
pub enum Strategy {
    Soft,
    Hard,
}

impl Strategy {
    /// The engine form of this strategy.
    pub(crate) fn to_engine(&self) -> QStrategy {
        match self {
            Strategy::Soft => bindings::strategy_soft(),
            Strategy::Hard => bindings::strategy_hard(),
        }
    }
}

/// A privacy-unit specification, in one of three accepted shapes.  Each row
/// names a table, the chain of (foreign key, referenced table, referenced
/// field) hops that reaches the protected entity, and the field naming the
/// protected entity; a table with an empty chain is its own privacy unit.
#[derive(Debug)]
pub enum PrivacyUnitType {
    /// Rows alone; the privacy unit is hashed.
    Type1(Vec<(String, Vec<(String, String, String)>, String)>),
    /// Rows with an explicit choice whether to hash the privacy unit.
    Type2((Vec<(String, Vec<(String, String, String)>, String)>, bool)),
    /// Rows that also carry the name of a weight field, with the hashing
    /// choice.
    Type3((Vec<(String, Vec<(String, String, String)>, String, String)>, bool)),
}

impl PrivacyUnitType {
    /// The engine form of this privacy-unit specification: exactly the given
    /// rows, with hashing on for the bare shape.
    pub(crate) fn to_engine(&self) -> (r: PrivacyUnit)
        ensures
            r == match self {
                PrivacyUnitType::Type1(rows) => bindings::privacy_unit_of_rows(
                    bindings::rows_view(rows@),
                    true,
                ),
                PrivacyUnitType::Type2((rows, hash)) => bindings::privacy_unit_of_rows(
                    bindings::rows_view(rows@),
                    *hash,
                ),
                PrivacyUnitType::Type3((rows, hash)) => bindings::privacy_unit_of_weighted_rows(
                    bindings::weighted_rows_view(rows@),
                    *hash,
                ),
            },
    {
        match self {
            PrivacyUnitType::Type1(rows) => bindings::privacy_unit_from_rows(rows),
            PrivacyUnitType::Type2((rows, hash)) => bindings::privacy_unit_from_rows_with_hash(
                rows,
                *hash,
            ),
            PrivacyUnitType::Type3((rows, hash)) => {
                bindings::privacy_unit_from_weighted_rows_with_hash(rows, *hash)
            },
        }
    }
}

/// The views of a list of (name, name) pairs.
pub open spec fn string_pairs_view(pairs: Seq<(String, String)>) -> Seq<(Seq<char>, Seq<char>)> {
    pairs.map_values(|p: (String, String)| (p.0@, p.1@))
}

/// The path keys of a list of (path, relation) pairs.
pub open spec fn relation_keys_view(relations: Seq<(Vec<String>, Relation)>) -> Seq<
    Seq<Seq<char>>,
> {
    relations.map_values(|p: (Vec<String>, Relation)| p.0.deep_view())
}

/// The views of a list of (path, relation) pairs, with each relation's
/// shared engine value.
pub open spec fn relation_pairs_view(relations: Seq<(Vec<String>, Relation)>) -> Seq<
    (Seq<Seq<char>>, Arc<QRelation>),
> {
    relations.map_values(|p: (Vec<String>, Relation)| (p.0.deep_view(), p.1.0))
}

/// The value of the named budget entry: that of the first pair with the
/// key, or nothing.
pub open spec fn budget_lookup(budget: Seq<(String, String)>, key: Seq<char>) -> Option<Seq<char>>
    decreases budget,
{
    if budget.len() == 0 {
        None
    } else if budget[0].0@ == key {
        Some(budget[0].1@)
    } else {
        budget_lookup(budget.drop_first(), key)
    }
}

/// Whether a text denotes a valid epsilon: a positive finite number.
pub open spec fn valid_epsilon_text(text: Seq<char>) -> bool {
    bindings::f64_bits_of_text(text) matches Some(bits) && 0 < bits < F64_INFINITY_BITS
}

/// Whether a text denotes a valid delta: a number in [0, 1).
pub open spec fn valid_delta_text(text: Seq<char>) -> bool {
    bindings::f64_bits_of_text(text) matches Some(bits) && (bits < F64_ONE_BITS || bits
        == F64_NEGATIVE_ZERO_BITS)
}

/// Whether an optional multiplicity bound denotes a number (or is absent).
pub open spec fn valid_bound_text(text: Option<&str>) -> bool {
    text matches Some(t) ==> bindings::f64_bits_of_text(t@) is Some
}

/// Whether the whole budget is acceptable: valid epsilon and delta texts and
/// parseable multiplicity bounds.
pub open spec fn valid_budget(
    epsilon: Seq<char>,
    delta: Seq<char>,
    max_multiplicity: Option<&str>,
    max_multiplicity_share: Option<&str>,
) -> bool {
    valid_epsilon_text(epsilon) && valid_delta_text(delta) && valid_bound_text(max_multiplicity)
        && valid_bound_text(max_multiplicity_share)
}

/// The value of the named budget entry, or a missing-key error naming the
/// key, exactly when no entry has it.
pub fn budget_value(budget: &Vec<(String, String)>, key: &str) -> (r: Result<String, Error>)
    ensures
        match r {
            Ok(v) => budget_lookup(budget@, key@) == Some(v@),
            Err(e) => budget_lookup(budget@, key@) is None && e.kind == ErrorKind::MissingKey
                && e.message@ == key@,
        },
{
    let k = key.to_string();
    let mut i: usize = 0;
    proof {
        assert(budget@.skip(0) =~= budget@);
    }
    while i < budget.len()
        invariant
            i <= budget@.len(),
            k@ == key@,
            budget_lookup(budget@.skip(i as int), key@) == budget_lookup(budget@, key@),
        decreases budget@.len() - i,
    {
        proof {
            assert(budget@.skip(i as int)[0] == budget@[i as int]);
        }
        if budget[i].0 == k {
            return Ok(budget[i].1.clone());
        }
        proof {
            assert(budget@.skip(i as int).drop_first() =~= budget@.skip(i as int + 1));
        }
        i = i + 1;
    }
    proof {
        assert(budget@.skip(budget@.len() as int).len() == 0);
    }
    Err(Error::from(MissingKeyError(k)))
}

/// The name a field gets under a renaming: the replacement of the last
/// entry that maps it — later entries override earlier ones, as in a map
/// collected from the pairs — or the name unchanged.
pub open spec fn renamed_spec(fields: Seq<(String, String)>, name: Seq<char>) -> Seq<char>
    decreases fields,
{
    if fields.len() == 0 {
        name
    } else if fields.last().0@ == name {
        fields.last().1@
    } else {
        renamed_spec(fields.drop_last(), name)
    }
}

/// The name a field gets under a renaming.
pub fn renamed(fields: &Vec<(String, String)>, name: &str) -> (r: String)
    ensures
        r@ == renamed_spec(fields@, name@),
{
    let n = name.to_string();
    let mut result = n.clone();
    let mut i: usize = 0;
    proof {
        assert(fields@.take(0).len() == 0);
    }
    while i < fields.len()
        invariant
            i <= fields@.len(),
            n@ == name@,
            result@ == renamed_spec(fields@.take(i as int), name@),
        decreases fields@.len() - i,
    {
        proof {
            assert(fields@.take(i as int + 1).last() == fields@[i as int]);
            assert(fields@.take(i as int + 1).drop_last() =~= fields@.take(i as int));
        }
        if fields[i].0 == n {
            result = fields[i].1.clone();
        }
        i = i + 1;
    }
    proof {
        assert(fields@.take(fields@.len() as int) =~= fields@);
    }
    result
}

/// Builds the engine form of a synthetic-data substitution list.
fn synthetic_data_of(pairs: &Vec<(Vec<String>, Vec<String>)>) -> SyntheticData {
    let mut v: Vec<(Vec<String>, qrlew::expr::Identifier)> = Vec::new();
    let mut i: usize = 0;
    while i < pairs.len()
        invariant
            i <= pairs@.len(),
        decreases pairs@.len() - i,
    {
        v.push((pairs[i].0.clone(), bindings::identifier_from(pairs[i].1.clone())));
        i = i + 1;
    }
    bindings::synthetic_data_new(v)
}

/// Builds the engine's privacy parameters from the epsilon and delta budget
/// values and the optional multiplicity bounds, and checks the budget:
/// epsilon must denote a positive finite number, delta a number in [0, 1),
/// and each given bound a number.
fn checked_dp_parameters(
    epsilon: &str,
    delta: &str,
    max_multiplicity: Option<&str>,
    max_multiplicity_share: Option<&str>,
) -> (r: Result<DpParameters, Error>)
    ensures
        r is Ok <==> valid_budget(epsilon@, delta@, max_multiplicity, max_multiplicity_share),
        r matches Err(e) ==> e.kind == ErrorKind::Budget,
{
    let parameters = match bindings::dp_parameters_from_epsilon_delta(epsilon, delta) {
        Ok(p) => p,
        Err(e) => {
            return Err(e);
        },
    };
    let epsilon_bits = bindings::dp_parameters_epsilon_bits(&parameters);
    if epsilon_bits == 0 || epsilon_bits >= F64_INFINITY_BITS {
        return Err(
            Error {
                kind: ErrorKind::Budget,
                message: "epsilon must be a positive finite number".to_string(),
            },
        );
    }
    let delta_bits = bindings::dp_parameters_delta_bits(&parameters);
    if !(delta_bits < F64_ONE_BITS || delta_bits == F64_NEGATIVE_ZERO_BITS) {
        return Err(
            Error {
                kind: ErrorKind::Budget,
                message: "delta must be a number in [0, 1)".to_string(),
            },
        );
    }
    let parameters = match max_multiplicity {
        Some(m) => match bindings::dp_parameters_with_max_multiplicity(parameters, m) {
            Ok(p) => p,
            Err(e) => {
                return Err(e);
            },
        },
        None => parameters,
    };
    match max_multiplicity_share {
        Some(s) => bindings::dp_parameters_with_max_multiplicity_share(parameters, s),
        None => Ok(parameters),
    }
}

impl Relation {
    /// Wraps an engine relation.
    pub fn new(relation: Arc<QRelation>) -> (r: Relation)
        ensures
            r.0 == relation,
    {
        Relation(relation)
    }

    /// Compiles a SQL query against a dataset.  When no dialect is given,
    /// PostgreSql is assumed.  The compiled relation is not a function of
    /// the inputs (the engine draws fresh names for unnamed derived tables,
    /// literal VALUES nodes and random() expressions from a process-global
    /// counter), so the success case is not pinned; an ill-typed query can
    /// make the engine abort instead of returning the type-kind error.
    pub fn from_query(query: &str, dataset: &Dataset, dialect: Option<Dialect>) -> (r: Result<
        Relation,
        Error,
    >)
        ensures
            r matches Err(e) ==> (e.kind == ErrorKind::Parse || e.kind == ErrorKind::Type),
    {
        dataset.relation(query, dialect)
    }

    /// The display form of this relation's schema.  The schema is stored in
    /// the relation node, so the result is a function of the relation alone:
    /// deriving it twice yields identical text.
    pub fn schema(&self) -> (r: String)
        ensures
            r@ == bindings::schema_display_of(*self.0),
    {
        bindings::relation_schema_display(&self.0)
    }

    /// The serialized protobuf form of this relation's schema data type: a
    /// function of the relation alone, so two calls agree.
    pub fn type_(&self) -> (r: Result<String, Error>)
        ensures
            match r {
                Ok(s) => bindings::type_json_of(*self.0) == Some(s@),
                Err(e) => bindings::type_json_of(*self.0) is None && e.kind
                    == ErrorKind::Translation,
            },
    {
        bindings::relation_type_json(&self.0)
    }

    /// The GraphViz form of this relation: a function of the relation alone,
    /// so two calls agree.
    pub fn dot(&self) -> (r: Result<String, Error>)
        ensures
            match r {
                Ok(s) => bindings::dot_of(*self.0) == Some(s@),
                Err(e) => bindings::dot_of(*self.0) is None && e.kind == ErrorKind::Translation,
            },
    {
        bindings::relation_dot(&self.0)
    }

    /// Renders this relation as a SQL query in the given dialect.  When no
    /// dialect is given, PostgreSql is assumed.  Rendering is a function of
    /// the relation and the dialect alone; a relation holding a literal the
    /// dialect's translator does not implement makes the engine abort
    /// instead of returning.
    pub fn to_query(&self, dialect: Option<Dialect>) -> (r: String)
        ensures
            r@ == rendered_query_of(*self.0, effective_dialect(dialect)),
    {
        let d = match dialect {
            Some(d) => d,
            None => Dialect::PostgreSql,
        };
        match d {
            Dialect::PostgreSql => bindings::render_postgresql(&self.0),
            Dialect::MsSql => bindings::render_mssql(&self.0),
            Dialect::BigQuery => bindings::render_bigquery(&self.0),
            Dialect::MySql => bindings::render_mysql(&self.0),
            Dialect::Hive => bindings::render_hive(&self.0),
            Dialect::Databricks => bindings::render_databricks(&self.0),
            Dialect::RedshiftSql => bindings::render_redshiftsql(&self.0),
        }
    }

    /// Rewrites this relation so that the privacy unit is tracked through
    /// the query, spending no noise budget.  The budget must name "epsilon"
    /// and "delta": a missing key is reported as a missing-key error naming
    /// it; epsilon must denote a positive finite number, delta a number in
    /// [0, 1) and each given multiplicity bound a number, else the budget is
    /// refused.  With no strategy the engine's hard strategy is used.  Every
    /// engine-side refusal, a privacy unit that cannot be bound first among
    /// them, carries the privacy-unit kind.  No clause pins the returned
    /// accounting event: the engine's chosen plan may rewrite an inner
    /// aggregate under differential privacy even for this entry point (its
    /// rewriter composes that mechanism's event in), so its source does not
    /// show that the accounting spends nothing.
    pub fn rewrite_as_privacy_unit_preserving(
        &self,
        dataset: &Dataset,
        privacy_unit: &PrivacyUnitType,
        epsilon_delta: &Vec<(String, String)>,
        max_multiplicity: Option<&str>,
        max_multiplicity_share: Option<&str>,
        synthetic_data: Option<&Vec<(Vec<String>, Vec<String>)>>,
        strategy: Option<Strategy>,
    ) -> (r: Result<RelationWithDpEvent, Error>)
        ensures
            budget_lookup(epsilon_delta@, "epsilon"@) is None ==> (r matches Err(e) && e.kind
                == ErrorKind::MissingKey && e.message@ == "epsilon"@),
            budget_lookup(epsilon_delta@, "epsilon"@) is Some && budget_lookup(
                epsilon_delta@,
                "delta"@,
            ) is None ==> (r matches Err(e) && e.kind == ErrorKind::MissingKey && e.message@
                == "delta"@),
            budget_lookup(epsilon_delta@, "epsilon"@) matches Some(eps) ==> budget_lookup(
                epsilon_delta@,
                "delta"@,
            ) matches Some(del) ==> ((r matches Err(e) && e.kind == ErrorKind::Budget)
                <==> !valid_budget(eps, del, max_multiplicity, max_multiplicity_share)),
            r matches Err(e) ==> (e.kind == ErrorKind::MissingKey || e.kind == ErrorKind::Budget
                || e.kind == ErrorKind::PrivacyUnit),
    {
        let epsilon = match budget_value(epsilon_delta, "epsilon") {
            Ok(v) => v,
            Err(e) => {
                return Err(e);
            },
        };
        let delta = match budget_value(epsilon_delta, "delta") {
            Ok(v) => v,
            Err(e) => {
                return Err(e);
            },
        };
        let parameters = match checked_dp_parameters(
            epsilon.as_str(),
            delta.as_str(),
            max_multiplicity,
            max_multiplicity_share,
        ) {
            Ok(p) => p,
            Err(e) => {
                return Err(e);
            },
        };
        let synthetic = match synthetic_data {
            Some(pairs) => Some(synthetic_data_of(pairs)),
            None => None,
        };
        let engine_strategy = match strategy {
            Some(s) => Some(s.to_engine()),
            None => None,
        };
        let relations = bindings::dataset_relations(&dataset.data);
        match bindings::rewrite_as_privacy_unit_preserving(
            &self.0,
            &relations,
            synthetic,
            privacy_unit.to_engine(),
            parameters,
            engine_strategy,
        ) {
            Ok(rewritten) => {
                let relation = Relation::new(bindings::rwdpe_relation(&rewritten));
                let event = DpEvent::new(bindings::rwdpe_dp_event(&rewritten));
                Ok(RelationWithDpEvent::new(relation, event))
            },
            Err(e) => Err(e),
        }
    }

    /// Rewrites this relation into a differentially private equivalent:
    /// aggregates are noised and the spending is accounted.  The budget is
    /// checked as for rewrite_as_privacy_unit_preserving; every engine-side
    /// refusal, an unbindable privacy unit or an unbounded aggregate among
    /// them, carries the privacy-unit kind.
    pub fn rewrite_with_differential_privacy(
        &self,
        dataset: &Dataset,
        privacy_unit: &PrivacyUnitType,
        epsilon_delta: &Vec<(String, String)>,
        max_multiplicity: Option<&str>,
        max_multiplicity_share: Option<&str>,
        synthetic_data: Option<&Vec<(Vec<String>, Vec<String>)>>,
    ) -> (r: Result<RelationWithDpEvent, Error>)
        ensures
            budget_lookup(epsilon_delta@, "epsilon"@) is None ==> (r matches Err(e) && e.kind
                == ErrorKind::MissingKey && e.message@ == "epsilon"@),
            budget_lookup(epsilon_delta@, "epsilon"@) is Some && budget_lookup(
                epsilon_delta@,
                "delta"@,
            ) is None ==> (r matches Err(e) && e.kind == ErrorKind::MissingKey && e.message@
                == "delta"@),
            budget_lookup(epsilon_delta@, "epsilon"@) matches Some(eps) ==> budget_lookup(
                epsilon_delta@,
                "delta"@,
            ) matches Some(del) ==> ((r matches Err(e) && e.kind == ErrorKind::Budget)
                <==> !valid_budget(eps, del, max_multiplicity, max_multiplicity_share)),
            r matches Err(e) ==> (e.kind == ErrorKind::MissingKey || e.kind == ErrorKind::Budget
                || e.kind == ErrorKind::PrivacyUnit),
    {
        let epsilon = match budget_value(epsilon_delta, "epsilon") {
            Ok(v) => v,
            Err(e) => {
                return Err(e);
            },
        };
        let delta = match budget_value(epsilon_delta, "delta") {
            Ok(v) => v,
            Err(e) => {
                return Err(e);
            },
        };
        let parameters = match checked_dp_parameters(
            epsilon.as_str(),
            delta.as_str(),
            max_multiplicity,
            max_multiplicity_share,
        ) {
            Ok(p) => p,
            Err(e) => {
                return Err(e);
            },
        };
        let synthetic = match synthetic_data {
            Some(pairs) => Some(synthetic_data_of(pairs)),
            None => None,
        };
        let relations = bindings::dataset_relations(&dataset.data);
        match bindings::rewrite_with_differential_privacy(
            &self.0,
            &relations,
            synthetic,
            privacy_unit.to_engine(),
            parameters,
        ) {
            Ok(rewritten) => {
                let relation = Relation::new(bindings::rwdpe_relation(&rewritten));
                let event = DpEvent::new(bindings::rwdpe_dp_event(&rewritten));
                Ok(RelationWithDpEvent::new(relation, event))
            },
            Err(e) => Err(e),
        }
    }

    /// Returns a new relation in which every field named by the mapping is
    /// renamed to its replacement, and every other field keeps its name.
    /// A mapping under which two of this relation's fields would end up
    /// with the same name is rejected with a type error: field names within
    /// a schema must stay unique, and this is checked eagerly here.
    pub fn rename_fields(&self, fields: &Vec<(String, String)>) -> (r: Result<Relation, Error>)
        ensures
            r is Ok <==> (forall|p: int, q: int|
                #![trigger bindings::field_names_of(*self.0)[p], bindings::field_names_of(*self.0)[q]]
                0 <= p < q < bindings::field_names_of(*self.0).len() ==> renamed_spec(
                    fields@,
                    bindings::field_names_of(*self.0)[p],
                ) != renamed_spec(fields@, bindings::field_names_of(*self.0)[q])),
            r matches Ok(rel) ==> rel.0 == bindings::renamed_relation_of(
                *self.0,
                string_pairs_view(fields@),
            ),
            r matches Err(e) ==> e.kind == ErrorKind::Type,
    {
        let names = bindings::relation_field_names(&self.0);
        let mut renamed_names: Vec<String> = Vec::new();
        let mut i: usize = 0;
        while i < names.len()
            invariant
                i <= names@.len(),
                names@.len() == bindings::field_names_of(*self.0).len(),
                forall|j: int|
                    0 <= j < names@.len() ==> (#[trigger] names@[j])@ == bindings::field_names_of(
                        *self.0,
                    )[j],
                renamed_names@.len() == i as int,
                forall|j: int|
                    0 <= j < i as int ==> (#[trigger] renamed_names@[j])@ == renamed_spec(
                        fields@,
                        bindings::field_names_of(*self.0)[j],
                    ),
            decreases names@.len() - i,
        {
            renamed_names.push(renamed(fields, names[i].as_str()));
            i = i + 1;
        }
        let n = renamed_names.len();
        let mut a: usize = 0;
        while a < n
            invariant
                n == renamed_names@.len(),
                renamed_names@.len() == bindings::field_names_of(*self.0).len(),
                forall|j: int|
                    0 <= j < n as int ==> (#[trigger] renamed_names@[j])@ == renamed_spec(
                        fields@,
                        bindings::field_names_of(*self.0)[j],
                    ),
                a <= n,
                forall|p: int, q: int|
                    #![trigger renamed_names@[p], renamed_names@[q]]
                    0 <= p < q < n as int && p < a as int ==> renamed_names@[p]@
                        != renamed_names@[q]@,
            decreases n - a,
        {
            let mut b: usize = a + 1;
            while b < n
                invariant
                    n == renamed_names@.len(),
                    renamed_names@.len() == bindings::field_names_of(*self.0).len(),
                    forall|j: int|
                        0 <= j < n as int ==> (#[trigger] renamed_names@[j])@ == renamed_spec(
                            fields@,
                            bindings::field_names_of(*self.0)[j],
                        ),
                    a < n,
                    a < b <= n,
                    forall|q: int|
                        (a as int) < q < (b as int) ==> renamed_names@[a as int]@ != (
                        #[trigger] renamed_names@[q])@,
                decreases n - b,
            {
                if renamed_names[a] == renamed_names[b] {
                    return Err(
                        Error {
                            kind: ErrorKind::Type,
                            message: "renaming would give two fields the same name".to_string(),
                        },
                    );
                }
                b = b + 1;
            }
            a = a + 1;
        }
        proof {
            assert forall|p: int, q: int|
                0 <= p < q < bindings::field_names_of(*self.0).len() implies renamed_spec(
                fields@,
                #[trigger] bindings::field_names_of(*self.0)[p],
            ) != renamed_spec(fields@, #[trigger] bindings::field_names_of(*self.0)[q]) by {
                assert(renamed_names@[p]@ == renamed_spec(
                    fields@,
                    bindings::field_names_of(*self.0)[p],
                ));
                assert(renamed_names@[q]@ == renamed_spec(
                    fields@,
                    bindings::field_names_of(*self.0)[q],
                ));
            }
        }
        Ok(Relation::new(Arc::new(bindings::relation_rename_fields(&self.0, fields))))
    }

    /// Substitutes the base tables of this relation by the given path-keyed
    /// relations.  Fails with a type error exactly when some base table this
    /// relation refers to has no entry the engine's path lookup resolves;
    /// with every path resolved, the result is the engine's substitution, a
    /// function of this relation and the given relations alone.
    pub fn compose(&self, relations: &Vec<(Vec<String>, Relation)>) -> (r: Result<Relation, Error>)
        ensures
            r is Ok <==> (forall|i: int|
                0 <= i < bindings::table_paths_of(*self.0).len()
                    ==> bindings::hierarchy_contains_of(
                    relation_keys_view(relations@),
                    #[trigger] bindings::table_paths_of(*self.0)[i],
                )),
            r matches Ok(rel) ==> rel.0 == bindings::composed_of(
                *self.0,
                relation_pairs_view(relations@),
            ),
            r matches Err(e) ==> e.kind == ErrorKind::Type,
    {
        let referenced = bindings::relation_table_paths(&self.0);
        let mut i: usize = 0;
        while i < referenced.len()
            invariant
                i <= referenced@.len(),
                referenced@.len() == bindings::table_paths_of(*self.0).len(),
                forall|j: int|
                    0 <= j < referenced@.len() ==> (#[trigger] referenced@[j]).deep_view()
                        == bindings::table_paths_of(*self.0)[j],
                forall|j: int|
                    0 <= j < i as int ==> bindings::hierarchy_contains_of(
                        relation_keys_view(relations@),
                        #[trigger] bindings::table_paths_of(*self.0)[j],
                    ),
            decreases referenced@.len() - i,
        {
            if !bindings::relations_contain_path(relations, &referenced[i]) {
                return Err(
                    Error {
                        kind: ErrorKind::Type,
                        message: "a table path of the relation is absent from the given relations"
                            .to_string(),
                    },
                );
            }
            i = i + 1;
        }
        let mut inner: Vec<(Vec<String>, Arc<QRelation>)> = Vec::new();
        let mut k: usize = 0;
        while k < relations.len()
            invariant
                k <= relations@.len(),
                inner@.len() == k as int,
                forall|j: int|
                    0 <= j < k as int ==> (#[trigger] inner@[j]).0.deep_view()
                        == relations@[j].0.deep_view() && inner@[j].1 == relations@[j].1.0,
            decreases relations@.len() - k,
        {
            inner.push(
                (
                    crate::dataset::clone_path(&relations[k].0),
                    bindings::arc_relation_clone(&relations[k].1.0),
                ),
            );
            k = k + 1;
        }
        proof {
            assert(bindings::inner_keys_view(inner@) =~= relation_keys_view(relations@));
            assert(bindings::inner_pairs_view(inner@) =~~= relation_pairs_view(relations@));
        }
        Ok(Relation::new(Arc::new(bindings::relation_compose(&self.0, &inner))))
    }

    /// Returns a new relation with one more field, computed by the given SQL
    /// expression over the input fields.  An expression that does not parse
    /// is rejected with a parse error; one that parses but cannot be
    /// converted into an engine expression with a type error.  No success is
    /// promised beyond that: an addition the schema refuses (an unknown
    /// field, a colliding name) makes the engine abort instead of returning,
    /// and the new relation's value is not pinned (an expression invoking
    /// random() draws a fresh sampling id from a process-global counter).
    pub fn with_field(&self, name: &str, expr: &str) -> (r: Result<Relation, Error>)
        ensures
            match r {
                Ok(_) => bindings::parses_as_expr(expr@) && bindings::expr_of_text_converts(
                    expr@,
                ),
                Err(e) => (e.kind == ErrorKind::Parse || e.kind == ErrorKind::Type) && (
                !bindings::parses_as_expr(expr@) ==> e.kind == ErrorKind::Parse) && (
                bindings::parses_as_expr(expr@) && !bindings::expr_of_text_converts(expr@)
                    ==> e.kind == ErrorKind::Type),
            },
    {
        match bindings::relation_with_field(&self.0, name, expr) {
            Ok(rel) => Ok(Relation::new(Arc::new(rel))),
            Err(e) => Err(e),
        }
    }
}

/// The dialect a rendering call uses: the given one, or PostgreSql.
pub open spec fn effective_dialect(dialect: Option<Dialect>) -> Dialect {
    match dialect {
        Some(d) => d,
        None => Dialect::PostgreSql,
    }
}

/// The rendering of a relation in a dialect: a function of the two alone.
pub open spec fn rendered_query_of(relation: QRelation, dialect: Dialect) -> Seq<char> {
    match dialect {
        Dialect::PostgreSql => bindings::postgresql_query_of(relation),
        Dialect::MsSql => bindings::mssql_query_of(relation),
        Dialect::BigQuery => bindings::bigquery_query_of(relation),
        Dialect::MySql => bindings::mysql_query_of(relation),
        Dialect::Hive => bindings::hive_query_of(relation),
        Dialect::Databricks => bindings::databricks_query_of(relation),
        Dialect::RedshiftSql => bindings::redshiftsql_query_of(relation),
    }
}

/// Deriving a relation's schema is deterministic: two schema derivations of
/// the same relation yield identical text.
pub proof fn lemma_schema_derivation_deterministic(
    relation: QRelation,
    first: Seq<char>,
    second: Seq<char>,
)
    requires
        first == bindings::schema_display_of(relation),
        second == bindings::schema_display_of(relation),
    ensures
        first == second,
{
}

} // verus!
