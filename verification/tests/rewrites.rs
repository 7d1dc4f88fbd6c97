use dp_sql::dataset::Dataset;
use dp_sql::dp_event::DpEventValue;
use dp_sql::error::ErrorKind;
use dp_sql::relation::{budget_value, PrivacyUnitType, Relation, Strategy};

const DATASET: &str = r#"{"@type": "sarus_data_spec/sarus_data_spec.Dataset", "uuid": "e9cb9391ca184e89897f49bd75387a46", "name": "Transformed", "spec": {"transformed": {"transform": "98f18c2b0beb406088193dab26e24552", "arguments": [], "named_arguments": {}}}, "properties": {}, "doc": "This ia a demo dataset for testing purpose"}"#;
const SCHEMA: &str = r#"{"@type": "sarus_data_spec/sarus_data_spec.Schema", "uuid": "5321f24ffb324a9e958c77ceb09b6cc8", "dataset": "c0d13d2c5d404e2c9930e01f63e18cee", "name": "extract", "type": {"name": "extract", "struct": {"fields": [{"name": "sarus_data", "type": {"name": "Union", "union": {"fields": [{"name": "extract", "type": {"name": "Union", "union": {"fields": [{"name": "beacon", "type": {"name": "Struct", "struct": {"fields": [{"name": "\u691c\u77e5\u65e5\u6642", "type": {"name": "Datetime", "datetime": {"format": "%Y-%m-%d %H:%M:%S", "min": "01-01-01 00:00:00", "max": "9999-12-31 00:00:00"}, "properties": {}}}, {"name": "UserId", "type": {"name": "Text UTF-8", "text": {"encoding": "UTF-8"}, "properties": {}}}, {"name": "\u6240\u5c5e\u90e8\u7f72", "type": {"name": "Text UTF-8", "text": {"encoding": "UTF-8"}, "properties": {}}}, {"name": "\u30d5\u30ed\u30a2\u540d", "type": {"name": "Text UTF-8", "text": {"encoding": "UTF-8"}, "properties": {}}}, {"name": "Beacon\u540d", "type": {"name": "Text UTF-8", "text": {"encoding": "UTF-8"}, "properties": {}}}, {"name": "RSSI", "type": {"name": "Integer", "integer": {"base": "INT64", "min": "-9223372036854775808", "max": "9223372036854775807", "possible_values": []}, "properties": {}}}, {"name": "\u30de\u30c3\u30d7\u306eX\u5ea7\u6a19", "type": {"name": "Integer", "integer": {"base": "INT64", "min": "-9223372036854775808", "max": "9223372036854775807", "possible_values": []}, "properties": {}}}, {"name": "\u30de\u30c3\u30d7\u306eY\u5ea7\u6a19", "type": {"name": "Integer", "integer": {"base": "INT64", "min": "-9223372036854775808", "max": "9223372036854775807", "possible_values": []}, "properties": {}}}]}, "properties": {}}}, {"name": "census", "type": {"name": "Struct", "struct": {"fields": [{"name": "age", "type": {"name": "Integer", "integer": {"base": "INT64", "min": "-9223372036854775808", "max": "9223372036854775807", "possible_values": []}, "properties": {}}}, {"name": "workclass", "type": {"name": "Text UTF-8", "text": {"encoding": "UTF-8"}, "properties": {}}}, {"name": "fnlwgt", "type": {"name": "Text UTF-8", "text": {"encoding": "UTF-8"}, "properties": {}}}, {"name": "education", "type": {"name": "Text UTF-8", "text": {"encoding": "UTF-8"}, "properties": {}}}, {"name": "education_num", "type": {"name": "Integer", "integer": {"base": "INT64", "min": "-9223372036854775808", "max": "9223372036854775807", "possible_values": []}, "properties": {}}}, {"name": "marital_status", "type": {"name": "Text UTF-8", "text": {"encoding": "UTF-8"}, "properties": {}}}, {"name": "occupation", "type": {"name": "Text UTF-8", "text": {"encoding": "UTF-8"}, "properties": {}}}, {"name": "relationship", "type": {"name": "Text UTF-8", "text": {"encoding": "UTF-8"}, "properties": {}}}, {"name": "race", "type": {"name": "Text UTF-8", "text": {"encoding": "UTF-8"}, "properties": {}}}, {"name": "sex", "type": {"name": "Text UTF-8", "text": {"encoding": "UTF-8"}, "properties": {}}}, {"name": "capital_gain", "type": {"name": "Integer", "integer": {"base": "INT64", "min": "-9223372036854775808", "max": "9223372036854775807", "possible_values": []}, "properties": {}}}, {"name": "capital_loss", "type": {"name": "Integer", "integer": {"base": "INT64", "min": "-9223372036854775808", "max": "9223372036854775807", "possible_values": []}, "properties": {}}}, {"name": "hours_per_week", "type": {"name": "Integer", "integer": {"base": "INT64", "min": "-9223372036854775808", "max": "9223372036854775807", "possible_values": []}, "properties": {}}}, {"name": "native_country", "type": {"name": "Text UTF-8", "text": {"encoding": "UTF-8"}, "properties": {}}}, {"name": "income", "type": {"name": "Text UTF-8", "text": {"encoding": "UTF-8"}, "properties": {}}}]}, "properties": {}}}]}, "properties": {"public_fields": "[]"}}}]}, "properties": {"public_fields": "[]"}}}, {"name": "sarus_weights", "type": {"name": "Integer", "integer": {"min": "-9223372036854775808", "max": "9223372036854775807", "base": "INT64", "possible_values": []}, "properties": {}}}, {"name": "sarus_is_public", "type": {"name": "Boolean", "boolean": {}, "properties": {}}}, {"name": "sarus_privacy_unit", "type": {"name": "Id", "id": {"base": "STRING", "unique": false}, "properties": {}}}]}, "properties": {}}, "protected": {"label": "data", "paths": [], "properties": {}}, "properties": {"max_max_multiplicity": "1", "foreign_keys": "", "primary_keys": ""}}"#;
const SIZE: &str = r#"{"@type": "sarus_data_spec/sarus_data_spec.Size", "uuid": "cd8ec3f7958e4b2c842bc66ffa55e40c", "dataset": "c0d13d2c5d404e2c9930e01f63e18cee", "name": "extract_sizes", "statistics": {"name": "Union", "union": {"fields": [{"name": "extract", "statistics": {"name": "Union", "union": {"fields": [{"name": "beacon", "statistics": {"name": "Struct", "size": "100", "multiplicity": 1.0, "struct": {"fields": [{"name": "\u691c\u77e5\u65e5\u6642", "statistics": {"name": "Datetime", "size": "100", "multiplicity": 1.0, "datetime": {"format": "%Y-%m-%d %H:%M:%S", "min": "01-01-01 00:00:00", "max": "9999-12-31 00:00:00"}, "properties": {}}}, {"name": "UserId", "statistics": {"name": "Text UTF-8", "size": "100", "multiplicity": 1.0, "text": {"encoding": "UTF-8"}, "properties": {}}}, {"name": "\u6240\u5c5e\u90e8\u7f72", "statistics": {"name": "Text UTF-8", "size": "100", "multiplicity": 1.0, "text": {"encoding": "UTF-8"}, "properties": {}}}, {"name": "\u30d5\u30ed\u30a2\u540d", "statistics": {"name": "Text UTF-8", "size": "100", "multiplicity": 1.0, "text": {"encoding": "UTF-8"}, "properties": {}}}, {"name": "Beacon\u540d", "statistics": {"name": "Text UTF-8", "size": "100", "multiplicity": 1.0, "text": {"encoding": "UTF-8"}, "properties": {}}}, {"name": "RSSI", "statistics": {"name": "Integer", "size": "100", "multiplicity": 1.0, "integer": {"base": "INT64", "min": "-9223372036854775808", "max": "9223372036854775807", "possible_values": []}, "properties": {}}}, {"name": "\u30de\u30c3\u30d7\u306eX\u5ea7\u6a19", "statistics": {"name": "Integer", "size": "100", "multiplicity": 1.0, "integer": {"base": "INT64", "min": "-9223372036854775808", "max": "9223372036854775807", "possible_values": []}, "properties": {}}}, {"name": "\u30de\u30c3\u30d7\u306eY\u5ea7\u6a19", "statistics": {"name": "Integer", "size": "100", "multiplicity": 1.0, "integer": {"base": "INT64", "min": "-9223372036854775808", "max": "9223372036854775807", "possible_values": []}, "properties": {}}}]}, "properties": {}}}, {"name": "census", "statistics": {"name": "Struct", "size": "199", "multiplicity": 1.0, "struct": {"fields": [{"name": "age", "statistics": {"name": "Integer", "size": "199", "multiplicity": 1.0, "integer": {"base": "INT64", "min": "-9223372036854775808", "max": "9223372036854775807", "possible_values": []}, "properties": {}}}, {"name": "workclass", "statistics": {"name": "Text UTF-8", "size": "199", "multiplicity": 1.0, "text": {"encoding": "UTF-8"}, "properties": {}}}, {"name": "fnlwgt", "statistics": {"name": "Text UTF-8", "size": "199", "multiplicity": 1.0, "text": {"encoding": "UTF-8"}, "properties": {}}}, {"name": "education", "statistics": {"name": "Text UTF-8", "size": "199", "multiplicity": 1.0, "text": {"encoding": "UTF-8"}, "properties": {}}}, {"name": "education_num", "statistics": {"name": "Integer", "size": "199", "multiplicity": 1.0, "integer": {"base": "INT64", "min": "-9223372036854775808", "max": "9223372036854775807", "possible_values": []}, "properties": {}}}, {"name": "marital_status", "statistics": {"name": "Text UTF-8", "size": "199", "multiplicity": 1.0, "text": {"encoding": "UTF-8"}, "properties": {}}}, {"name": "occupation", "statistics": {"name": "Text UTF-8", "size": "199", "multiplicity": 1.0, "text": {"encoding": "UTF-8"}, "properties": {}}}, {"name": "relationship", "statistics": {"name": "Text UTF-8", "size": "199", "multiplicity": 1.0, "text": {"encoding": "UTF-8"}, "properties": {}}}, {"name": "race", "statistics": {"name": "Text UTF-8", "size": "199", "multiplicity": 1.0, "text": {"encoding": "UTF-8"}, "properties": {}}}, {"name": "sex", "statistics": {"name": "Text UTF-8", "size": "199", "multiplicity": 1.0, "text": {"encoding": "UTF-8"}, "properties": {}}}, {"name": "capital_gain", "statistics": {"name": "Integer", "size": "199", "multiplicity": 1.0, "integer": {"base": "INT64", "min": "-9223372036854775808", "max": "9223372036854775807", "possible_values": []}, "properties": {}}}, {"name": "capital_loss", "statistics": {"name": "Integer", "size": "199", "multiplicity": 1.0, "integer": {"base": "INT64", "min": "-9223372036854775808", "max": "9223372036854775807", "possible_values": []}, "properties": {}}}, {"name": "hours_per_week", "statistics": {"name": "Integer", "size": "199", "multiplicity": 1.0, "integer": {"base": "INT64", "min": "-9223372036854775808", "max": "9223372036854775807", "possible_values": []}, "properties": {}}}, {"name": "native_country", "statistics": {"name": "Text UTF-8", "size": "199", "multiplicity": 1.0, "text": {"encoding": "UTF-8"}, "properties": {}}}, {"name": "income", "statistics": {"name": "Text UTF-8", "size": "199", "multiplicity": 1.0, "text": {"encoding": "UTF-8"}, "properties": {}}}]}, "properties": {}}}]}, "properties": {}}, "properties": {}}]}, "properties": {}}, "properties": {}}"#;

fn census() -> Dataset {
    Dataset::new(DATASET, SCHEMA, SIZE).unwrap()
}

fn row_privacy_unit() -> PrivacyUnitType {
    PrivacyUnitType::Type1(vec![(
        "census".to_string(),
        Vec::new(),
        "_PRIVACY_UNIT_ROW_".to_string(),
    )])
}

fn budget(epsilon: &str, delta: &str) -> Vec<(String, String)> {
    vec![("epsilon".to_string(), epsilon.to_string()), ("delta".to_string(), delta.to_string())]
}

#[test]
fn test_rewrite_with_differential_privacy() {
    let dataset = census();
    let synthetic_data = vec![(
        vec!["extract".to_string(), "census".to_string()],
        vec!["extract".to_string(), "census_sd".to_string()],
    )];
    let privacy_unit = row_privacy_unit();
    let budget = budget("1", "0.005");
    let query = "SELECT SUM(DISTINCT capital_loss) AS s1 FROM census WHERE capital_loss > 2231 AND capital_loss < 4356 GROUP BY sex HAVING COUNT(*) > 5;";

    let relation = Relation::from_query(query, &dataset, None).unwrap();
    let dp_relation = relation
        .rewrite_with_differential_privacy(
            &dataset,
            &privacy_unit,
            &budget,
            None,
            None,
            Some(&synthetic_data),
        )
        .unwrap();
    let dp_query = dp_relation.relation().to_query(None);
    assert!(dp_query.to_uppercase().contains("SELECT"));

    // No synthetic data
    let relation = Relation::from_query(query, &dataset, None).unwrap();
    let dp_relation = relation
        .rewrite_with_differential_privacy(&dataset, &privacy_unit, &budget, None, None, None)
        .unwrap();
    let dp_query = dp_relation.relation().to_query(None);
    assert!(dp_query.to_uppercase().contains("SELECT"));
}

/// The calibrated noise of a Gaussian mechanism may never be below the noise
/// the whole budget would demand.
fn check_noise(event: &DpEventValue, epsilon: f64, delta: f64, gaussians: &mut usize) {
    let floor = (2.0 * (1.25f64 / delta).ln()).sqrt() / epsilon;
    match event {
        DpEventValue::NoOp => {}
        DpEventValue::Gaussian { noise_multiplier } => {
            *gaussians += 1;
            assert!(f64::from_bits(*noise_multiplier) >= floor - 1e-9);
        }
        DpEventValue::Laplace { .. } => {}
        DpEventValue::EpsilonDelta { epsilon: e, delta: d } => {
            assert!(f64::from_bits(*e) <= epsilon + 1e-9);
            assert!(f64::from_bits(*d) <= delta + 1e-12);
        }
        DpEventValue::Composed { events } => {
            for e in events {
                check_noise(e, epsilon, delta, gaussians);
            }
        }
        DpEventValue::PoissonSampled { event, .. }
        | DpEventValue::SampledWithReplacement { event, .. }
        | DpEventValue::SampledWithoutReplacement { event, .. } => {
            check_noise(event, epsilon, delta, gaussians);
        }
    }
}

#[test]
fn gaussian_sum_scenario() {
    let dataset = census();
    let query = "SELECT SUM(capital_loss) AS s1 FROM census WHERE capital_loss > 2231 AND capital_loss < 4356 GROUP BY sex";
    let relation = Relation::from_query(query, &dataset, None).unwrap();
    let dp_relation = relation
        .rewrite_with_differential_privacy(
            &dataset,
            &row_privacy_unit(),
            &budget("1.0", "0.005"),
            None,
            None,
            None,
        )
        .unwrap();
    let event = &dp_relation.dp_event().0;
    let events = match event {
        DpEventValue::Composed { events } => events,
        _ => panic!("the accounting of a noised rewrite should be composed"),
    };
    assert!(!events.is_empty());
    let mut gaussians: usize = 0;
    check_noise(event, 1.0, 0.005, &mut gaussians);
    assert!(gaussians >= 1, "a noised sum should apply a Gaussian mechanism");
}

#[test]
fn privacy_unit_preserving_rewrite() {
    let dataset = census();
    let relation =
        Relation::from_query("SELECT SUM(capital_loss) AS s1 FROM census", &dataset, None)
            .unwrap();
    let result = relation.rewrite_as_privacy_unit_preserving(
        &dataset,
        &row_privacy_unit(),
        &budget("1.0", "0.005"),
        None,
        None,
        None,
        Some(Strategy::Hard),
    );
    assert!(result.is_ok());
}

#[test]
fn broken_foreign_key_chain_is_a_privacy_unit_error() {
    let dataset = census();
    let privacy_unit = PrivacyUnitType::Type1(vec![(
        "census".to_string(),
        vec![(
            "no_such_key".to_string(),
            "no_such_table".to_string(),
            "no_such_field".to_string(),
        )],
        "id".to_string(),
    )]);
    let relation =
        Relation::from_query("SELECT SUM(capital_loss) AS s1 FROM census", &dataset, None)
            .unwrap();
    let err = relation
        .rewrite_as_privacy_unit_preserving(
            &dataset,
            &privacy_unit,
            &budget("1.0", "0.005"),
            None,
            None,
            None,
            Some(Strategy::Soft),
        )
        .err()
        .expect("an unresolvable privacy unit should be refused");
    assert_eq!(err.kind(), ErrorKind::PrivacyUnit);
}

#[test]
fn missing_budget_keys_are_reported() {
    let dataset = census();
    let relation =
        Relation::from_query("SELECT SUM(capital_loss) AS s1 FROM census", &dataset, None)
            .unwrap();
    let no_epsilon = vec![("delta".to_string(), "0.005".to_string())];
    let err = relation
        .rewrite_with_differential_privacy(&dataset, &row_privacy_unit(), &no_epsilon, None, None, None)
        .err()
        .expect("a budget without epsilon should be refused");
    assert_eq!(err.kind(), ErrorKind::MissingKey);
    assert_eq!(err.message(), "epsilon");

    let no_delta = vec![("epsilon".to_string(), "1.0".to_string())];
    let err = relation
        .rewrite_with_differential_privacy(&dataset, &row_privacy_unit(), &no_delta, None, None, None)
        .err()
        .expect("a budget without delta should be refused");
    assert_eq!(err.kind(), ErrorKind::MissingKey);
    assert_eq!(err.message(), "delta");
}

#[test]
fn out_of_range_budgets_are_refused() {
    let dataset = census();
    let relation =
        Relation::from_query("SELECT SUM(capital_loss) AS s1 FROM census", &dataset, None)
            .unwrap();
    for (epsilon, delta) in [
        ("0", "0.005"),
        ("-1.0", "0.005"),
        ("inf", "0.005"),
        ("not a number", "0.005"),
        ("1.0", "1.0"),
        ("1.0", "-0.5"),
        ("1.0", "nonsense"),
    ] {
        let err = relation
            .rewrite_with_differential_privacy(
                &dataset,
                &row_privacy_unit(),
                &budget(epsilon, delta),
                None,
                None,
                None,
            )
            .err()
            .expect("an out-of-range budget should be refused");
        assert_eq!(err.kind(), ErrorKind::Budget);
    }
}

#[test]
fn multiplicity_bounds_are_accepted() {
    let dataset = census();
    let relation =
        Relation::from_query("SELECT SUM(capital_loss) AS s1 FROM census", &dataset, None)
            .unwrap();
    let result = relation.rewrite_as_privacy_unit_preserving(
        &dataset,
        &row_privacy_unit(),
        &budget("1.0", "0.005"),
        Some("10"),
        Some("0.5"),
        None,
        None,
    );
    assert!(result.is_ok());
}

#[test]
fn budget_value_finds_first_entry() {
    let pairs = vec![
        ("epsilon".to_string(), "1.0".to_string()),
        ("epsilon".to_string(), "2.0".to_string()),
    ];
    assert_eq!(budget_value(&pairs, "epsilon").unwrap(), "1.0");
    let err = budget_value(&pairs, "delta").err().expect("delta is absent");
    assert_eq!(err.kind(), ErrorKind::MissingKey);
    assert_eq!(err.message(), "delta");
}
