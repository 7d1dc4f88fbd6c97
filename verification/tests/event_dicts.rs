use dp_sql::dp_event::{AttrValue, Dict, DpEvent, DpEventValue, NamedTuple};
use dp_sql::error::ErrorKind;

fn entry<'a>(d: &'a Dict, name: &str) -> &'a AttrValue {
    for (k, v) in &d.entries {
        if k == name {
            return v;
        }
    }
    panic!("no entry named {name}");
}

fn entry_str(d: &Dict, name: &str) -> String {
    match entry(d, name) {
        AttrValue::Str(s) => s.clone(),
        _ => panic!("entry {name} is not text"),
    }
}

fn entry_float(d: &Dict, name: &str) -> f64 {
    match entry(d, name) {
        AttrValue::Float(bits) => f64::from_bits(*bits),
        _ => panic!("entry {name} is not a float"),
    }
}

fn entry_names(d: &Dict, name: &str) -> Vec<String> {
    match entry(d, name) {
        AttrValue::Names(ns) => ns.clone(),
        _ => panic!("entry {name} is not a name list"),
    }
}

#[test]
fn test_to_dict() {
    let gaussian_mechanism = DpEvent::new(DpEventValue::Gaussian {
        noise_multiplier: (1.5f64).to_bits(),
    });
    let dict = gaussian_mechanism.to_dict();
    assert_eq!(entry_str(&dict, "module_name"), "dp_accounting.dp_event");
    assert_eq!(entry_str(&dict, "class_name"), "GaussianDpEvent");
    assert_eq!(entry_float(&dict, "noise_multiplier"), 1.5);
    assert_eq!(
        entry_names(&dict, "_fields"),
        vec!["module_name", "class_name", "noise_multiplier"]
    );
    assert_eq!(dict.entries.len(), 4);
}

#[test]
fn test_named_tuple() {
    let gaussian_mechanism = DpEvent::new(DpEventValue::Laplace {
        noise_multiplier: (1.5f64).to_bits(),
    });
    let named_tuple = gaussian_mechanism.to_named_tuple();
    match named_tuple.attribute("module_name") {
        Ok(AttrValue::Str(s)) => assert_eq!(s, "dp_accounting.dp_event"),
        _ => panic!("module_name missing"),
    }
    match named_tuple.attribute("class_name") {
        Ok(AttrValue::Str(s)) => assert_eq!(s, "LaplaceDpEvent"),
        _ => panic!("class_name missing"),
    }
    match named_tuple.attribute("noise_multiplier") {
        Ok(AttrValue::Float(bits)) => assert_eq!(f64::from_bits(*bits), 1.5),
        _ => panic!("noise_multiplier missing"),
    }
    match named_tuple.attribute("_fields") {
        Ok(AttrValue::Names(ns)) => {
            assert_eq!(ns, &vec!["module_name", "class_name", "noise_multiplier"])
        }
        _ => panic!("_fields missing"),
    }
}

#[test]
fn named_tuple_unknown_attribute() {
    let event = DpEvent::new(DpEventValue::NoOp);
    let named_tuple = NamedTuple::new(event.to_dict());
    let err = named_tuple.attribute("nope").err().expect("attribute should be missing");
    assert_eq!(err.kind(), ErrorKind::MissingKey);
}

#[test]
fn composed_event_dict() {
    let event = DpEvent::new(DpEventValue::Composed {
        events: vec![
            DpEventValue::Gaussian { noise_multiplier: (2.0f64).to_bits() },
            DpEventValue::EpsilonDelta {
                epsilon: (0.5f64).to_bits(),
                delta: (0.001f64).to_bits(),
            },
        ],
    });
    let dict = event.to_dict();
    assert_eq!(entry_str(&dict, "class_name"), "ComposedDpEvent");
    let inner = match entry(&dict, "events") {
        AttrValue::List(ds) => ds,
        _ => panic!("events entry is not a list"),
    };
    assert_eq!(inner.len(), 2);
    assert_eq!(entry_str(&inner[0], "class_name"), "GaussianDpEvent");
    assert_eq!(entry_float(&inner[0], "noise_multiplier"), 2.0);
    assert_eq!(entry_str(&inner[1], "class_name"), "EpsilonDeltaDpEvent");
    assert_eq!(entry_float(&inner[1], "epsilon"), 0.5);
    assert_eq!(entry_float(&inner[1], "delta"), 0.001);
}

#[test]
fn sampled_event_dicts() {
    let poisson = DpEvent::new(DpEventValue::PoissonSampled {
        sampling_probability: (0.25f64).to_bits(),
        event: Box::new(DpEventValue::Gaussian { noise_multiplier: (3.0f64).to_bits() }),
    });
    let dict = poisson.to_dict();
    assert_eq!(entry_str(&dict, "class_name"), "PoissonSampledDpEvent");
    assert_eq!(entry_float(&dict, "sampling_probability"), 0.25);
    let inner = match entry(&dict, "event") {
        AttrValue::Dict(d) => d,
        _ => panic!("event entry is not a dictionary"),
    };
    assert_eq!(entry_str(inner, "class_name"), "GaussianDpEvent");

    let with_replacement = DpEvent::new(DpEventValue::SampledWithReplacement {
        source_dataset_size: 100,
        sample_size: 10,
        event: Box::new(DpEventValue::NoOp),
    });
    let dict = with_replacement.to_dict();
    assert_eq!(entry_str(&dict, "class_name"), "SampledWithReplacementDpEvent");
    match entry(&dict, "source_dataset_size") {
        AttrValue::Int(n) => assert_eq!(*n, 100),
        _ => panic!("source_dataset_size is not an integer"),
    }

    let without_replacement = DpEvent::new(DpEventValue::SampledWithoutReplacement {
        source_dataset_size: 100,
        sample_size: 10,
        event: Box::new(DpEventValue::NoOp),
    });
    let dict = without_replacement.to_dict();
    assert_eq!(entry_str(&dict, "class_name"), "SampledWitoutReplacement");
    assert_eq!(
        entry_names(&dict, "_fields"),
        vec!["module_name", "class_name", "source_dataset_size", "sample_size", "event"]
    );
}

#[test]
fn no_op_event_dict() {
    let dict = DpEvent::new(DpEventValue::NoOp).to_dict();
    assert_eq!(entry_str(&dict, "class_name"), "NoOpDpEvent");
    assert_eq!(entry_names(&dict, "_fields"), vec!["module_name", "class_name"]);
    assert_eq!(dict.entries.len(), 3);
}
