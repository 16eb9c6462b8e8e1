use log4rs_dynamic_filters::{
    DynamicLevelFilter, Response, Severity, SharedRegistry, ThresholdRegistry,
};

fn all_severities() -> Vec<Severity> {
    vec![
        Severity::Off,
        Severity::Error,
        Severity::Warn,
        Severity::Info,
        Severity::Debug,
        Severity::Trace,
    ]
}

#[test]
fn dlf_default() {
    let registry = SharedRegistry::new();
    let filter = DynamicLevelFilter::new(&registry, "dlf_default".to_string(), Severity::Debug);

    let records = vec![
        (Severity::Trace, "apple"),
        (Severity::Debug, "banana"),
        (Severity::Info, "cantaloupe"),
        (Severity::Warn, "durian"),
        (Severity::Error, "elderberry"),
    ];
    let mut logs: Vec<(Severity, &str)> = Vec::new();
    for (level, message) in records {
        if filter.filter(&registry, level).unwrap() == Response::Neutral {
            logs.push((level, message));
        }
    }

    assert_eq!(logs.len(), 4);
    let expected = vec![
        Severity::Debug,
        Severity::Info,
        Severity::Warn,
        Severity::Error,
    ];
    for ((level, _), want) in logs.iter().zip(expected.iter()) {
        assert!(level == want);
    }
}

#[test]
fn dlf_change() {
    let registry = SharedRegistry::new();
    let filter = DynamicLevelFilter::new(&registry, "dlf_change".to_string(), Severity::Error);

    let mut logs: Vec<&str> = Vec::new();
    if filter.filter(&registry, Severity::Info).unwrap() == Response::Neutral {
        logs.push("Hidden!");
    }
    if filter.filter(&registry, Severity::Error).unwrap() == Response::Neutral {
        logs.push("Seen!");
    }
    DynamicLevelFilter::set(&registry, "dlf_change", Severity::Info);
    if filter.filter(&registry, Severity::Info).unwrap() == Response::Neutral {
        logs.push("Seen!");
    }
    if filter.filter(&registry, Severity::Error).unwrap() == Response::Neutral {
        logs.push("Seen!");
    }

    assert_eq!(logs.len(), 3);
    for line in logs.iter() {
        assert!(line.contains("Seen!"));
    }
}

#[test]
fn register_is_idempotent() {
    let mut table = ThresholdRegistry::new();
    table.register("n".to_string(), Severity::Warn);
    table.register("n".to_string(), Severity::Trace);
    assert_eq!(table.get("n"), Severity::Warn);

    let registry = SharedRegistry::new();
    let first = DynamicLevelFilter::new(&registry, "n".to_string(), Severity::Warn);
    let second = DynamicLevelFilter::new(&registry, "n".to_string(), Severity::Trace);
    assert_eq!(registry.current_level("n"), Some(Severity::Warn));
    // Both handles decide with the first registration's threshold.
    assert_eq!(
        first.filter(&registry, Severity::Info).unwrap(),
        Response::Reject
    );
    assert_eq!(
        second.filter(&registry, Severity::Info).unwrap(),
        Response::Reject
    );
}

#[test]
fn set_affects_all_handles_sharing_a_name() {
    let registry = SharedRegistry::new();
    let one = DynamicLevelFilter::new(&registry, "shared".to_string(), Severity::Error);
    let two = DynamicLevelFilter::new(&registry, "shared".to_string(), Severity::Error);

    assert_eq!(
        one.filter(&registry, Severity::Debug).unwrap(),
        Response::Reject
    );
    DynamicLevelFilter::set(&registry, "shared", Severity::Trace);
    assert_eq!(
        one.filter(&registry, Severity::Debug).unwrap(),
        Response::Neutral
    );
    assert_eq!(
        two.filter(&registry, Severity::Debug).unwrap(),
        Response::Neutral
    );
}

#[test]
fn set_on_unknown_name_is_a_no_op() {
    let registry = SharedRegistry::new();
    DynamicLevelFilter::set(&registry, "nonexistent", Severity::Trace);
    assert_eq!(registry.current_level("nonexistent"), None);

    // A later creation still installs its own starting threshold.
    let _filter = DynamicLevelFilter::new(&registry, "nonexistent".to_string(), Severity::Warn);
    assert_eq!(registry.current_level("nonexistent"), Some(Severity::Warn));
}

#[test]
fn reject_iff_strictly_more_verbose() {
    let severities = all_severities();
    let registry = SharedRegistry::new();
    for (t, threshold) in severities.iter().enumerate() {
        let name = format!("rule_{}", t);
        let filter = DynamicLevelFilter::new(&registry, name, *threshold);
        for (s, record) in severities.iter().enumerate() {
            let expected = if s > t { Response::Reject } else { Response::Neutral };
            assert_eq!(filter.filter(&registry, *record).unwrap(), expected);
        }
    }
}

#[test]
fn scenario_a_debug_threshold() {
    let registry = SharedRegistry::new();
    let filter = DynamicLevelFilter::new(&registry, "f".to_string(), Severity::Debug);
    assert_eq!(
        filter.filter(&registry, Severity::Trace).unwrap(),
        Response::Reject
    );
    assert_eq!(
        filter.filter(&registry, Severity::Debug).unwrap(),
        Response::Neutral
    );
    assert_eq!(
        filter.filter(&registry, Severity::Info).unwrap(),
        Response::Neutral
    );
    assert_eq!(
        filter.filter(&registry, Severity::Warn).unwrap(),
        Response::Neutral
    );
    assert_eq!(
        filter.filter(&registry, Severity::Error).unwrap(),
        Response::Neutral
    );
}

#[test]
fn scenario_b_error_threshold() {
    let registry = SharedRegistry::new();
    let filter = DynamicLevelFilter::new(&registry, "g".to_string(), Severity::Error);
    assert_eq!(
        filter.filter(&registry, Severity::Info).unwrap(),
        Response::Reject
    );
    assert_eq!(
        filter.filter(&registry, Severity::Error).unwrap(),
        Response::Neutral
    );
    DynamicLevelFilter::set(&registry, "g", Severity::Info);
    assert_eq!(
        filter.filter(&registry, Severity::Info).unwrap(),
        Response::Neutral
    );
    assert_eq!(
        filter.filter(&registry, Severity::Error).unwrap(),
        Response::Neutral
    );
}

#[test]
fn decide_at_without_entry_is_none() {
    assert_eq!(
        DynamicLevelFilter::decide_at(None, Severity::Error),
        None
    );
    assert_eq!(
        DynamicLevelFilter::decide_at(Some(Severity::Warn), Severity::Debug),
        Some(Response::Reject)
    );
    assert_eq!(
        DynamicLevelFilter::decide_at(Some(Severity::Warn), Severity::Error),
        Some(Response::Neutral)
    );
}

#[test]
fn registry_lookup_and_set() {
    let mut table = ThresholdRegistry::new();
    assert_eq!(table.lookup("a"), None);
    table.register("a".to_string(), Severity::Info);
    assert_eq!(table.lookup("a"), Some(Severity::Info));
    table.set_level("a", Severity::Off);
    assert_eq!(table.get("a"), Severity::Off);
    table.set_level("b", Severity::Trace);
    assert_eq!(table.lookup("b"), None);
}
