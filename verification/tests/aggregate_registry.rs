use decypher::hir::aggregate_registry::AggregateRegistry;

#[test]
fn test_default_contains_builtins() {
    let r = AggregateRegistry::default();
    for name in &[
        "COUNT",
        "SUM",
        "AVG",
        "MIN",
        "MAX",
        "COLLECT",
        "PERCENTILE_CONT",
        "PERCENTILE_DISC",
        "STDEV",
        "STDEVP",
        "VAR",
        "VARP",
    ] {
        assert!(r.contains(name), "{name} should be a built-in aggregate");
    }
}

#[test]
fn test_register_custom() {
    let mut r = AggregateRegistry::default();
    assert!(!r.contains("apoc.agg.percentiles"));
    r.register("apoc.agg.percentiles");
    assert!(r.contains("apoc.agg.percentiles"));
}

#[test]
fn test_lookup_is_case_insensitive() {
    let r = AggregateRegistry::default();
    assert!(r.contains("count"));
    assert!(r.contains("Count"));
    assert!(r.contains("COUNT"));
}

#[test]
fn test_qualified_name_not_in_default() {
    let r = AggregateRegistry::default();
    assert!(!r.contains("apoc.coll.count"));
}

#[test]
fn default_holds_only_the_builtins() {
    let r = AggregateRegistry::default();
    assert!(!r.contains("median"));
    assert!(!r.contains(""));
    assert!(!r.contains("COUNTS"));
    assert!(!r.contains("percentile"));
}

#[test]
fn builtins_found_in_any_ascii_case() {
    let r = AggregateRegistry::default();
    assert!(r.contains("percentile_cont"));
    assert!(r.contains("Percentile_Disc"));
    assert!(r.contains("stdevP"));
    assert!(r.contains("vArP"));
}

#[test]
fn registered_name_found_in_other_case() {
    let mut r = AggregateRegistry::default();
    r.register("custom.agg");
    assert!(r.contains("CUSTOM.AGG"));
    assert!(r.contains("Custom.Agg"));
    assert!(!r.contains("custom.agg2"));
}

#[test]
fn register_keeps_earlier_names() {
    let mut r = AggregateRegistry::default();
    r.register("first.agg");
    r.register("second.agg");
    assert!(r.contains("first.agg"));
    assert!(r.contains("second.agg"));
    assert!(r.contains("count"));
    assert!(!r.contains("third.agg"));
}

#[test]
fn register_chains() {
    let mut r = AggregateRegistry::default();
    r.register("a.one").register("b.two");
    assert!(r.contains("A.ONE"));
    assert!(r.contains("B.TWO"));
}

#[test]
fn register_twice_is_harmless() {
    let mut r = AggregateRegistry::default();
    r.register("x.agg");
    r.register("X.AGG");
    assert!(r.contains("x.agg"));
    assert!(r.contains("X.Agg"));
}

#[test]
fn register_order_does_not_matter() {
    let mut r1 = AggregateRegistry::default();
    r1.register("p.q").register("r.s");
    let mut r2 = AggregateRegistry::default();
    r2.register("r.s").register("p.q");
    for name in &["p.q", "r.s", "P.Q", "R.S", "t.u", "count"] {
        assert_eq!(r1.contains(name), r2.contains(name));
    }
}

#[test]
fn non_ascii_names_follow_unicode_uppercase() {
    let mut r = AggregateRegistry::default();
    r.register("straße");
    assert!(r.contains("STRASSE"));
    assert!(r.contains("Straße"));
    r.register("größe");
    assert!(r.contains("GRÖSSE"));
    assert!(!r.contains("GROSSE"));
}

#[test]
fn lookup_does_not_trim_or_normalise() {
    let mut r = AggregateRegistry::default();
    r.register("apoc.agg.median");
    assert!(!r.contains(" apoc.agg.median"));
    assert!(!r.contains("apoc.agg.median "));
    assert!(!r.contains("apoc.agg"));
    assert!(!r.contains("median"));
}
