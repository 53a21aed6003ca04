use apcs_tester::config::{build_testcases, CheckerKind, Config, ConfigParams, Orderby};
use apcs_tester::language::{classify_archive, match_ext, Language};

fn empty_params() -> ConfigParams {
    ConfigParams {
        entry: None,
        lang: None,
        args: None,
        target: None,
        input: None,
        output: None,
        points: None,
        timeout: None,
        memory: None,
        threads: None,
        checker: None,
        allow: None,
        format: None,
        orderby: None,
        dependencies: None,
    }
}

#[test]
fn build_testcases_pairs_and_zero_fills_points() {
    let inputs = vec!["i1".to_string(), "i2".to_string()];
    let outputs = vec!["o1".to_string(), "o2".to_string()];
    let points = vec![5];
    let cases = build_testcases(&inputs, &outputs, &points);
    assert_eq!(cases.len(), 2);
    assert_eq!(cases[0].input, "i1");
    assert_eq!(cases[0].expected, "o1");
    assert_eq!(cases[0].points, 5);
    assert_eq!(cases[1].input, "i2");
    assert_eq!(cases[1].expected, "o2");
    assert_eq!(cases[1].points, 0);
}

#[test]
fn build_testcases_extra_points_get_empty_texts() {
    let inputs = vec!["i1".to_string()];
    let outputs = vec!["o1".to_string()];
    let points = vec![1, 2, 3];
    let cases = build_testcases(&inputs, &outputs, &points);
    assert_eq!(cases.len(), 3);
    assert_eq!(cases[0].points, 1);
    assert_eq!(cases[1].input, "");
    assert_eq!(cases[1].expected, "");
    assert_eq!(cases[1].points, 2);
    assert_eq!(cases[2].points, 3);
}

#[test]
fn build_testcases_unpaired_output_is_dropped() {
    let inputs = vec!["i1".to_string()];
    let outputs = vec!["o1".to_string(), "o2".to_string()];
    let points: Vec<u64> = Vec::new();
    let cases = build_testcases(&inputs, &outputs, &points);
    assert_eq!(cases.len(), 1);
    assert_eq!(cases[0].expected, "o1");
    assert_eq!(cases[0].points, 0);
}

#[test]
fn from_params_fills_defaults() {
    let mut p = empty_params();
    p.target = Some("subs".to_string());
    let c = Config::from_params(p).expect("target is present");
    assert_eq!(c.entry, "Main");
    assert!(matches!(c.lang, Language::Guess));
    assert_eq!(c.target, "subs");
    assert_eq!(c.testcases.len(), 0);
    assert_eq!(c.timeout, 5);
    assert_eq!(c.memory, 1024);
    assert_eq!(c.threads, 4);
    assert_eq!(c.checker, CheckerKind::Static);
    assert_eq!(c.format, "{name}_{num}_{id}_{filename}.{extension}");
    assert_eq!(c.orderby, Orderby::Id);
    assert!(c.args.is_empty() && c.allow.is_empty() && c.dependencies.is_empty());
}

#[test]
fn from_params_without_target_is_rejected() {
    let r = Config::from_params(empty_params());
    assert_eq!(r.err(), Some("Could not find target!".to_string()));
}

#[test]
fn from_params_keeps_given_values() {
    let mut p = empty_params();
    p.target = Some("t".to_string());
    p.entry = Some("Start".to_string());
    p.input = Some(vec!["1".to_string()]);
    p.output = Some(vec!["2".to_string()]);
    p.points = Some(vec![7]);
    p.timeout = Some(2000);
    p.threads = Some(9);
    p.checker = Some(CheckerKind::Ast);
    p.orderby = Some(Orderby::Name);
    let c = Config::from_params(p).expect("target is present");
    assert_eq!(c.entry, "Start");
    assert_eq!(c.testcases.len(), 1);
    assert_eq!(c.testcases[0].input, "1");
    assert_eq!(c.testcases[0].expected, "2");
    assert_eq!(c.testcases[0].points, 7);
    assert_eq!(c.timeout, 2000);
    assert_eq!(c.threads, 9);
    assert_eq!(c.checker, CheckerKind::Ast);
    assert_eq!(c.orderby, Orderby::Name);
}

#[test]
fn match_ext_recognizes_known_extensions() {
    assert!(matches!(match_ext("java"), Language::Java));
    assert!(matches!(match_ext("jar"), Language::Java));
    assert!(matches!(match_ext("cpp"), Language::Cpp));
    assert!(matches!(match_ext("c"), Language::C));
    assert!(matches!(match_ext("rs"), Language::Rust));
    assert!(matches!(match_ext("py"), Language::Python));
}

#[test]
fn match_ext_unknown_extension() {
    match match_ext("txt") {
        Language::Unknown(s) => assert_eq!(s, ""),
        other => panic!("expected Unknown, got {:?}", other),
    }
}

#[test]
fn classify_archive_probes_in_order() {
    let entries = vec![
        "src/Main.java".to_string(),
        "project/Cargo.toml".to_string(),
        "main.py".to_string(),
    ];
    // Cargo.toml wins over the other entry points.
    assert!(matches!(classify_archive("a.zip", &entries), Language::Rust));
    let entries = vec!["docs/readme.txt".to_string(), "src/main.cpp".to_string()];
    assert!(matches!(classify_archive("a.zip", &entries), Language::Cpp));
}

#[test]
fn classify_archive_without_entry_point() {
    let entries = vec!["notes.txt".to_string()];
    match classify_archive("mystery.zip", &entries) {
        Language::Unknown(p) => assert_eq!(p, "mystery.zip"),
        other => panic!("expected Unknown, got {:?}", other),
    }
}
