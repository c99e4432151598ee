use svd2rust_regress::{
    format_for, tests, Catalog, Format, Group, LoadError, Lookup, ReadOutcome, Target, TestCase,
};

fn unknown_extension(path: &str) -> LoadError {
    LoadError::Parse {
        path: path.to_string(),
        detail: "unknown file extension".to_string(),
    }
}

fn two_cases() -> Vec<TestCase> {
    vec![
        TestCase::new(Target::CortexM, Group::Nordic, "nrf52".to_string()),
        TestCase::new(Target::Msp430, Group::TexasInstruments, "msp430g2553".to_string()),
    ]
}

fn one_case() -> Vec<TestCase> {
    vec![TestCase::new(Target::RISCV, Group::SiFive, "E310x".to_string())]
}

#[test]
fn format_is_chosen_by_suffix() {
    assert_eq!(format_for("tests.yml"), Ok(Format::Yaml));
    assert_eq!(format_for("tests.yaml"), Ok(Format::Yaml));
    assert_eq!(format_for("tests.json"), Ok(Format::Json));
    assert_eq!(format_for("ci/cases/all.v2.json"), Ok(Format::Json));
    assert_eq!(format_for("a.json.yml"), Ok(Format::Yaml));
    assert_eq!(format_for("a.yml.json"), Ok(Format::Json));
    assert_eq!(format_for(".yml"), Ok(Format::Yaml));
    assert_eq!(format_for("\u{4e2d}\u{6587}.yaml"), Ok(Format::Yaml));
}

#[test]
fn unknown_suffix_is_a_parse_error() {
    assert_eq!(format_for("tests.txt"), Err(unknown_extension("tests.txt")));
    assert_eq!(format_for("tests"), Err(unknown_extension("tests")));
    assert_eq!(format_for(""), Err(unknown_extension("")));
    assert_eq!(format_for("json"), Err(unknown_extension("json")));
    assert_eq!(format_for("tests.JSON"), Err(unknown_extension("tests.JSON")));
    assert_eq!(format_for("tests.yml.bak"), Err(unknown_extension("tests.yml.bak")));
    assert_eq!(format_for("tests.json "), Err(unknown_extension("tests.json ")));
}

#[test]
fn empty_catalog_needs_a_source() {
    let catalog = Catalog::new();
    assert!(!catalog.is_loaded());
    assert_eq!(catalog.cases(), None);
    assert_eq!(tests(&catalog, None), Err(LoadError::Configuration));
}

#[test]
fn empty_catalog_asks_for_a_read() {
    let catalog = Catalog::new();
    assert_eq!(tests(&catalog, Some("tests.yml")), Ok(Lookup::Read(Format::Yaml)));
    assert_eq!(tests(&catalog, Some("tests.yaml")), Ok(Lookup::Read(Format::Yaml)));
    assert_eq!(tests(&catalog, Some("tests.json")), Ok(Lookup::Read(Format::Json)));
}

#[test]
fn malformed_suffix_is_never_an_empty_list() {
    let catalog = Catalog::new();
    assert_eq!(
        tests(&catalog, Some("tests.txt")),
        Err(unknown_extension("tests.txt"))
    );
    assert!(!catalog.is_loaded());
}

#[test]
fn decoded_list_is_kept_in_order() {
    let mut catalog = Catalog::new();
    assert_eq!(catalog.complete("tests.json", ReadOutcome::Decoded(two_cases())), Ok(()));
    assert!(catalog.is_loaded());
    let expected = two_cases();
    assert_eq!(catalog.cases(), Some(&expected[..]));
    assert_eq!(
        tests(&catalog, Some("tests.json")),
        Ok(Lookup::Cached(&expected[..]))
    );
}

#[test]
fn empty_list_can_be_held() {
    let mut catalog = Catalog::new();
    assert_eq!(catalog.complete("tests.json", ReadOutcome::Decoded(Vec::new())), Ok(()));
    assert!(catalog.is_loaded());
    let nothing: Vec<TestCase> = Vec::new();
    assert_eq!(catalog.cases(), Some(&nothing[..]));
    assert_eq!(tests(&catalog, None), Ok(Lookup::Cached(&nothing[..])));
}

#[test]
fn cached_list_answers_whatever_is_named() {
    let mut catalog = Catalog::new();
    assert_eq!(catalog.complete("tests.json", ReadOutcome::Decoded(two_cases())), Ok(()));
    let expected = two_cases();
    assert_eq!(tests(&catalog, None), Ok(Lookup::Cached(&expected[..])));
    assert_eq!(tests(&catalog, Some("other.yml")), Ok(Lookup::Cached(&expected[..])));
    assert_eq!(tests(&catalog, Some("tests.txt")), Ok(Lookup::Cached(&expected[..])));
}

#[test]
fn second_load_does_not_replace_the_first() {
    let mut catalog = Catalog::new();
    assert_eq!(catalog.complete("tests.json", ReadOutcome::Decoded(two_cases())), Ok(()));
    assert_eq!(catalog.complete("tests.json", ReadOutcome::Decoded(one_case())), Ok(()));
    let expected = two_cases();
    assert_eq!(catalog.cases().map(|cases| cases.len()), Some(2));
    assert_eq!(catalog.cases(), Some(&expected[..]));
    assert_eq!(tests(&catalog, Some("tests.json")), Ok(Lookup::Cached(&expected[..])));
}

#[test]
fn unreadable_source_is_a_file_access_error() {
    let mut catalog = Catalog::new();
    assert_eq!(
        catalog.complete("missing.json", ReadOutcome::Unreadable),
        Err(LoadError::FileAccess {
            path: "missing.json".to_string()
        })
    );
    assert!(!catalog.is_loaded());
    assert_eq!(tests(&catalog, Some("missing.json")), Ok(Lookup::Read(Format::Json)));
}

#[test]
fn malformed_source_is_a_parse_error() {
    let mut catalog = Catalog::new();
    let outcome = ReadOutcome::Malformed {
        detail: "missing field `chip` at line 3 column 1".to_string(),
    };
    assert_eq!(
        catalog.complete("tests.yml", outcome),
        Err(LoadError::Parse {
            path: "tests.yml".to_string(),
            detail: "missing field `chip` at line 3 column 1".to_string(),
        })
    );
    assert!(!catalog.is_loaded());
    assert_eq!(catalog.cases(), None);
}

#[test]
fn failure_after_a_load_changes_nothing() {
    let mut catalog = Catalog::new();
    assert_eq!(catalog.complete("tests.json", ReadOutcome::Decoded(one_case())), Ok(()));
    assert_eq!(
        catalog.complete("tests.json", ReadOutcome::Unreadable),
        Err(LoadError::FileAccess {
            path: "tests.json".to_string()
        })
    );
    let expected = one_case();
    assert_eq!(catalog.cases(), Some(&expected[..]));
}

#[test]
fn load_after_a_failure_is_kept() {
    let mut catalog = Catalog::new();
    assert!(catalog.complete("tests.json", ReadOutcome::Unreadable).is_err());
    assert_eq!(catalog.complete("tests.json", ReadOutcome::Decoded(one_case())), Ok(()));
    let expected = one_case();
    assert_eq!(catalog.cases(), Some(&expected[..]));
}

#[test]
fn messages_name_the_source() {
    assert_eq!(LoadError::Configuration.message(), "no test cases specified");
    assert_eq!(
        LoadError::FileAccess {
            path: "ci/tests.yml".to_string()
        }
        .message(),
        "couldn't open file ci/tests.yml"
    );
    assert_eq!(
        unknown_extension("tests.txt").message(),
        "unknown file extension for tests.txt"
    );
    assert_eq!(
        LoadError::Parse {
            path: "tests.json".to_string(),
            detail: "missing field `group` at line 2 column 3".to_string(),
        }
        .message(),
        "missing field `group` at line 2 column 3 for tests.json"
    );
}

#[test]
fn error_clone_tells_the_same() {
    let error = LoadError::Parse {
        path: "tests.json".to_string(),
        detail: "expected value at line 1 column 1".to_string(),
    };
    assert_eq!(error.clone(), error);
    let error = LoadError::FileAccess {
        path: "tests.json".to_string(),
    };
    assert_eq!(error.clone(), error);
    assert_eq!(LoadError::Configuration.clone(), LoadError::Configuration);
}
