use kat::harness::CountingChecker;
use kat::harness::HarnessError;
use kat::harness::RecordingChecker;
use kat::harness::parse_root;
use kat::harness::resolve_path;
use kat::harness::run;
use kat::harness::run_document;
use kat::document::parse_document;
use kat::records::CaseRecord;
use kat::records::GlobalRecord;
use kat::records::ScenarioRecorder;
use kat::records::TableGlobalRecord;
use kat::value::Datetime;
use kat::value::TomlValue;
use kat::value::table_get;

const TWO_CASE_DOC: &str = "\
[global]
name = \"GLOBAL\"
value = 69

[[test]]
test_name = \"TEST\"
value = 420
id = 0

[[test]]
test_name = \"TEST\"
value = 420
id = 1
";

#[test]
fn resolve_joins_segments_and_appends_the_extension() {
    let segments = vec![
        "tests".to_string(),
        "data".to_string(),
        "my_data".to_string(),
    ];
    assert_eq!(resolve_path(&segments), "tests/data/my_data.toml");
}

#[test]
fn resolve_of_one_segment_is_just_the_extension_append() {
    let segments = vec!["data".to_string()];
    assert_eq!(resolve_path(&segments), "data.toml");
}

#[test]
fn parse_root_materialises_globals_and_cases() {
    let root = parse_root::<GlobalRecord, CaseRecord>(TWO_CASE_DOC).unwrap();
    assert_eq!(root.global.name, "GLOBAL");
    assert_eq!(root.global.value, 69);
    assert_eq!(root.tests.len(), 2);
    assert_eq!(root.tests[0].test_name, "TEST");
    assert_eq!(root.tests[0].value, 420);
    assert_eq!(root.tests[0].id, 0);
    assert_eq!(root.tests[1].id, 1);
}

#[test]
fn run_invokes_the_check_once_per_case_in_order() {
    let mut recorder = ScenarioRecorder { seen: Vec::new() };
    let outcome = run_document::<GlobalRecord, CaseRecord, ScenarioRecorder>(
        Ok(TWO_CASE_DOC.to_string()),
        &mut recorder,
    );
    assert_eq!(outcome, Ok(2));
    assert_eq!(recorder.seen.len(), 2);
    for (i, (g, t)) in recorder.seen.iter().enumerate() {
        assert_eq!(g.name, "GLOBAL");
        assert_eq!(g.value, 69);
        assert_eq!(t.test_name, "TEST");
        assert_eq!(t.value, 420);
        assert_eq!(t.id, i as i64);
    }
}

#[test]
fn run_counts_every_case() {
    let mut counter = CountingChecker { calls: 0 };
    let outcome = run_document::<GlobalRecord, CaseRecord, CountingChecker>(
        Ok(TWO_CASE_DOC.to_string()),
        &mut counter,
    );
    assert_eq!(outcome, Ok(2));
    assert_eq!(counter.calls, 2);
}

#[test]
fn a_missing_file_stops_the_run_before_any_case() {
    let mut counter = CountingChecker { calls: 0 };
    let missing = HarnessError::NotFound("tests/data/absent.toml".to_string());
    let outcome = run_document::<GlobalRecord, CaseRecord, CountingChecker>(
        Err(missing.clone()),
        &mut counter,
    );
    assert_eq!(outcome, Err(missing));
    assert_eq!(counter.calls, 0);
}

#[test]
fn a_read_failure_stops_the_run_before_any_case() {
    let mut counter = CountingChecker { calls: 0 };
    let fault = HarnessError::ReadError("permission denied".to_string());
    let outcome = run_document::<GlobalRecord, CaseRecord, CountingChecker>(
        Err(fault.clone()),
        &mut counter,
    );
    assert_eq!(outcome, Err(fault));
    assert_eq!(counter.calls, 0);
}

#[test]
fn invalid_syntax_stops_the_run_before_any_case() {
    let mut counter = CountingChecker { calls: 0 };
    let outcome = run_document::<GlobalRecord, CaseRecord, CountingChecker>(
        Ok("this is ][ not a document".to_string()),
        &mut counter,
    );
    assert!(matches!(outcome, Err(HarnessError::ParseError(_))));
    assert_eq!(counter.calls, 0);
}

#[test]
fn a_missing_global_section_rejects_the_document() {
    let text = "[[test]]\ntest_name = \"TEST\"\nvalue = 420\nid = 0\n";
    let r = parse_root::<GlobalRecord, CaseRecord>(text);
    assert!(matches!(r, Err(HarnessError::ParseError(_))));
}

#[test]
fn a_missing_test_section_rejects_the_document() {
    let text = "[global]\nname = \"GLOBAL\"\nvalue = 69\n";
    let r = parse_root::<GlobalRecord, CaseRecord>(text);
    assert!(matches!(r, Err(HarnessError::ParseError(_))));
}

#[test]
fn one_malformed_case_aborts_the_whole_run() {
    let text = "\
[global]
name = \"GLOBAL\"
value = 69

[[test]]
test_name = \"TEST\"
value = 420
id = 0

[[test]]
test_name = \"TEST\"
value = \"not an integer\"
id = 1
";
    let mut counter = CountingChecker { calls: 0 };
    let outcome = run_document::<GlobalRecord, CaseRecord, CountingChecker>(
        Ok(text.to_string()),
        &mut counter,
    );
    assert!(matches!(outcome, Err(HarnessError::ParseError(_))));
    assert_eq!(counter.calls, 0);
}

#[test]
fn a_table_valued_global_field_deserializes() {
    let text = "\
[global]
global_value = \"GLOBAL\"
table = { name = \"GLOBAL TABLE\", value = 69 }

[[test]]
test_name = \"TEST\"
value = 420
id = 0
";
    let root = parse_root::<TableGlobalRecord, CaseRecord>(text).unwrap();
    assert_eq!(root.global.global_value, "GLOBAL");
    assert_eq!(root.global.table.name, "GLOBAL TABLE");
    assert_eq!(root.global.table.value, 69);
}

#[test]
fn raw_values_can_drive_a_run() {
    let text = "\
[global]
anything = [1, 2]

[[test]]
id = 7
";
    let mut recorder = RecordingChecker { seen: Vec::new() };
    let outcome = run_document::<TomlValue, TomlValue, RecordingChecker>(
        Ok(text.to_string()),
        &mut recorder,
    );
    assert_eq!(outcome, Ok(1));
    let (g, t) = &recorder.seen[0];
    let entries = match g {
        TomlValue::Table(es) => es,
        _ => panic!("the globals record is a table"),
    };
    match table_get(entries, &"anything".to_string()).unwrap() {
        TomlValue::Array(items) => assert_eq!(items.len(), 2),
        _ => panic!("expected an array"),
    }
    let centries = match t {
        TomlValue::Table(es) => es,
        _ => panic!("the case record is a table"),
    };
    assert_eq!(
        table_get(centries, &"id".to_string()).unwrap().as_int(),
        Some(7)
    );
}

#[test]
fn parse_document_models_every_scalar_category() {
    let text = "\
string = \"STRING\"
int = 69
float = 3.1415
flag = true
date = 1979-05-27T07:32:00
";
    let doc = parse_document(text).unwrap();
    let entries = match &doc {
        TomlValue::Table(es) => es,
        _ => panic!("a document parses to a table"),
    };
    assert_eq!(
        table_get(entries, &"string".to_string())
            .unwrap()
            .as_str()
            .unwrap(),
        "STRING"
    );
    assert_eq!(table_get(entries, &"int".to_string()).unwrap().as_int(), Some(69));
    let bits = table_get(entries, &"float".to_string())
        .unwrap()
        .as_float_bits()
        .unwrap();
    assert_eq!(f64::from_bits(bits), 3.1415);
    assert_eq!(table_get(entries, &"flag".to_string()).unwrap().as_bool(), Some(true));
    let d: Datetime = table_get(entries, &"date".to_string())
        .unwrap()
        .as_datetime()
        .unwrap();
    let date = d.date.unwrap();
    assert_eq!((date.year, date.month, date.day), (1979, 5, 27));
    let time = d.time.unwrap();
    assert_eq!((time.hour, time.minute, time.second), (7, 32, Some(0)));
    assert!(d.offset.is_none());
}

#[test]
fn an_empty_test_list_runs_zero_cases() {
    let text = "test = []\n[global]\nname = \"GLOBAL\"\nvalue = 69\n";
    let mut counter = CountingChecker { calls: 0 };
    let outcome = run_document::<GlobalRecord, CaseRecord, CountingChecker>(
        Ok(text.to_string()),
        &mut counter,
    );
    assert_eq!(outcome, Ok(0));
    assert_eq!(counter.calls, 0);
}

#[test]
fn run_on_a_parsed_root_matches_the_case_count() {
    let root = parse_root::<GlobalRecord, CaseRecord>(TWO_CASE_DOC).unwrap();
    let mut counter = CountingChecker { calls: 5 };
    run(&root, &mut counter);
    assert_eq!(counter.calls, 7);
}
