use code_scanner::class::processor::class_processor::{
    classify, flatten, summarize, worker_count, Extraction,
};
use code_scanner::class::processor::ClassProcessor;
use code_scanner::utils::clock::Elapsed;
use code_scanner::class::scanner::simple_parser::{Block, ScanError, SimpleParser};
use code_scanner::class::types::{ClassScanOptions, FileReport, ScanOutcome};
use code_scanner::class::values::{Property, PropertyValue};
use code_scanner::utils::file_utils::SourceFile;

fn source(path: &str, content: &str) -> SourceFile {
    SourceFile { path: path.to_string(), content: Ok(content.to_string()) }
}

fn unreadable(path: &str, reason: &str) -> SourceFile {
    SourceFile { path: path.to_string(), content: Err(reason.to_string()) }
}

fn property(name: &str, value: PropertyValue) -> Property {
    Property { name: name.to_string(), value }
}

fn text(value: &str) -> PropertyValue {
    PropertyValue::String(value.to_string())
}

fn block(name: Option<&str>, parent: Option<&str>, properties: Vec<Property>, children: Vec<Block>) -> Block {
    Block {
        name: name.map(|n| n.to_string()),
        parent: parent.map(|p| p.to_string()),
        properties,
        content: String::new(),
        children,
    }
}

const TEST_VEHICLE: &str = r#"
        class TestVehicle {
            scope = 2;
            displayName = "Test Vehicle";
            model = "\A3\Test\TestVehicle.p3d";
            
            class Turrets {
                class MainTurret {
                    gunnerAction = "gunner_stance";
                    weapons[] = {"HMG_127"};
                    magazines[] = {"100Rnd_127x99_mag", "100Rnd_127x99_mag"};
                };
            };
        };
        "#;

/// The entities that a structural extractor hands over for `TEST_VEHICLE`: the container of
/// the turrets holds no name of its own.
fn test_vehicle_entities() -> Vec<Block> {
    let main_turret = block(
        Some("MainTurret"),
        None,
        vec![
            property("gunnerAction", text("\"gunner_stance\"")),
            property("weapons", PropertyValue::Array(vec![text("\"HMG_127\"")])),
            property(
                "magazines",
                PropertyValue::Array(vec![text("\"100Rnd_127x99_mag\""), text("\"100Rnd_127x99_mag\"")]),
            ),
        ],
        vec![],
    );
    let turrets = block(None, None, vec![], vec![main_turret]);
    vec![block(
        Some("TestVehicle"),
        None,
        vec![
            property("scope", PropertyValue::Integer(2)),
            property("displayName", text("\"Test Vehicle\"")),
            property("model", text("\"\\A3\\Test\\TestVehicle.p3d\"")),
        ],
        vec![turrets],
    )]
}

#[test]
fn test_scan_single_class() {
    let class_file = source("test_vehicle.hpp", TEST_VEHICLE);

    let mut processor = ClassProcessor::with_defaults("output");
    let result = processor.scan_specific_files(&[class_file]);

    assert_eq!(result.stats.total_files, 1);
    assert_eq!(result.stats.files_with_classes, 1);
    // Every class with a name is collected, whatever its depth: TestVehicle, Turrets and
    // MainTurret
    assert_eq!(result.stats.total_classes, 3);
    assert_eq!(result.classes.len(), 3);

    let main_class = result.classes.iter().find(|c| c.name == "TestVehicle").expect("Main class not found");
    assert_eq!(main_class.parent, None);
    assert_eq!(main_class.file_path, Some("test_vehicle.hpp".to_string()));

    let turret_class = result.classes.iter().find(|c| c.name == "MainTurret").expect("Turret class not found");
    assert_eq!(turret_class.parent, None);
    assert_eq!(turret_class.file_path, Some("test_vehicle.hpp".to_string()));

    // The search for declarations recovers names and parents, and no property
    assert!(result.classes.iter().all(|c| c.properties.is_empty()));
    assert_eq!(result.stats.error_files, 0);
    assert_eq!(result.stats.timeout_files, 0);
}

#[test]
fn the_entities_of_the_test_vehicle_give_two_records_with_their_properties() {
    let file = source("test_vehicle.hpp", TEST_VEHICLE);
    let report = classify(&file, Extraction::Completed(Ok(test_vehicle_entities())));
    let mut processor = ClassProcessor::with_defaults("output");
    let result = processor.finish_scan(&vec![report]);

    assert_eq!(result.stats.total_files, 1);
    assert_eq!(result.stats.files_with_classes, 1);
    assert_eq!(result.stats.total_classes, 2); // TestVehicle and MainTurret

    let main_class = result.classes.iter().find(|c| c.name == "TestVehicle").expect("Main class not found");
    assert_eq!(main_class.parent, None);

    let scope_prop = main_class.properties.iter().find(|(name, _)| name == "scope").expect("scope property not found");
    assert_eq!(scope_prop.1, "2");

    let display_name_prop = main_class
        .properties
        .iter()
        .find(|(name, _)| name == "displayName")
        .expect("displayName property not found");
    assert_eq!(display_name_prop.1, "\"Test Vehicle\"");

    let turret_class = result.classes.iter().find(|c| c.name == "MainTurret").expect("Turret class not found");

    let weapons_prop = turret_class
        .properties
        .iter()
        .find(|(name, _)| name == "weapons")
        .expect("weapons property not found");
    assert_eq!(weapons_prop.1, "[\"HMG_127\"]");
}

#[test]
fn test_scan_multiple_classes() {
    let class1_content = r#"
        class Soldier_Base_F {
            scope = 1;
            displayName = "Soldier Base";
            
            class Inventory {
                uniform = "U_B_CombatUniform_mcam";
                vest = "V_PlateCarrier1_rgr";
                backpack = "B_AssaultPack_mcamo";
            };
        };
        "#;

    let class2_content = r#"
        class B_Soldier_F: Soldier_Base_F {
            scope = 2;
            displayName = "Rifleman";
            weapons[] = {"arifle_MX_F", "hgun_P07_F"};
            respawnWeapons[] = {"arifle_MX_F", "hgun_P07_F"};
        };
        "#;

    let class1_file = source("soldier_base.hpp", class1_content);
    let class2_file = source("b_soldier.hpp", class2_content);

    let mut processor = ClassProcessor::with_defaults("output");
    let result = processor.scan_specific_files(&[class1_file, class2_file]);

    assert_eq!(result.stats.total_files, 2);
    assert_eq!(result.stats.files_with_classes, 2);
    assert_eq!(result.stats.total_classes, 3); // Soldier_Base_F, Inventory, and B_Soldier_F

    let derived_class = result.classes.iter().find(|c| c.name == "B_Soldier_F").expect("Derived class not found");
    assert_eq!(derived_class.parent, Some("Soldier_Base_F".to_string()));
}

#[test]
fn flatten_gives_a_nested_class_a_record_of_its_own() {
    let inner = block(Some("Inner"), Some("Base"), vec![property("a", PropertyValue::Integer(1))], vec![]);
    let outer = block(Some("Outer"), None, vec![property("b", PropertyValue::Boolean(true))], vec![inner]);
    let classes = flatten("dir/file.hpp", &vec![outer]);
    assert_eq!(classes.len(), 2);
    assert_eq!(classes[0].name, "Outer");
    assert_eq!(classes[0].parent, None);
    assert_eq!(classes[0].properties, vec![("b".to_string(), "true".to_string())]);
    assert_eq!(classes[0].file_path, Some("dir/file.hpp".to_string()));
    assert_eq!(classes[1].name, "Inner");
    assert_eq!(classes[1].parent, Some("Base".to_string()));
    assert_eq!(classes[1].properties, vec![("a".to_string(), "1".to_string())]);
    assert_eq!(classes[1].file_path, Some("dir/file.hpp".to_string()));
}

#[test]
fn flatten_goes_to_any_depth_and_passes_over_entities_without_a_name() {
    let mut chain = block(Some("Level5"), None, vec![], vec![]);
    for level in (0..5).rev() {
        let name = format!("Level{}", level);
        let named = if level == 2 { None } else { Some(name.as_str()) };
        chain = block(named, None, vec![], vec![chain, block(Some("Leaf"), None, vec![], vec![])]);
    }
    let classes = flatten("deep.hpp", &vec![chain, block(None, None, vec![], vec![])]);
    let names: Vec<&str> = classes.iter().map(|c| c.name.as_str()).collect();
    assert_eq!(
        names,
        vec!["Level0", "Level1", "Level3", "Level4", "Level5", "Leaf", "Leaf", "Leaf", "Leaf", "Leaf"]
    );
    assert!(flatten("none.hpp", &vec![]).is_empty());
}

#[test]
fn an_empty_file_is_empty_and_never_a_parse_error() {
    let file = source("empty.hpp", "");
    let report = classify(&file, Extraction::Completed(Err("unexpected end of input".to_string())));
    assert!(matches!(report.outcome, ScanOutcome::Empty));
    assert!(report.classes.is_empty());
    let report = classify(&file, Extraction::Completed(Ok(vec![])));
    assert!(matches!(report.outcome, ScanOutcome::Empty));

    let processor = ClassProcessor::with_defaults("output");
    let report = processor.scan_file(&file);
    assert!(matches!(report.outcome, ScanOutcome::Empty));
    assert_eq!(report.path, "empty.hpp");
}

#[test]
fn a_passed_deadline_is_a_timeout_without_records() {
    let file = source("slow.hpp", "class Slow {};");
    let report = classify(&file, Extraction::DeadlineElapsed);
    assert!(matches!(report.outcome, ScanOutcome::Timeout));
    assert!(report.classes.is_empty());
    assert_eq!(report.path, "slow.hpp");

    let result = summarize(&vec![report]);
    assert_eq!(result.stats.total_files, 1);
    assert_eq!(result.stats.timeout_files, 1);
    assert_eq!(result.stats.timeout_file_paths, vec!["slow.hpp".to_string()]);
    assert_eq!(result.stats.total_classes, 0);
    assert!(result.classes.is_empty());
}

#[test]
fn classify_tells_the_outcomes_apart() {
    let file = source("a.hpp", "class A {};");
    let report = classify(&file, Extraction::Completed(Err("line 3: unexpected token".to_string())));
    match &report.outcome {
        ScanOutcome::ParseError(message) => assert_eq!(message, "line 3: unexpected token"),
        other => panic!("expected a parse error, got {:?}", other),
    }
    assert!(report.classes.is_empty());

    let report = classify(&file, Extraction::Completed(Ok(vec![block(Some("A"), None, vec![], vec![])])));
    assert!(matches!(report.outcome, ScanOutcome::HasClasses(1)));
    assert_eq!(report.classes.len(), 1);

    let report = classify(&file, Extraction::Completed(Ok(vec![block(None, None, vec![], vec![])])));
    assert!(matches!(report.outcome, ScanOutcome::Empty));

    let gone = unreadable("gone.hpp", "permission denied");
    let report = classify(&gone, Extraction::Completed(Ok(vec![])));
    match &report.outcome {
        ScanOutcome::ParseError(message) => assert_eq!(message, "permission denied"),
        other => panic!("expected a parse error, got {:?}", other),
    }
}

#[test]
fn every_file_is_counted_under_exactly_one_outcome() {
    let files = vec![
        source("one.hpp", "class A {}; class B: A {};"),
        source("empty.hpp", ""),
        unreadable("gone.hpp", "no such file"),
        source("none.hpp", "// nothing here\n"),
        source("two.hpp", "class C;"),
    ];
    let mut reports: Vec<FileReport> = Vec::new();
    let processor = ClassProcessor::with_defaults("output");
    for file in &files {
        reports.push(processor.scan_file(file));
    }
    reports.push(classify(&source("slow.hpp", "class S;"), Extraction::DeadlineElapsed));
    let result = summarize(&reports);
    let stats = &result.stats;
    assert_eq!(stats.total_files, 6);
    assert_eq!(stats.files_with_classes, 2);
    assert_eq!(stats.empty_files, 2);
    assert_eq!(stats.error_files, 1);
    assert_eq!(stats.timeout_files, 1);
    assert_eq!(
        stats.total_files,
        stats.files_with_classes + stats.empty_files + stats.error_files + stats.timeout_files
    );
    assert_eq!(stats.total_classes, 3);
    assert_eq!(result.classes.len(), 3);
    assert_eq!(stats.error_file_paths, vec!["gone.hpp".to_string()]);
    assert_eq!(stats.timeout_file_paths, vec!["slow.hpp".to_string()]);
}

#[test]
fn process_files_leaves_out_the_files_beyond_the_cap() {
    let files = vec![
        source("a.hpp", "class A;"),
        unreadable("b.hpp", "no such file"),
        source("c.hpp", "class C;"),
        unreadable("d.hpp", "no such file"),
    ];
    let options = ClassScanOptions { max_files: Some(2), ..ClassScanOptions::default() };
    let mut processor = ClassProcessor::new(options, "output");
    assert_eq!(processor.file_limit(4), 2);
    assert_eq!(processor.file_limit(1), 1);
    let result = processor.process_files(&files);
    assert_eq!(result.stats.total_files, 2);
    assert_eq!(result.stats.files_with_classes, 1);
    assert_eq!(result.stats.error_files, 1);
    assert_eq!(result.classes.len(), 1);
    assert_eq!(result.classes[0].name, "A");
    assert_eq!(result.classes[0].file_path, Some("a.hpp".to_string()));
    assert!(result.classes[0].properties.is_empty());
    assert_eq!(processor.get_scan_errors().error_files, vec!["b.hpp".to_string()]);
    assert!(processor.get_scan_errors().timeout_files.is_empty());

    let mut unlimited = ClassProcessor::with_defaults("output");
    assert_eq!(unlimited.file_limit(4), 4);
    let result = unlimited.process_files(&files);
    assert_eq!(result.stats.total_files, 4);
    assert_eq!(result.stats.error_files, 2);
    assert_eq!(
        unlimited.get_scan_errors().error_files,
        vec!["b.hpp".to_string(), "d.hpp".to_string()]
    );
}

#[test]
fn a_failing_file_does_not_stop_the_scan() {
    let files = vec![unreadable("bad.hpp", "not valid UTF-8"), source("good.hpp", "class Good {};")];
    let mut processor = ClassProcessor::with_defaults("output");
    let result = processor.scan_specific_files(&files);
    assert_eq!(result.stats.total_files, 2);
    assert_eq!(result.stats.error_files, 1);
    assert_eq!(result.stats.files_with_classes, 1);
    assert_eq!(result.classes.len(), 1);
    assert_eq!(result.classes[0].name, "Good");
}

#[test]
fn the_default_options_and_the_default_processor() {
    let options = ClassScanOptions::default();
    assert!(!options.verbose_errors);
    assert_eq!(options.max_files, None);
    assert_eq!(options.parse_timeout_seconds, 10);
    assert_eq!(options.parallel_threads, None);
    let processor = ClassProcessor::with_defaults("out/dir");
    assert_eq!(processor.output_dir(), "out/dir");
    assert_eq!(processor.options().parse_timeout_seconds, 10);
    assert_eq!(processor.file_collector().extensions(), ["cpp".to_string(), "hpp".to_string()]);
}

#[test]
fn the_worker_count_is_one_less_than_the_processors_and_at_least_one() {
    assert_eq!(worker_count(None, 8), 7);
    assert_eq!(worker_count(None, 2), 1);
    assert_eq!(worker_count(None, 1), 1);
    assert_eq!(worker_count(None, 0), 1);
    assert_eq!(worker_count(Some(3), 64), 3);
    assert_eq!(worker_count(Some(12), 1), 12);
    let options = ClassScanOptions { parallel_threads: Some(5), ..ClassScanOptions::default() };
    assert_eq!(ClassProcessor::new(options, "output").thread_count(), 5);
    assert!(ClassProcessor::with_defaults("output").thread_count() >= 1);
}

#[test]
fn scan_files_gives_one_report_for_each_file_taken() {
    let files = vec![
        source("a.hpp", "class A; class B: A;"),
        source("empty.hpp", ""),
        unreadable("gone.hpp", "no such file"),
        source("beyond.hpp", "class Beyond;"),
    ];
    let options = ClassScanOptions { max_files: Some(3), ..ClassScanOptions::default() };
    let mut processor = ClassProcessor::new(options, "output");
    let (reports, result) = processor.scan_files(&files);
    assert_eq!(reports.len(), 3);
    assert_eq!(reports[0].path, "a.hpp");
    assert!(matches!(reports[0].outcome, ScanOutcome::HasClasses(2)));
    assert_eq!(reports[0].classes.len(), 2);
    assert_eq!(reports[1].path, "empty.hpp");
    assert!(matches!(reports[1].outcome, ScanOutcome::Empty));
    assert_eq!(reports[2].path, "gone.hpp");
    assert!(matches!(reports[2].outcome, ScanOutcome::ParseError(_)));
    assert_eq!(result.stats.total_files, 3);
    assert_eq!(result.stats.total_classes, 2);
    assert_eq!(result.classes[1].name, "B");
    assert_eq!(result.classes[1].parent, Some("A".to_string()));
    assert_eq!(result.classes[1].file_path, Some("a.hpp".to_string()));
}

#[test]
fn a_scan_past_the_time_budget_is_a_timeout() {
    let processor = ClassProcessor::with_defaults("output");
    let parser = SimpleParser::new(false);
    let file = source("a.hpp", "class A;");
    let found = || parser.parse_content("class A;".to_string(), "a.hpp");

    let report = processor.report_scan(&file, found(), Elapsed { secs: 10, nanos: 0 });
    assert!(matches!(report.outcome, ScanOutcome::HasClasses(1)));
    assert_eq!(report.classes[0].name, "A");

    let report = processor.report_scan(&file, found(), Elapsed { secs: 10, nanos: 1 });
    assert!(matches!(report.outcome, ScanOutcome::Timeout));
    assert!(report.classes.is_empty());
    assert_eq!(report.path, "a.hpp");

    let failed = Err(ScanError::Parse { path: "a.hpp".to_string(), detail: "bad".to_string() });
    let report = processor.report_scan(&file, failed, Elapsed { secs: 0, nanos: 0 });
    match &report.outcome {
        ScanOutcome::ParseError(message) => assert_eq!(message, "bad"),
        other => panic!("expected a parse error, got {:?}", other),
    }

    let empty = source("empty.hpp", "");
    let report = processor.report_scan(&empty, Ok(vec![]), Elapsed { secs: 99, nanos: 0 });
    assert!(matches!(report.outcome, ScanOutcome::Empty));
    let gone = unreadable("gone.hpp", "locked");
    let report = processor.report_scan(&gone, Ok(vec![]), Elapsed { secs: 99, nanos: 0 });
    match &report.outcome {
        ScanOutcome::ParseError(message) => assert_eq!(message, "locked"),
        other => panic!("expected a parse error, got {:?}", other),
    }
}
