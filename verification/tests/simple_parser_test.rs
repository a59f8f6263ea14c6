use code_scanner::class::processor::ClassProcessor;
use code_scanner::class::scanner::simple_parser::{ScanError, SimpleParser, CLASS_PATTERN};
use code_scanner::class::types::ClassScanOptions;
use code_scanner::utils::file_utils::SourceFile;

fn source(path: &str, content: &str) -> SourceFile {
    SourceFile { path: path.to_string(), content: Ok(content.to_string()) }
}

#[test]
fn test_simple_parser() {
    let class_content = r#"
        class CfgMovesBasic;
        class CfgMovesMaleSdr: CfgMovesBasic {
            class States {
                // Jog speed adjustment: 12km/h
                class AmovPercMstpSlowWrflDnon;
                class AmovPercMrunSlowWrflDf: AmovPercMstpSlowWrflDnon {
                    speed = 0.634570;
                };
                class AmovPercMrunSlowWrflDfl: AmovPercMrunSlowWrflDf {
                    speed = 0.634570;
                };
            };
        };
        "#;

    let parser = SimpleParser::new(true);
    let classes = parser
        .parse_file(&source("test_class.hpp", class_content))
        .expect("the content parses");

    assert_eq!(classes.len(), 6, "Should have found 6 classes");

    let class_names: Vec<String> = classes.iter().map(|c| c.name.clone()).collect();
    assert!(class_names.contains(&"CfgMovesBasic".to_string()), "Should contain CfgMovesBasic");
    assert!(class_names.contains(&"CfgMovesMaleSdr".to_string()), "Should contain CfgMovesMaleSdr");
    assert!(class_names.contains(&"States".to_string()), "Should contain States");
    assert!(
        class_names.contains(&"AmovPercMstpSlowWrflDnon".to_string()),
        "Should contain AmovPercMstpSlowWrflDnon"
    );
    assert!(
        class_names.contains(&"AmovPercMrunSlowWrflDf".to_string()),
        "Should contain AmovPercMrunSlowWrflDf"
    );
    assert!(
        class_names.contains(&"AmovPercMrunSlowWrflDfl".to_string()),
        "Should contain AmovPercMrunSlowWrflDfl"
    );

    let cfgmoves = classes.iter().find(|c| c.name == "CfgMovesMaleSdr").unwrap();
    assert_eq!(
        cfgmoves.parent,
        Some("CfgMovesBasic".to_string()),
        "CfgMovesMaleSdr should inherit from CfgMovesBasic"
    );

    let amov_run = classes.iter().find(|c| c.name == "AmovPercMrunSlowWrflDf").unwrap();
    assert_eq!(
        amov_run.parent,
        Some("AmovPercMstpSlowWrflDnon".to_string()),
        "AmovPercMrunSlowWrflDf should inherit from AmovPercMstpSlowWrflDnon"
    );

    let amov_run_fl = classes.iter().find(|c| c.name == "AmovPercMrunSlowWrflDfl").unwrap();
    assert_eq!(
        amov_run_fl.parent,
        Some("AmovPercMrunSlowWrflDf".to_string()),
        "AmovPercMrunSlowWrflDfl should inherit from AmovPercMrunSlowWrflDf"
    );
}

#[test]
fn test_class_processor_integration() {
    let class_content = r#"
        class Vehicle {
            scope = 2;
            displayName = "Vehicle";
        };
        
        class Tank: Vehicle {
            armor = 1000;
            displayName = "Tank";
            
            class Turret {
                weapons[] = {"cannon"};
            };
        };
        
        class Car: Vehicle {
            armor = 200;
            displayName = "Car";
        };
        "#;

    let mut processor = ClassProcessor::new(ClassScanOptions::default(), "output");
    let scan_result = processor.scan_specific_files(&[source("test_classes.hpp", class_content)]);

    assert_eq!(scan_result.classes.len(), 4, "Should have found 4 classes");
    assert_eq!(scan_result.stats.total_classes, 4, "Stats should show 4 classes");
    assert_eq!(scan_result.stats.total_files, 1, "Stats should show 1 file");

    let vehicle = scan_result.classes.iter().find(|c| c.name == "Vehicle").unwrap();
    assert_eq!(vehicle.parent, None, "Vehicle should have no parent");

    let tank = scan_result.classes.iter().find(|c| c.name == "Tank").unwrap();
    assert_eq!(tank.parent, Some("Vehicle".to_string()), "Tank should inherit from Vehicle");

    let car = scan_result.classes.iter().find(|c| c.name == "Car").unwrap();
    assert_eq!(car.parent, Some("Vehicle".to_string()), "Car should inherit from Vehicle");
}

#[test]
fn parse_content_keeps_the_order_of_the_text_and_the_path() {
    let parser = SimpleParser::new(false);
    let classes = parser
        .parse_content("class B: A {}; class A;".to_string(), "dir/file.hpp")
        .expect("the content parses");
    let names: Vec<&str> = classes.iter().map(|c| c.name.as_str()).collect();
    assert_eq!(names, vec!["B", "A"]);
    assert_eq!(classes[0].parent, Some("A".to_string()));
    assert_eq!(classes[1].parent, None);
    assert!(classes.iter().all(|c| c.file_path == "dir/file.hpp"));
}

#[test]
fn parse_content_needs_an_end_after_the_name() {
    let parser = SimpleParser::new(false);
    let classes = parser.parse_content("class Alone".to_string(), "a.hpp").unwrap();
    assert!(classes.is_empty());
    let classes = parser.parse_content("subclass Odd{".to_string(), "a.hpp").unwrap();
    assert_eq!(classes.len(), 1);
    assert_eq!(classes[0].name, "Odd");
    let classes = parser.parse_content("".to_string(), "a.hpp").unwrap();
    assert!(classes.is_empty());
}

#[test]
fn parse_file_reports_a_file_that_was_not_read() {
    let parser = SimpleParser::new(false);
    let file = SourceFile { path: "gone.hpp".to_string(), content: Err("no such file".to_string()) };
    match parser.parse_file(&file) {
        Err(ScanError::Read { path, detail }) => {
            assert_eq!(path, "gone.hpp");
            assert_eq!(detail, "no such file");
        }
        other => panic!("expected a read error, got {:?}", other),
    }
    let error = parser.parse_file(&file).unwrap_err();
    assert_eq!(error.path(), "gone.hpp");
    assert_eq!(error.detail(), "no such file");
    assert_eq!(error.message(), "Failed to read file gone.hpp: no such file");
}

#[test]
fn blocks_from_captures_skips_a_match_without_a_name() {
    let found = vec![
        vec![Some("class A;".to_string()), Some("A".to_string()), None],
        vec![Some("class".to_string()), None, None],
        vec![Some("class B: A{".to_string()), Some("B".to_string()), Some("A".to_string())],
        vec![Some("x".to_string())],
        vec![Some("class C ".to_string()), Some("C".to_string())],
    ];
    let blocks = SimpleParser::blocks_from_captures(&found, "f.hpp");
    assert_eq!(blocks.len(), 3);
    assert_eq!(blocks[0].name, "A");
    assert_eq!(blocks[0].parent, None);
    assert_eq!(blocks[1].name, "B");
    assert_eq!(blocks[1].parent, Some("A".to_string()));
    assert_eq!(blocks[2].name, "C");
    assert_eq!(blocks[2].parent, None);
    assert!(blocks.iter().all(|b| b.file_path == "f.hpp"));
}

#[test]
fn to_blocks_makes_bare_entities() {
    let parser = SimpleParser::new(false);
    let class_blocks = parser.parse_content("class B: A {};".to_string(), "f.hpp").unwrap();
    let blocks = parser.to_blocks(class_blocks);
    assert_eq!(blocks.len(), 1);
    assert_eq!(blocks[0].name, Some("B".to_string()));
    assert_eq!(blocks[0].parent, Some("A".to_string()));
    assert!(blocks[0].properties.is_empty());
    assert!(blocks[0].content.is_empty());
    assert!(blocks[0].children.is_empty());
}

#[test]
fn the_class_pattern_reads_as_a_regular_expression() {
    assert_eq!(CLASS_PATTERN, r"class\s+([A-Za-z0-9_]+)(?:\s*:\s*([A-Za-z0-9_]+))?[\s{;]");
}
