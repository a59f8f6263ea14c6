use code_scanner::class::processor::ProcessingStats;
use code_scanner::class::scanner::parser::ClassParser;
use code_scanner::utils::clock::Elapsed;
use code_scanner::class::scanner::simple_parser::{ScanError, SimpleParser};
use code_scanner::class::scanner::{ClassScanner, FileCollector, ProgressTracker};
use code_scanner::class::types::ClassScanOptions;
use code_scanner::file_utils::{
    get_files_with_extensions, has_any_extension, has_extension, FilePath, SourceFile,
};
use code_scanner::utils::hash_utils::{hash_file, hash_files, hash_string};
use code_scanner::utils::text::{contains_text, eq_ignore_ascii_case, join_texts, text_not_after};

fn path(text: &str, file_name: Option<&str>, extension: Option<&str>) -> FilePath {
    FilePath {
        path: text.to_string(),
        file_name: file_name.map(|n| n.to_string()),
        extension: extension.map(|e| e.to_string()),
    }
}

fn source(path: &str, content: &str) -> SourceFile {
    SourceFile { path: path.to_string(), content: Ok(content.to_string()) }
}

fn unreadable(path: &str) -> SourceFile {
    SourceFile { path: path.to_string(), content: Err("no such file".to_string()) }
}

#[test]
fn hash_string_is_the_sha_256_digest_in_lower_case_hex() {
    assert_eq!(
        hash_string("hello world"),
        "b94d27b9934d3e08a52e52d7da7dabfac484efe37a5380ee9088f7ace2efcde9"
    );
    assert_eq!(hash_string(""), "e3b0c44298fc1c149afbf4c8996fb92427ae41e4649b934ca495991b7852b855");
    assert_eq!(hash_string("héllo").len(), 64);
    assert_ne!(hash_string("héllo"), hash_string("hello"));
}

#[test]
fn hash_files_hashes_the_contents_one_after_another() {
    let files = [source("a", "hello"), source("b", " "), source("c", "world")];
    assert_eq!(hash_files(&files).unwrap(), hash_string("hello world"));
    assert_eq!(hash_files(&[]).unwrap(), hash_string(""));
    assert_ne!(hash_files(&[source("b", "b"), source("a", "a")]).unwrap(), hash_string("ab"));
    assert_eq!(hash_file(&files[0]).unwrap(), hash_string("hello"));
}

#[test]
fn hashing_stops_at_the_first_file_that_was_not_read() {
    let files = [
        source("a", "hello"),
        SourceFile { path: "b".to_string(), content: Err("locked".to_string()) },
        source("c", "world"),
        SourceFile { path: "d".to_string(), content: Err("gone".to_string()) },
    ];
    match hash_files(&files) {
        Err(ScanError::Read { path, detail }) => {
            assert_eq!(path, "b");
            assert_eq!(detail, "locked");
        }
        other => panic!("expected a read error, got {:?}", other),
    }
    match hash_file(&files[3]) {
        Err(ScanError::Read { path, detail }) => {
            assert_eq!(path, "d");
            assert_eq!(detail, "gone");
        }
        other => panic!("expected a read error, got {:?}", other),
    }
}

#[test]
fn extensions_are_compared_without_regard_to_ascii_case() {
    let file = path("dir/Config.CPP", Some("Config.CPP"), Some("CPP"));
    assert!(has_extension(&file, "cpp"));
    assert!(has_extension(&file, "CPP"));
    assert!(has_extension(&file, "cPp"));
    assert!(!has_extension(&file, "hpp"));
    assert!(!has_extension(&file, "cp"));
    assert!(!has_extension(&file, "cppp"));
    assert!(!has_extension(&file, ""));
    assert!(!has_extension(&path("Makefile", Some("Makefile"), None), "cpp"));
    assert!(!has_extension(&path("Makefile", Some("Makefile"), None), ""));
    assert!(has_extension(&path("a.ÄB", Some("a.ÄB"), Some("ÄB")), "Äb"));
    assert!(!has_extension(&path("a.ÄB", Some("a.ÄB"), Some("ÄB")), "äb"));

    assert!(has_any_extension(&file, &["hpp", "cpp"]));
    assert!(!has_any_extension(&file, &["hpp", "h"]));
    assert!(!has_any_extension(&file, &[]));
}

#[test]
fn files_are_collected_by_extension_in_the_order_in_which_they_were_found() {
    let entries = vec![
        path("a/one.cpp", Some("one.cpp"), Some("cpp")),
        path("a/two.txt", Some("two.txt"), Some("txt")),
        path("a/three.HPP", Some("three.HPP"), Some("HPP")),
        path("a/four", Some("four"), None),
        path("a/five.sqf", Some("five.sqf"), Some("sqf")),
    ];
    let found = get_files_with_extensions(&entries, &["cpp", "hpp"]);
    let paths: Vec<&str> = found.iter().map(|f| f.path.as_str()).collect();
    assert_eq!(paths, vec!["a/one.cpp", "a/three.HPP"]);
    assert_eq!(found[1].extension, Some("HPP".to_string()));
    assert_eq!(found[1].file_name, Some("three.HPP".to_string()));

    let collector = FileCollector::new();
    assert_eq!(collector.extensions(), ["cpp".to_string(), "hpp".to_string()]);
    assert_eq!(collector.collect_files(&entries).len(), 2);

    let mut custom = FileCollector::with_extensions(vec!["sqf".to_string()]);
    assert_eq!(custom.collect_files(&entries).len(), 1);
    custom.add_extension("txt");
    custom.add_extension("sqf");
    custom.add_extension("txt");
    assert_eq!(custom.extensions(), ["sqf".to_string(), "txt".to_string()]);
    let found: Vec<String> = custom.collect_files(&entries).iter().map(|f| f.path.clone()).collect();
    assert_eq!(found, vec!["a/two.txt", "a/five.sqf"]);

    let scanner = ClassScanner::with_defaults("output");
    assert_eq!(scanner.collect_files(&entries).len(), 2);
}

#[test]
fn text_helpers_compare_and_join() {
    let items = vec!["a".to_string(), "b".to_string()];
    assert!(contains_text(&items, &"b".to_string()));
    assert!(!contains_text(&items, &"B".to_string()));
    assert_eq!(join_texts(&items, "\n"), "a\nb");
    assert_eq!(join_texts(&items[..1], ", "), "a");
    assert_eq!(join_texts(&[], ", "), "");
}

#[test]
fn merged_statistics_add_up() {
    let mut first = ProcessingStats::new();
    assert_eq!(first.total_files, 0);
    assert_eq!(first.skipped_files(), 0);
    first.total_files = 5;
    first.total_classes = 7;
    first.files_with_classes = 2;
    first.empty_files = 1;
    first.error_files = 1;
    first.error_file_paths = vec!["bad.hpp".to_string()];
    first.timeout_files = 1;
    first.timeout_file_paths = vec!["slow.hpp".to_string()];
    assert_eq!(first.skipped_files(), 3);

    let mut second = ProcessingStats::new();
    second.total_files = 3;
    second.total_classes = 4;
    second.files_with_classes = 1;
    second.empty_files = 0;
    second.error_files = 2;
    second.error_file_paths = vec!["x.hpp".to_string(), "y.hpp".to_string()];

    first.merge(&second);
    assert_eq!(first.total_files, 8);
    assert_eq!(first.total_classes, 11);
    assert_eq!(first.files_with_classes, 3);
    assert_eq!(first.empty_files, 1);
    assert_eq!(first.error_files, 3);
    assert_eq!(first.timeout_files, 1);
    assert_eq!(
        first.error_file_paths,
        vec!["bad.hpp".to_string(), "x.hpp".to_string(), "y.hpp".to_string()]
    );
    assert_eq!(first.timeout_file_paths, vec!["slow.hpp".to_string()]);
    assert_eq!(
        first.total_files,
        first.files_with_classes + first.empty_files + first.error_files + first.timeout_files
    );
    assert_eq!(first.skipped_files(), 5);
    assert_eq!(second.total_files, 3);
}

#[test]
fn the_scanner_records_each_failing_file_once() {
    let mut scanner = ClassScanner::new(ClassScanOptions::default(), "output");
    scanner.add_error_file("bad.hpp");
    scanner.add_error_file("worse.hpp");
    scanner.add_error_file("bad.hpp");
    scanner.add_timeout_file("slow.hpp");
    scanner.add_timeout_file("slow.hpp");
    let errors = scanner.get_scan_errors();
    assert_eq!(errors.error_files, vec!["bad.hpp".to_string(), "worse.hpp".to_string()]);
    assert_eq!(errors.timeout_files, vec!["slow.hpp".to_string()]);

    scanner.begin_batch();
    let errors = scanner.get_scan_errors();
    assert!(errors.error_files.is_empty());
    assert!(errors.timeout_files.is_empty());
}

#[test]
fn a_batch_records_its_own_failures_only() {
    let mut scanner = ClassScanner::new(ClassScanOptions::default(), "output");
    scanner.add_error_file("earlier.hpp");
    scanner.add_timeout_file("slow.hpp");

    let files = [
        source("a.hpp", "class A: B {};"),
        unreadable("bad.hpp"),
        unreadable("new.hpp"),
        source("e.hpp", ""),
        unreadable("bad.hpp"),
    ];
    let results = scanner.scan_files_parallel(&files);
    assert_eq!(results.len(), 2);
    assert_eq!(results[0].0, "a.hpp");
    assert_eq!(results[0].1.len(), 1);
    assert_eq!(results[0].1[0].name, Some("A".to_string()));
    assert_eq!(results[0].1[0].parent, Some("B".to_string()));
    assert_eq!(results[1].0, "e.hpp");
    assert!(results[1].1.is_empty());
    let errors = scanner.get_scan_errors();
    assert_eq!(errors.error_files, vec!["bad.hpp".to_string(), "new.hpp".to_string()]);
    assert!(errors.timeout_files.is_empty());
    for (path, _) in &results {
        assert!(!errors.error_files.contains(path));
    }

    let results = scanner.scan_files_parallel(&[source("good.hpp", "class G;"), unreadable("last.hpp")]);
    assert_eq!(results.len(), 1);
    assert_eq!(scanner.get_scan_errors().error_files, vec!["last.hpp".to_string()]);
    assert_eq!(results.len() + scanner.get_scan_errors().error_files.len(), 2);

    let results = scanner.scan_files_parallel(&[]);
    assert!(results.is_empty());
    assert!(scanner.get_scan_errors().error_files.is_empty());
}

#[test]
fn parsing_under_a_time_budget() {
    let scanner = ClassScanner::with_defaults("output");
    let (blocks, timed_out) = scanner
        .parse_file_with_timeout(&source("a.hpp", "class A; class B: A;"))
        .expect("the file parses");
    assert!(!timed_out);
    assert_eq!(blocks.len(), 2);
    assert_eq!(blocks[1].parent, Some("A".to_string()));
    assert_eq!(scanner.parse_file(&source("a.hpp", "class A;")).unwrap().len(), 1);
    match scanner.parse_file_with_timeout(&unreadable("gone.hpp")) {
        Err(ScanError::Read { path, detail }) => {
            assert_eq!(path, "gone.hpp");
            assert_eq!(detail, "no such file");
        }
        other => panic!("expected a read error, got {:?}", other),
    }
    assert!(matches!(scanner.parse_file(&unreadable("gone.hpp")), Err(ScanError::Read { .. })));

    let parser = ClassParser::new(ClassScanOptions::default(), "output");
    let simple = SimpleParser::new(false);
    let found = || simple.parse_content("class A;".to_string(), "a.hpp");
    let (blocks, timed_out) = parser.settle(found(), Elapsed { secs: 10, nanos: 0 }, 10).unwrap();
    assert!(!timed_out);
    assert_eq!(blocks.len(), 1);
    let (blocks, timed_out) = parser.settle(found(), Elapsed { secs: 10, nanos: 1 }, 10).unwrap();
    assert!(timed_out);
    assert!(blocks.is_empty());
    let (blocks, timed_out) = parser.settle(found(), Elapsed { secs: 11, nanos: 0 }, 10).unwrap();
    assert!(timed_out);
    assert!(blocks.is_empty());
    let failed = || Err(ScanError::Parse { path: "a.hpp".to_string(), detail: "bad".to_string() });
    assert!(matches!(parser.settle(failed(), Elapsed { secs: 0, nanos: 5 }, 10), Err(ScanError::Parse { .. })));
    let (blocks, timed_out) = parser.settle(failed(), Elapsed { secs: 20, nanos: 0 }, 10).unwrap();
    assert!(timed_out);
    assert!(blocks.is_empty());
    assert!(Elapsed { secs: 0, nanos: 1 }.is_longer_than(0));
    assert!(!Elapsed { secs: 0, nanos: 0 }.is_longer_than(0));
}

#[test]
fn logs_are_made_for_failures_and_timeouts() {
    let quiet = ClassParser::new(ClassScanOptions::default(), "output");
    let file = path("dir/config.cpp", Some("config.cpp"), Some("cpp"));
    assert!(quiet.log_parse_error(&file, "unexpected token", "class {").is_none());

    let options = ClassScanOptions { verbose_errors: true, ..ClassScanOptions::default() };
    let verbose = ClassParser::new(options, "output");
    assert_eq!(verbose.output_dir(), "output");
    let log = verbose.log_parse_error(&file, "unexpected token", "class {").expect("a log is made");
    assert_eq!(log.directory, "error_logs");
    assert_eq!(log.file_name, "config.cpp_error.log");
    assert_eq!(
        log.content,
        "Error parsing file: dir/config.cpp\n\nError: unexpected token\n\nContent:\nclass {"
    );
    let log = verbose.log_parse_error(&path("..", None, None), "e", "").unwrap();
    assert_eq!(log.file_name, "unknown_error.log");

    assert!(verbose.log_timeout_files(&[]).is_none());
    let log = quiet
        .log_timeout_files(&["a/slow.hpp".to_string(), "b/slower.hpp".to_string()])
        .expect("a log is made");
    assert_eq!(log.directory, "timeout_logs");
    assert_eq!(log.file_name, "timeout_files.log");
    assert_eq!(log.content, "a/slow.hpp\nb/slower.hpp");
}

#[test]
fn progress_is_shown_for_long_lists_only() {
    let tracker = ProgressTracker::new();
    assert!(!tracker.shows_bar(0));
    assert!(!tracker.shows_bar(10));
    assert!(tracker.shows_bar(11));
    assert!(tracker.renews_message(1, 50));
    assert!(tracker.renews_message(10, 50));
    assert!(tracker.renews_message(40, 50));
    assert!(tracker.renews_message(47, 47));
    assert!(!tracker.renews_message(47, 50));
    assert!(!tracker.renews_message(2, 50));
}

#[test]
fn strings_are_compared_as_the_standard_library_compares_them() {
    let samples = [
        "", "a", "A", "ab", "aB", "Ab", "abc", "abd", "b", "Z", "z", "[", "@", "`", "{", "ä", "Ä", "é", "É",
        "a\u{80}", "a\u{7ff}", "a\u{800}", "a\u{ffff}", "a\u{10000}", "\u{10ffff}", "straße", "STRASSE",
        "Car_F", "car_f", "CAR_F", "Car_G", "Car", "Car_F ", "K", "\u{212a}", "k",
    ];
    for a in samples {
        for b in samples {
            assert_eq!(text_not_after(a, b), a <= b, "order of {:?} and {:?}", a, b);
            assert_eq!(
                eq_ignore_ascii_case(a, b),
                a.eq_ignore_ascii_case(b),
                "match of {:?} and {:?}",
                a,
                b
            );
        }
    }
    assert!(eq_ignore_ascii_case("HPP", "hpp"));
    assert!(!eq_ignore_ascii_case("\u{212a}", "k"));
    assert!(text_not_after("Zebra", "apple"));
    assert!(!text_not_after("apple", "Zebra"));
    assert!(text_not_after("Car", "Car_F"));
}
