use code_scanner::class::processor::ClassProcessor;
use code_scanner::class::types::ProcessedClass;
use code_scanner::database::storage::{DatabaseStorage, StorageError, Stored};
use code_scanner::database::types::{
    Change, ClassDatabase, ClassDatabaseStats, ClassEntry, FileClasses, Timestamp, SCHEMA_VERSION,
    UNKNOWN_HASH,
};
use code_scanner::database::{DatabaseOperations, QueryOptions};
use code_scanner::utils::file_utils::SourceFile;
use code_scanner::utils::hash_utils::hash_string;

fn source(path: &str, content: &str) -> SourceFile {
    SourceFile { path: path.to_string(), content: Ok(content.to_string()) }
}

fn at(secs: i64) -> Timestamp {
    Timestamp { secs, nanos: 0 }
}

fn class(name: &str, parent: Option<&str>, file: Option<&str>) -> ProcessedClass {
    ProcessedClass {
        name: name.to_string(),
        parent: parent.map(|p| p.to_string()),
        properties: Vec::new(),
        file_path: file.map(|f| f.to_string()),
    }
}

fn class_with(name: &str, parent: Option<&str>, properties: &[(&str, &str)]) -> ProcessedClass {
    ProcessedClass {
        name: name.to_string(),
        parent: parent.map(|p| p.to_string()),
        properties: properties.iter().map(|(k, v)| (k.to_string(), v.to_string())).collect(),
        file_path: None,
    }
}

fn empty_operations(now: Timestamp) -> DatabaseOperations {
    DatabaseOperations::new("class_db.json", Stored::Missing, now).expect("a missing file is no error")
}

fn names(entries: &[&ClassEntry]) -> Vec<String> {
    entries.iter().map(|e| e.class.name.clone()).collect()
}

#[test]
fn test_database_operations() {
    let class1_content = r#"
        class Vehicle_Base_F {
            scope = 1;
            displayName = "Vehicle Base";
        };
        
        class Car_F: Vehicle_Base_F {
            scope = 1;
            displayName = "Car Base";
        };
        "#;

    let class2_content = r#"
        class B_MRAP_01_F: Car_F {
            scope = 2;
            displayName = "Hunter";
            crew = "B_Soldier_F";
            faction = "BLU_F";
        };
        "#;

    let files = [source("vehicle_base.hpp", class1_content), source("b_mrap.hpp", class2_content)];

    let mut processor = ClassProcessor::with_defaults("output");
    let result = processor.scan_specific_files(&files);

    let mut db_ops = DatabaseOperations::new("class_db.json", Stored::Missing, at(1)).unwrap();
    let update_stats = db_ops.update_with_scan_results(result, &files);

    assert_eq!(update_stats.added_classes, 3); // Vehicle_Base_F, Car_F, and B_MRAP_01_F
    assert_eq!(update_stats.total_classes, 3);

    let query_results =
        db_ops.query(&QueryOptions { parent: Some("Car_F".to_string()), ..Default::default() });

    assert_eq!(query_results.len(), 1);
    assert_eq!(query_results[0].class.name, "B_MRAP_01_F");
}

#[test]
fn reconciling_an_unchanged_file_twice_changes_no_entry() {
    let files = [source("a.hpp", "class A; class B: A {};")];
    let classes = vec![class("A", None, Some("a.hpp")), class("B", Some("A"), Some("a.hpp"))];
    let mut ops = empty_operations(at(10));

    let first = ops.reconcile(&classes, &files, at(100));
    assert_eq!(
        first,
        ClassDatabaseStats {
            total_classes: 2,
            total_files: 1,
            added_classes: 2,
            updated_classes: 0,
            removed_classes: 0
        }
    );
    assert_eq!(ops.database().updated_at(), at(100));
    assert_eq!(ops.database().created_at(), at(10));

    let second = ops.reconcile(&classes, &files, at(200));
    assert_eq!(
        second,
        ClassDatabaseStats {
            total_classes: 2,
            total_files: 1,
            added_classes: 0,
            updated_classes: 0,
            removed_classes: 0
        }
    );
    for name in ["A", "B"] {
        let entry = ops.get_class(name).expect("the class is kept");
        assert_eq!(entry.added_at, at(100));
        assert_eq!(entry.updated_at, at(100));
        assert_eq!(entry.file_hash, hash_string("class A; class B: A {};"));
    }
    assert_eq!(ops.database().updated_at(), at(200));
    assert_eq!(ops.database().file_classes().len(), 1);
    assert_eq!(ops.database().file_classes()[0].path, "a.hpp");
    assert_eq!(ops.database().file_classes()[0].classes, vec!["A".to_string(), "B".to_string()]);
}

#[test]
fn reconciling_an_edited_file_updates_and_keeps_the_time_of_adding() {
    let classes = vec![class("A", None, Some("a.hpp"))];
    let mut ops = empty_operations(at(10));
    ops.reconcile(&classes, &[source("a.hpp", "class A;")], at(100));

    let edited = vec![class("A", Some("Base"), Some("a.hpp"))];
    let stats = ops.reconcile(&edited, &[source("a.hpp", "class A: Base;")], at(200));
    assert_eq!(stats.added_classes, 0);
    assert_eq!(stats.updated_classes, 1);
    assert_eq!(stats.total_classes, 1);
    assert_eq!(stats.removed_classes, 0);

    let entry = ops.get_class("A").unwrap();
    assert_eq!(entry.added_at, at(100));
    assert_eq!(entry.updated_at, at(200));
    assert_eq!(entry.file_hash, hash_string("class A: Base;"));
    assert_ne!(entry.file_hash, hash_string("class A;"));
    assert_eq!(entry.class.parent, Some("Base".to_string()));
}

#[test]
fn a_record_without_a_source_file_is_always_written_over() {
    let mut ops = empty_operations(at(10));
    let stats = ops.reconcile(&vec![class("Loose", None, None)], &[], at(100));
    assert_eq!(stats.added_classes, 1);
    let stats = ops.reconcile(&vec![class("Loose", Some("P"), None)], &[], at(200));
    assert_eq!(stats.added_classes, 1);
    assert_eq!(stats.updated_classes, 0);
    assert_eq!(stats.total_classes, 1);
    assert_eq!(stats.total_files, 0);
    let entry = ops.get_class("Loose").unwrap();
    assert_eq!(entry.file_hash, UNKNOWN_HASH);
    assert_eq!(entry.file_hash, "unknown");
    assert_eq!(entry.added_at, at(200));
    assert_eq!(entry.updated_at, at(200));
    assert_eq!(entry.class.parent, Some("P".to_string()));
}

#[test]
fn a_file_that_was_not_read_gives_the_sentinel_hash() {
    let files = [SourceFile { path: "a.hpp".to_string(), content: Err("gone".to_string()) }];
    let mut ops = empty_operations(at(10));
    ops.reconcile(&vec![class("A", None, Some("a.hpp"))], &files, at(100));
    assert_eq!(ops.get_class("A").unwrap().file_hash, "unknown");
    ops.reconcile(&vec![class("B", None, Some("other.hpp"))], &files, at(100));
    assert_eq!(ops.get_class("B").unwrap().file_hash, "unknown");
    assert_eq!(ops.get_stats().total_files, 2);
}

#[test]
fn reconciliation_never_removes_an_entry() {
    let mut ops = empty_operations(at(10));
    ops.reconcile(
        &vec![class("Old", None, Some("old.hpp")), class("Kept", None, Some("kept.hpp"))],
        &[source("old.hpp", "class Old;"), source("kept.hpp", "class Kept;")],
        at(100),
    );
    let stats = ops.reconcile(
        &vec![class("Kept", None, Some("kept.hpp")), class("New", None, Some("new.hpp"))],
        &[source("kept.hpp", "class Kept;"), source("new.hpp", "class New;")],
        at(200),
    );
    assert_eq!(stats.total_classes, 3);
    assert_eq!(stats.total_files, 3);
    assert_eq!(stats.added_classes, 1);
    assert_eq!(stats.updated_classes, 0);
    assert_eq!(stats.removed_classes, 0);
    assert!(ops.get_class("Old").is_some());
    let all = ops.query(&QueryOptions::default());
    assert_eq!(names(&all), vec!["Old", "Kept", "New"]);
}

#[test]
fn the_last_record_of_a_name_wins() {
    let mut ops = empty_operations(at(10));
    let stats = ops.reconcile(
        &vec![class("Same", Some("One"), Some("one.hpp")), class("Same", Some("Two"), Some("two.hpp"))],
        &[source("one.hpp", "class Same: One;"), source("two.hpp", "class Same: Two;")],
        at(100),
    );
    assert_eq!(stats.added_classes, 1);
    assert_eq!(stats.updated_classes, 1);
    assert_eq!(stats.total_classes, 1);
    assert_eq!(stats.total_files, 2);
    let entry = ops.get_class("Same").unwrap();
    assert_eq!(entry.class.parent, Some("Two".to_string()));
    assert_eq!(entry.class.file_path, Some("two.hpp".to_string()));
    assert_eq!(names(&ops.get_classes_in_file("one.hpp")), vec!["Same"]);
    assert_eq!(names(&ops.get_classes_in_file("two.hpp")), vec!["Same"]);
}

#[test]
fn upsert_says_what_it_did() {
    let mut db = ClassDatabase::new(at(1));
    assert_eq!(db.upsert(class("A", None, Some("a.hpp")), "h1".to_string(), at(2)), Change::Added);
    assert_eq!(db.upsert(class("A", None, Some("a.hpp")), "h1".to_string(), at(3)), Change::Unchanged);
    assert_eq!(db.upsert(class("A", None, Some("a.hpp")), "h2".to_string(), at(4)), Change::Updated);
    assert_eq!(db.upsert(class("A", None, None), "unknown".to_string(), at(5)), Change::Added);
    assert_eq!(db.entries().len(), 1);
    assert_eq!(db.find(&"A".to_string()), Some(0));
    assert_eq!(db.find(&"B".to_string()), None);
    db.note_class_of_file(&"a.hpp".to_string(), &"A".to_string());
    db.note_class_of_file(&"a.hpp".to_string(), &"A".to_string());
    db.note_class_of_file(&"a.hpp".to_string(), &"B".to_string());
    assert_eq!(db.file_classes().len(), 1);
    assert_eq!(db.file_classes()[0].classes, vec!["A".to_string(), "B".to_string()]);
    assert_eq!(db.find_file(&"a.hpp".to_string()), Some(0));
    assert_eq!(db.find_file(&"b.hpp".to_string()), None);
    assert_eq!(db.version(), SCHEMA_VERSION);
}

fn sample_operations() -> DatabaseOperations {
    let mut ops = empty_operations(at(0));
    ops.reconcile(
        &vec![class_with("Delta", Some("Base"), &[("scope", "2"), ("side", "west")])],
        &[],
        Timestamp { secs: 30, nanos: 5 },
    );
    ops.reconcile(
        &vec![class_with("alpha", Some("Base"), &[("scope", "1")])],
        &[],
        Timestamp { secs: 10, nanos: 0 },
    );
    ops.reconcile(
        &vec![class_with("Charlie", None, &[("side", "east"), ("scope", "2")])],
        &[],
        Timestamp { secs: 30, nanos: 4 },
    );
    ops.reconcile(
        &vec![class_with("Bravo", Some("Other"), &[("west", "side")])],
        &[],
        Timestamp { secs: 10, nanos: 0 },
    );
    ops
}

#[test]
fn query_filters_by_parent_and_properties() {
    let ops = sample_operations();
    let all = ops.query(&QueryOptions::default());
    assert_eq!(names(&all), vec!["Delta", "alpha", "Charlie", "Bravo"]);

    let by_parent = ops.query(&QueryOptions { parent: Some("Base".to_string()), ..Default::default() });
    assert_eq!(names(&by_parent), vec!["Delta", "alpha"]);

    let by_key = ops.query(&QueryOptions { property_name: Some("side".to_string()), ..Default::default() });
    assert_eq!(names(&by_key), vec!["Delta", "Charlie"]);

    let by_value = ops.query(&QueryOptions { property_value: Some("2".to_string()), ..Default::default() });
    assert_eq!(names(&by_value), vec!["Delta", "Charlie"]);

    let both = ops.query(&QueryOptions {
        parent: Some("Base".to_string()),
        property_name: Some("scope".to_string()),
        property_value: Some("1".to_string()),
        ..Default::default()
    });
    assert_eq!(names(&both), vec!["alpha"]);

    let value_is_no_key =
        ops.query(&QueryOptions { property_name: Some("west".to_string()), ..Default::default() });
    assert_eq!(names(&value_is_no_key), vec!["Bravo"]);

    let none = ops.query(&QueryOptions { parent: Some("base".to_string()), ..Default::default() });
    assert!(none.is_empty());
}

#[test]
fn query_sorts_and_limits() {
    let ops = sample_operations();
    let sorted = |field: &str, descending: bool| {
        names(&ops.query(&QueryOptions {
            sort_by: Some(field.to_string()),
            descending,
            ..Default::default()
        }))
    };
    assert_eq!(sorted("name", false), vec!["Bravo", "Charlie", "Delta", "alpha"]);
    assert_eq!(sorted("name", true), vec!["alpha", "Delta", "Charlie", "Bravo"]);
    assert_eq!(sorted("added_at", false), vec!["alpha", "Bravo", "Charlie", "Delta"]);
    assert_eq!(sorted("added_at", true), vec!["Delta", "Charlie", "alpha", "Bravo"]);
    assert_eq!(sorted("updated_at", false), vec!["alpha", "Bravo", "Charlie", "Delta"]);
    assert_eq!(sorted("size", false), vec!["Delta", "alpha", "Charlie", "Bravo"]);
    assert_eq!(sorted("Name", true), vec!["Delta", "alpha", "Charlie", "Bravo"]);

    let limited = ops.query(&QueryOptions {
        sort_by: Some("name".to_string()),
        limit: Some(2),
        ..Default::default()
    });
    assert_eq!(names(&limited), vec!["Bravo", "Charlie"]);
    let limited = ops.query(&QueryOptions { limit: Some(0), ..Default::default() });
    assert!(limited.is_empty());
    let limited = ops.query(&QueryOptions { limit: Some(9), ..Default::default() });
    assert_eq!(limited.len(), 4);
    let limited = ops.query(&QueryOptions {
        parent: Some("Base".to_string()),
        sort_by: Some("name".to_string()),
        descending: true,
        limit: Some(1),
        ..Default::default()
    });
    assert_eq!(names(&limited), vec!["alpha"]);
}

#[test]
fn lookups_by_name_and_by_file() {
    let files = [source("a.hpp", "class A; class B;"), source("c.hpp", "class C;")];
    let mut ops = empty_operations(at(1));
    ops.reconcile(
        &vec![
            class("A", None, Some("a.hpp")),
            class("C", None, Some("c.hpp")),
            class("B", None, Some("a.hpp")),
        ],
        &files,
        at(2),
    );
    assert_eq!(ops.get_class("B").unwrap().class.file_path, Some("a.hpp".to_string()));
    assert!(ops.get_class("b").is_none());
    assert_eq!(names(&ops.get_classes_in_file("a.hpp")), vec!["A", "B"]);
    assert_eq!(names(&ops.get_classes_in_file("c.hpp")), vec!["C"]);
    assert!(ops.get_classes_in_file("d.hpp").is_empty());
    assert_eq!(
        ops.get_stats(),
        ClassDatabaseStats {
            total_classes: 3,
            total_files: 2,
            added_classes: 0,
            updated_classes: 0,
            removed_classes: 0
        }
    );
    assert_eq!(ops.storage().path(), "class_db.json");
}

#[test]
fn the_database_can_be_changed_in_place() {
    let mut ops = empty_operations(at(1));
    let change = ops.database_mut().upsert(class("A", None, None), "unknown".to_string(), at(2));
    assert_eq!(change, Change::Added);
    ops.database_mut().note_class_of_file(&"a.hpp".to_string(), &"A".to_string());
    ops.database_mut().set_updated_at(at(3));
    assert_eq!(ops.get_stats().total_classes, 1);
    assert_eq!(ops.get_stats().total_files, 1);
    assert_eq!(ops.database().updated_at(), at(3));
    assert_eq!(names(&ops.get_classes_in_file("a.hpp")), vec!["A"]);
}

#[test]
fn loading_takes_a_missing_file_for_an_empty_database() {
    let storage = DatabaseStorage::new("dir/db.json");
    assert_eq!(storage.path(), "dir/db.json");
    let db = storage.load(Stored::Missing, at(7)).unwrap();
    assert!(db.entries().is_empty());
    assert!(db.file_classes().is_empty());
    assert_eq!(db.created_at(), at(7));
    assert_eq!(db.updated_at(), at(7));
    assert_eq!(db.version(), "0.1.0");

    match storage.load(Stored::Unusable("expected value at line 1".to_string()), at(7)) {
        Err(StorageError::Malformed(reason)) => assert_eq!(reason, "expected value at line 1"),
        Ok(_) => panic!("unusable content must not load"),
    }
    assert!(DatabaseOperations::new("db.json", Stored::Unusable("bad".to_string()), at(7)).is_err());

    let mut kept = ClassDatabase::new(at(1));
    kept.upsert(class("A", None, None), "unknown".to_string(), at(2));
    let db = storage.load(Stored::Database(kept), at(9)).unwrap();
    assert_eq!(db.entries().len(), 1);
    assert_eq!(db.created_at(), at(1));
}

#[test]
fn a_database_is_put_together_only_from_distinct_names_and_paths() {
    let keyed = |key: &str, name: &str| {
        (
            key.to_string(),
            ClassEntry {
                class: class(name, None, None),
                added_at: at(1),
                updated_at: at(2),
                file_hash: "unknown".to_string(),
            },
        )
    };
    let entry = |name: &str| keyed(name, name);
    let listing = |path: &str, classes: &[&str]| FileClasses {
        path: path.to_string(),
        classes: classes.iter().map(|c| c.to_string()).collect(),
    };
    let db = ClassDatabase::from_parts(
        vec![entry("A"), entry("B")],
        vec![listing("a.hpp", &["A", "B"]), listing("b.hpp", &["A"])],
        at(1),
        at(3),
        "0.0.9".to_string(),
    )
    .expect("distinct names and paths make a database");
    assert_eq!(db.entries().len(), 2);
    assert_eq!(db.entries()[1].class.name, "B");
    assert_eq!(db.file_classes().len(), 2);
    assert_eq!(db.created_at(), at(1));
    assert_eq!(db.updated_at(), at(3));
    assert_eq!(db.version(), "0.0.9");
    assert_eq!(db.get(&"B".to_string()).unwrap().updated_at, at(2));

    assert!(ClassDatabase::from_parts(vec![entry("A"), entry("A")], vec![], at(1), at(1), "v".to_string())
        .is_none());
    assert!(ClassDatabase::from_parts(vec![keyed("A", "B")], vec![], at(1), at(1), "v".to_string())
        .is_none());
    let again = ClassDatabase::from_parts(
        db.keyed_entries(),
        db.file_classes().clone(),
        db.created_at(),
        db.updated_at(),
        db.version().clone(),
    )
    .expect("the parts of a database make a database");
    assert_eq!(again.entries().len(), 2);
    assert_eq!(again.entries()[0].class.name, "A");
    assert_eq!(again.entries()[1].class.name, "B");
    assert_eq!(again.entries()[1].added_at, at(1));
    assert_eq!(again.file_classes()[1].path, "b.hpp");
    assert_eq!(db.keyed_entries()[1].0, "B");
    let copy = db.clone();
    assert_eq!(copy.entries().len(), 2);
    assert_eq!(copy.file_classes()[0].classes, vec!["A".to_string(), "B".to_string()]);
    assert_eq!(copy.version(), "0.0.9");
    assert!(ClassDatabase::from_parts(
        vec![],
        vec![listing("a.hpp", &[]), listing("a.hpp", &[])],
        at(1),
        at(1),
        "v".to_string()
    )
    .is_none());
    assert!(ClassDatabase::from_parts(
        vec![],
        vec![listing("a.hpp", &["A", "B", "A"])],
        at(1),
        at(1),
        "v".to_string()
    )
    .is_none());
}

#[test]
fn a_fresh_database_is_empty() {
    let db = ClassDatabase::default();
    assert!(db.entries().is_empty());
    assert!(db.file_classes().is_empty());
    assert_eq!(db.created_at(), db.updated_at());
    assert!(db.created_at().secs > 1_600_000_000);
    assert_eq!(db.version(), "0.1.0");
}

#[test]
fn timestamps_are_ordered_by_seconds_and_then_nanoseconds() {
    let early = Timestamp { secs: 5, nanos: 999_999_999 };
    let late = Timestamp { secs: 6, nanos: 0 };
    assert!(early.is_not_after(&late));
    assert!(!late.is_not_after(&early));
    assert!(early.is_not_after(&early));
    assert!(Timestamp { secs: -1, nanos: 0 }.is_not_after(&Timestamp { secs: 0, nanos: 0 }));
    assert!(Timestamp { secs: 6, nanos: 1 }.is_not_after(&Timestamp { secs: 6, nanos: 2 }));
    assert!(!Timestamp { secs: 6, nanos: 2 }.is_not_after(&Timestamp { secs: 6, nanos: 1 }));
}

#[test]
fn sorting_agrees_with_a_stable_sort() {
    let mut ops = empty_operations(at(0));
    let mut seed: u64 = 0x2545F4914F6CDD1D;
    let mut next = || {
        seed ^= seed << 13;
        seed ^= seed >> 7;
        seed ^= seed << 17;
        seed
    };
    for round in 0..150 {
        let name = format!("{}_{}", ["Car", "car", "Tank", "Éclair", "B_", ""][(next() % 6) as usize], round);
        let time = Timestamp { secs: (next() % 5) as i64 - 2, nanos: (next() % 3) as u32 };
        ops.reconcile(&vec![class(&name, None, None)], &[], time);
    }
    let all = ops.query(&QueryOptions::default());
    assert_eq!(all.len(), 150);
    for descending in [false, true] {
        for field in ["name", "added_at", "updated_at"] {
            let mut expected: Vec<&ClassEntry> = all.clone();
            expected.sort_by(|a, b| {
                let (a, b) = if descending { (b, a) } else { (a, b) };
                match field {
                    "name" => a.class.name.cmp(&b.class.name),
                    "added_at" => (a.added_at.secs, a.added_at.nanos).cmp(&(b.added_at.secs, b.added_at.nanos)),
                    _ => (a.updated_at.secs, a.updated_at.nanos).cmp(&(b.updated_at.secs, b.updated_at.nanos)),
                }
            });
            let sorted = ops.query(&QueryOptions {
                sort_by: Some(field.to_string()),
                descending,
                ..Default::default()
            });
            assert_eq!(names(&sorted), names(&expected), "sorted by {} (descending: {})", field, descending);
        }
    }
}
