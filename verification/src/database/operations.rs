use vstd::prelude::*;
use vstd::string::*;

use crate::class::types::{records, ClassRecord, ClassScanResult, ProcessedClass};
use crate::database::sorting::{
    parse_sort_key, sort_entries, sort_key_of, sorted_by, sorting_rearranges,
};
use crate::database::storage::{DatabaseStorage, StorageError, Stored};
use crate::database::types::{
    change_of, current_time, entries_view, entry_refs_view, upserted, with_class_of_file, Change,
    ClassDatabase, ClassDatabaseStats, ClassEntry, ClassIndex, IndexEntry, Timestamp,
    UNKNOWN_HASH,
};
use crate::utils::file_utils::SourceFile;
use crate::utils::hash_utils::{content_hash, hash_string};
use crate::utils::text::{clone_opt, opt_text, pair_texts, texts};

verus! {

/// The options of a query as contracts see them.
pub struct Query {
    pub parent: Option<Seq<char>>,
    pub property_name: Option<Seq<char>>,
    pub property_value: Option<Seq<char>>,
    pub limit: Option<nat>,
    pub sort_by: Option<Seq<char>>,
    pub descending: bool,
}

/// Options for querying the database
#[derive(Debug)]
pub struct QueryOptions {
    /// Filter classes by parent class
    pub parent: Option<String>,
    /// Filter classes by property name
    pub property_name: Option<String>,
    /// Filter classes by property value
    pub property_value: Option<String>,
    /// Maximum number of results to return
    pub limit: Option<usize>,
    /// Sort results by this field
    pub sort_by: Option<String>,
    /// Sort in descending order
    pub descending: bool,
}

impl View for QueryOptions {
    type V = Query;

    open spec fn view(&self) -> Query {
        Query {
            parent: opt_text(self.parent),
            property_name: opt_text(self.property_name),
            property_value: opt_text(self.property_value),
            limit: match self.limit {
                Some(n) => Some(n as nat),
                None => None,
            },
            sort_by: opt_text(self.sort_by),
            descending: self.descending,
        }
    }
}

impl Default for QueryOptions {
    fn default() -> (options: Self)
        ensures
            options@ == (Query {
                parent: None,
                property_name: None,
                property_value: None,
                limit: None,
                sort_by: None,
                descending: false,
            }),
    {
        QueryOptions {
            parent: None,
            property_name: None,
            property_value: None,
            limit: None,
            sort_by: None,
            descending: false,
        }
    }
}

impl Clone for QueryOptions {
    fn clone(&self) -> (copy: Self)
        ensures
            copy@ == self@,
    {
        QueryOptions {
            parent: clone_opt(&self.parent),
            property_name: clone_opt(&self.property_name),
            property_value: clone_opt(&self.property_value),
            limit: self.limit,
            sort_by: clone_opt(&self.sort_by),
            descending: self.descending,
        }
    }
}

/// Tells whether one of the properties has the given key.
pub open spec fn has_key(properties: Seq<(Seq<char>, Seq<char>)>, key: Seq<char>) -> bool {
    exists|k: int| 0 <= k < properties.len() && (#[trigger] properties[k]).0 == key
}

/// Tells whether one of the properties has exactly the given value.
pub open spec fn has_value(properties: Seq<(Seq<char>, Seq<char>)>, value: Seq<char>) -> bool {
    exists|k: int| 0 <= k < properties.len() && (#[trigger] properties[k]).1 == value
}

/// Tells whether an entry passes every filter of a query: its parent is the one asked for,
/// it has a property of the name asked for, and one with the value asked for.
pub open spec fn passes(entry: IndexEntry, query: Query) -> bool {
    &&& query.parent matches Some(parent) ==> entry.record.parent == Some(parent)
    &&& query.property_name matches Some(name) ==> has_key(entry.record.properties, name)
    &&& query.property_value matches Some(value) ==> has_value(entry.record.properties, value)
}

/// The test that keeps the entries that pass every filter of a query.
pub open spec fn passing(query: Query) -> spec_fn(IndexEntry) -> bool {
    |entry: IndexEntry| passes(entry, query)
}

/// The entries in the order that a query asks for: sorted by the field it names, and as
/// they are where it names none or names a field that is not known.
pub open spec fn arranged(entries: Seq<IndexEntry>, query: Query) -> Seq<IndexEntry> {
    match query.sort_by {
        Some(field) => match sort_key_of(field) {
            Some(key) => sorted_by(entries, key, query.descending),
            None => entries,
        },
        None => entries,
    }
}

/// The first entries up to the limit, or all of them where there is no limit.
pub open spec fn limited(entries: Seq<IndexEntry>, limit: Option<nat>) -> Seq<IndexEntry> {
    match limit {
        Some(n) => if n < entries.len() {
            entries.take(n as int)
        } else {
            entries
        },
        None => entries,
    }
}

/// The answer to a query: the entries that pass the filters, in the asked order, cut at the
/// limit.
pub open spec fn query_result(entries: Seq<IndexEntry>, query: Query) -> Seq<IndexEntry> {
    limited(arranged(entries.filter(passing(query)), query), query.limit)
}

/// An answer is never longer than the limit of the query.
pub proof fn query_respects_limit(entries: Seq<IndexEntry>, query: Query)
    ensures
        query.limit matches Some(n) ==> query_result(entries, query).len() <= n,
{
}

/// What a query arranges is what it was given, in some order.
pub proof fn arranging_rearranges(entries: Seq<IndexEntry>, query: Query)
    ensures
        arranged(entries, query).to_multiset() == entries.to_multiset(),
        arranged(entries, query).len() == entries.len(),
{
    if let Some(field) = query.sort_by {
        if let Some(key) = sort_key_of(field) {
            sorting_rearranges(entries, key, query.descending);
        }
    }
}

/// Every entry of an answer is an entry of the index that passes every filter of the query.
pub proof fn query_answers_pass(entries: Seq<IndexEntry>, query: Query, k: int)
    requires
        0 <= k < query_result(entries, query).len(),
    ensures
        passes(query_result(entries, query)[k], query),
        entries.contains(query_result(entries, query)[k]),
{
    broadcast use vstd::seq_lib::group_to_multiset_ensures;

    let kept = entries.filter(passing(query));
    let ordered = arranged(kept, query);
    let answer = query_result(entries, query);
    let entry = answer[k];
    arranging_rearranges(kept, query);
    assert(ordered[k] == entry);
    assert(ordered.contains(entry));
    assert(ordered.to_multiset().count(entry) > 0);
    assert(kept.to_multiset().count(entry) > 0);
    assert(kept.contains(entry));
    let at = choose|i: int| 0 <= i < kept.len() && kept[i] == entry;
    entries.lemma_filter_pred(passing(query), at);
    entries.lemma_filter_contains_rev(passing(query), entry);
}

/// Without a limit, an answer holds every entry of the index that passes the filters, as
/// often as the index holds it.
pub proof fn query_answers_all(entries: Seq<IndexEntry>, query: Query)
    requires
        query.limit is None,
    ensures
        query_result(entries, query).to_multiset() == entries.filter(
            passing(query),
        ).to_multiset(),
{
    arranging_rearranges(entries.filter(passing(query)), query);
}

/// The entry of the index that a name stands for, if there is one.
pub open spec fn entry_named(index: ClassIndex) -> spec_fn(Seq<char>) -> Option<IndexEntry> {
    |name: Seq<char>| index.lookup(name)
}

/// The entries of the classes listed for a file, in the order of the list; a listed name
/// without an entry is passed over, and a file that is not known has none.
pub open spec fn entries_in_file(index: ClassIndex, path: Seq<char>) -> Seq<IndexEntry> {
    match index.classes_of(path) {
        Some(names) => names.filter_map(entry_named(index)),
        None => Seq::empty(),
    }
}

/// The hash of a file that was read; a file that could not be read has none.
pub open spec fn source_stamp(file: SourceFile) -> Option<Seq<char>> {
    match file.content {
        Ok(text) => Some(content_hash(text@)),
        Err(_) => None,
    }
}

/// The hash of the first file of the given path that was read, if there is one.
pub open spec fn stamp_of_path(sources: Seq<SourceFile>, path: Seq<char>) -> Option<Seq<char>>
    decreases sources.len(),
{
    if sources.len() == 0 {
        None
    } else {
        match stamp_of_path(sources.drop_last(), path) {
            Some(stamp) => Some(stamp),
            None => if sources.last().path@ == path {
                source_stamp(sources.last())
            } else {
                None
            },
        }
    }
}

/// The hash under which a record is kept: the hash of the whole text of its source file,
/// or the sentinel where it has no source file or the file was not read.
pub open spec fn stamp_of(record: ClassRecord, sources: Seq<SourceFile>) -> Seq<char> {
    match record.source_file {
        Some(path) => match stamp_of_path(sources, path) {
            Some(stamp) => stamp,
            None => UNKNOWN_HASH@,
        },
        None => UNKNOWN_HASH@,
    }
}

/// A hash found among the first files is the hash found among all of them.
pub proof fn stamp_of_path_from_prefix(sources: Seq<SourceFile>, path: Seq<char>, upto: int)
    requires
        0 <= upto <= sources.len(),
        stamp_of_path(sources.take(upto), path) is Some,
    ensures
        stamp_of_path(sources, path) == stamp_of_path(sources.take(upto), path),
    decreases sources.len() - upto,
{
    if upto < sources.len() {
        assert(sources.take(upto + 1).drop_last() =~= sources.take(upto));
        stamp_of_path_from_prefix(sources, path, upto + 1);
    } else {
        assert(sources.take(upto) =~= sources);
    }
}

/// The state of a reconciliation: the index so far, and how many classes were added and
/// updated.
pub struct Reconciliation {
    pub index: ClassIndex,
    pub added: nat,
    pub updated: nat,
}

/// A reconciliation with one more record taken in: the name is listed under its source file,
/// if it has one, and the record is upserted under the hash of that file.
pub open spec fn reconcile_one(
    state: Reconciliation,
    record: ClassRecord,
    sources: Seq<SourceFile>,
    now: Timestamp,
) -> Reconciliation {
    let stamp = stamp_of(record, sources);
    let change = change_of(state.index.entries, record, stamp);
    Reconciliation {
        index: ClassIndex {
            entries: upserted(state.index.entries, record, stamp, now),
            file_index: match record.source_file {
                Some(path) => with_class_of_file(state.index.file_index, path, record.name),
                None => state.index.file_index,
            },
            ..state.index
        },
        added: if change == Change::Added {
            state.added + 1
        } else {
            state.added
        },
        updated: if change == Change::Updated {
            state.updated + 1
        } else {
            state.updated
        },
    }
}

/// The reconciliation of a list of records into an index, one record after the other.
pub open spec fn reconciled(
    index: ClassIndex,
    records: Seq<ClassRecord>,
    sources: Seq<SourceFile>,
    now: Timestamp,
) -> Reconciliation
    decreases records.len(),
{
    if records.len() == 0 {
        Reconciliation { index, added: 0, updated: 0 }
    } else {
        reconcile_one(
            reconciled(index, records.drop_last(), sources, now),
            records.last(),
            sources,
            now,
        )
    }
}

/// The index after a reconciliation pass: every record taken in, and the time of the last
/// update set to now.
pub open spec fn reconciled_index(
    index: ClassIndex,
    records: Seq<ClassRecord>,
    sources: Seq<SourceFile>,
    now: Timestamp,
) -> ClassIndex {
    ClassIndex { updated_at: now, ..reconciled(index, records, sources, now).index }
}

/// The statistics of a reconciliation pass: the sizes of the index after it, and the counts
/// of the classes that it added and updated. No class is ever removed.
pub open spec fn reconciled_stats(
    index: ClassIndex,
    records: Seq<ClassRecord>,
    sources: Seq<SourceFile>,
    now: Timestamp,
) -> (nat, nat, nat, nat, nat) {
    let after = reconciled(index, records, sources, now);
    (after.index.entries.len(), after.index.file_index.len(), after.added, after.updated, 0)
}

/// The counts of a statistics value, in the order of its fields.
pub open spec fn stats_counts(stats: ClassDatabaseStats) -> (nat, nat, nat, nat, nat) {
    (
        stats.total_classes as nat,
        stats.total_files as nat,
        stats.added_classes as nat,
        stats.updated_classes as nat,
        stats.removed_classes as nat,
    )
}

/// The hash of each file that was read
fn source_stamps(sources: &[SourceFile]) -> (stamps: Vec<Option<String>>)
    ensures
        stamps@.len() == sources@.len(),
        forall|k: int|
            0 <= k < stamps@.len() ==> opt_text(#[trigger] stamps@[k]) == source_stamp(sources@[k]),
{
    let mut stamps: Vec<Option<String>> = Vec::with_capacity(sources.len());
    let mut i: usize = 0;
    while i < sources.len()
        invariant
            i <= sources.len(),
            stamps@.len() == i,
            forall|k: int|
                0 <= k < i ==> opt_text(#[trigger] stamps@[k]) == source_stamp(sources@[k]),
        decreases sources.len() - i,
    {
        let stamp = match &sources[i].content {
            Ok(text) => Some(hash_string(text.as_str())),
            Err(_) => None,
        };
        stamps.push(stamp);
        i += 1;
    }
    stamps
}

/// The hash under which the class is kept
fn stamp_for(class: &ProcessedClass, sources: &[SourceFile], stamps: &Vec<Option<String>>) -> (stamp:
    String)
    requires
        stamps@.len() == sources@.len(),
        forall|k: int|
            0 <= k < stamps@.len() ==> opt_text(#[trigger] stamps@[k]) == source_stamp(sources@[k]),
    ensures
        stamp@ == stamp_of(class@, sources@),
{
    match &class.file_path {
        None => String::from_str(UNKNOWN_HASH),
        Some(path) => {
            let mut i: usize = 0;
            assert(sources@.take(0) =~= Seq::empty());
            while i < sources.len()
                invariant
                    i <= sources.len(),
                    stamps@.len() == sources@.len(),
                    forall|k: int|
                        0 <= k < stamps@.len() ==> opt_text(#[trigger] stamps@[k]) == source_stamp(
                            sources@[k],
                        ),
                    stamp_of_path(sources@.take(i as int), path@) is None,
                    class@.source_file == Some(path@),
                decreases sources.len() - i,
            {
                proof {
                    let upto = sources@.take(i + 1);
                    assert(upto.drop_last() =~= sources@.take(i as int));
                    assert(upto.last() == sources@[i as int]);
                }
                if sources[i].path == *path {
                    if let Some(stamp) = &stamps[i] {
                        proof {
                            assert(opt_text(stamps@[i as int]) == source_stamp(sources@[i as int]));
                            stamp_of_path_from_prefix(sources@, path@, i + 1);
                        }
                        return stamp.clone();
                    }
                }
                i += 1;
            }
            assert(sources@.take(i as int) =~= sources@);
            String::from_str(UNKNOWN_HASH)
        },
    }
}

/// Tells whether one of the properties has the given key
fn holds_key(properties: &Vec<(String, String)>, key: &String) -> (found: bool)
    ensures
        found == has_key(pair_texts(properties@), key@),
{
    let mut i: usize = 0;
    while i < properties.len()
        invariant
            i <= properties.len(),
            forall|k: int| 0 <= k < i ==> (#[trigger] pair_texts(properties@)[k]).0 != key@,
        decreases properties.len() - i,
    {
        if properties[i].0 == *key {
            assert(pair_texts(properties@)[i as int].0 == key@);
            return true;
        }
        i += 1;
    }
    false
}

/// Tells whether one of the properties has exactly the given value
fn holds_value(properties: &Vec<(String, String)>, value: &String) -> (found: bool)
    ensures
        found == has_value(pair_texts(properties@), value@),
{
    let mut i: usize = 0;
    while i < properties.len()
        invariant
            i <= properties.len(),
            forall|k: int| 0 <= k < i ==> (#[trigger] pair_texts(properties@)[k]).1 != value@,
        decreases properties.len() - i,
    {
        if properties[i].1 == *value {
            assert(pair_texts(properties@)[i as int].1 == value@);
            return true;
        }
        i += 1;
    }
    false
}

/// Tells whether an entry passes every filter of a query
pub fn entry_passes(entry: &ClassEntry, options: &QueryOptions) -> (result: bool)
    ensures
        result == passes(entry@, options@),
{
    if let Some(parent) = &options.parent {
        match &entry.class.parent {
            Some(own) => {
                if !(*own == *parent) {
                    return false;
                }
            },
            None => {
                return false;
            },
        }
    }
    if let Some(name) = &options.property_name {
        if !holds_key(&entry.class.properties, name) {
            return false;
        }
    }
    if let Some(value) = &options.property_value {
        if !holds_value(&entry.class.properties, value) {
            return false;
        }
    }
    true
}

/// Database operations for querying and updating the database
#[derive(Debug)]
pub struct DatabaseOperations {
    /// Storage for the database
    storage: DatabaseStorage,
    /// The loaded database
    db: ClassDatabase,
}

impl DatabaseOperations {
    /// The index that the operations work on
    pub closed spec fn index(&self) -> ClassIndex {
        self.db@
    }

    /// The path of the file in which the database is kept
    pub closed spec fn spec_path(&self) -> Seq<char> {
        self.storage.spec_path()
    }

    /// Tells whether the database is well formed
    pub open spec fn wf(&self) -> bool {
        self.index().wf()
    }

    /// Create a new database operations instance from what was found on disk
    pub fn new(db_path: &str, stored: Stored, now: Timestamp) -> (result: Result<
        Self,
        StorageError,
    >)
        requires
            stored matches Stored::Database(db) ==> db.wf(),
        ensures
            match stored {
                Stored::Missing => result matches Ok(ops) && ops.wf() && ops.spec_path()
                    == db_path@ && ops.index() == (ClassIndex {
                    entries: Seq::empty(),
                    file_index: Seq::empty(),
                    created_at: now,
                    updated_at: now,
                    version: crate::database::types::SCHEMA_VERSION@,
                }),
                Stored::Database(found) => result matches Ok(ops) && ops.wf() && ops.spec_path()
                    == db_path@ && ops.index() == found@,
                Stored::Unusable(reason) => result matches Err(StorageError::Malformed(text))
                    && text@ == reason@,
            },
    {
        let storage = DatabaseStorage::new(db_path);
        match storage.load(stored, now) {
            Ok(db) => Ok(DatabaseOperations { storage, db }),
            Err(error) => Err(error),
        }
    }

    /// Get a reference to the database
    pub fn database(&self) -> (db: &ClassDatabase)
        ensures
            db@ == self.index(),
    {
        &self.db
    }

    /// Get a mutable reference to the database
    pub fn database_mut(&mut self) -> (db: &mut ClassDatabase)
        ensures
            db@ == old(self).index(),
            final(self).index() == final(db)@,
            final(self).spec_path() == old(self).spec_path(),
    {
        &mut self.db
    }

    /// Get the storage of the database
    pub fn storage(&self) -> (storage: &DatabaseStorage)
        ensures
            storage.spec_path() == self.spec_path(),
    {
        &self.storage
    }

    /// Reconcile the classes of a scan into the database at the given time, with the files
    /// of the scan at hand for hashing
    pub fn reconcile(
        &mut self,
        classes: &Vec<ProcessedClass>,
        sources: &[SourceFile],
        now: Timestamp,
    ) -> (stats: ClassDatabaseStats)
        requires
            old(self).wf(),
        ensures
            final(self).wf(),
            final(self).spec_path() == old(self).spec_path(),
            final(self).index() == reconciled_index(
                old(self).index(),
                records(classes@),
                sources@,
                now,
            ),
            stats_counts(stats) == reconciled_stats(
                old(self).index(),
                records(classes@),
                sources@,
                now,
            ),
    {
        let stamps = source_stamps(sources);
        let mut added: usize = 0;
        let mut updated: usize = 0;
        let mut i: usize = 0;
        let ghost start = self.db@;
        assert(records(classes@).take(0) =~= Seq::empty());
        while i < classes.len()
            invariant
                i <= classes.len(),
                added + updated <= i,
                self.db.wf(),
                self.storage.spec_path() == old(self).storage.spec_path(),
                stamps@.len() == sources@.len(),
                forall|k: int|
                    0 <= k < stamps@.len() ==> opt_text(#[trigger] stamps@[k]) == source_stamp(
                        sources@[k],
                    ),
                start == old(self).db@,
                (Reconciliation { index: self.db@, added: added as nat, updated: updated as nat })
                    == reconciled(start, records(classes@).take(i as int), sources@, now),
            decreases classes.len() - i,
        {
            let class = classes[i].clone();
            let stamp = stamp_for(&class, sources, &stamps);
            proof {
                let upto = records(classes@).take(i + 1);
                assert(upto.drop_last() =~= records(classes@).take(i as int));
                assert(upto.last() == class@);
            }
            if let Some(path) = &class.file_path {
                self.db.note_class_of_file(path, &class.name);
            }
            match self.db.upsert(class, stamp, now) {
                Change::Added => {
                    added += 1;
                },
                Change::Updated => {
                    updated += 1;
                },
                Change::Unchanged => {},
            }
            i += 1;
        }
        assert(records(classes@).take(i as int) =~= records(classes@));
        self.db.set_updated_at(now);
        ClassDatabaseStats {
            total_classes: self.db.entries().len(),
            total_files: self.db.file_classes().len(),
            added_classes: added,
            updated_classes: updated,
            removed_classes: 0,
        }
    }

    /// Update the database with new scan results, at the time of the call
    pub fn update_with_scan_results(
        &mut self,
        scan_result: ClassScanResult,
        sources: &[SourceFile],
    ) -> (stats: ClassDatabaseStats)
        requires
            old(self).wf(),
        ensures
            final(self).wf(),
            final(self).spec_path() == old(self).spec_path(),
            exists|now: Timestamp|
                final(self).index() == #[trigger] reconciled_index(
                    old(self).index(),
                    records(scan_result.classes@),
                    sources@,
                    now,
                ) && stats_counts(stats) == reconciled_stats(
                    old(self).index(),
                    records(scan_result.classes@),
                    sources@,
                    now,
                ),
    {
        let now = current_time();
        self.reconcile(&scan_result.classes, sources, now)
    }

    /// Query the database for classes matching the given options
    pub fn query(&self, options: &QueryOptions) -> (results: Vec<&ClassEntry>)
        ensures
            entry_refs_view(results@) == query_result(self.index().entries, options@),
    {
        let entries = self.db.entries();
        let ghost keep = passing(options@);
        let mut results: Vec<&ClassEntry> = Vec::new();
        let mut i: usize = 0;
        proof {
            reveal(Seq::filter);
            assert(entries_view(entries@).take(0) =~= Seq::empty());
            assert(entry_refs_view(results@) =~= entries_view(entries@).take(0).filter(keep));
        }
        while i < entries.len()
            invariant
                i <= entries.len(),
                keep == passing(options@),
                entry_refs_view(results@) == entries_view(entries@).take(i as int).filter(keep),
            decreases entries.len() - i,
        {
            let ghost before = entry_refs_view(results@);
            proof {
                reveal(Seq::filter);
                let upto = entries_view(entries@).take(i + 1);
                assert(upto.drop_last() =~= entries_view(entries@).take(i as int));
                assert(upto.last() == entries@[i as int]@);
            }
            if entry_passes(&entries[i], options) {
                results.push(&entries[i]);
                assert(entry_refs_view(results@) =~= before.push(entries@[i as int]@));
            }
            i += 1;
        }
        assert(entries_view(entries@).take(i as int) =~= entries_view(entries@));

        if let Some(field) = &options.sort_by {
            if let Some(key) = parse_sort_key(field) {
                results = sort_entries(&results, key, options.descending);
            }
        }
        if let Some(limit) = options.limit {
            if limit < results.len() {
                let ghost whole = entry_refs_view(results@);
                results.truncate(limit);
                assert(entry_refs_view(results@) =~= whole.take(limit as int));
            }
        }
        results
    }

    /// Get a class by name
    pub fn get_class(&self, name: &str) -> (entry: Option<&ClassEntry>)
        ensures
            match entry {
                Some(found) => self.index().lookup(name@) == Some(found@),
                None => self.index().lookup(name@) is None,
            },
    {
        let wanted = name.to_owned();
        self.db.get(&wanted)
    }

    /// Get all classes in a file
    pub fn get_classes_in_file(&self, file_path: &str) -> (results: Vec<&ClassEntry>)
        ensures
            entry_refs_view(results@) == entries_in_file(self.index(), file_path@),
    {
        let wanted = file_path.to_owned();
        let mut results: Vec<&ClassEntry> = Vec::new();
        match self.db.find_file(&wanted) {
            None => {
                assert(entry_refs_view(results@) =~= Seq::empty());
            },
            Some(k) => {
                let names = &self.db.file_classes()[k].classes;
                let ghost lookup = entry_named(self.index());
                let mut i: usize = 0;
                assert(texts(names@) == self.index().classes_of(file_path@)->0);
                assert(texts(names@).take(0) =~= Seq::empty());
                assert(entry_refs_view(results@) =~= texts(names@).take(0).filter_map(lookup));
                while i < names.len()
                    invariant
                        i <= names.len(),
                        lookup == entry_named(self.index()),
                        entry_refs_view(results@) == texts(names@).take(i as int).filter_map(
                            lookup,
                        ),
                    decreases names.len() - i,
                {
                    let ghost before = entry_refs_view(results@);
                    proof {
                        let upto = texts(names@).take(i + 1);
                        assert(upto.drop_last() =~= texts(names@).take(i as int));
                        assert(upto.last() == names@[i as int]@);
                    }
                    if let Some(entry) = self.db.get(&names[i]) {
                        results.push(entry);
                        assert(entry_refs_view(results@) =~= before + seq![entry@]);
                    }
                    i += 1;
                }
                assert(texts(names@).take(i as int) =~= texts(names@));
            },
        }
        results
    }

    /// Get database statistics
    pub fn get_stats(&self) -> (stats: ClassDatabaseStats)
        ensures
            stats == (ClassDatabaseStats {
                total_classes: self.index().entries.len() as usize,
                total_files: self.index().file_index.len() as usize,
                added_classes: 0,
                updated_classes: 0,
                removed_classes: 0,
            }),
    {
        ClassDatabaseStats {
            total_classes: self.db.entries().len(),
            total_files: self.db.file_classes().len(),
            added_classes: 0,
            updated_classes: 0,
            removed_classes: 0,
        }
    }
}

} // verus!
