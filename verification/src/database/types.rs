use vstd::prelude::*;
use vstd::string::*;

use crate::class::types::{ClassRecord, ProcessedClass};
use crate::utils::text::{clone_texts, contains_text, texts};

verus! {

/// The version of the layout of the database
pub const SCHEMA_VERSION: &'static str = "0.1.0";

/// The hash kept for a class whose source file is not known or cannot be read
pub const UNKNOWN_HASH: &'static str = "unknown";

/// A point in time: whole seconds since the start of 1970 in UTC, and the nanoseconds since
/// the last whole second.
#[derive(Debug, Clone, Copy, PartialEq, Eq, Structural)]
pub struct Timestamp {
    pub secs: i64,
    pub nanos: u32,
}

impl Timestamp {
    /// Tells whether this point in time is the other one or an earlier one
    pub open spec fn not_after(self, other: Timestamp) -> bool {
        self.secs < other.secs || (self.secs == other.secs && self.nanos <= other.nanos)
    }

    /// Tells whether this point in time is the other one or an earlier one
    pub fn is_not_after(&self, other: &Timestamp) -> (result: bool)
        ensures
            result == self.not_after(*other),
    {
        self.secs < other.secs || (self.secs == other.secs && self.nanos <= other.nanos)
    }
}

/// Reads the clock with `chrono::Utc::now` and keeps the seconds and nanoseconds that
/// `DateTime::timestamp` and `DateTime::timestamp_subsec_nanos` give for it.
/// Trusted, and nothing is claimed of the time. `Utc::now` does not return on a machine
/// whose clock stands before the year 1970.
#[verifier::external_body]
pub(crate) fn current_time() -> Timestamp {
    let now = chrono::Utc::now();
    Timestamp { secs: now.timestamp(), nanos: now.timestamp_subsec_nanos() }
}

/// An entry of the index as contracts see it.
pub struct IndexEntry {
    pub record: ClassRecord,
    pub added_at: Timestamp,
    pub updated_at: Timestamp,
    pub content_hash: Seq<char>,
}

/// Entry in the class database
#[derive(Debug)]
pub struct ClassEntry {
    /// The processed class data
    pub class: ProcessedClass,
    /// When this class was first added to the database
    pub added_at: Timestamp,
    /// When this class was last updated in the database
    pub updated_at: Timestamp,
    /// Hash of the file content when this class was processed
    pub file_hash: String,
}

impl View for ClassEntry {
    type V = IndexEntry;

    open spec fn view(&self) -> IndexEntry {
        IndexEntry {
            record: self.class@,
            added_at: self.added_at,
            updated_at: self.updated_at,
            content_hash: self.file_hash@,
        }
    }
}

impl Clone for ClassEntry {
    fn clone(&self) -> (copy: Self)
        ensures
            copy@ == self@,
    {
        ClassEntry {
            class: self.class.clone(),
            added_at: self.added_at,
            updated_at: self.updated_at,
            file_hash: self.file_hash.clone(),
        }
    }
}

/// The entries of a list of class entries.
pub open spec fn entries_view(entries: Seq<ClassEntry>) -> Seq<IndexEntry> {
    entries.map_values(|e: ClassEntry| e@)
}

/// The entries behind a list of references to class entries.
pub open spec fn entry_refs_view(entries: Seq<&ClassEntry>) -> Seq<IndexEntry> {
    entries.map_values(|e: &ClassEntry| e@)
}

/// The entries of a list of entries that come each with a key.
pub open spec fn keyed_view(keyed: Seq<(String, ClassEntry)>) -> Seq<(Seq<char>, IndexEntry)> {
    keyed.map_values(|pair: (String, ClassEntry)| (pair.0@, pair.1@))
}

/// The classes of one file as contracts see them.
pub struct FileEntry {
    pub path: Seq<char>,
    pub classes: Seq<Seq<char>>,
}

/// The names of the classes found in one file
#[derive(Debug)]
pub struct FileClasses {
    /// The path of the file as text
    pub path: String,
    /// The names of the classes found in the file, each once
    pub classes: Vec<String>,
}

impl View for FileClasses {
    type V = FileEntry;

    open spec fn view(&self) -> FileEntry {
        FileEntry { path: self.path@, classes: texts(self.classes@) }
    }
}

impl Clone for FileClasses {
    fn clone(&self) -> (copy: Self)
        ensures
            copy@ == self@,
    {
        FileClasses { path: self.path.clone(), classes: clone_texts(&self.classes) }
    }
}

/// The file entries of a list of file classes.
pub open spec fn files_view(files: Seq<FileClasses>) -> Seq<FileEntry> {
    files.map_values(|f: FileClasses| f@)
}

/// The index as contracts see it: the entries in the order in which their names came in,
/// and for each file the names of its classes.
pub struct ClassIndex {
    pub entries: Seq<IndexEntry>,
    pub file_index: Seq<FileEntry>,
    pub created_at: Timestamp,
    pub updated_at: Timestamp,
    pub version: Seq<char>,
}

/// The place of the entry with the given name, if there is one; the first, should there be
/// several.
pub open spec fn position_of(entries: Seq<IndexEntry>, name: Seq<char>) -> Option<int>
    decreases entries.len(),
{
    if entries.len() == 0 {
        None
    } else {
        match position_of(entries.drop_last(), name) {
            Some(k) => Some(k),
            None => if entries.last().record.name == name {
                Some(entries.len() - 1)
            } else {
                None
            },
        }
    }
}

/// The place of the given file in the file index, if it is there; the first, should there be
/// several.
pub open spec fn file_position(file_index: Seq<FileEntry>, path: Seq<char>) -> Option<int>
    decreases file_index.len(),
{
    if file_index.len() == 0 {
        None
    } else {
        match file_position(file_index.drop_last(), path) {
            Some(k) => Some(k),
            None => if file_index.last().path == path {
                Some(file_index.len() - 1)
            } else {
                None
            },
        }
    }
}

/// `position_of` gives the first place that holds the name, and nothing where no place does.
pub proof fn position_is_first(entries: Seq<IndexEntry>, name: Seq<char>)
    ensures
        match position_of(entries, name) {
            Some(k) => 0 <= k < entries.len() && entries[k].record.name == name && forall|j: int|
                0 <= j < k ==> (#[trigger] entries[j]).record.name != name,
            None => forall|j: int| 0 <= j < entries.len() ==> (#[trigger] entries[j]).record.name != name,
        },
    decreases entries.len(),
{
    if entries.len() > 0 {
        let before = entries.drop_last();
        position_is_first(before, name);
        match position_of(before, name) {
            Some(k) => {
                assert(entries[k] == before[k]);
                assert forall|j: int| 0 <= j < k implies (#[trigger] entries[j]).record.name
                    != name by {
                    assert(before[j] == entries[j]);
                }
            },
            None => {
                assert forall|j: int| 0 <= j < entries.len() - 1 implies (
                #[trigger] entries[j]).record.name != name by {
                    assert(before[j] == entries[j]);
                }
            },
        }
    }
}

/// `file_position` gives the first place that holds the path, and nothing where no place
/// does.
pub proof fn file_position_is_first(file_index: Seq<FileEntry>, path: Seq<char>)
    ensures
        match file_position(file_index, path) {
            Some(k) => 0 <= k < file_index.len() && file_index[k].path == path && forall|j: int|
                0 <= j < k ==> (#[trigger] file_index[j]).path != path,
            None => forall|j: int| 0 <= j < file_index.len() ==> (#[trigger] file_index[j]).path != path,
        },
    decreases file_index.len(),
{
    if file_index.len() > 0 {
        let before = file_index.drop_last();
        file_position_is_first(before, path);
        match file_position(before, path) {
            Some(k) => {
                assert(file_index[k] == before[k]);
                assert forall|j: int| 0 <= j < k implies (#[trigger] file_index[j]).path
                    != path by {
                    assert(before[j] == file_index[j]);
                }
            },
            None => {
                assert forall|j: int| 0 <= j < file_index.len() - 1 implies (
                #[trigger] file_index[j]).path != path by {
                    assert(before[j] == file_index[j]);
                }
            },
        }
    }
}

/// Tells whether no two entries have the same name.
pub open spec fn distinct_names(entries: Seq<IndexEntry>) -> bool {
    forall|i: int, j: int|
        0 <= i < j < entries.len() ==> (#[trigger] entries[i]).record.name != (
        #[trigger] entries[j]).record.name
}

/// Tells whether no two file entries have the same path.
pub open spec fn distinct_paths(file_index: Seq<FileEntry>) -> bool {
    forall|i: int, j: int|
        0 <= i < j < file_index.len() ==> (#[trigger] file_index[i]).path != (
        #[trigger] file_index[j]).path
}

impl ClassIndex {
    /// The name is the key of the entries and the path is the key of the file index: neither
    /// occurs twice, and no file lists a class twice.
    pub open spec fn wf(self) -> bool {
        &&& distinct_names(self.entries)
        &&& distinct_paths(self.file_index)
        &&& forall|k: int|
            0 <= k < self.file_index.len() ==> (#[trigger] self.file_index[k]).classes.no_duplicates()
    }

    /// The entry with the given name, if there is one
    pub open spec fn lookup(self, name: Seq<char>) -> Option<IndexEntry> {
        match position_of(self.entries, name) {
            Some(k) => Some(self.entries[k]),
            None => None,
        }
    }

    /// The names of the classes listed for the given file, if the file is known
    pub open spec fn classes_of(self, path: Seq<char>) -> Option<Seq<Seq<char>>> {
        match file_position(self.file_index, path) {
            Some(k) => Some(self.file_index[k].classes),
            None => None,
        }
    }
}

/// The parts of an index as they are stored: the entries each under a key, and the rest as
/// it is.
pub struct IndexParts {
    pub entries: Seq<(Seq<char>, IndexEntry)>,
    pub file_index: Seq<FileEntry>,
    pub created_at: Timestamp,
    pub updated_at: Timestamp,
    pub version: Seq<char>,
}

/// Tells whether every entry is stored under the name of its class.
pub open spec fn keyed_by_name(entries: Seq<(Seq<char>, IndexEntry)>) -> bool {
    forall|k: int| 0 <= k < entries.len() ==> (#[trigger] entries[k]).0 == entries[k].1.record.name
}

/// The index that stored parts hold, taken as they are.
pub open spec fn index_of(parts: IndexParts) -> ClassIndex {
    ClassIndex {
        entries: parts.entries.map_values(|pair: (Seq<char>, IndexEntry)| pair.1),
        file_index: parts.file_index,
        created_at: parts.created_at,
        updated_at: parts.updated_at,
        version: parts.version,
    }
}

/// The index that stored parts make: the index that they hold, where every entry is stored
/// under the name of its class and no name and no path occurs twice, and none otherwise.
pub open spec fn assembled(parts: IndexParts) -> Option<ClassIndex> {
    if keyed_by_name(parts.entries) && index_of(parts).wf() {
        Some(index_of(parts))
    } else {
        None
    }
}

/// The parts of an index for storing: every entry under the name of its class.
pub open spec fn taken_apart(index: ClassIndex) -> IndexParts {
    IndexParts {
        entries: index.entries.map_values(|entry: IndexEntry| (entry.record.name, entry)),
        file_index: index.file_index,
        created_at: index.created_at,
        updated_at: index.updated_at,
        version: index.version,
    }
}

/// An index taken apart for storing and assembled again is the same index.
pub proof fn taking_apart_and_assembling_gives_the_index_back(index: ClassIndex)
    requires
        index.wf(),
    ensures
        assembled(taken_apart(index)) == Some(index),
{
    assert(index_of(taken_apart(index)).entries =~= index.entries);
}

/// What an upsert did to the index.
#[derive(Debug, Clone, Copy, PartialEq, Eq, Structural)]
pub enum Change {
    /// The class was inserted, or written over without regard to what was there
    Added,
    /// The class was there with another hash and was replaced
    Updated,
    /// The class was there with the same hash and nothing was done
    Unchanged,
}

/// What an upsert does with a record and the hash of its file. A name that is not in the
/// index is added. A record without a source file is written over what is there. A record
/// with a source file replaces what is there where the hash differs, and otherwise changes
/// nothing.
pub open spec fn change_of(entries: Seq<IndexEntry>, record: ClassRecord, stamp: Seq<char>) -> Change {
    match position_of(entries, record.name) {
        None => Change::Added,
        Some(k) => if record.source_file is None {
            Change::Added
        } else if entries[k].content_hash != stamp {
            Change::Updated
        } else {
            Change::Unchanged
        },
    }
}

/// The entries after an upsert. An added entry has both its times set to now. An updated
/// entry keeps the time at which it was added. Every other entry stays as it is and where
/// it is.
pub open spec fn upserted(
    entries: Seq<IndexEntry>,
    record: ClassRecord,
    stamp: Seq<char>,
    now: Timestamp,
) -> Seq<IndexEntry> {
    match position_of(entries, record.name) {
        None => entries.push(
            IndexEntry { record, added_at: now, updated_at: now, content_hash: stamp },
        ),
        Some(k) => match change_of(entries, record, stamp) {
            Change::Added => entries.update(
                k,
                IndexEntry { record, added_at: now, updated_at: now, content_hash: stamp },
            ),
            Change::Updated => entries.update(
                k,
                IndexEntry {
                    record,
                    added_at: entries[k].added_at,
                    updated_at: now,
                    content_hash: stamp,
                },
            ),
            Change::Unchanged => entries,
        },
    }
}

/// The file index after the class was noted under the file: a file that is not known is
/// added with this one class, and a known file gets the name unless it lists it already.
pub open spec fn with_class_of_file(
    file_index: Seq<FileEntry>,
    path: Seq<char>,
    name: Seq<char>,
) -> Seq<FileEntry> {
    match file_position(file_index, path) {
        None => file_index.push(FileEntry { path, classes: seq![name] }),
        Some(k) => if file_index[k].classes.contains(name) {
            file_index
        } else {
            file_index.update(k, FileEntry { path, classes: file_index[k].classes.push(name) })
        },
    }
}

/// An upsert keeps the names of the entries distinct.
pub proof fn upsert_keeps_names_distinct(
    entries: Seq<IndexEntry>,
    record: ClassRecord,
    stamp: Seq<char>,
    now: Timestamp,
)
    requires
        distinct_names(entries),
    ensures
        distinct_names(upserted(entries, record, stamp, now)),
{
    position_is_first(entries, record.name);
}

/// Database for storing and querying processed classes
#[derive(Debug)]
pub struct ClassDatabase {
    /// The class entries, each under its own name
    entries: Vec<ClassEntry>,
    /// For each file, the names of the classes in that file
    file_classes: Vec<FileClasses>,
    /// When this database was created
    created_at: Timestamp,
    /// When this database was last updated
    updated_at: Timestamp,
    /// Version of the database schema
    version: String,
}

impl View for ClassDatabase {
    type V = ClassIndex;

    closed spec fn view(&self) -> ClassIndex {
        ClassIndex {
            entries: entries_view(self.entries@),
            file_index: files_view(self.file_classes@),
            created_at: self.created_at,
            updated_at: self.updated_at,
            version: self.version@,
        }
    }
}

/// Statistics about the class database
#[derive(Debug, Clone, Copy, PartialEq, Eq, Structural)]
pub struct ClassDatabaseStats {
    /// Total number of classes in the database
    pub total_classes: usize,
    /// Total number of files referenced in the database
    pub total_files: usize,
    /// Number of classes added in the last update
    pub added_classes: usize,
    /// Number of classes updated in the last update
    pub updated_classes: usize,
    /// Number of classes removed in the last update
    pub removed_classes: usize,
}

impl Default for ClassDatabaseStats {
    fn default() -> (stats: Self)
        ensures
            stats == (ClassDatabaseStats {
                total_classes: 0,
                total_files: 0,
                added_classes: 0,
                updated_classes: 0,
                removed_classes: 0,
            }),
    {
        ClassDatabaseStats {
            total_classes: 0,
            total_files: 0,
            added_classes: 0,
            updated_classes: 0,
            removed_classes: 0,
        }
    }
}

impl Default for ClassDatabase {
    /// An empty database made at the time of the call
    fn default() -> (db: Self)
        ensures
            db.wf(),
            db@.entries == Seq::<IndexEntry>::empty(),
            db@.file_index == Seq::<FileEntry>::empty(),
            db@.created_at == db@.updated_at,
            db@.version == SCHEMA_VERSION@,
    {
        ClassDatabase::new(current_time())
    }
}

impl ClassDatabase {
    /// Tells whether the database is well formed: no name and no path occurs twice
    pub open spec fn wf(&self) -> bool {
        self@.wf()
    }

    /// Create an empty database at the given time
    pub fn new(now: Timestamp) -> (db: Self)
        ensures
            db.wf(),
            db@ == (ClassIndex {
                entries: Seq::empty(),
                file_index: Seq::empty(),
                created_at: now,
                updated_at: now,
                version: SCHEMA_VERSION@,
            }),
    {
        let db = ClassDatabase {
            entries: Vec::new(),
            file_classes: Vec::new(),
            created_at: now,
            updated_at: now,
            version: String::from_str(SCHEMA_VERSION),
        };
        assert(db@.entries =~= Seq::empty());
        assert(db@.file_index =~= Seq::empty());
        db
    }

    /// The class entries, in the order in which their names came in
    pub fn entries(&self) -> (entries: &Vec<ClassEntry>)
        ensures
            entries_view(entries@) == self@.entries,
    {
        &self.entries
    }

    /// For each file, the names of the classes in that file
    pub fn file_classes(&self) -> (files: &Vec<FileClasses>)
        ensures
            files_view(files@) == self@.file_index,
    {
        &self.file_classes
    }

    /// When this database was created
    pub fn created_at(&self) -> (time: Timestamp)
        ensures
            time == self@.created_at,
    {
        self.created_at
    }

    /// When this database was last updated
    pub fn updated_at(&self) -> (time: Timestamp)
        ensures
            time == self@.updated_at,
    {
        self.updated_at
    }

    /// Version of the database schema
    pub fn version(&self) -> (version: &String)
        ensures
            version@ == self@.version,
    {
        &self.version
    }

    /// The place of the entry with the given name
    pub fn find(&self, name: &String) -> (place: Option<usize>)
        ensures
            match place {
                Some(k) => position_of(self@.entries, name@) == Some(k as int) && k
                    < self@.entries.len(),
                None => position_of(self@.entries, name@) is None,
            },
    {
        let mut i: usize = 0;
        while i < self.entries.len()
            invariant
                i <= self.entries.len(),
                forall|j: int| 0 <= j < i ==> (#[trigger] self@.entries[j]).record.name != name@,
            decreases self.entries.len() - i,
        {
            if self.entries[i].class.name == *name {
                proof {
                    position_is_first(self@.entries, name@);
                    assert(self@.entries[i as int].record.name == name@);
                }
                return Some(i);
            }
            i += 1;
        }
        proof {
            position_is_first(self@.entries, name@);
        }
        None
    }

    /// The place of the given file in the file index
    pub fn find_file(&self, path: &String) -> (place: Option<usize>)
        ensures
            match place {
                Some(k) => file_position(self@.file_index, path@) == Some(k as int) && k
                    < self@.file_index.len(),
                None => file_position(self@.file_index, path@) is None,
            },
    {
        let mut i: usize = 0;
        while i < self.file_classes.len()
            invariant
                i <= self.file_classes.len(),
                forall|j: int| 0 <= j < i ==> (#[trigger] self@.file_index[j]).path != path@,
            decreases self.file_classes.len() - i,
        {
            if self.file_classes[i].path == *path {
                proof {
                    file_position_is_first(self@.file_index, path@);
                    assert(self@.file_index[i as int].path == path@);
                }
                return Some(i);
            }
            i += 1;
        }
        proof {
            file_position_is_first(self@.file_index, path@);
        }
        None
    }

    /// Get a class by name
    pub fn get(&self, name: &String) -> (entry: Option<&ClassEntry>)
        ensures
            match entry {
                Some(found) => self@.lookup(name@) == Some(found@),
                None => self@.lookup(name@) is None,
            },
    {
        match self.find(name) {
            Some(k) => Some(&self.entries[k]),
            None => None,
        }
    }

    /// Set the time of the last update
    pub fn set_updated_at(&mut self, now: Timestamp)
        ensures
            final(self)@ == (ClassIndex { updated_at: now, ..old(self)@ }),
    {
        self.updated_at = now;
    }

    /// Insert the class under its name, or bring the entry of that name up to date. A class
    /// that is new is added. A class without a source file is written over what is there. A
    /// class with a source file replaces the entry where the hash differs, and keeps the
    /// time at which the entry was added; where the hash is the same nothing is done.
    pub fn upsert(&mut self, class: ProcessedClass, stamp: String, now: Timestamp) -> (change:
        Change)
        requires
            old(self).wf(),
        ensures
            final(self).wf(),
            change == change_of(old(self)@.entries, class@, stamp@),
            final(self)@ == (ClassIndex {
                entries: upserted(old(self)@.entries, class@, stamp@, now),
                ..old(self)@
            }),
    {
        proof {
            upsert_keeps_names_distinct(self@.entries, class@, stamp@, now);
        }
        let ghost before = self@.entries;
        match self.find(&class.name) {
            None => {
                self.entries.push(
                    ClassEntry { class, added_at: now, updated_at: now, file_hash: stamp },
                );
                assert(self@.entries =~= upserted(before, class@, stamp@, now));
                Change::Added
            },
            Some(k) => {
                if class.file_path.is_none() {
                    self.entries.set(
                        k,
                        ClassEntry { class, added_at: now, updated_at: now, file_hash: stamp },
                    );
                    assert(self@.entries =~= upserted(before, class@, stamp@, now));
                    Change::Added
                } else if !(self.entries[k].file_hash == stamp) {
                    let added_at = self.entries[k].added_at;
                    self.entries.set(
                        k,
                        ClassEntry { class, added_at, updated_at: now, file_hash: stamp },
                    );
                    assert(self@.entries =~= upserted(before, class@, stamp@, now));
                    Change::Updated
                } else {
                    Change::Unchanged
                }
            },
        }
    }

    /// Note that the class was found in the file: the name is listed under the path, once
    pub fn note_class_of_file(&mut self, path: &String, name: &String)
        requires
            old(self).wf(),
        ensures
            final(self).wf(),
            final(self)@ == (ClassIndex {
                file_index: with_class_of_file(old(self)@.file_index, path@, name@),
                ..old(self)@
            }),
    {
        let ghost before = self@.file_index;
        proof {
            file_position_is_first(before, path@);
        }
        match self.find_file(path) {
            None => {
                let mut classes: Vec<String> = Vec::new();
                classes.push(name.clone());
                assert(texts(classes@) =~= seq![name@]);
                self.file_classes.push(FileClasses { path: path.clone(), classes });
                assert(self@.file_index =~= with_class_of_file(before, path@, name@));
            },
            Some(k) => {
                if !contains_text(&self.file_classes[k].classes, name) {
                    let mut classes = clone_texts(&self.file_classes[k].classes);
                    let ghost listed = texts(classes@);
                    classes.push(name.clone());
                    assert(texts(classes@) =~= listed.push(name@));
                    self.file_classes.set(k, FileClasses { path: path.clone(), classes });
                    assert(self@.file_index =~= with_class_of_file(before, path@, name@));
                }
            },
        }
    }

    /// Tells whether no two of the entries have the same name
    fn names_are_distinct(entries: &Vec<ClassEntry>) -> (result: bool)
        ensures
            result == distinct_names(entries_view(entries@)),
    {
        let ghost all = entries_view(entries@);
        let mut j: usize = 0;
        while j < entries.len()
            invariant
                j <= entries.len(),
                all == entries_view(entries@),
                forall|a: int, b: int|
                    0 <= a < b < j ==> (#[trigger] all[a]).record.name != (#[trigger] all[b]).record.name,
            decreases entries.len() - j,
        {
            let mut i: usize = 0;
            while i < j
                invariant
                    i <= j < entries.len(),
                    all == entries_view(entries@),
                    forall|a: int| 0 <= a < i ==> (#[trigger] all[a]).record.name != all[j as int].record.name,
                decreases j - i,
            {
                if entries[i].class.name == entries[j].class.name {
                    assert(all[i as int].record.name == all[j as int].record.name);
                    return false;
                }
                i += 1;
            }
            j += 1;
        }
        true
    }

    /// Tells whether no two of the files have the same path and no file lists a class twice
    fn files_are_distinct(files: &Vec<FileClasses>) -> (result: bool)
        ensures
            result == (distinct_paths(files_view(files@)) && forall|k: int|
                0 <= k < files@.len() ==> (#[trigger] files_view(files@)[k]).classes.no_duplicates()),
    {
        let ghost all = files_view(files@);
        let mut j: usize = 0;
        while j < files.len()
            invariant
                j <= files.len(),
                all == files_view(files@),
                forall|a: int, b: int|
                    0 <= a < b < j ==> (#[trigger] all[a]).path != (#[trigger] all[b]).path,
                forall|k: int| 0 <= k < j ==> (#[trigger] all[k]).classes.no_duplicates(),
            decreases files.len() - j,
        {
            let mut i: usize = 0;
            while i < j
                invariant
                    i <= j < files.len(),
                    all == files_view(files@),
                    forall|a: int| 0 <= a < i ==> (#[trigger] all[a]).path != all[j as int].path,
                decreases j - i,
            {
                if files[i].path == files[j].path {
                    assert(all[i as int].path == all[j as int].path);
                    return false;
                }
                i += 1;
            }
            if !Self::texts_are_distinct(&files[j].classes) {
                assert(!all[j as int].classes.no_duplicates());
                return false;
            }
            j += 1;
        }
        true
    }

    /// Tells whether no text occurs twice in the list
    fn texts_are_distinct(items: &Vec<String>) -> (result: bool)
        ensures
            result == texts(items@).no_duplicates(),
    {
        let ghost all = texts(items@);
        let mut j: usize = 0;
        while j < items.len()
            invariant
                j <= items.len(),
                all == texts(items@),
                forall|a: int, b: int| 0 <= a < b < j ==> all[a] != all[b],
            decreases items.len() - j,
        {
            let mut i: usize = 0;
            while i < j
                invariant
                    i <= j < items.len(),
                    all == texts(items@),
                    forall|a: int| 0 <= a < i ==> all[a] != all[j as int],
                decreases j - i,
            {
                if items[i] == items[j] {
                    assert(all[i as int] == all[j as int]);
                    return false;
                }
                i += 1;
            }
            j += 1;
        }
        true
    }

    /// Tells whether every entry is kept under the name of its class
    fn keys_are_names(keyed: &Vec<(String, ClassEntry)>) -> (result: bool)
        ensures
            result == keyed_by_name(keyed_view(keyed@)),
    {
        let mut i: usize = 0;
        while i < keyed.len()
            invariant
                i <= keyed.len(),
                forall|k: int| 0 <= k < i ==> (#[trigger] keyed@[k]).0@ == keyed@[k].1.class.name@,
            decreases keyed.len() - i,
        {
            if !(keyed[i].0 == keyed[i].1.class.name) {
                assert(keyed_view(keyed@)[i as int].0 != keyed_view(keyed@)[i as int].1.record.name);
                return false;
            }
            i += 1;
        }
        assert forall|k: int| 0 <= k < keyed_view(keyed@).len() implies (#[trigger] keyed_view(
            keyed@,
        )[k]).0 == keyed_view(keyed@)[k].1.record.name by {
            assert(keyed@[k].0@ == keyed@[k].1.class.name@);
        }
        true
    }

    /// Put a database together from its parts, as they come out of storage: the entries each
    /// under its key, and the classes of each file. The parts make a database only where
    /// every entry is kept under the name of its class and no name and no path occurs twice.
    pub fn from_parts(
        keyed_entries: Vec<(String, ClassEntry)>,
        file_classes: Vec<FileClasses>,
        created_at: Timestamp,
        updated_at: Timestamp,
        version: String,
    ) -> (db: Option<Self>)
        ensures
            match db {
                Some(db) => db.wf() && Some(db@) == assembled(
                    IndexParts {
                        entries: keyed_view(keyed_entries@),
                        file_index: files_view(file_classes@),
                        created_at,
                        updated_at,
                        version: version@,
                    },
                ),
                None => assembled(
                    IndexParts {
                        entries: keyed_view(keyed_entries@),
                        file_index: files_view(file_classes@),
                        created_at,
                        updated_at,
                        version: version@,
                    },
                ) is None,
            },
    {
        let ghost parts = IndexParts {
            entries: keyed_view(keyed_entries@),
            file_index: files_view(file_classes@),
            created_at,
            updated_at,
            version: version@,
        };
        if !Self::keys_are_names(&keyed_entries) {
            return None;
        }
        let mut entries: Vec<ClassEntry> = Vec::with_capacity(keyed_entries.len());
        let mut i: usize = 0;
        while i < keyed_entries.len()
            invariant
                i <= keyed_entries.len(),
                entries@.len() == i,
                forall|k: int| 0 <= k < i ==> (#[trigger] entries@[k])@ == keyed_entries@[k].1@,
            decreases keyed_entries.len() - i,
        {
            entries.push(keyed_entries[i].1.clone());
            i += 1;
        }
        assert(entries_view(entries@) =~= index_of(parts).entries);
        if Self::names_are_distinct(&entries) && Self::files_are_distinct(&file_classes) {
            Some(ClassDatabase { entries, file_classes, created_at, updated_at, version })
        } else {
            None
        }
    }

    /// The entries of the database for storing, each under the name of its class
    pub fn keyed_entries(&self) -> (keyed: Vec<(String, ClassEntry)>)
        ensures
            keyed_view(keyed@) == taken_apart(self@).entries,
    {
        let mut keyed: Vec<(String, ClassEntry)> = Vec::with_capacity(self.entries.len());
        let mut i: usize = 0;
        while i < self.entries.len()
            invariant
                i <= self.entries.len(),
                keyed@.len() == i,
                forall|k: int|
                    0 <= k < i ==> (#[trigger] keyed@[k]).0@ == self.entries@[k].class.name@
                        && keyed@[k].1@ == self.entries@[k]@,
            decreases self.entries.len() - i,
        {
            let entry = self.entries[i].clone();
            keyed.push((entry.class.name.clone(), entry));
            i += 1;
        }
        assert(keyed_view(keyed@) =~= taken_apart(self@).entries);
        keyed
    }
}

impl Clone for ClassDatabase {
    fn clone(&self) -> (copy: Self)
        ensures
            copy@ == self@,
    {
        let mut entries: Vec<ClassEntry> = Vec::with_capacity(self.entries.len());
        let mut i: usize = 0;
        while i < self.entries.len()
            invariant
                i <= self.entries.len(),
                entries@.len() == i,
                forall|k: int| 0 <= k < i ==> (#[trigger] entries@[k])@ == self.entries@[k]@,
            decreases self.entries.len() - i,
        {
            entries.push(self.entries[i].clone());
            i += 1;
        }
        let mut file_classes: Vec<FileClasses> = Vec::with_capacity(self.file_classes.len());
        let mut j: usize = 0;
        while j < self.file_classes.len()
            invariant
                j <= self.file_classes.len(),
                file_classes@.len() == j,
                forall|k: int|
                    0 <= k < j ==> (#[trigger] file_classes@[k])@ == self.file_classes@[k]@,
            decreases self.file_classes.len() - j,
        {
            file_classes.push(self.file_classes[j].clone());
            j += 1;
        }
        let copy = ClassDatabase {
            entries,
            file_classes,
            created_at: self.created_at,
            updated_at: self.updated_at,
            version: self.version.clone(),
        };
        assert(copy@.entries =~= self@.entries);
        assert(copy@.file_index =~= self@.file_index);
        copy
    }
}

} // verus!
