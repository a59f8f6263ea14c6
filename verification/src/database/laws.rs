use vstd::prelude::*;

use crate::class::types::ClassRecord;
use crate::database::operations::{
    reconciled, reconciled_index, reconciled_stats, stamp_of, stamp_of_path, Reconciliation,
};
use crate::database::types::{
    change_of, file_position, file_position_is_first, position_is_first, position_of, upserted,
    with_class_of_file, Change, ClassIndex, FileEntry, IndexEntry, Timestamp,
};
use crate::utils::file_utils::SourceFile;
use crate::utils::hash_utils::content_hash;

verus! {

/// Tells whether the index keeps a class of the given name under the given hash.
pub open spec fn kept_with(entries: Seq<IndexEntry>, name: Seq<char>, stamp: Seq<char>) -> bool {
    position_of(entries, name) matches Some(k) && entries[k].content_hash == stamp
}

/// Tells whether the file index lists the class under the file.
pub open spec fn listed_under(file_index: Seq<FileEntry>, path: Seq<char>, name: Seq<char>) -> bool {
    file_position(file_index, path) matches Some(k) && file_index[k].classes.contains(name)
}

/// Two lists of entries with the same names at the same places keep every name at the same
/// place.
pub proof fn position_follows_names(a: Seq<IndexEntry>, b: Seq<IndexEntry>, name: Seq<char>)
    requires
        a.len() == b.len(),
        forall|k: int| 0 <= k < a.len() ==> (#[trigger] a[k]).record.name == b[k].record.name,
    ensures
        position_of(a, name) == position_of(b, name),
    decreases a.len(),
{
    if a.len() > 0 {
        assert forall|k: int| 0 <= k < a.drop_last().len() implies (
        #[trigger] a.drop_last()[k]).record.name == b.drop_last()[k].record.name by {
            assert(a.drop_last()[k] == a[k]);
            assert(b.drop_last()[k] == b[k]);
        }
        position_follows_names(a.drop_last(), b.drop_last(), name);
        assert(a.last() == a[a.len() - 1]);
    }
}

/// Two file indexes with the same paths at the same places keep every path at the same
/// place.
pub proof fn file_position_follows_paths(a: Seq<FileEntry>, b: Seq<FileEntry>, path: Seq<char>)
    requires
        a.len() == b.len(),
        forall|k: int| 0 <= k < a.len() ==> (#[trigger] a[k]).path == b[k].path,
    ensures
        file_position(a, path) == file_position(b, path),
    decreases a.len(),
{
    if a.len() > 0 {
        assert forall|k: int| 0 <= k < a.drop_last().len() implies (
        #[trigger] a.drop_last()[k]).path == b.drop_last()[k].path by {
            assert(a.drop_last()[k] == a[k]);
            assert(b.drop_last()[k] == b[k]);
        }
        file_position_follows_paths(a.drop_last(), b.drop_last(), path);
        assert(a.last() == a[a.len() - 1]);
    }
}

/// An upsert removes nothing and moves nothing: every name that was in the index stays at
/// its place, the name of the record is in the index afterwards, and no other name comes in.
pub proof fn upsert_keeps_places(
    entries: Seq<IndexEntry>,
    record: ClassRecord,
    stamp: Seq<char>,
    now: Timestamp,
    name: Seq<char>,
)
    ensures
        upserted(entries, record, stamp, now).len() >= entries.len(),
        position_of(entries, name) is Some ==> position_of(
            upserted(entries, record, stamp, now),
            name,
        ) == position_of(entries, name),
        position_of(entries, name) is None && name != record.name ==> position_of(
            upserted(entries, record, stamp, now),
            name,
        ) is None,
        position_of(upserted(entries, record, stamp, now), record.name) is Some,
{
    let after = upserted(entries, record, stamp, now);
    position_is_first(entries, record.name);
    match position_of(entries, record.name) {
        None => {
            assert(after.drop_last() =~= entries);
        },
        Some(k) => {
            position_follows_names(entries, after, name);
            position_follows_names(entries, after, record.name);
        },
    }
}

/// After an upsert the index keeps the class of the record under the hash of the record.
pub proof fn upsert_settles(
    entries: Seq<IndexEntry>,
    record: ClassRecord,
    stamp: Seq<char>,
    now: Timestamp,
)
    ensures
        kept_with(upserted(entries, record, stamp, now), record.name, stamp),
{
    let after = upserted(entries, record, stamp, now);
    position_is_first(entries, record.name);
    upsert_keeps_places(entries, record, stamp, now, record.name);
    match position_of(entries, record.name) {
        None => {
            assert(after.drop_last() =~= entries);
        },
        Some(k) => {},
    }
}

/// An upsert leaves the hash of every other class as it is; the hash of a class of the same
/// name stays as it is where the record comes with that same hash.
pub proof fn upsert_keeps_other_hashes(
    entries: Seq<IndexEntry>,
    record: ClassRecord,
    stamp: Seq<char>,
    now: Timestamp,
    name: Seq<char>,
    other_stamp: Seq<char>,
)
    requires
        kept_with(entries, name, other_stamp),
        name == record.name ==> other_stamp == stamp,
    ensures
        kept_with(upserted(entries, record, stamp, now), name, other_stamp),
{
    position_is_first(entries, record.name);
    position_is_first(entries, name);
    upsert_keeps_places(entries, record, stamp, now, name);
}

/// The upsert of a record with a source file whose class the index keeps under the same hash
/// does nothing: the entry keeps its record and both its times.
pub proof fn upsert_of_unchanged_file_does_nothing(
    entries: Seq<IndexEntry>,
    record: ClassRecord,
    stamp: Seq<char>,
    now: Timestamp,
)
    requires
        record.source_file is Some,
        kept_with(entries, record.name, stamp),
    ensures
        upserted(entries, record, stamp, now) == entries,
        change_of(entries, record, stamp) == Change::Unchanged,
{
}

/// The upsert of a record with a source file whose class the index keeps under another hash
/// replaces the entry: it gets the record and the new hash, its time of update is now, and
/// the time at which it was added stays.
pub proof fn upsert_of_changed_file_updates(
    entries: Seq<IndexEntry>,
    record: ClassRecord,
    stamp: Seq<char>,
    now: Timestamp,
)
    requires
        record.source_file is Some,
        position_of(entries, record.name) is Some,
        entries[position_of(entries, record.name)->0].content_hash != stamp,
    ensures
        change_of(entries, record, stamp) == Change::Updated,
        upserted(entries, record, stamp, now).len() == entries.len(),
        upserted(entries, record, stamp, now)[position_of(entries, record.name)->0] == (
        IndexEntry {
            record,
            added_at: entries[position_of(entries, record.name)->0].added_at,
            updated_at: now,
            content_hash: stamp,
        }),
{
    position_is_first(entries, record.name);
}

/// Upserting the same record with the same hash twice is the same as doing it once: the
/// second upsert leaves both times of the entry as the first one set them.
pub proof fn upsert_twice_is_upsert_once(
    entries: Seq<IndexEntry>,
    record: ClassRecord,
    stamp: Seq<char>,
    first: Timestamp,
    second: Timestamp,
)
    requires
        record.source_file is Some,
    ensures
        upserted(upserted(entries, record, stamp, first), record, stamp, second) == upserted(
            entries,
            record,
            stamp,
            first,
        ),
        change_of(upserted(entries, record, stamp, first), record, stamp) == Change::Unchanged,
{
    upsert_settles(entries, record, stamp, first);
    upsert_of_unchanged_file_does_nothing(
        upserted(entries, record, stamp, first),
        record,
        stamp,
        second,
    );
}

/// After a class is noted under a file, the file index lists it there.
pub proof fn noting_lists(file_index: Seq<FileEntry>, path: Seq<char>, name: Seq<char>)
    ensures
        listed_under(with_class_of_file(file_index, path, name), path, name),
{
    let after = with_class_of_file(file_index, path, name);
    file_position_is_first(file_index, path);
    match file_position(file_index, path) {
        None => {
            assert(after.drop_last() =~= file_index);
            assert(seq![name][0] == name);
        },
        Some(k) => {
            file_position_follows_paths(file_index, after, path);
            if !file_index[k].classes.contains(name) {
                assert(file_index[k].classes.push(name).last() == name);
            }
        },
    }
}

/// Noting a class under a file takes no class off any list.
pub proof fn noting_keeps_listed(
    file_index: Seq<FileEntry>,
    path: Seq<char>,
    name: Seq<char>,
    other_path: Seq<char>,
    other_name: Seq<char>,
)
    requires
        listed_under(file_index, other_path, other_name),
    ensures
        listed_under(with_class_of_file(file_index, path, name), other_path, other_name),
{
    let after = with_class_of_file(file_index, path, name);
    file_position_is_first(file_index, path);
    file_position_is_first(file_index, other_path);
    match file_position(file_index, path) {
        None => {
            assert(after.drop_last() =~= file_index);
        },
        Some(k) => {
            file_position_follows_paths(file_index, after, other_path);
            if !file_index[k].classes.contains(name) && other_path == path {
                let listed = file_index[k].classes;
                let at = choose|i: int| 0 <= i < listed.len() && listed[i] == other_name;
                assert(listed.push(name)[at] == other_name);
            }
        },
    }
}

/// Noting a class under a file that lists it already changes nothing.
pub proof fn noting_listed_does_nothing(
    file_index: Seq<FileEntry>,
    path: Seq<char>,
    name: Seq<char>,
)
    requires
        listed_under(file_index, path, name),
    ensures
        with_class_of_file(file_index, path, name) == file_index,
{
}

/// The hash under which a record of a file that was read is kept is the hash of the whole
/// text of that file.
pub proof fn stamp_of_a_read_file(record: ClassRecord, file: SourceFile)
    requires
        record.source_file == Some(file.path@),
        file.content is Ok,
    ensures
        stamp_of(record, seq![file]) == content_hash(file.content->Ok_0@),
{
    let sources = seq![file];
    assert(sources.drop_last() =~= Seq::<SourceFile>::empty());
    assert(stamp_of_path(sources.drop_last(), file.path@) is None);
    assert(sources.last() == file);
    assert(stamp_of_path(sources, file.path@) == Some(content_hash(file.content->Ok_0@)));
}

/// Reconciling the record of a class whose file was edited: where the index keeps the class
/// under another hash than that of the file as it now is, the entry gets the record and the
/// new hash, its time of update is the time of the pass, the time at which it was added
/// stays, one class is counted as updated and none as added, and no entry comes or goes.
pub proof fn reconciling_an_edited_file_updates(
    index: ClassIndex,
    record: ClassRecord,
    sources: Seq<SourceFile>,
    now: Timestamp,
)
    requires
        record.source_file is Some,
        position_of(index.entries, record.name) is Some,
        index.entries[position_of(index.entries, record.name)->0].content_hash != stamp_of(
            record,
            sources,
        ),
    ensures
        reconciled_index(index, seq![record], sources, now).entries.len() == index.entries.len(),
        reconciled_index(index, seq![record], sources, now).entries[position_of(
            index.entries,
            record.name,
        )->0] == (IndexEntry {
            record,
            added_at: index.entries[position_of(index.entries, record.name)->0].added_at,
            updated_at: now,
            content_hash: stamp_of(record, sources),
        }),
        reconciled_index(index, seq![record], sources, now).updated_at == now,
        reconciled(index, seq![record], sources, now).added == 0,
        reconciled(index, seq![record], sources, now).updated == 1,
        reconciled_stats(index, seq![record], sources, now).0 == index.entries.len(),
{
    let records = seq![record];
    let stamp = stamp_of(record, sources);
    position_is_first(index.entries, record.name);
    upsert_of_changed_file_updates(index.entries, record, stamp, now);
    assert(records.drop_last() =~= Seq::<ClassRecord>::empty());
    assert(records.last() == record);
    assert(reconciled(index, records.drop_last(), sources, now) == (Reconciliation {
        index,
        added: 0,
        updated: 0,
    }));
    assert(reconciled(index, records, sources, now).index.entries == upserted(
        index.entries,
        record,
        stamp,
        now,
    ));
}

/// Tells whether every record has a source file.
pub open spec fn all_sourced(records: Seq<ClassRecord>) -> bool {
    forall|k: int| 0 <= k < records.len() ==> (#[trigger] records[k]).source_file is Some
}

/// Tells whether records of the same name come with the same hash, as the records of one
/// file do, and as records with distinct names do.
pub open spec fn hashes_agree(records: Seq<ClassRecord>, sources: Seq<SourceFile>) -> bool {
    forall|i: int, j: int|
        0 <= i < records.len() && 0 <= j < records.len() && (#[trigger] records[i]).name == (
        #[trigger] records[j]).name ==> stamp_of(records[i], sources) == stamp_of(
            records[j],
            sources,
        )
}

/// Tells whether the index holds what a reconciliation of the record would leave: the class
/// under the hash of the file of the record, listed under that file.
pub open spec fn settled(index: ClassIndex, record: ClassRecord, sources: Seq<SourceFile>) -> bool {
    &&& kept_with(index.entries, record.name, stamp_of(record, sources))
    &&& listed_under(index.file_index, record.source_file->0, record.name)
}

/// A reconciliation leaves the times and the version of the index as they are.
pub proof fn reconciling_keeps_times(
    index: ClassIndex,
    records: Seq<ClassRecord>,
    sources: Seq<SourceFile>,
    now: Timestamp,
)
    ensures
        reconciled(index, records, sources, now).index.created_at == index.created_at,
        reconciled(index, records, sources, now).index.updated_at == index.updated_at,
        reconciled(index, records, sources, now).index.version == index.version,
    decreases records.len(),
{
    if records.len() > 0 {
        reconciling_keeps_times(index, records.drop_last(), sources, now);
    }
}

/// Reconciliation never removes an entry and never moves one: a name that is in the index
/// is at the same place afterwards.
pub proof fn reconciling_removes_nothing(
    index: ClassIndex,
    records: Seq<ClassRecord>,
    sources: Seq<SourceFile>,
    now: Timestamp,
    name: Seq<char>,
)
    requires
        position_of(index.entries, name) is Some,
    ensures
        position_of(reconciled(index, records, sources, now).index.entries, name) == position_of(
            index.entries,
            name,
        ),
        reconciled(index, records, sources, now).index.entries.len() >= index.entries.len(),
    decreases records.len(),
{
    if records.len() > 0 {
        reconciling_removes_nothing(index, records.drop_last(), sources, now, name);
        let before = reconciled(index, records.drop_last(), sources, now);
        let record = records.last();
        upsert_keeps_places(before.index.entries, record, stamp_of(record, sources), now, name);
    }
}

/// After a reconciliation of records that all have a source file and agree on their hashes,
/// the index holds every one of them under the hash of its file.
pub proof fn reconciling_settles(
    index: ClassIndex,
    records: Seq<ClassRecord>,
    sources: Seq<SourceFile>,
    now: Timestamp,
)
    requires
        all_sourced(records),
        hashes_agree(records, sources),
    ensures
        forall|k: int|
            0 <= k < records.len() ==> settled(
                reconciled(index, records, sources, now).index,
                #[trigger] records[k],
                sources,
            ),
    decreases records.len(),
{
    if records.len() > 0 {
        let earlier = records.drop_last();
        let record = records.last();
        let stamp = stamp_of(record, sources);
        assert forall|i: int, j: int|
            0 <= i < earlier.len() && 0 <= j < earlier.len() && (#[trigger] earlier[i]).name == (
            #[trigger] earlier[j]).name implies stamp_of(earlier[i], sources) == stamp_of(
            earlier[j],
            sources,
        ) by {
            assert(earlier[i] == records[i] && earlier[j] == records[j]);
        }
        assert forall|k: int| 0 <= k < earlier.len() implies (
        #[trigger] earlier[k]).source_file is Some by {
            assert(earlier[k] == records[k]);
        }
        reconciling_settles(index, earlier, sources, now);
        let before = reconciled(index, earlier, sources, now).index;
        let after = reconciled(index, records, sources, now).index;
        assert(record == records[records.len() - 1]);
        assert(after.entries == upserted(before.entries, record, stamp, now));
        assert(after.file_index == with_class_of_file(
            before.file_index,
            record.source_file->0,
            record.name,
        ));
        assert forall|k: int| 0 <= k < records.len() implies settled(
            after,
            #[trigger] records[k],
            sources,
        ) by {
            if k == records.len() - 1 {
                upsert_settles(before.entries, record, stamp, now);
                noting_lists(before.file_index, record.source_file->0, record.name);
            } else {
                assert(earlier[k] == records[k]);
                assert(settled(before, earlier[k], sources));
                upsert_keeps_other_hashes(
                    before.entries,
                    record,
                    stamp,
                    now,
                    records[k].name,
                    stamp_of(records[k], sources),
                );
                noting_keeps_listed(
                    before.file_index,
                    record.source_file->0,
                    record.name,
                    records[k].source_file->0,
                    records[k].name,
                );
            }
        }
    }
}

/// The reconciliation of records that the index holds already, each under the hash of its
/// file, changes nothing and counts nothing.
pub proof fn reconciling_settled_records_does_nothing(
    index: ClassIndex,
    records: Seq<ClassRecord>,
    sources: Seq<SourceFile>,
    now: Timestamp,
)
    requires
        all_sourced(records),
        forall|k: int| 0 <= k < records.len() ==> settled(index, #[trigger] records[k], sources),
    ensures
        reconciled(index, records, sources, now) == (Reconciliation {
            index,
            added: 0,
            updated: 0,
        }),
    decreases records.len(),
{
    if records.len() > 0 {
        let earlier = records.drop_last();
        let record = records.last();
        assert forall|k: int| 0 <= k < earlier.len() implies settled(
            index,
            #[trigger] earlier[k],
            sources,
        ) && earlier[k].source_file is Some by {
            assert(earlier[k] == records[k]);
        }
        reconciling_settled_records_does_nothing(index, earlier, sources, now);
        assert(record == records[records.len() - 1]);
        assert(settled(index, record, sources));
    }
}

/// Reconciling the records of unchanged files a second time changes nothing: the entries
/// keep their records, their hashes and both their times, the file index stays as it is,
/// and nothing is counted as added or updated. Only the time of the last update of the index
/// itself moves on.
pub proof fn reconciling_unchanged_files_again_changes_nothing(
    index: ClassIndex,
    records: Seq<ClassRecord>,
    sources: Seq<SourceFile>,
    first: Timestamp,
    second: Timestamp,
)
    requires
        all_sourced(records),
        hashes_agree(records, sources),
    ensures
        reconciled_index(
            reconciled_index(index, records, sources, first),
            records,
            sources,
            second,
        ) == (ClassIndex { updated_at: second, ..reconciled_index(index, records, sources, first) }),
        reconciled_stats(reconciled_index(index, records, sources, first), records, sources, second)
            == (
            reconciled_index(index, records, sources, first).entries.len(),
            reconciled_index(index, records, sources, first).file_index.len(),
            0nat,
            0nat,
            0nat,
        ),
{
    let once = reconciled_index(index, records, sources, first);
    reconciling_settles(index, records, sources, first);
    assert forall|k: int| 0 <= k < records.len() implies settled(
        once,
        #[trigger] records[k],
        sources,
    ) by {
        assert(settled(reconciled(index, records, sources, first).index, records[k], sources));
    }
    reconciling_settled_records_does_nothing(once, records, sources, second);
}

} // verus!
