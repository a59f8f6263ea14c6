use vstd::prelude::*;
use vstd::string::*;

use crate::database::types::{entry_refs_view, ClassEntry, IndexEntry};
use crate::utils::text::{
    text_le, text_not_after, text_order_is_total, text_order_is_transitive,
};

verus! {

/// The fields by which the entries of the index can be sorted.
#[derive(Debug, Clone, Copy, PartialEq, Eq, Structural)]
pub enum SortKey {
    /// The name of the class
    Name,
    /// The time at which the class was added
    AddedAt,
    /// The time at which the class was last updated
    UpdatedAt,
}

/// The sort key that a text names, if it names one.
pub open spec fn sort_key_of(text: Seq<char>) -> Option<SortKey> {
    if text == "name"@ {
        Some(SortKey::Name)
    } else if text == "added_at"@ {
        Some(SortKey::AddedAt)
    } else if text == "updated_at"@ {
        Some(SortKey::UpdatedAt)
    } else {
        None
    }
}

/// The sort key that a text names, if it names one
pub fn parse_sort_key(text: &String) -> (key: Option<SortKey>)
    ensures
        key == sort_key_of(text@),
{
    if *text == String::from_str("name") {
        Some(SortKey::Name)
    } else if *text == String::from_str("added_at") {
        Some(SortKey::AddedAt)
    } else if *text == String::from_str("updated_at") {
        Some(SortKey::UpdatedAt)
    } else {
        None
    }
}

/// Tells whether the first entry stands at or before the second by the key, ascending.
pub open spec fn key_le(a: IndexEntry, b: IndexEntry, key: SortKey) -> bool {
    match key {
        SortKey::Name => text_le(a.record.name, b.record.name),
        SortKey::AddedAt => a.added_at.not_after(b.added_at),
        SortKey::UpdatedAt => a.updated_at.not_after(b.updated_at),
    }
}

/// Tells whether the first entry may stand before the second in the asked order.
pub open spec fn in_order(a: IndexEntry, b: IndexEntry, key: SortKey, descending: bool) -> bool {
    if descending {
        key_le(b, a, key)
    } else {
        key_le(a, b, key)
    }
}

/// Two sorted lists merged into one: the smaller of the two first entries goes first, and
/// the first entry of the left list where either may stand before the other.
pub open spec fn merged(
    left: Seq<IndexEntry>,
    right: Seq<IndexEntry>,
    key: SortKey,
    descending: bool,
) -> Seq<IndexEntry>
    decreases left.len() + right.len(),
{
    if left.len() == 0 {
        right
    } else if right.len() == 0 {
        left
    } else if in_order(left[0], right[0], key, descending) {
        seq![left[0]] + merged(left.skip(1), right, key, descending)
    } else {
        seq![right[0]] + merged(left, right.skip(1), key, descending)
    }
}

/// The entries sorted by the key in the asked order: each half sorted, and the two merged.
/// Entries that are equals by the key keep the order in which they came.
pub open spec fn sorted_by(entries: Seq<IndexEntry>, key: SortKey, descending: bool) -> Seq<
    IndexEntry,
>
    decreases entries.len(),
{
    if entries.len() <= 1 {
        entries
    } else {
        let half = (entries.len() / 2) as int;
        merged(
            sorted_by(entries.take(half), key, descending),
            sorted_by(entries.skip(half), key, descending),
            key,
            descending,
        )
    }
}

/// Of two entries one may stand before the other, whatever the key and the direction.
pub proof fn order_is_total(a: IndexEntry, b: IndexEntry, key: SortKey, descending: bool)
    ensures
        in_order(a, b, key, descending) || in_order(b, a, key, descending),
{
    text_order_is_total(a.record.name, b.record.name);
}

/// An entry that may stand before a second, which may stand before a third, may stand before
/// the third.
pub proof fn order_is_transitive(
    a: IndexEntry,
    b: IndexEntry,
    c: IndexEntry,
    key: SortKey,
    descending: bool,
)
    requires
        in_order(a, b, key, descending),
        in_order(b, c, key, descending),
    ensures
        in_order(a, c, key, descending),
{
    if key == SortKey::Name {
        if descending {
            text_order_is_transitive(c.record.name, b.record.name, a.record.name);
        } else {
            text_order_is_transitive(a.record.name, b.record.name, c.record.name);
        }
    }
}

/// Tells whether every entry of the list may stand before every entry behind it.
pub open spec fn ordered(entries: Seq<IndexEntry>, key: SortKey, descending: bool) -> bool {
    forall|i: int, j: int|
        0 <= i < j < entries.len() ==> in_order(
            #[trigger] entries[i],
            #[trigger] entries[j],
            key,
            descending,
        )
}

/// Merging rearranges the entries of the two lists: the result holds the entries of both,
/// each as often as the two lists together.
pub proof fn merging_rearranges(
    left: Seq<IndexEntry>,
    right: Seq<IndexEntry>,
    key: SortKey,
    descending: bool,
)
    ensures
        merged(left, right, key, descending).to_multiset() == left.to_multiset().add(
            right.to_multiset(),
        ),
        merged(left, right, key, descending).len() == left.len() + right.len(),
    decreases left.len() + right.len(),
{
    broadcast use vstd::seq_lib::group_to_multiset_ensures;
    broadcast use vstd::seq_lib::lemma_multiset_commutative;

    let all = merged(left, right, key, descending);
    if left.len() == 0 {
        assert(left.to_multiset().len() == 0);
        assert(all.to_multiset() =~= left.to_multiset().add(right.to_multiset()));
    } else if right.len() == 0 {
        assert(right.to_multiset().len() == 0);
        assert(all.to_multiset() =~= left.to_multiset().add(right.to_multiset()));
    } else if in_order(left[0], right[0], key, descending) {
        merging_rearranges(left.skip(1), right, key, descending);
        assert(left =~= seq![left[0]] + left.skip(1));
        assert(left.to_multiset() =~= seq![left[0]].to_multiset().add(
            left.skip(1).to_multiset(),
        ));
        assert(all.to_multiset() =~= left.to_multiset().add(right.to_multiset()));
    } else {
        merging_rearranges(left, right.skip(1), key, descending);
        assert(right =~= seq![right[0]] + right.skip(1));
        assert(right.to_multiset() =~= seq![right[0]].to_multiset().add(
            right.skip(1).to_multiset(),
        ));
        assert(all.to_multiset() =~= left.to_multiset().add(right.to_multiset()));
    }
}

/// Every entry of a merged list is an entry of one of the two lists.
pub proof fn merged_entry_has_a_source(
    left: Seq<IndexEntry>,
    right: Seq<IndexEntry>,
    key: SortKey,
    descending: bool,
    k: int,
)
    requires
        0 <= k < merged(left, right, key, descending).len(),
    ensures
        left.contains(merged(left, right, key, descending)[k]) || right.contains(
            merged(left, right, key, descending)[k],
        ),
{
    broadcast use vstd::seq_lib::group_to_multiset_ensures;

    let all = merged(left, right, key, descending);
    merging_rearranges(left, right, key, descending);
    assert(all.contains(all[k]));
    assert(all.to_multiset().count(all[k]) > 0);
}

/// Merging two ordered lists gives an ordered list.
pub proof fn merging_orders(
    left: Seq<IndexEntry>,
    right: Seq<IndexEntry>,
    key: SortKey,
    descending: bool,
)
    requires
        ordered(left, key, descending),
        ordered(right, key, descending),
    ensures
        ordered(merged(left, right, key, descending), key, descending),
    decreases left.len() + right.len(),
{
    if left.len() > 0 && right.len() > 0 {
        let all = merged(left, right, key, descending);
        let left_first = in_order(left[0], right[0], key, descending);
        let first = if left_first {
            left[0]
        } else {
            right[0]
        };
        let rest_left = if left_first {
            left.skip(1)
        } else {
            left
        };
        let rest_right = if left_first {
            right
        } else {
            right.skip(1)
        };
        let rest = merged(rest_left, rest_right, key, descending);
        assert(all =~= seq![first] + rest);
        merging_orders(rest_left, rest_right, key, descending);
        order_is_total(left[0], right[0], key, descending);
        order_is_total(left[0], left[0], key, descending);
        order_is_total(right[0], right[0], key, descending);
        assert forall|k: int| 0 <= k < rest.len() implies in_order(
            first,
            #[trigger] rest[k],
            key,
            descending,
        ) by {
            merged_entry_has_a_source(rest_left, rest_right, key, descending, k);
            if left.contains(rest[k]) && (left_first || !right.contains(rest[k])) {
                let at = choose|i: int| 0 <= i < left.len() && left[i] == rest[k];
                if at > 0 {
                    assert(in_order(left[0], left[at], key, descending));
                }
                order_is_transitive(first, left[0], rest[k], key, descending);
            } else {
                assert(right.contains(rest[k]));
                let at = choose|i: int| 0 <= i < right.len() && right[i] == rest[k];
                if at > 0 {
                    assert(in_order(right[0], right[at], key, descending));
                }
                order_is_transitive(first, right[0], rest[k], key, descending);
            }
        }
        assert forall|i: int, j: int| 0 <= i < j < all.len() implies in_order(
            #[trigger] all[i],
            #[trigger] all[j],
            key,
            descending,
        ) by {
            if i == 0 {
                assert(all[j] == rest[j - 1]);
            } else {
                assert(all[i] == rest[i - 1] && all[j] == rest[j - 1]);
            }
        }
    }
}

/// Sorting puts the entries in the asked order: every entry of the result may stand before
/// every entry behind it.
pub proof fn sorting_orders(entries: Seq<IndexEntry>, key: SortKey, descending: bool)
    ensures
        ordered(sorted_by(entries, key, descending), key, descending),
    decreases entries.len(),
{
    if entries.len() > 1 {
        let half = (entries.len() / 2) as int;
        sorting_orders(entries.take(half), key, descending);
        sorting_orders(entries.skip(half), key, descending);
        merging_orders(
            sorted_by(entries.take(half), key, descending),
            sorted_by(entries.skip(half), key, descending),
            key,
            descending,
        );
    }
}

/// Sorting rearranges the entries: the result holds the same entries, each as often as
/// before.
pub proof fn sorting_rearranges(entries: Seq<IndexEntry>, key: SortKey, descending: bool)
    ensures
        sorted_by(entries, key, descending).to_multiset() == entries.to_multiset(),
        sorted_by(entries, key, descending).len() == entries.len(),
    decreases entries.len(),
{
    broadcast use vstd::seq_lib::lemma_multiset_commutative;

    if entries.len() > 1 {
        let half = (entries.len() / 2) as int;
        sorting_rearranges(entries.take(half), key, descending);
        sorting_rearranges(entries.skip(half), key, descending);
        merging_rearranges(
            sorted_by(entries.take(half), key, descending),
            sorted_by(entries.skip(half), key, descending),
            key,
            descending,
        );
        assert(entries =~= entries.take(half) + entries.skip(half));
        assert(entries.to_multiset() =~= entries.take(half).to_multiset().add(
            entries.skip(half).to_multiset(),
        ));
    }
}

/// Tells whether each of two entries may stand before the other: they are equals by the key.
pub open spec fn tied(a: IndexEntry, b: IndexEntry, key: SortKey, descending: bool) -> bool {
    in_order(a, b, key, descending) && in_order(b, a, key, descending)
}

/// The test that keeps the equals of an entry.
pub open spec fn tied_with(entry: IndexEntry, key: SortKey, descending: bool) -> spec_fn(
    IndexEntry,
) -> bool {
    |other: IndexEntry| tied(other, entry, key, descending)
}

/// A test that no entry of a list passes keeps nothing of the list.
proof fn nothing_passes(entries: Seq<IndexEntry>, test: spec_fn(IndexEntry) -> bool)
    requires
        forall|i: int| 0 <= i < entries.len() ==> !test(#[trigger] entries[i]),
    ensures
        entries.filter(test) == Seq::<IndexEntry>::empty(),
    decreases entries.len(),
{
    reveal(Seq::filter);
    if entries.len() > 0 {
        assert forall|i: int| 0 <= i < entries.drop_last().len() implies !test(
            #[trigger] entries.drop_last()[i],
        ) by {
            assert(entries.drop_last()[i] == entries[i]);
        }
        nothing_passes(entries.drop_last(), test);
        assert(!test(entries[entries.len() - 1]));
    }
}

/// Merging two ordered lists keeps equals in order: the equals of an entry come out as they
/// stand in the left list, followed by those of the right list as they stand there.
pub proof fn merging_keeps_equals_in_order(
    left: Seq<IndexEntry>,
    right: Seq<IndexEntry>,
    key: SortKey,
    descending: bool,
    entry: IndexEntry,
)
    requires
        ordered(left, key, descending),
        ordered(right, key, descending),
    ensures
        merged(left, right, key, descending).filter(tied_with(entry, key, descending))
            == left.filter(tied_with(entry, key, descending)) + right.filter(
            tied_with(entry, key, descending),
        ),
    decreases left.len() + right.len(),
{
    let equals = tied_with(entry, key, descending);
    let all = merged(left, right, key, descending);
    if left.len() == 0 {
        nothing_passes(left, equals);
        assert(all.filter(equals) =~= left.filter(equals) + right.filter(equals));
    } else if right.len() == 0 {
        nothing_passes(right, equals);
        assert(all.filter(equals) =~= left.filter(equals) + right.filter(equals));
    } else if in_order(left[0], right[0], key, descending) {
        let rest = merged(left.skip(1), right, key, descending);
        merging_keeps_equals_in_order(left.skip(1), right, key, descending, entry);
        Seq::filter_distributes_over_add(seq![left[0]], rest, equals);
        Seq::filter_distributes_over_add(seq![left[0]], left.skip(1), equals);
        assert(left =~= seq![left[0]] + left.skip(1));
        assert(all.filter(equals) =~= left.filter(equals) + right.filter(equals));
    } else {
        let rest = merged(left, right.skip(1), key, descending);
        merging_keeps_equals_in_order(left, right.skip(1), key, descending, entry);
        Seq::filter_distributes_over_add(seq![right[0]], rest, equals);
        Seq::filter_distributes_over_add(seq![right[0]], right.skip(1), equals);
        assert(right =~= seq![right[0]] + right.skip(1));
        if equals(right[0]) {
            order_is_total(left[0], left[0], key, descending);
            assert forall|i: int| 0 <= i < left.len() implies !equals(#[trigger] left[i]) by {
                if equals(left[i]) {
                    if i > 0 {
                        assert(in_order(left[0], left[i], key, descending));
                    }
                    order_is_transitive(left[0], left[i], entry, key, descending);
                    order_is_transitive(left[0], entry, right[0], key, descending);
                }
            }
            nothing_passes(left, equals);
        } else {
            assert(seq![right[0]].drop_last() =~= Seq::<IndexEntry>::empty());
            nothing_passes(seq![right[0]], equals);
        }
        assert(all.filter(equals) =~= left.filter(equals) + right.filter(equals));
    }
}

/// Sorting is stable: the equals of an entry stand in the result in the order in which they
/// came.
pub proof fn sorting_keeps_equals_in_order(
    entries: Seq<IndexEntry>,
    key: SortKey,
    descending: bool,
    entry: IndexEntry,
)
    ensures
        sorted_by(entries, key, descending).filter(tied_with(entry, key, descending))
            == entries.filter(tied_with(entry, key, descending)),
    decreases entries.len(),
{
    if entries.len() > 1 {
        let half = (entries.len() / 2) as int;
        let equals = tied_with(entry, key, descending);
        sorting_keeps_equals_in_order(entries.take(half), key, descending, entry);
        sorting_keeps_equals_in_order(entries.skip(half), key, descending, entry);
        sorting_orders(entries.take(half), key, descending);
        sorting_orders(entries.skip(half), key, descending);
        merging_keeps_equals_in_order(
            sorted_by(entries.take(half), key, descending),
            sorted_by(entries.skip(half), key, descending),
            key,
            descending,
            entry,
        );
        Seq::filter_distributes_over_add(entries.take(half), entries.skip(half), equals);
        assert(entries =~= entries.take(half) + entries.skip(half));
    }
}

/// Tells whether the first entry may stand before the second in the asked order
pub fn stands_in_order(a: &ClassEntry, b: &ClassEntry, key: SortKey, descending: bool) -> (result:
    bool)
    ensures
        result == in_order(a@, b@, key, descending),
{
    let (first, second) = if descending {
        (b, a)
    } else {
        (a, b)
    };
    match key {
        SortKey::Name => text_not_after(first.class.name.as_str(), second.class.name.as_str()),
        SortKey::AddedAt => first.added_at.is_not_after(&second.added_at),
        SortKey::UpdatedAt => first.updated_at.is_not_after(&second.updated_at),
    }
}

/// Merge two sorted lists of entries into one
fn merge_entries<'a>(
    left: &Vec<&'a ClassEntry>,
    right: &Vec<&'a ClassEntry>,
    key: SortKey,
    descending: bool,
) -> (all: Vec<&'a ClassEntry>)
    ensures
        entry_refs_view(all@) == merged(
            entry_refs_view(left@),
            entry_refs_view(right@),
            key,
            descending,
        ),
{
    let ghost from_left = entry_refs_view(left@);
    let ghost from_right = entry_refs_view(right@);
    let mut all: Vec<&'a ClassEntry> = Vec::new();
    let mut i: usize = 0;
    let mut j: usize = 0;
    proof {
        assert(from_left.skip(0) =~= from_left);
        assert(from_right.skip(0) =~= from_right);
        assert(entry_refs_view(all@) + merged(from_left, from_right, key, descending) =~= merged(
            from_left,
            from_right,
            key,
            descending,
        ));
    }
    while i < left.len() || j < right.len()
        invariant
            i <= left.len(),
            j <= right.len(),
            from_left == entry_refs_view(left@),
            from_right == entry_refs_view(right@),
            entry_refs_view(all@) + merged(
                from_left.skip(i as int),
                from_right.skip(j as int),
                key,
                descending,
            ) == merged(from_left, from_right, key, descending),
        decreases (left.len() - i) + (right.len() - j),
    {
        let ghost so_far = entry_refs_view(all@);
        let ghost rest_left = from_left.skip(i as int);
        let ghost rest_right = from_right.skip(j as int);
        let take_left = if i == left.len() {
            false
        } else if j == right.len() {
            true
        } else {
            stands_in_order(left[i], right[j], key, descending)
        };
        if take_left {
            all.push(left[i]);
            proof {
                assert(rest_left[0] == left@[i as int]@);
                assert(rest_left.skip(1) =~= from_left.skip(i + 1));
                if j == right.len() {
                    assert(merged(rest_left, rest_right, key, descending) =~= seq![rest_left[0]]
                        + rest_left.skip(1));
                    assert(merged(rest_left.skip(1), rest_right, key, descending)
                        =~= rest_left.skip(1));
                }
                assert(entry_refs_view(all@) =~= so_far + seq![rest_left[0]]);
                assert(entry_refs_view(all@) + merged(
                    rest_left.skip(1),
                    rest_right,
                    key,
                    descending,
                ) =~= so_far + merged(rest_left, rest_right, key, descending));
            }
            i += 1;
        } else {
            all.push(right[j]);
            proof {
                assert(rest_right[0] == right@[j as int]@);
                assert(rest_right.skip(1) =~= from_right.skip(j + 1));
                if i == left.len() {
                    assert(merged(rest_left, rest_right, key, descending) =~= seq![rest_right[0]]
                        + rest_right.skip(1));
                    assert(merged(rest_left, rest_right.skip(1), key, descending)
                        =~= rest_right.skip(1));
                }
                assert(entry_refs_view(all@) =~= so_far + seq![rest_right[0]]);
                assert(entry_refs_view(all@) + merged(
                    rest_left,
                    rest_right.skip(1),
                    key,
                    descending,
                ) =~= so_far + merged(rest_left, rest_right, key, descending));
            }
            j += 1;
        }
    }
    proof {
        assert(merged(from_left.skip(i as int), from_right.skip(j as int), key, descending)
            =~= Seq::empty());
        assert(entry_refs_view(all@) =~= merged(from_left, from_right, key, descending));
    }
    all
}

/// Sort the entries of a part of a list
fn sort_part<'a>(
    items: &Vec<&'a ClassEntry>,
    from: usize,
    to: usize,
    key: SortKey,
    descending: bool,
) -> (sorted: Vec<&'a ClassEntry>)
    requires
        from <= to <= items@.len(),
    ensures
        entry_refs_view(sorted@) == sorted_by(
            entry_refs_view(items@).subrange(from as int, to as int),
            key,
            descending,
        ),
    decreases to - from,
{
    let ghost part = entry_refs_view(items@).subrange(from as int, to as int);
    if to - from <= 1 {
        let mut sorted: Vec<&'a ClassEntry> = Vec::new();
        if from < to {
            sorted.push(items[from]);
        }
        assert(entry_refs_view(sorted@) =~= part);
        sorted
    } else {
        let middle = from + (to - from) / 2;
        let left = sort_part(items, from, middle, key, descending);
        let right = sort_part(items, middle, to, key, descending);
        proof {
            let half = (part.len() / 2) as int;
            assert(part.take(half) =~= entry_refs_view(items@).subrange(
                from as int,
                middle as int,
            ));
            assert(part.skip(half) =~= entry_refs_view(items@).subrange(middle as int, to as int));
        }
        merge_entries(&left, &right, key, descending)
    }
}

/// Sort entries by the key in the asked order, keeping equals in the order in which they came
pub fn sort_entries<'a>(items: &Vec<&'a ClassEntry>, key: SortKey, descending: bool) -> (sorted:
    Vec<&'a ClassEntry>)
    ensures
        entry_refs_view(sorted@) == sorted_by(entry_refs_view(items@), key, descending),
{
    assert(entry_refs_view(items@).subrange(0, items@.len() as int) =~= entry_refs_view(items@));
    sort_part(items, 0, items.len(), key, descending)
}

} // verus!
