use vstd::prelude::*;
use vstd::std_specs::iter::IteratorSpec;
use vstd::string::*;

verus! {

/// The characters of a list of strings, one sequence per string.
pub open spec fn texts(items: Seq<String>) -> Seq<Seq<char>> {
    items.map_values(|s: String| s@)
}

/// The characters of an optional string.
pub open spec fn opt_text(item: Option<String>) -> Option<Seq<char>> {
    match item {
        Some(s) => Some(s@),
        None => None,
    }
}

/// The characters of a list of key and value pairs.
pub open spec fn pair_texts(items: Seq<(String, String)>) -> Seq<(Seq<char>, Seq<char>)> {
    items.map_values(|p: (String, String)| (p.0@, p.1@))
}

/// All the parts written one after another.
pub open spec fn concat_all(parts: Seq<Seq<char>>) -> Seq<char>
    decreases parts.len(),
{
    if parts.len() == 0 {
        Seq::empty()
    } else {
        concat_all(parts.drop_last()) + parts.last()
    }
}

/// The parts written one after another with the separator between neighbours.
pub open spec fn joined(parts: Seq<Seq<char>>, separator: Seq<char>) -> Seq<char>
    decreases parts.len(),
{
    if parts.len() == 0 {
        Seq::empty()
    } else if parts.len() == 1 {
        parts[0]
    } else {
        joined(parts.drop_last(), separator) + separator + parts.last()
    }
}

/// Writes the items one after another with the separator between neighbours.
pub fn join_texts(items: &[String], separator: &str) -> (text: String)
    ensures
        text@ == joined(texts(items@), separator@),
{
    let mut text = String::new();
    let mut i: usize = 0;
    assert(texts(items@).take(0) =~= Seq::empty());
    while i < items.len()
        invariant
            i <= items.len(),
            text@ == joined(texts(items@).take(i as int), separator@),
        decreases items.len() - i,
    {
        if i > 0 {
            text.append(separator);
        }
        text.append(items[i].as_str());
        proof {
            let upto = texts(items@).take(i + 1);
            assert(upto.drop_last() =~= texts(items@).take(i as int));
            assert(upto.last() == items@[i as int]@);
            if i == 0 {
                assert(upto[0] == items@[0]@);
            }
            assert(text@ =~= joined(upto, separator@));
        }
        i += 1;
    }
    assert(texts(items@).take(i as int) =~= texts(items@));
    text
}

/// A character with an upper-case ASCII letter turned into its lower-case form.
pub open spec fn ascii_lower(c: char) -> char {
    if 'A' <= c && c <= 'Z' {
        ((c as u32) + 32) as char
    } else {
        c
    }
}

/// Tells whether two texts are equal when the case of ASCII letters is ignored.
pub open spec fn same_ignoring_ascii_case(a: Seq<char>, b: Seq<char>) -> bool {
    &&& a.len() == b.len()
    &&& forall|i: int| 0 <= i < a.len() ==> ascii_lower(#[trigger] a[i]) == ascii_lower(b[i])
}

/// A character with an upper-case ASCII letter turned into its lower-case form
fn to_ascii_lower(c: char) -> (lower: char)
    ensures
        lower == ascii_lower(c),
{
    if 'A' <= c && c <= 'Z' {
        (((c as u32) + 32) as u8) as char
    } else {
        c
    }
}

/// Tells whether two strings are equal when the case of ASCII letters is ignored
pub fn eq_ignore_ascii_case(a: &str, b: &str) -> (same: bool)
    ensures
        same == same_ignoring_ascii_case(a@, b@),
{
    broadcast use vstd::string::group_string_axioms;

    let mut left = a.chars();
    let mut right = b.chars();
    let ghost mut done: int = 0;
    assert(a@.skip(0) =~= a@);
    assert(b@.skip(0) =~= b@);
    loop
        invariant
            0 <= done <= a@.len(),
            done <= b@.len(),
            left.remaining() == a@.skip(done),
            right.remaining() == b@.skip(done),
            forall|i: int| 0 <= i < done ==> ascii_lower(#[trigger] a@[i]) == ascii_lower(b@[i]),
        decreases a@.len() - done,
    {
        let ghost rest_left = left.remaining();
        let ghost rest_right = right.remaining();
        let x = left.next();
        let y = right.next();
        match (x, y) {
            (None, None) => {
                return true;
            },
            (Some(x), Some(y)) => {
                assert(a@[done] == x && b@[done] == y);
                if to_ascii_lower(x) != to_ascii_lower(y) {
                    return false;
                }
                proof {
                    assert(rest_left.drop_first() =~= a@.skip(done + 1));
                    assert(rest_right.drop_first() =~= b@.skip(done + 1));
                    done = done + 1;
                }
            },
            _ => {
                return false;
            },
        }
    }
}

/// Tells whether a text stands at or before another in the order of strings: character by
/// character from the left, a smaller character first, and a text before its extensions.
pub open spec fn text_le(a: Seq<char>, b: Seq<char>) -> bool
    decreases a.len(),
{
    if a.len() == 0 {
        true
    } else if b.len() == 0 {
        false
    } else if a[0] != b[0] {
        a[0] < b[0]
    } else {
        text_le(a.drop_first(), b.drop_first())
    }
}

/// Of two texts one stands at or before the other.
pub proof fn text_order_is_total(a: Seq<char>, b: Seq<char>)
    ensures
        text_le(a, b) || text_le(b, a),
    decreases a.len(),
{
    if a.len() > 0 && b.len() > 0 && a[0] == b[0] {
        text_order_is_total(a.drop_first(), b.drop_first());
    }
}

/// A text that stands at or before a second, which stands at or before a third, stands at or
/// before the third.
pub proof fn text_order_is_transitive(a: Seq<char>, b: Seq<char>, c: Seq<char>)
    requires
        text_le(a, b),
        text_le(b, c),
    ensures
        text_le(a, c),
    decreases a.len(),
{
    if a.len() > 0 && b.len() > 0 && c.len() > 0 && a[0] == b[0] && b[0] == c[0] {
        text_order_is_transitive(a.drop_first(), b.drop_first(), c.drop_first());
    }
}

/// Two texts that stand at or before each other are the same text.
pub proof fn text_order_is_antisymmetric(a: Seq<char>, b: Seq<char>)
    requires
        text_le(a, b),
        text_le(b, a),
    ensures
        a == b,
    decreases a.len(),
{
    if a.len() > 0 && b.len() > 0 {
        text_order_is_antisymmetric(a.drop_first(), b.drop_first());
        assert(a =~= seq![a[0]] + a.drop_first());
        assert(b =~= seq![b[0]] + b.drop_first());
    } else {
        assert(a =~= b);
    }
}

/// Tells whether a string stands at or before another in the order of strings
pub fn text_not_after(a: &str, b: &str) -> (result: bool)
    ensures
        result == text_le(a@, b@),
{
    broadcast use vstd::string::group_string_axioms;

    let mut left = a.chars();
    let mut right = b.chars();
    let ghost mut done: int = 0;
    assert(a@.skip(0) =~= a@);
    loop
        invariant
            0 <= done <= a@.len(),
            left.remaining() == a@.skip(done),
            text_le(a@, b@) == text_le(left.remaining(), right.remaining()),
        decreases a@.len() - done,
    {
        let ghost rest_left = left.remaining();
        match left.next() {
            None => {
                return true;
            },
            Some(x) => match right.next() {
                None => {
                    return false;
                },
                Some(y) => {
                    if x != y {
                        return x < y;
                    }
                    proof {
                        assert(rest_left.drop_first() =~= a@.skip(done + 1));
                        done = done + 1;
                    }
                },
            },
        }
    }
}

/// A copy of an optional string.
pub fn clone_opt(item: &Option<String>) -> (copy: Option<String>)
    ensures
        opt_text(copy) == opt_text(*item),
{
    match item {
        Some(s) => Some(s.clone()),
        None => None,
    }
}

/// A copy of a list of strings.
pub fn clone_texts(items: &Vec<String>) -> (copy: Vec<String>)
    ensures
        texts(copy@) == texts(items@),
{
    let mut copy: Vec<String> = Vec::new();
    let mut i: usize = 0;
    while i < items.len()
        invariant
            i <= items.len(),
            copy.len() == i,
            forall|k: int| 0 <= k < i ==> copy@[k]@ == items@[k]@,
        decreases items.len() - i,
    {
        copy.push(items[i].clone());
        i += 1;
    }
    assert(texts(copy@) =~= texts(items@));
    copy
}

/// A copy of a list of key and value pairs.
pub fn clone_pairs(items: &Vec<(String, String)>) -> (copy: Vec<(String, String)>)
    ensures
        pair_texts(copy@) == pair_texts(items@),
{
    let mut copy: Vec<(String, String)> = Vec::new();
    let mut i: usize = 0;
    while i < items.len()
        invariant
            i <= items.len(),
            copy.len() == i,
            forall|k: int| 0 <= k < i ==> copy@[k].0@ == items@[k].0@ && copy@[k].1@ == items@[k].1@,
        decreases items.len() - i,
    {
        let key = items[i].0.clone();
        let value = items[i].1.clone();
        copy.push((key, value));
        i += 1;
    }
    assert(pair_texts(copy@) =~= pair_texts(items@));
    copy
}

/// Tells whether a list of strings holds the given text.
pub fn contains_text(items: &Vec<String>, wanted: &String) -> (found: bool)
    ensures
        found == texts(items@).contains(wanted@),
{
    let mut i: usize = 0;
    while i < items.len()
        invariant
            i <= items.len(),
            forall|k: int| 0 <= k < i ==> items@[k]@ != wanted@,
        decreases items.len() - i,
    {
        if items[i] == *wanted {
            assert(texts(items@)[i as int] == wanted@);
            return true;
        }
        i += 1;
    }
    false
}

} // verus!
