//! String-keyed entries kept in ascending order of the keys' UTF-8 bytes, each
//! key once: the order and the uniqueness of a `BTreeMap<String, _>`.

use vstd::prelude::*;
use vstd::string::StringSliceAdditionalSpecFns;
use vstd::utf8::{encode_utf8, encode_utf8_decode_utf8};

verus! {

/// `a` and `b` agree on their first `p` bytes, and both have at least `p`.
pub open spec fn common_prefix(a: Seq<u8>, b: Seq<u8>, p: int) -> bool {
    &&& 0 <= p <= a.len()
    &&& p <= b.len()
    &&& forall|i: int| 0 <= i < p ==> a[i] == b[i]
}

/// `a` comes before `b` in lexicographic byte order.
pub open spec fn bytes_lt(a: Seq<u8>, b: Seq<u8>) -> bool {
    exists|p: int|
        #[trigger] common_prefix(a, b, p) && ((p == a.len() && p < b.len()) || (p < a.len() && p
            < b.len() && a[p] < b[p]))
}

/// Key `a` comes before key `b`: the order of `String`'s `Ord`.
pub open spec fn key_lt(a: Seq<char>, b: Seq<char>) -> bool {
    bytes_lt(encode_utf8(a), encode_utf8(b))
}

/// The keys of `entries` ascend strictly.
pub open spec fn sorted_keys<V>(entries: Seq<(String, V)>) -> bool {
    forall|i: int, j: int|
        0 <= i < j < entries.len() ==> key_lt(#[trigger] entries[i].0@, #[trigger] entries[j].0@)
}

/// The map that `entries` stand for: each key to the value of its last entry.
pub open spec fn entries_map<V>(entries: Seq<(String, V)>) -> Map<Seq<char>, V>
    decreases entries.len(),
{
    if entries.len() == 0 {
        Map::empty()
    } else {
        entries_map(entries.drop_last()).insert(entries.last().0@, entries.last().1)
    }
}

/// No byte sequence comes before itself.
pub proof fn lemma_bytes_lt_irreflexive(a: Seq<u8>)
    ensures
        !bytes_lt(a, a),
{
}

/// The byte order is transitive.
pub proof fn lemma_bytes_lt_transitive(a: Seq<u8>, b: Seq<u8>, c: Seq<u8>)
    requires
        bytes_lt(a, b),
        bytes_lt(b, c),
    ensures
        bytes_lt(a, c),
{
    let p = choose|p: int|
        #[trigger] common_prefix(a, b, p) && ((p == a.len() && p < b.len()) || (p < a.len() && p
            < b.len() && a[p] < b[p]));
    let q = choose|q: int|
        #[trigger] common_prefix(b, c, q) && ((q == b.len() && q < c.len()) || (q < b.len() && q
            < c.len() && b[q] < c[q]));
    if p <= q {
        assert(common_prefix(a, c, p));
    } else {
        assert(common_prefix(a, c, q));
    }
}

/// Two distinct byte sequences are ordered one way or the other.
pub proof fn lemma_bytes_lt_total(a: Seq<u8>, b: Seq<u8>)
    requires
        a != b,
    ensures
        bytes_lt(a, b) || bytes_lt(b, a),
    decreases a.len(),
{
    if a.len() == 0 || b.len() == 0 {
        assert(common_prefix(a, b, 0));
        assert(common_prefix(b, a, 0));
        if a.len() == 0 && b.len() == 0 {
            assert(a =~= b);
        }
    } else if a[0] != b[0] {
        assert(common_prefix(a, b, 0));
        assert(common_prefix(b, a, 0));
    } else {
        let a1 = a.drop_first();
        let b1 = b.drop_first();
        if a1 =~= b1 {
            assert forall|i: int| 0 <= i < a.len() implies a[i] == b[i] by {
                if i > 0 {
                    assert(a[i] == a1[i - 1]);
                    assert(b[i] == b1[i - 1]);
                }
            }
            assert(a =~= b);
        }
        lemma_bytes_lt_total(a1, b1);
        if bytes_lt(a1, b1) {
            let p = choose|p: int|
                #[trigger] common_prefix(a1, b1, p) && ((p == a1.len() && p < b1.len()) || (p
                    < a1.len() && p < b1.len() && a1[p] < b1[p]));
            assert forall|i: int| 0 <= i < p + 1 implies a[i] == b[i] by {
                if i > 0 {
                    assert(a[i] == a1[i - 1]);
                    assert(b[i] == b1[i - 1]);
                }
            }
            assert(common_prefix(a, b, p + 1));
        } else {
            let p = choose|p: int|
                #[trigger] common_prefix(b1, a1, p) && ((p == b1.len() && p < a1.len()) || (p
                    < b1.len() && p < a1.len() && b1[p] < a1[p]));
            assert forall|i: int| 0 <= i < p + 1 implies b[i] == a[i] by {
                if i > 0 {
                    assert(a[i] == a1[i - 1]);
                    assert(b[i] == b1[i - 1]);
                }
            }
            assert(common_prefix(b, a, p + 1));
        }
    }
}

/// Distinct keys have distinct encodings.
pub proof fn lemma_encoding_injective(a: Seq<char>, b: Seq<char>)
    requires
        encode_utf8(a) == encode_utf8(b),
    ensures
        a == b,
{
    encode_utf8_decode_utf8(a);
    encode_utf8_decode_utf8(b);
}

/// How two byte sequences compare: negative, zero or positive.
pub fn compare_bytes(a: &[u8], b: &[u8]) -> (order: i8)
    ensures
        order < 0 <==> bytes_lt(a@, b@),
        order == 0 <==> a@ == b@,
        order > 0 <==> bytes_lt(b@, a@),
{
    let mut i: usize = 0;
    while i < a.len() && i < b.len()
        invariant
            common_prefix(a@, b@, i as int),
        decreases a@.len() - i,
    {
        if a[i] < b[i] {
            assert(common_prefix(b@, a@, i as int));
            proof {
                lemma_lt_not_gt(a@, b@, i as int);
            }
            return -1;
        }
        if a[i] > b[i] {
            assert(common_prefix(b@, a@, i as int));
            proof {
                lemma_lt_not_gt(b@, a@, i as int);
            }
            return 1;
        }
        i = i + 1;
    }
    assert(common_prefix(b@, a@, i as int));
    if a.len() < b.len() {
        proof {
            lemma_lt_not_gt(a@, b@, i as int);
        }
        -1
    } else if a.len() > b.len() {
        proof {
            lemma_lt_not_gt(b@, a@, i as int);
        }
        1
    } else {
        assert(a@ =~= b@);
        proof {
            lemma_bytes_lt_irreflexive(a@);
        }
        0
    }
}

/// When `a` and `b` first differ at `p` with `a` smaller there (or ending
/// there), `a` comes before `b`, not after it, and they differ.
proof fn lemma_lt_not_gt(a: Seq<u8>, b: Seq<u8>, p: int)
    requires
        common_prefix(a, b, p),
        (p == a.len() && p < b.len()) || (p < a.len() && p < b.len() && a[p] < b[p]),
    ensures
        bytes_lt(a, b),
        !bytes_lt(b, a),
        a != b,
{
    assert(common_prefix(a, b, p));
    if bytes_lt(b, a) {
        lemma_bytes_lt_transitive(a, b, a);
        lemma_bytes_lt_irreflexive(a);
    }
    if a == b {
        lemma_bytes_lt_irreflexive(a);
    }
}

/// Keys ordered one before the other are distinct.
pub proof fn lemma_key_lt_distinct(a: Seq<char>, b: Seq<char>)
    requires
        key_lt(a, b),
    ensures
        a != b,
        !key_lt(b, a),
{
    lemma_bytes_lt_irreflexive(encode_utf8(a));
    if key_lt(b, a) {
        lemma_bytes_lt_transitive(encode_utf8(a), encode_utf8(b), encode_utf8(a));
    }
}

/// Replacing the value of an entry replaces the value the map has for its key.
proof fn lemma_entries_map_update<V>(entries: Seq<(String, V)>, i: int, entry: (String, V))
    requires
        sorted_keys(entries),
        0 <= i < entries.len(),
        entry.0@ == entries[i].0@,
    ensures
        sorted_keys(entries.update(i, entry)),
        entries_map(entries.update(i, entry)) == entries_map(entries).insert(entry.0@, entry.1),
    decreases entries.len(),
{
    let updated = entries.update(i, entry);
    assert forall|a: int, b: int| 0 <= a < b < updated.len() implies key_lt(
        #[trigger] updated[a].0@,
        #[trigger] updated[b].0@,
    ) by {
        assert(key_lt(entries[a].0@, entries[b].0@));
    }
    let n = entries.len() - 1;
    if i == n {
        assert(updated.drop_last() =~= entries.drop_last());
        assert(entries_map(updated) =~= entries_map(entries).insert(entry.0@, entry.1));
    } else {
        let rest = entries.drop_last();
        assert(sorted_keys(rest));
        lemma_entries_map_update(rest, i, entry);
        assert(updated.drop_last() =~= rest.update(i, entry));
        assert(key_lt(entries[i].0@, entries[n].0@));
        lemma_key_lt_distinct(entries[i].0@, entries[n].0@);
        assert(entries_map(updated) =~= entries_map(entries).insert(entry.0@, entry.1));
    }
}

/// Inserting an entry at the place its key belongs adds that key to the map.
proof fn lemma_entries_map_insert<V>(entries: Seq<(String, V)>, i: int, entry: (String, V))
    requires
        sorted_keys(entries),
        0 <= i <= entries.len(),
        forall|j: int| 0 <= j < i ==> key_lt(#[trigger] entries[j].0@, entry.0@),
        forall|j: int| i <= j < entries.len() ==> key_lt(entry.0@, #[trigger] entries[j].0@),
    ensures
        sorted_keys(entries.insert(i, entry)),
        entries_map(entries.insert(i, entry)) == entries_map(entries).insert(entry.0@, entry.1),
    decreases entries.len(),
{
    let inserted = entries.insert(i, entry);
    assert forall|a: int, b: int| 0 <= a < b < inserted.len() implies key_lt(
        #[trigger] inserted[a].0@,
        #[trigger] inserted[b].0@,
    ) by {
        if b < i {
            assert(key_lt(entries[a].0@, entries[b].0@));
        } else if b == i {
            assert(key_lt(entries[a].0@, entry.0@));
        } else if a < i {
            assert(key_lt(entries[a].0@, entry.0@));
            assert(key_lt(entry.0@, entries[b - 1].0@));
            lemma_bytes_lt_transitive(
                encode_utf8(entries[a].0@),
                encode_utf8(entry.0@),
                encode_utf8(entries[b - 1].0@),
            );
        } else if a == i {
            assert(key_lt(entry.0@, entries[b - 1].0@));
        } else {
            assert(key_lt(entries[a - 1].0@, entries[b - 1].0@));
        }
    }
    if i == entries.len() {
        assert(inserted.drop_last() =~= entries);
        assert(entries_map(inserted) =~= entries_map(entries).insert(entry.0@, entry.1));
    } else {
        let n = entries.len() - 1;
        let rest = entries.drop_last();
        assert(sorted_keys(rest));
        lemma_entries_map_insert(rest, i, entry);
        assert(inserted.drop_last() =~= rest.insert(i, entry));
        assert(key_lt(entry.0@, entries[n].0@));
        lemma_key_lt_distinct(entry.0@, entries[n].0@);
        assert(entries_map(inserted) =~= entries_map(entries).insert(entry.0@, entry.1));
    }
}

/// Adds `key` with `value`, in its place by key order; an entry with the same
/// key has its value replaced.
pub fn insert_entry<V>(entries: &mut Vec<(String, V)>, key: String, value: V)
    requires
        sorted_keys(old(entries)@),
    ensures
        sorted_keys(final(entries)@),
        entries_map(final(entries)@) == entries_map(old(entries)@).insert(key@, value),
{
    let mut i: usize = 0;
    let mut order: i8 = 1;
    let mut found = false;
    while !found && i < entries.len()
        invariant
            entries@ == old(entries)@,
            sorted_keys(entries@),
            i <= entries@.len(),
            forall|j: int| 0 <= j < i ==> key_lt(#[trigger] entries@[j].0@, key@),
            found ==> i < entries@.len() && order >= 0 && (order == 0 <==> encode_utf8(
                entries@[i as int].0@,
            ) == encode_utf8(key@)) && (order > 0 <==> bytes_lt(
                encode_utf8(key@),
                encode_utf8(entries@[i as int].0@),
            )),
        decreases entries@.len() - i + if found { 0int } else { 1int },
    {
        order = compare_bytes(entries[i].0.as_str().as_bytes(), key.as_str().as_bytes());
        if order >= 0 {
            found = true;
        } else {
            i = i + 1;
        }
    }
    let ghost old_entries = entries@;
    let ghost entry = (key, value);
    if found && order == 0 {
        proof {
            lemma_encoding_injective(old_entries[i as int].0@, key@);
            lemma_entries_map_update(old_entries, i as int, entry);
        }
        entries.set(i, (key, value));
        assert(entries@ == old_entries.update(i as int, entry));
    } else {
        proof {
            if i < old_entries.len() {
                lemma_bytes_lt_total(encode_utf8(key@), encode_utf8(old_entries[i as int].0@));
                assert forall|j: int| i <= j < old_entries.len() implies key_lt(
                    key@,
                    #[trigger] old_entries[j].0@,
                ) by {
                    if j > i {
                        assert(key_lt(old_entries[i as int].0@, old_entries[j].0@));
                        lemma_bytes_lt_transitive(
                            encode_utf8(key@),
                            encode_utf8(old_entries[i as int].0@),
                            encode_utf8(old_entries[j].0@),
                        );
                    }
                }
            }
            lemma_entries_map_insert(old_entries, i as int, entry);
        }
        entries.insert(i, (key, value));
        assert(entries@ == old_entries.insert(i as int, entry));
    }
}

/// The map of sorted entries holds exactly their keys, each with its entry's value.
pub proof fn lemma_entries_map_contents<V>(entries: Seq<(String, V)>)
    requires
        sorted_keys(entries),
    ensures
        forall|k: Seq<char>| #[trigger]
            entries_map(entries).contains_key(k) <==> exists|j: int|
                0 <= j < entries.len() && entries[j].0@ == k,
        forall|j: int|
            0 <= j < entries.len() ==> #[trigger] entries_map(entries)[entries[j].0@]
                == entries[j].1,
    decreases entries.len(),
{
    if entries.len() > 0 {
        let rest = entries.drop_last();
        let n = entries.len() - 1;
        assert(sorted_keys(rest));
        lemma_entries_map_contents(rest);
        assert forall|k: Seq<char>| #[trigger]
            entries_map(entries).contains_key(k) <==> exists|j: int|
                0 <= j < entries.len() && entries[j].0@ == k by {
            if entries_map(rest).contains_key(k) {
                let j = choose|j: int| 0 <= j < rest.len() && rest[j].0@ == k;
                assert(entries[j].0@ == k);
            }
            if exists|j: int| 0 <= j < entries.len() && entries[j].0@ == k {
                let j = choose|j: int| 0 <= j < entries.len() && entries[j].0@ == k;
                if j < n {
                    assert(rest[j].0@ == k);
                }
            }
        }
        assert forall|j: int| 0 <= j < entries.len() implies #[trigger] entries_map(
            entries,
        )[entries[j].0@] == entries[j].1 by {
            if j < n {
                assert(key_lt(entries[j].0@, entries[n].0@));
                lemma_key_lt_distinct(entries[j].0@, entries[n].0@);
                assert(rest[j] == entries[j]);
                assert(entries_map(rest)[rest[j].0@] == rest[j].1);
            }
        }
    }
}

/// The value of `key` among sorted entries.
pub fn entry_value<'a, V>(entries: &'a Vec<(String, V)>, key: &str) -> (result: Option<&'a V>)
    requires
        sorted_keys(entries@),
    ensures
        match result {
            Some(value) => entries_map(entries@).contains_key(key@) && entries_map(entries@)[key@]
                == *value,
            None => !entries_map(entries@).contains_key(key@),
        },
{
    proof {
        lemma_entries_map_contents(entries@);
    }
    let mut i: usize = 0;
    while i < entries.len()
        invariant
            i <= entries@.len(),
            sorted_keys(entries@),
            forall|j: int| 0 <= j < i ==> #[trigger] entries@[j].0@ != key@,
        decreases entries@.len() - i,
    {
        if crate::text::same_text(entries[i].0.as_str(), key) {
            proof {
                lemma_entries_map_contents(entries@);
            }
            return Some(&entries[i].1);
        }
        i = i + 1;
    }
    None
}

} // verus!
