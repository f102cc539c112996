//! Ordered string tables backed by `indexmap::IndexMap`.
//!
//! The contents of a table are modelled as the sequence of its entries in
//! insertion order; keys and values are taken by their character sequences.

use indexmap::IndexMap;
use vstd::prelude::*;

verus! {

#[verifier::external_type_specification]
#[verifier::external_body]
#[verifier::reject_recursive_types(K)]
#[verifier::reject_recursive_types(V)]
#[verifier::reject_recursive_types(S)]
pub struct ExIndexMap<K, V, S>(IndexMap<K, V, S>);

/// Entries of a key/value table, in order.
pub type Entries = Seq<(Seq<char>, Seq<char>)>;

/// Entries of a table of tables, in order.
pub type SectionEntries = Seq<(Seq<char>, Entries)>;

/// What an `IndexMap<String, String>` holds: its entries in their order.
pub uninterp spec fn entries(m: IndexMap<String, String>) -> Seq<(Seq<char>, Seq<char>)>;

/// What an `IndexMap<String, IndexMap<String, String>>` holds: each key with
/// the entries of the table stored under it, in order.
pub uninterp spec fn section_entries(
    m: IndexMap<String, IndexMap<String, String>>,
) -> Seq<(Seq<char>, Seq<(Seq<char>, Seq<char>)>)>;

/// Index of the first entry whose key is `k`, or -1 when there is none.
pub open spec fn find_key<V>(e: Seq<(Seq<char>, V)>, k: Seq<char>) -> int
    decreases e.len(),
{
    if e.len() == 0 {
        -1
    } else if find_key(e.drop_last(), k) >= 0 {
        find_key(e.drop_last(), k)
    } else if e.last().0 == k {
        e.len() - 1
    } else {
        -1
    }
}

/// True if some entry has key `k`.
pub open spec fn has_key<V>(e: Seq<(Seq<char>, V)>, k: Seq<char>) -> bool {
    find_key(e, k) >= 0
}

/// The value stored under `k`, if any.
pub open spec fn lookup<V>(e: Seq<(Seq<char>, V)>, k: Seq<char>) -> Option<V> {
    if has_key(e, k) {
        Some(e[find_key(e, k)].1)
    } else {
        None
    }
}

/// Inserting into an ordered table: an existing key keeps its place and takes
/// the new value; a new key goes last.
pub open spec fn insert_entry<V>(e: Seq<(Seq<char>, V)>, k: Seq<char>, v: V) -> Seq<(Seq<char>, V)> {
    if has_key(e, k) {
        e.update(find_key(e, k), (k, v))
    } else {
        e.push((k, v))
    }
}

/// The keys of a table, in order.
pub open spec fn keys_of<V>(e: Seq<(Seq<char>, V)>) -> Seq<Seq<char>> {
    e.map_values(|p: (Seq<char>, V)| p.0)
}

/// No key occurs twice.
pub open spec fn unique_keys<V>(e: Seq<(Seq<char>, V)>) -> bool {
    forall|i: int, j: int| 0 <= i < j < e.len() ==> e[i].0 != e[j].0
}

/// `find_key` finds the first entry with the key, and reports -1 exactly when
/// no entry has it.
pub proof fn lemma_find_key<V>(e: Seq<(Seq<char>, V)>, k: Seq<char>)
    ensures
        -1 <= find_key(e, k) < e.len(),
        find_key(e, k) >= 0 ==> e[find_key(e, k)].0 == k,
        forall|j: int| 0 <= j < e.len() && (find_key(e, k) < 0 || j < find_key(e, k)) ==> e[j].0 != k,
    decreases e.len(),
{
    if e.len() > 0 {
        let d = e.drop_last();
        lemma_find_key(d, k);
        assert forall|j: int| 0 <= j < e.len() && (find_key(e, k) < 0 || j < find_key(e, k)) implies e[j].0 != k by {
            if j < e.len() - 1 {
                assert(e[j] == d[j]);
            }
        }
    }
}

/// A key is found at index `i` when it sits there and nowhere before.
pub proof fn lemma_find_key_at<V>(e: Seq<(Seq<char>, V)>, k: Seq<char>, i: int)
    requires
        0 <= i < e.len(),
        e[i].0 == k,
        forall|j: int| 0 <= j < i ==> e[j].0 != k,
    ensures
        find_key(e, k) == i,
{
    lemma_find_key(e, k);
}

/// A key is absent when no entry has it.
pub proof fn lemma_find_key_absent<V>(e: Seq<(Seq<char>, V)>, k: Seq<char>)
    requires
        forall|j: int| 0 <= j < e.len() ==> e[j].0 != k,
    ensures
        find_key(e, k) == -1,
{
    lemma_find_key(e, k);
}

/// Reading a key right after writing it gives the written value, and every
/// other key reads as before.
pub proof fn lemma_insert_lookup<V>(e: Seq<(Seq<char>, V)>, k: Seq<char>, v: V, k2: Seq<char>)
    ensures
        lookup(insert_entry(e, k, v), k) == Some(v),
        k2 != k ==> lookup(insert_entry(e, k, v), k2) == lookup(e, k2),
        has_key(insert_entry(e, k, v), k2) == (k2 == k || has_key(e, k2)),
{
    let e2 = insert_entry(e, k, v);
    lemma_find_key(e, k);
    lemma_find_key(e, k2);
    lemma_find_key(e2, k);
    lemma_find_key(e2, k2);
    if has_key(e, k) {
        let i = find_key(e, k);
        lemma_find_key_at(e2, k, i);
        if k2 != k {
            if has_key(e, k2) {
                lemma_find_key_at(e2, k2, find_key(e, k2));
            } else {
                lemma_find_key_absent(e2, k2);
            }
        }
    } else {
        lemma_find_key_at(e2, k, e.len() as int);
        if k2 != k {
            if has_key(e, k2) {
                lemma_find_key_at(e2, k2, find_key(e, k2));
            } else {
                lemma_find_key_absent(e2, k2);
            }
        }
    }
}

/// Inserting keeps keys unique, and adds an entry exactly when the key is new.
pub proof fn lemma_insert_unique<V>(e: Seq<(Seq<char>, V)>, k: Seq<char>, v: V)
    requires
        unique_keys(e),
    ensures
        unique_keys(insert_entry(e, k, v)),
        insert_entry(e, k, v).len() == e.len() + if has_key(e, k) { 0int } else { 1int },
{
    lemma_find_key(e, k);
}

// ── IndexMap<String, String> ───────────────────────────────────────────────

/// `IndexMap::new`: an empty map.
#[verifier::external_body]
pub(crate) fn table_new() -> (m: IndexMap<String, String>)
    ensures
        entries(m) == Seq::<(Seq<char>, Seq<char>)>::empty(),
{
    IndexMap::new()
}

/// `IndexMap::insert`: an existing key keeps its place and takes the new
/// value; a new key is appended last.
#[verifier::external_body]
pub(crate) fn table_insert(m: &mut IndexMap<String, String>, key: String, value: String)
    ensures
        entries(*final(m)) == insert_entry(entries(*old(m)), key@, value@),
{
    m.insert(key, value);
}

/// `IndexMap::get`: the value stored under `key`, if any.
#[verifier::external_body]
pub(crate) fn table_get<'a>(m: &'a IndexMap<String, String>, key: &str) -> (r: Option<&'a String>)
    ensures
        r.is_some() == has_key(entries(*m), key@),
        r matches Some(v) ==> v@ == entries(*m)[find_key(entries(*m), key@)].1,
{
    m.get(key)
}

/// `IndexMap::contains_key`.
#[verifier::external_body]
pub(crate) fn table_contains(m: &IndexMap<String, String>, key: &str) -> (r: bool)
    ensures
        r == has_key(entries(*m), key@),
{
    m.contains_key(key)
}

/// `IndexMap::len`: the number of entries.
#[verifier::external_body]
pub(crate) fn table_len(m: &IndexMap<String, String>) -> (r: usize)
    ensures
        r == entries(*m).len(),
{
    m.len()
}

/// `IndexMap::get_index`: the entry at position `i`, if there is one.
#[verifier::external_body]
pub(crate) fn table_entry<'a>(m: &'a IndexMap<String, String>, i: usize) -> (r: Option<(&'a String, &'a String)>)
    ensures
        r.is_some() == (i < entries(*m).len()),
        r matches Some(kv) ==> (kv.0@, kv.1@) == entries(*m)[i as int],
{
    m.get_index(i)
}

/// `IndexMap::clone`: a map with the same entries in the same order.
#[verifier::external_body]
pub(crate) fn table_clone(m: &IndexMap<String, String>) -> (r: IndexMap<String, String>)
    ensures
        entries(r) == entries(*m),
{
    m.clone()
}

// ── IndexMap<String, IndexMap<String, String>> ─────────────────────────────

/// `IndexMap::new` for a table of tables: an empty map.
#[verifier::external_body]
pub(crate) fn sections_new() -> (m: IndexMap<String, IndexMap<String, String>>)
    ensures
        section_entries(m) == Seq::<(Seq<char>, Entries)>::empty(),
{
    IndexMap::new()
}

/// `IndexMap::insert` for a table of tables: an existing name keeps its place
/// and takes the new table; a new name is appended last.
#[verifier::external_body]
pub(crate) fn sections_insert(
    m: &mut IndexMap<String, IndexMap<String, String>>,
    name: String,
    table: IndexMap<String, String>,
)
    ensures
        section_entries(*final(m)) == insert_entry(section_entries(*old(m)), name@, entries(table)),
{
    m.insert(name, table);
}

/// `IndexMap::get` for a table of tables.
#[verifier::external_body]
pub(crate) fn sections_get<'a>(
    m: &'a IndexMap<String, IndexMap<String, String>>,
    name: &str,
) -> (r: Option<&'a IndexMap<String, String>>)
    ensures
        r.is_some() == has_key(section_entries(*m), name@),
        r matches Some(t) ==> entries(*t) == section_entries(*m)[find_key(
            section_entries(*m),
            name@,
        )].1,
{
    m.get(name)
}

/// `IndexMap::contains_key` for a table of tables.
#[verifier::external_body]
pub(crate) fn sections_contains(m: &IndexMap<String, IndexMap<String, String>>, name: &str) -> (r: bool)
    ensures
        r == has_key(section_entries(*m), name@),
{
    m.contains_key(name)
}

/// `IndexMap::len` for a table of tables.
#[verifier::external_body]
pub(crate) fn sections_len(m: &IndexMap<String, IndexMap<String, String>>) -> (r: usize)
    ensures
        r == section_entries(*m).len(),
{
    m.len()
}

/// `IndexMap::get_index` for a table of tables.
#[verifier::external_body]
pub(crate) fn sections_entry<'a>(
    m: &'a IndexMap<String, IndexMap<String, String>>,
    i: usize,
) -> (r: Option<(&'a String, &'a IndexMap<String, String>)>)
    ensures
        r.is_some() == (i < section_entries(*m).len()),
        r matches Some(kv) ==> (kv.0@, entries(*kv.1)) == section_entries(*m)[i as int],
{
    m.get_index(i)
}

/// `IndexMap::clone` for a table of tables.
#[verifier::external_body]
pub(crate) fn sections_clone(m: &IndexMap<String, IndexMap<String, String>>) -> (r: IndexMap<
    String,
    IndexMap<String, String>,
>)
    ensures
        section_entries(r) == section_entries(*m),
{
    m.clone()
}

} // verus!
