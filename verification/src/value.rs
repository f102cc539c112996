//! Internal key/value storage: flat entries plus named sections.

use indexmap::IndexMap;
use vstd::prelude::*;

use crate::table::{
    entries, has_key, insert_entry, lookup, section_entries, sections_clone, sections_contains,
    sections_entry, sections_get, sections_insert, sections_len, sections_new, table_clone,
    table_contains, table_entry, table_get, table_insert, table_len, table_new, Entries,
    SectionEntries,
};

verus! {

/// Internal data model for configuration values.
///
/// Supports two access patterns:
/// - **Flat**: top-level `KEY = value` (`.env`, root of JSON/TOML/YAML)
/// - **Sectioned**: `[section] key = value` (INI, nested TOML/JSON/YAML)
#[derive(Debug)]
pub struct ConfigMap {
    flat: IndexMap<String, String>,
    sections: IndexMap<String, IndexMap<String, String>>,
}

/// The model of a [`ConfigMap`]: its flat entries and its sections, in order.
pub type ConfigMapModel = (Entries, SectionEntries);

impl View for ConfigMap {
    type V = ConfigMapModel;

    closed spec fn view(&self) -> ConfigMapModel {
        (entries(self.flat), section_entries(self.sections))
    }
}

/// The empty model.
pub open spec fn empty_model() -> ConfigMapModel {
    (Seq::empty(), Seq::empty())
}

/// The entries of section `name`, or none when it does not exist.
pub open spec fn section_or_empty(s: SectionEntries, name: Seq<char>) -> Entries {
    match lookup(s, name) {
        Some(t) => t,
        None => Seq::empty(),
    }
}

/// Inserting `key = value` into section `name`, creating the section last
/// when it does not exist yet.
pub open spec fn insert_in_section(s: SectionEntries, name: Seq<char>, key: Seq<char>, value: Seq<char>) -> SectionEntries {
    insert_entry(s, name, insert_entry(section_or_empty(s, name), key, value))
}

/// The value of `key` inside section `name`.
pub open spec fn lookup_in(s: SectionEntries, name: Seq<char>, key: Seq<char>) -> Option<Seq<char>> {
    match lookup(s, name) {
        Some(t) => lookup(t, key),
        None => None,
    }
}

/// True if the flat entries or any section hold `key`.
pub open spec fn holds_key(m: ConfigMapModel, key: Seq<char>) -> bool {
    has_key(m.0, key) || exists|i: int| 0 <= i < m.1.len() && has_key(#[trigger] m.1[i].1, key)
}

/// Inserting a flat pair into a model.
pub open spec fn model_insert_flat(m: ConfigMapModel, key: Seq<char>, value: Seq<char>) -> ConfigMapModel {
    (insert_entry(m.0, key, value), m.1)
}

/// Inserting a sectioned pair into a model.
pub open spec fn model_insert_sectioned(
    m: ConfigMapModel,
    name: Seq<char>,
    key: Seq<char>,
    value: Seq<char>,
) -> ConfigMapModel {
    (m.0, insert_in_section(m.1, name, key, value))
}

impl ConfigMap {
    /// Create an empty map.
    pub fn new() -> (r: Self)
        ensures
            r@ == empty_model(),
    {
        ConfigMap { flat: table_new(), sections: sections_new() }
    }

    /// Insert a flat (top-level) key/value pair.
    pub fn insert_flat(&mut self, key: String, value: String)
        ensures
            final(self)@ == model_insert_flat(old(self)@, key@, value@),
    {
        table_insert(&mut self.flat, key, value);
    }

    /// Insert a sectioned key/value pair, creating the section when needed.
    pub fn insert_sectioned(&mut self, section: String, key: String, value: String)
        ensures
            final(self)@ == model_insert_sectioned(old(self)@, section@, key@, value@),
    {
        let mut table = match sections_get(&self.sections, section.as_str()) {
            Some(t) => table_clone(t),
            None => table_new(),
        };
        table_insert(&mut table, key, value);
        sections_insert(&mut self.sections, section, table);
    }

    /// Look up a flat key.
    pub fn get_flat(&self, key: &str) -> (r: Option<&str>)
        ensures
            match r {
                Some(v) => lookup(self@.0, key@) == Some(v@),
                None => lookup(self@.0, key@) is None,
            },
    {
        match table_get(&self.flat, key) {
            Some(v) => Some(v.as_str()),
            None => None,
        }
    }

    /// Look up `key` inside `section`.
    pub fn get_in_section(&self, section: &str, key: &str) -> (r: Option<&str>)
        ensures
            match r {
                Some(v) => lookup_in(self@.1, section@, key@) == Some(v@),
                None => lookup_in(self@.1, section@, key@) is None,
            },
    {
        match sections_get(&self.sections, section) {
            Some(t) => match table_get(t, key) {
                Some(v) => Some(v.as_str()),
                None => None,
            },
            None => None,
        }
    }

    /// Return all key/value pairs for `section`.
    pub fn get_section(&self, section: &str) -> (r: Option<&IndexMap<String, String>>)
        ensures
            match r {
                Some(t) => lookup(self@.1, section@) == Some(entries(*t)),
                None => lookup(self@.1, section@) is None,
            },
    {
        sections_get(&self.sections, section)
    }

    /// True if `section` exists.
    pub fn has_section(&self, section: &str) -> (r: bool)
        ensures
            r == has_key(self@.1, section@),
    {
        sections_contains(&self.sections, section)
    }

    /// All flat key/value pairs in insertion order.
    pub fn flat_iter(&self) -> (r: Vec<(String, String)>)
        ensures
            r@.len() == self@.0.len(),
            forall|i: int| 0 <= i < r@.len() ==> (#[trigger] r@[i].0@, r@[i].1@) == self@.0[i],
    {
        let n = table_len(&self.flat);
        let mut out: Vec<(String, String)> = Vec::new();
        let mut i: usize = 0;
        while i < n
            invariant
                n == self@.0.len(),
                i <= n,
                out@.len() == i,
                forall|j: int| 0 <= j < i ==> (#[trigger] out@[j].0@, out@[j].1@) == self@.0[j],
            decreases n - i,
        {
            match table_entry(&self.flat, i) {
                Some((k, v)) => {
                    out.push((k.clone(), v.clone()));
                },
                None => {},
            }
            i = i + 1;
        }
        out
    }

    /// All sections in insertion order, each with a copy of its pairs.
    pub fn sections(&self) -> (r: Vec<(String, IndexMap<String, String>)>)
        ensures
            r@.len() == self@.1.len(),
            forall|i: int| 0 <= i < r@.len() ==> (#[trigger] r@[i].0@, entries(r@[i].1)) == self@.1[i],
    {
        let n = sections_len(&self.sections);
        let mut out: Vec<(String, IndexMap<String, String>)> = Vec::new();
        let mut i: usize = 0;
        while i < n
            invariant
                n == self@.1.len(),
                i <= n,
                out@.len() == i,
                forall|j: int| 0 <= j < i ==> (#[trigger] out@[j].0@, entries(out@[j].1)) == self@.1[j],
            decreases n - i,
        {
            match sections_entry(&self.sections, i) {
                Some((k, t)) => {
                    out.push((k.clone(), table_clone(t)));
                },
                None => {},
            }
            i = i + 1;
        }
        out
    }

    /// Total number of top-level keys (flat keys plus section names).
    pub fn len(&self) -> (r: usize)
        requires
            self@.0.len() + self@.1.len() <= usize::MAX,
        ensures
            r == self@.0.len() + self@.1.len(),
    {
        table_len(&self.flat) + sections_len(&self.sections)
    }

    /// True if there are no flat keys and no sections.
    pub fn is_empty(&self) -> (r: bool)
        ensures
            r == (self@.0.len() == 0 && self@.1.len() == 0),
    {
        table_len(&self.flat) == 0 && sections_len(&self.sections) == 0
    }

    /// True if the flat map contains `key` or any section contains `key`.
    pub fn contains_key(&self, key: &str) -> (r: bool)
        ensures
            r == holds_key(self@, key@),
    {
        if table_contains(&self.flat, key) {
            return true;
        }
        let n = sections_len(&self.sections);
        let mut i: usize = 0;
        while i < n
            invariant
                n == self@.1.len(),
                i <= n,
                !has_key(self@.0, key@),
                forall|j: int| 0 <= j < i ==> !has_key(#[trigger] self@.1[j].1, key@),
            decreases n - i,
        {
            match sections_entry(&self.sections, i) {
                Some((_, t)) => {
                    if table_contains(t, key) {
                        assert(has_key(self@.1[i as int].1, key@));
                        return true;
                    }
                },
                None => {},
            }
            i = i + 1;
        }
        false
    }
}

impl Clone for ConfigMap {
    /// A copy of the whole map, with the same entries in the same order.
    fn clone(&self) -> (r: Self)
        ensures
            r@ == self@,
    {
        ConfigMap { flat: table_clone(&self.flat), sections: sections_clone(&self.sections) }
    }
}

impl Default for ConfigMap {
    /// An empty map.
    fn default() -> (r: Self)
        ensures
            r@ == empty_model(),
    {
        ConfigMap::new()
    }
}

} // verus!
