//! A plain document tree for parsed JSON, TOML and YAML, and its flattening
//! into a [`ConfigMap`].

use vstd::prelude::*;

use crate::value::{empty_model, model_insert_flat, model_insert_sectioned, ConfigMap, ConfigMapModel};

verus! {

/// A key of a table in a parsed document.
#[derive(Debug)]
pub enum Key {
    /// A string key, or the rendering that the parser gives a number or any
    /// other non-boolean key.
    Text(String),
    /// A boolean key.
    Bool(bool),
}

/// A parsed document value.
#[derive(Debug)]
pub enum Node {
    /// The null value.
    Null,
    /// A boolean.
    Bool(bool),
    /// A string, or the rendering that the parser gives a number or a date.
    Text(String),
    /// A sequence of values.
    List(Vec<Node>),
    /// A table of key/value pairs, in document order.
    Table(Vec<(Key, Node)>),
    /// A tagged value (YAML `!tag value`).
    Tagged(Box<Node>),
}

/// `"true"` or `"false"`.
pub open spec fn bool_text(b: bool) -> Seq<char> {
    if b {
        seq!['t', 'r', 'u', 'e']
    } else {
        seq!['f', 'a', 'l', 's', 'e']
    }
}

/// The text of a table key.
pub open spec fn key_text(k: Key) -> Seq<char> {
    match k {
        Key::Text(s) => s@,
        Key::Bool(b) => bool_text(b),
    }
}

/// The text of a value: scalars as they are, null as empty, a list as its
/// items' texts joined by `", "` inside brackets, a table as `label`, and a
/// tagged value as the value it tags.
pub open spec fn node_text(n: Node, label: Seq<char>) -> Seq<char>
    decreases n,
{
    match n {
        Node::Null => Seq::empty(),
        Node::Bool(b) => bool_text(b),
        Node::Text(s) => s@,
        Node::List(items) => seq!['['] + join_texts(items@, label) + seq![']'],
        Node::Table(_) => label,
        Node::Tagged(inner) => node_text(*inner, label),
    }
}

/// The texts of `items` joined by `", "`.
pub open spec fn join_texts(items: Seq<Node>, label: Seq<char>) -> Seq<char>
    decreases items,
{
    if items.len() == 0 {
        Seq::empty()
    } else if items.len() == 1 {
        node_text(items[0], label)
    } else {
        join_texts(items.drop_last(), label) + seq![',', ' '] + node_text(items.last(), label)
    }
}


/// Writes `value` under `key` in `section`, or at the top level when there
/// is no section.
pub open spec fn place(m: ConfigMapModel, section: Option<Seq<char>>, key: Seq<char>, value: Seq<char>) -> ConfigMapModel {
    match section {
        Some(s) => model_insert_sectioned(m, s, key, value),
        None => model_insert_flat(m, key, value),
    }
}

/// Flattening a document into a map: when `n` is a table, each of its
/// entries in order either opens a section named by its key (when the value
/// is itself a table, whose entries are flattened into that section) or is
/// written as text under its key in `section`. Anything else adds nothing.
pub open spec fn flatten(n: Node, section: Option<Seq<char>>, m: ConfigMapModel, label: Seq<char>) -> ConfigMapModel
    decreases n,
{
    match n {
        Node::Table(es) => flatten_entries(es@, section, m, label),
        _ => m,
    }
}

/// Flattening the entries of a table, first to last.
pub open spec fn flatten_entries(
    es: Seq<(Key, Node)>,
    section: Option<Seq<char>>,
    m: ConfigMapModel,
    label: Seq<char>,
) -> ConfigMapModel
    decreases es,
{
    if es.len() == 0 {
        m
    } else {
        let before = flatten_entries(es.drop_last(), section, m, label);
        let k = es.last().0;
        let v = es.last().1;
        if v is Table {
            flatten(v, Some(key_text(k)), before, label)
        } else {
            place(before, section, key_text(k), node_text(v, label))
        }
    }
}

/// The view of an optional string.
pub open spec fn opt_view(s: Option<&str>) -> Option<Seq<char>> {
    match s {
        Some(t) => Some(t@),
        None => None,
    }
}

/// `"true"` or `"false"` as a string.
pub fn bool_to_string(b: bool) -> (r: String)
    ensures
        r@ == bool_text(b),
{
    if b {
        let s = String::from_str("true");
        proof {
            reveal_strlit("true");
        }
        s
    } else {
        let s = String::from_str("false");
        proof {
            reveal_strlit("false");
        }
        s
    }
}

/// The text of a table key.
pub fn key_to_string(k: &Key) -> (r: String)
    ensures
        r@ == key_text(*k),
{
    match k {
        Key::Text(s) => s.clone(),
        Key::Bool(b) => bool_to_string(*b),
    }
}

/// The text of a value; `label` stands for a nested table.
pub fn node_to_string(n: &Node, label: &str) -> (r: String)
    ensures
        r@ == node_text(*n, label@),
    decreases n,
{
    match n {
        Node::Null => String::new(),
        Node::Bool(b) => bool_to_string(*b),
        Node::Text(s) => s.clone(),
        Node::List(items) => {
            let mut out = String::from_str("[");
            proof {
                reveal_strlit("[");
                reveal_strlit(", ");
                reveal_strlit("]");
            }
            let mut i: usize = 0;
            while i < items.len()
                invariant
                    i <= items@.len(),
                    out@ == seq!['['] + join_texts(items@.take(i as int), label@),
                    forall|j: int| 0 <= j < items@.len() ==> decreases_to!(*n => #[trigger] items@[j]),
                decreases items@.len() - i,
            {
                let t = node_to_string(&items[i], label);
                let ghost pre = items@.take(i as int);
                let ghost post = items@.take(i + 1);
                assert(post.drop_last() =~= pre);
                assert(post.last() == items@[i as int]);
                let ghost before = out@;
                proof {
                    reveal_strlit(", ");
                }
                if i > 0 {
                    out.append(", ");
                }
                out.append(t.as_str());
                proof {
                    if i == 0 {
                        assert(post[0] == items@[0]);
                        assert(join_texts(post, label@) == t@);
                        assert(out@ =~= seq!['['] + join_texts(post, label@));
                    } else {
                        assert(join_texts(post, label@) == join_texts(pre, label@) + seq![',', ' '] + t@);
                        assert(out@ =~= seq!['['] + join_texts(post, label@));
                    }
                }
                i = i + 1;
            }
            assert(items@.take(items@.len() as int) =~= items@);
            out.append("]");
            out
        },
        Node::Table(_) => String::from_str(label),
        Node::Tagged(inner) => node_to_string(inner, label),
    }
}


/// Flattens `n` into `map` as [`flatten`] describes.
pub fn flatten_into(n: &Node, section: Option<&str>, map: &mut ConfigMap, label: &str)
    ensures
        final(map)@ == flatten(*n, opt_view(section), old(map)@, label@),
    decreases n,
{
    match n {
        Node::Table(es) => {
            let ghost m0 = map@;
            let mut i: usize = 0;
            while i < es.len()
                invariant
                    i <= es@.len(),
                    map@ == flatten_entries(es@.take(i as int), opt_view(section), m0, label@),
                    forall|j: int| 0 <= j < es@.len() ==> decreases_to!(*n => (#[trigger] es@[j]).1),
                decreases es@.len() - i,
            {
                let ghost pre = es@.take(i as int);
                let ghost post = es@.take(i + 1);
                assert(post.drop_last() =~= pre);
                assert(post.last() == es@[i as int]);
                let entry = &es[i];
                let key = key_to_string(&entry.0);
                match &entry.1 {
                    Node::Table(_) => {
                        flatten_into(&entry.1, Some(key.as_str()), map, label);
                    },
                    _ => {
                        let text = node_to_string(&entry.1, label);
                        match section {
                            Some(s) => map.insert_sectioned(String::from_str(s), key, text),
                            None => map.insert_flat(key, text),
                        }
                    },
                }
                i = i + 1;
            }
            assert(es@.take(es@.len() as int) =~= es@);
        },
        _ => {},
    }
}


/// The map that a parsed document flattens to; `label` is the text that a
/// table nested in a list stands as.
pub fn config_from_tree(doc: &Node, label: &str) -> (r: ConfigMap)
    ensures
        r@ == flatten(*doc, None, empty_model(), label@),
{
    let mut map = ConfigMap::new();
    flatten_into(doc, None, &mut map, label);
    map
}

} // verus!
