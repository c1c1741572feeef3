//! YAML documents as the library reads them: a plain mirror of
//! `yaml_rust::Yaml`, the parse that produces it, and the lookups that the
//! configuration logic makes in it.

use vstd::prelude::*;
use crate::text::{str_equal, string_views};

verus! {

#[verifier::external_type_specification]
#[verifier::external_body]
pub struct ExYaml(yaml_rust::Yaml);

/// One YAML node, variant for variant the node type of `yaml_rust`.
/// A mapping keeps its entries in the order of `yaml_rust`'s map: the order
/// in which the keys first appear, except that a key written again moves to
/// the place of its last occurrence with its last value; its keys are
/// distinct.
#[derive(Debug)]
pub enum YamlValue {
    /// A float, kept as its text.
    Real(String),
    Integer(i64),
    Str(String),
    Boolean(bool),
    Array(Vec<YamlValue>),
    Hash(Vec<(YamlValue, YamlValue)>),
    Alias(usize),
    Null,
    /// What a missing key or an invalid conversion yields.
    BadValue,
}

/// The documents that `yaml_rust` reads from a text, or `None` where it
/// reports a scan error.
pub uninterp spec fn yaml_documents(text: Seq<char>) -> Option<Seq<YamlValue>>;

/// Mirrors one `yaml_rust::Yaml` node into a [`YamlValue`], variant for
/// variant and field for field, recursing into lists and mappings (a
/// mapping's entries in their iteration order, which is insertion order).
/// It is the conversion half of [`load_yaml`], kept apart only because the
/// mirror is recursive; nothing is claimed of it on its own.
#[verifier::external_body]
fn mirror_node(node: &yaml_rust::Yaml) -> YamlValue {
    match node {
        yaml_rust::Yaml::Real(s) => YamlValue::Real(s.clone()),
        yaml_rust::Yaml::Integer(i) => YamlValue::Integer(*i),
        yaml_rust::Yaml::String(s) => YamlValue::Str(s.clone()),
        yaml_rust::Yaml::Boolean(b) => YamlValue::Boolean(*b),
        yaml_rust::Yaml::Array(a) => YamlValue::Array(a.iter().map(mirror_node).collect()),
        yaml_rust::Yaml::Hash(h) => YamlValue::Hash(
            h.iter().map(|(k, v)| (mirror_node(k), mirror_node(v))).collect(),
        ),
        yaml_rust::Yaml::Alias(n) => YamlValue::Alias(*n),
        yaml_rust::Yaml::Null => YamlValue::Null,
        yaml_rust::Yaml::BadValue => YamlValue::BadValue,
    }
}

/// Calls `yaml_rust::YamlLoader::load_from_str` and mirrors the documents it
/// returns. The contract claims only that the outcome is a function of the
/// text, named `yaml_documents`: the mirrored documents on success, `None`
/// on a scan error. What the documents of a given text are (the YAML
/// grammar and the scalar typing of the parser) is left unsaid, and so is
/// whether the parser returns on every input: block nesting is unbounded in
/// `yaml_rust`, and the parser, the mirror and the dropping of the parsed
/// tree each recurse once per level, so a document nested deeply enough
/// exhausts the stack.
#[verifier::external_body]
pub(crate) fn load_yaml(text: &str) -> (docs: Option<Vec<YamlValue>>)
    ensures
        document_seq(docs) == yaml_documents(text@),
{
    match yaml_rust::YamlLoader::load_from_str(text) {
        Ok(docs) => Some(docs.iter().map(mirror_node).collect()),
        Err(_) => None,
    }
}

/// The documents of an optional vector of documents, as a sequence.
pub open spec fn document_seq(docs: Option<Vec<YamlValue>>) -> Option<Seq<YamlValue>> {
    match docs {
        Some(d) => Some(d@),
        None => None,
    }
}

/// The value of key `key` in a mapping's entries: the value of the first
/// entry whose key is the string `key`, or `BadValue` where there is none.
pub open spec fn entries_get(entries: Seq<(YamlValue, YamlValue)>, key: Seq<char>) -> YamlValue
    decreases entries.len(),
{
    if entries.len() == 0 {
        YamlValue::BadValue
    } else if entries[0].0 matches YamlValue::Str(k) && k@ == key {
        entries[0].1
    } else {
        entries_get(entries.drop_first(), key)
    }
}

/// `node[key]` as `yaml_rust` indexes a node by a string: the entry's value
/// in a mapping, `BadValue` for a missing key or a node that is no mapping.
pub open spec fn yaml_index(node: YamlValue, key: Seq<char>) -> YamlValue {
    match node {
        YamlValue::Hash(entries) => entries_get(entries@, key),
        _ => YamlValue::BadValue,
    }
}

/// `node.as_str()`: the text of a string node.
pub open spec fn yaml_str(node: YamlValue) -> Option<Seq<char>> {
    match node {
        YamlValue::Str(s) => Some(s@),
        _ => None,
    }
}

/// The texts of the string nodes among `items`, in order; other nodes are
/// passed over.
pub open spec fn string_items(items: Seq<YamlValue>) -> Seq<Seq<char>>
    decreases items.len(),
{
    if items.len() == 0 {
        Seq::empty()
    } else {
        let rest = string_items(items.drop_last());
        match items.last() {
            YamlValue::Str(s) => rest.push(s@),
            _ => rest,
        }
    }
}

/// Looks `key` up in `node`, as `node[key]` does; `None` stands for
/// `BadValue`.
pub fn yaml_lookup<'a>(node: &'a YamlValue, key: &str) -> (res: Option<&'a YamlValue>)
    ensures
        match res {
            Some(v) => *v == yaml_index(*node, key@) && !(*v is BadValue),
            None => yaml_index(*node, key@) is BadValue,
        },
{
    match node {
        YamlValue::Hash(entries) => {
            let n: usize = entries.len();
            let mut i: usize = 0;
            assert(entries@.skip(0) =~= entries@);
            while i < n
                invariant
                    n == entries@.len(),
                    i <= n,
                    yaml_index(*node, key@) == entries_get(entries@, key@),
                    entries_get(entries@, key@) == entries_get(entries@.skip(i as int), key@),
                decreases n - i,
            {
                let ghost rest = entries@.skip(i as int);
                assert(rest.drop_first() =~= entries@.skip(i + 1));
                assert(rest[0] == entries@[i as int]);
                let (k, v) = &entries[i];
                match k {
                    YamlValue::Str(ks) => {
                        if str_equal(ks.as_str(), key) {
                            assert(rest[0].0 == *k && rest[0].1 == *v);
                            assert(entries_get(rest, key@) == *v);
                            if let YamlValue::BadValue = v {
                                return None;
                            }
                            return Some(v);
                        }
                    },
                    _ => {},
                }
                i = i + 1;
            }
            assert(entries@.skip(n as int).len() == 0);
            None
        },
        _ => None,
    }
}


/// The tags that a regression's configuration node gives it: the string
/// items of its `tags` list, or the single tag `default` where the node has
/// no `tags` list.
pub open spec fn config_tags(config: YamlValue) -> Seq<Seq<char>> {
    match yaml_index(config, "tags"@) {
        YamlValue::Array(items) => string_items(items@),
        _ => seq!["default"@],
    }
}

/// The tags of the first document, or `None` where the text did not parse
/// or holds no document.
pub open spec fn documents_tags(docs: Option<Seq<YamlValue>>) -> Option<Seq<Seq<char>>> {
    match docs {
        Some(d) => if d.len() > 0 {
            Some(config_tags(d[0]))
        } else {
            None
        },
        None => None,
    }
}

/// The views of an optional list of strings.
pub open spec fn optional_string_views(v: Option<Vec<String>>) -> Option<Seq<Seq<char>>> {
    match v {
        Some(t) => Some(string_views(t@)),
        None => None,
    }
}

/// The tags of a regression's configuration node; `["default"]` where it
/// has no `tags` list.
pub fn extract_tags_from_config(config: &YamlValue) -> (tags: Vec<String>)
    ensures
        string_views(tags@) == config_tags(*config),
{
    proof {
        reveal_strlit("tags");
        reveal_strlit("default");
    }
    let found = yaml_lookup(config, "tags");
    if let Some(YamlValue::Array(items)) = found {
        let n: usize = items.len();
        let mut tags: Vec<String> = Vec::new();
        let mut i: usize = 0;
        while i < n
            invariant
                n == items@.len(),
                i <= n,
                string_views(tags@) == string_items(items@.take(i as int)),
            decreases n - i,
        {
            assert(items@.take(i + 1).drop_last() =~= items@.take(i as int));
            if let YamlValue::Str(s) = &items[i] {
                tags.push(s.clone());
                assert(string_views(tags@) =~= string_views(tags@.drop_last()).push(s@));
            }
            i = i + 1;
        }
        assert(items@.take(n as int) =~= items@);
        tags
    } else {
        let mut tags: Vec<String> = Vec::new();
        tags.push(String::from_str("default"));
        assert(string_views(tags@) =~= seq!["default"@]);
        tags
    }
}

/// The tags of the first of `docs`, or `None` where there is no document.
pub fn tags_of_documents(docs: &Option<Vec<YamlValue>>) -> (tags: Option<Vec<String>>)
    ensures
        optional_string_views(tags) == documents_tags(document_seq(*docs)),
{
    match docs {
        Some(d) => if d.len() > 0 {
            Some(extract_tags_from_config(&d[0]))
        } else {
            None
        },
        None => None,
    }
}

/// The tags that the configuration text of a regression gives it, or `None`
/// where the text is no YAML or holds no document.
pub fn regression_tags(config_text: &str) -> (tags: Option<Vec<String>>)
    ensures
        optional_string_views(tags) == documents_tags(yaml_documents(config_text@)),
{
    let docs = load_yaml(config_text);
    tags_of_documents(&docs)
}

/// A mapping looked up by a string key gives the value of the first entry
/// whose key is that string, wherever it stands, and `BadValue` where no
/// entry has that key.
pub proof fn law_lookup_finds_the_entry(entries: Seq<(YamlValue, YamlValue)>, key: Seq<char>, i: int)
    requires
        0 <= i < entries.len(),
        entries[i].0 matches YamlValue::Str(k) && k@ == key,
        forall|j: int| 0 <= j < i ==> !(#[trigger] entries[j].0 matches YamlValue::Str(k) && k@ == key),
    ensures
        entries_get(entries, key) == entries[i].1,
    decreases i,
{
    if i > 0 {
        let rest = entries.drop_first();
        assert forall|j: int| 0 <= j < i - 1 implies !(#[trigger] rest[j].0 matches YamlValue::Str(
            k,
        ) && k@ == key) by {
            assert(rest[j] == entries[j + 1]);
        }
        assert(!(entries[0].0 matches YamlValue::Str(k) && k@ == key));
        law_lookup_finds_the_entry(rest, key, i - 1);
    }
}

/// Where no entry has the key, the lookup gives `BadValue`.
pub proof fn law_lookup_of_absent_key(entries: Seq<(YamlValue, YamlValue)>, key: Seq<char>)
    requires
        forall|j: int| 0 <= j < entries.len() ==> !(#[trigger] entries[j].0 matches YamlValue::Str(k) && k@ == key),
    ensures
        entries_get(entries, key) is BadValue,
    decreases entries.len(),
{
    if entries.len() > 0 {
        let rest = entries.drop_first();
        assert forall|j: int| 0 <= j < rest.len() implies !(#[trigger] rest[j].0 matches YamlValue::Str(
            k,
        ) && k@ == key) by {
            assert(rest[j] == entries[j + 1]);
        }
        assert(!(entries[0].0 matches YamlValue::Str(k) && k@ == key));
        law_lookup_of_absent_key(rest, key);
    }
}

/// The string items of a list are exactly its string nodes' texts, in
/// order: a string node added at the end adds its text at the end, any
/// other node adds nothing.
pub proof fn law_string_items_are_the_strings(items: Seq<YamlValue>, v: YamlValue)
    ensures
        forall|t: Seq<char>|
            string_items(items).contains(t) <==> exists|i: int|
                0 <= i < items.len() && (#[trigger] items[i]) is Str && items[i]->Str_0@ == t,
        v matches YamlValue::Str(s) ==> string_items(items.push(v)) == string_items(items).push(s@),
        !(v is Str) ==> string_items(items.push(v)) == string_items(items),
    decreases items.len(),
{
    let grown = items.push(v);
    assert(grown.drop_last() =~= items);
    if items.len() > 0 {
        law_string_items_are_the_strings(items.drop_last(), v);
        let prev = items.drop_last();
        assert forall|t: Seq<char>| string_items(items).contains(t) <==> exists|i: int|
            0 <= i < items.len() && (#[trigger] items[i]) is Str && items[i]->Str_0@ == t by {
            if string_items(items).contains(t) {
                if string_items(prev).contains(t) {
                    let i = choose|i: int|
                        0 <= i < prev.len() && (#[trigger] prev[i]) is Str && prev[i]->Str_0@ == t;
                    assert(items[i] == prev[i]);
                } else {
                    let k = items.len() - 1;
                    assert(items[k] == items.last());
                    let r = string_items(prev);
                    if let YamlValue::Str(s) = items.last() {
                        let j = choose|j: int| 0 <= j < r.push(s@).len() && r.push(s@)[j] == t;
                        assert(j == r.len());
                    }
                }
            }
            if exists|i: int| 0 <= i < items.len() && (#[trigger] items[i]) is Str && items[i]->Str_0@ == t {
                let i = choose|i: int| 0 <= i < items.len() && (#[trigger] items[i]) is Str && items[i]->Str_0@ == t;
                if i < items.len() - 1 {
                    assert(prev[i] == items[i]);
                    assert(string_items(prev).contains(t));
                    let j = choose|j: int| 0 <= j < string_items(prev).len() && string_items(prev)[j] == t;
                    match items.last() {
                        YamlValue::Str(s) => assert(string_items(items)[j] == t),
                        _ => {},
                    }
                } else {
                    assert(items.last() == items[i]);
                    let r = string_items(prev);
                    assert(r.push(t)[r.len() as int] == t);
                }
            }
        }
    }
}

} // verus!
