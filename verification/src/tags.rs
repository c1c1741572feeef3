//! Selecting regressions by tag.

use vstd::prelude::*;
use crate::text::string_views;
use crate::yaml::{
    config_tags, documents_tags, regression_tags, yaml_documents, yaml_index, YamlValue,
};

verus! {

/// Whether some tag occurs in both lists.
pub open spec fn shares_tag(requested: Seq<Seq<char>>, tags: Seq<Seq<char>>) -> bool {
    exists|t: Seq<char>| requested.contains(t) && tags.contains(t)
}

/// Whether a regression whose configuration text is `config_text` is
/// selected by the requested tags: its configuration parses, holds a
/// document, and one of its tags is requested.
pub open spec fn config_selected(config_text: Seq<char>, requested: Seq<Seq<char>>) -> bool {
    match documents_tags(yaml_documents(config_text)) {
        Some(tags) => shares_tag(requested, tags),
        None => false,
    }
}

/// Whether `tags` holds a string equal to `tag`.
pub fn tag_in(tags: &Vec<String>, tag: &String) -> (res: bool)
    ensures
        res == string_views(tags@).contains(tag@),
{
    let n: usize = tags.len();
    let mut i: usize = 0;
    while i < n
        invariant
            n == tags@.len(),
            i <= n,
            forall|j: int| 0 <= j < i ==> tags@[j]@ != tag@,
        decreases n - i,
    {
        if tags[i] == *tag {
            assert(string_views(tags@)[i as int] == tag@);
            return true;
        }
        i = i + 1;
    }
    proof {
        if string_views(tags@).contains(tag@) {
            let j = choose|j: int| 0 <= j < n && string_views(tags@)[j] == tag@;
            assert(tags@[j]@ == tag@);
        }
    }
    false
}

/// Whether one of the requested tags is among the regression's tags.
pub fn tags_intersect(requested: &Vec<String>, tags: &Vec<String>) -> (res: bool)
    ensures
        res == shares_tag(string_views(requested@), string_views(tags@)),
{
    let n: usize = requested.len();
    let mut i: usize = 0;
    while i < n
        invariant
            n == requested@.len(),
            i <= n,
            forall|j: int| 0 <= j < i ==> !string_views(tags@).contains(#[trigger] requested@[j]@),
        decreases n - i,
    {
        if tag_in(tags, &requested[i]) {
            assert(string_views(requested@)[i as int] == requested@[i as int]@);
            return true;
        }
        i = i + 1;
    }
    proof {
        if shares_tag(string_views(requested@), string_views(tags@)) {
            let t = choose|t: Seq<char>|
                string_views(requested@).contains(t) && string_views(tags@).contains(t);
            let j = choose|j: int| 0 <= j < n && string_views(requested@)[j] == t;
            assert(requested@[j]@ == t);
        }
    }
    false
}

/// Whether the regression whose `config.yaml` holds `config_text` carries one
/// of the requested tags. A text that is no YAML, or holds no document,
/// selects nothing.
pub fn check_regression_tags(config_text: &str, requested: &Vec<String>) -> (res: bool)
    ensures
        res == config_selected(config_text@, string_views(requested@)),
{
    match regression_tags(config_text) {
        Some(tags) => tags_intersect(requested, &tags),
        None => false,
    }
}

/// A regression is selected by a list of tags exactly when the list shares a
/// tag with the regression; which list is which does not matter.
pub proof fn law_shared_tag_is_symmetric(a: Seq<Seq<char>>, b: Seq<Seq<char>>)
    ensures
        shares_tag(a, b) == shares_tag(b, a),
{
}

/// A regression whose configuration has no `tags` list counts as tagged
/// `default`: it is selected exactly when `default` is requested.
pub proof fn law_untagged_regression_is_default(config: YamlValue, requested: Seq<Seq<char>>)
    requires
        !(yaml_index(config, "tags"@) is Array),
    ensures
        shares_tag(requested, config_tags(config)) == requested.contains("default"@),
{
    let tags = config_tags(config);
    assert(tags == seq!["default"@]);
    if requested.contains("default"@) {
        assert(tags[0] == "default"@);
        assert(tags.contains("default"@));
    }
}

/// Requesting no tag selects no regression.
pub proof fn law_no_requested_tag_selects_nothing(config_text: Seq<char>)
    ensures
        !config_selected(config_text, Seq::empty()),
{
}

/// Two lists share a tag exactly when some position of the one and some
/// position of the other hold the same tag, wherever they stand.
pub proof fn law_shared_tag_at_any_positions(a: Seq<Seq<char>>, b: Seq<Seq<char>>)
    ensures
        shares_tag(a, b) <==> exists|i: int, j: int|
            0 <= i < a.len() && 0 <= j < b.len() && #[trigger] a[i] == #[trigger] b[j],
{
    if shares_tag(a, b) {
        let t = choose|t: Seq<char>| a.contains(t) && b.contains(t);
        let i = choose|i: int| 0 <= i < a.len() && a[i] == t;
        let j = choose|j: int| 0 <= j < b.len() && b[j] == t;
        assert(a[i] == b[j]);
    }
    if exists|i: int, j: int| 0 <= i < a.len() && 0 <= j < b.len() && #[trigger] a[i] == #[trigger] b[j] {
        let (i, j) = choose|i: int, j: int|
            0 <= i < a.len() && 0 <= j < b.len() && #[trigger] a[i] == #[trigger] b[j];
        assert(a.contains(a[i]) && b.contains(a[i]));
    }
}

/// A regression whose configuration gives it tags is selected exactly when
/// one of the requested tags, at any position, equals one of its tags, at
/// any position; a configuration that gives it no tags selects it for no
/// request.
pub proof fn law_selection_by_any_matching_tag(config_text: Seq<char>, requested: Seq<Seq<char>>)
    ensures
        documents_tags(yaml_documents(config_text)) matches Some(tags) ==> (config_selected(
            config_text,
            requested,
        ) <==> exists|i: int, j: int|
            0 <= i < requested.len() && 0 <= j < tags.len() && #[trigger] requested[i]
                == #[trigger] tags[j]),
        documents_tags(yaml_documents(config_text)) is None ==> !config_selected(
            config_text,
            requested,
        ),
{
    if let Some(tags) = documents_tags(yaml_documents(config_text)) {
        law_shared_tag_at_any_positions(requested, tags);
    }
}

/// Selection depends on the requested tags as a set: requesting more tags
/// never drops a regression, and requesting the same tags in another order
/// or repeated selects the same regressions.
pub proof fn law_selection_depends_on_requested_set(
    config_text: Seq<char>,
    requested: Seq<Seq<char>>,
    more: Seq<Seq<char>>,
)
    ensures
        (forall|t: Seq<char>| requested.contains(t) ==> more.contains(t)) ==> (config_selected(
            config_text,
            requested,
        ) ==> config_selected(config_text, more)),
        requested.to_set() == more.to_set() ==> config_selected(config_text, requested)
            == config_selected(config_text, more),
{
    if requested.to_set() == more.to_set() {
        assert forall|t: Seq<char>| requested.contains(t) <==> more.contains(t) by {
            assert(requested.to_set().contains(t) == requested.contains(t));
            assert(more.to_set().contains(t) == more.contains(t));
        }
    }
}

} // verus!
