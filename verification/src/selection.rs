//! Which entries of the regression data directory a request names.

use vstd::prelude::*;
use crate::text::{contains_infix, str_contains, str_equal};

verus! {

/// Whether the directory entry `entry` is a regression that the name
/// pattern `pattern` selects: every entry but `.git` whose name contains the
/// pattern.
pub open spec fn entry_selected(entry: Seq<char>, pattern: Seq<char>) -> bool {
    entry != ".git"@ && contains_infix(entry, pattern)
}

/// Whether the directory entry `entry` is a regression that `pattern` selects.
pub fn select_regression(entry: &str, pattern: &str) -> (res: bool)
    ensures
        res == entry_selected(entry@, pattern@),
{
    if str_equal(entry, ".git") {
        return false;
    }
    str_contains(entry, pattern)
}

/// The repository's own `.git` directory is never taken for a regression.
pub proof fn law_git_dir_never_selected(pattern: Seq<char>)
    ensures
        !entry_selected(".git"@, pattern),
{
}

/// The empty pattern selects every entry but `.git`.
pub proof fn law_empty_pattern_selects_all(entry: Seq<char>)
    requires
        entry != ".git"@,
    ensures
        entry_selected(entry, Seq::empty()),
{
    let p = Seq::<char>::empty();
    assert(entry.subrange(0int, 0int + p.len()) =~= p);
}

/// An entry whose name is the pattern itself is selected, unless it is
/// `.git`.
pub proof fn law_exact_name_selected(entry: Seq<char>)
    requires
        entry != ".git"@,
    ensures
        entry_selected(entry, entry),
{
    assert(entry.subrange(0int, 0int + entry.len()) =~= entry);
}

/// A longer pattern selects no more than a shorter one that it contains:
/// an entry selected by `p + q` is selected by `p`.
pub proof fn law_longer_pattern_narrows(entry: Seq<char>, p: Seq<char>, q: Seq<char>)
    requires
        entry_selected(entry, p + q),
    ensures
        entry_selected(entry, p),
{
    let k = choose|k: int|
        0 <= k && k + (p + q).len() <= entry.len() && #[trigger] entry.subrange(
            k,
            k + (p + q).len(),
        ) == p + q;
    assert(entry.subrange(k, k + p.len()) =~= (p + q).subrange(0, p.len() as int));
    assert((p + q).subrange(0, p.len() as int) =~= p);
}

/// The pattern may stand anywhere in a name: an entry other than `.git`
/// that holds the pattern between any text before and after it is
/// selected, and an entry that is selected holds the pattern somewhere.
pub proof fn law_pattern_matches_anywhere(before: Seq<char>, pattern: Seq<char>, after: Seq<char>)
    requires
        before + pattern + after != ".git"@,
    ensures
        entry_selected(before + pattern + after, pattern),
{
    let e = before + pattern + after;
    let k = before.len() as int;
    assert(e.subrange(k, k + pattern.len()) =~= pattern);
}

/// An entry that is selected holds the pattern somewhere, and is no `.git`.
pub proof fn law_selected_entries_hold_the_pattern(entry: Seq<char>, pattern: Seq<char>)
    requires
        entry_selected(entry, pattern),
    ensures
        entry != ".git"@,
        exists|before: Seq<char>, after: Seq<char>| entry == before + pattern + after,
{
    let k = choose|k: int|
        0 <= k && k + pattern.len() <= entry.len() && #[trigger] entry.subrange(k, k + pattern.len())
            == pattern;
    let before = entry.subrange(0, k);
    let after = entry.subrange(k + pattern.len(), entry.len() as int);
    assert(entry =~= before + pattern + after);
}

} // verus!
