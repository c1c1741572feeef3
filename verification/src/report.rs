//! The lines that report how regressions went.

use vstd::prelude::*;
use crate::config::{field_key, field_name, ConfigDefect, RegressionConfig};
use crate::text::string_views;
use crate::session::{ErrorView, Outcome, OutcomeView, RegressionAction, RegressionError};

verus! {

/// The text of a configuration defect.
pub open spec fn defect_text(d: ConfigDefect) -> Seq<char> {
    match d {
        ConfigDefect::Unparsable => "parsing regression configuration file failed"@,
        ConfigDefect::NoDocument => "regression configuration file holds no document"@,
        ConfigDefect::MissingField(f) => "regression configuration has no "@ + field_key(f),
    }
}

/// The text of an error, as the program prints it.
pub open spec fn error_text(e: ErrorView) -> Seq<char> {
    match e {
        ErrorView::RegressionDirMissing => "getting regression directory failed"@,
        ErrorView::ConfigFileMissing => "getting regression configuration file failed"@,
        ErrorView::ExampleDirMissing => "getting regression base directory failed"@,
        ErrorView::CommandFailed => "executing regression command failed"@,
        ErrorView::ResultMissing => "getting regression result failed"@,
        ErrorView::TargetDataMissing => "getting regression target data directory failed"@,
        ErrorView::InvalidConfig(d) => defect_text(d),
        ErrorView::Io(m) => m,
    }
}

/// The first line that reports an outcome for the regression `name`; the
/// status word is coloured with ANSI escapes.
pub open spec fn status_text(name: Seq<char>, o: OutcomeView) -> Seq<char> {
    match o {
        OutcomeView::Described(_) => "Regression: \x1b[0;32m"@ + name + "\x1b[0m"@,
        OutcomeView::Passed => "Regression "@ + name + ": \x1b[0;32mpassed\x1b[0m"@,
        OutcomeView::Failed => "Regression "@ + name + ": \x1b[0;31mfailed\x1b[0m"@,
        OutcomeView::ResetDone => "Regression "@ + name + ": \x1b[0;33mreset\x1b[0m"@,
        OutcomeView::NoDifferences => "Regression "@ + name + ": \x1b[0;32mno differences\x1b[0m"@,
        OutcomeView::DifferencesFound(_) => "Regression "@ + name
            + ": \x1b[0;31mdifferences found\x1b[0m"@,
    }
}

/// The line that reports an error in the regression `name`.
pub open spec fn failure_text(action: RegressionAction, name: Seq<char>, e: ErrorView) -> Seq<
    char,
> {
    if action == RegressionAction::Describe {
        "Error describing regression "@ + name + ": "@ + error_text(e)
    } else {
        "Error executing regression "@ + name + ": "@ + error_text(e)
    }
}

/// The text of a configuration defect.
pub fn defect_message(d: ConfigDefect) -> (res: String)
    ensures
        res@ == defect_text(d),
{
    match d {
        ConfigDefect::Unparsable => String::from_str("parsing regression configuration file failed"),
        ConfigDefect::NoDocument => String::from_str(
            "regression configuration file holds no document",
        ),
        ConfigDefect::MissingField(f) => {
            let mut line = String::from_str("regression configuration has no ");
            line.append(field_name(f));
            line
        },
    }
}

/// The text of an error.
pub fn error_message(e: &RegressionError) -> (res: String)
    ensures
        res@ == error_text(e@),
{
    match e {
        RegressionError::RegressionDirMissing => String::from_str(
            "getting regression directory failed",
        ),
        RegressionError::ConfigFileMissing => String::from_str(
            "getting regression configuration file failed",
        ),
        RegressionError::ExampleDirMissing => String::from_str(
            "getting regression base directory failed",
        ),
        RegressionError::CommandFailed => String::from_str("executing regression command failed"),
        RegressionError::ResultMissing => String::from_str("getting regression result failed"),
        RegressionError::TargetDataMissing => String::from_str(
            "getting regression target data directory failed",
        ),
        RegressionError::InvalidConfig(d) => defect_message(*d),
        RegressionError::Io(m) => m.clone(),
    }
}

/// The first line that reports `outcome` for the regression `name`.
pub fn status_line(name: &str, outcome: &Outcome) -> (res: String)
    ensures
        res@ == status_text(name@, outcome@),
{
    match outcome {
        Outcome::Described(_) => {
            let mut line = String::from_str("Regression: \x1b[0;32m");
            line.append(name);
            line.append("\x1b[0m");
            line
        },
        _ => {
            let mut line = String::from_str("Regression ");
            line.append(name);
            match outcome {
                Outcome::Passed => line.append(": \x1b[0;32mpassed\x1b[0m"),
                Outcome::Failed => line.append(": \x1b[0;31mfailed\x1b[0m"),
                Outcome::ResetDone => line.append(": \x1b[0;33mreset\x1b[0m"),
                Outcome::NoDifferences => line.append(": \x1b[0;32mno differences\x1b[0m"),
                _ => line.append(": \x1b[0;31mdifferences found\x1b[0m"),
            }
            line
        },
    }
}

/// The line that reports an error in the regression `name`.
pub fn failure_line(action: RegressionAction, name: &str, e: &RegressionError) -> (res: String)
    ensures
        res@ == failure_text(action, name@, e@),
{
    let mut line = if action == RegressionAction::Describe {
        String::from_str("Error describing regression ")
    } else {
        String::from_str("Error executing regression ")
    };
    line.append(name);
    line.append(": ");
    let message = error_message(e);
    line.append(message.as_str());
    line
}


/// The text that `format!("{:?}", s)` gives for a string `s`: the string in
/// double quotes, with the characters that `Debug` escapes escaped.
pub uninterp spec fn str_debug(text: Seq<char>) -> Seq<char>;

/// Calls the `Debug` formatting of `str` through `format!("{:?}", ..)`.
/// The contract claims only that the result is a function of the text,
/// named `str_debug`; which characters are escaped, and how, is left
/// unsaid.
#[verifier::external_body]
fn debug_quoted(text: &str) -> (res: String)
    ensures
        res@ == str_debug(text@),
{
    format!("{:?}", text)
}

/// The items of a list as `Debug` prints them, separated by `, `.
pub open spec fn debug_items(items: Seq<Seq<char>>) -> Seq<char>
    decreases items.len(),
{
    if items.len() == 0 {
        Seq::empty()
    } else if items.len() == 1 {
        str_debug(items[0])
    } else {
        debug_items(items.drop_last()) + ", "@ + str_debug(items.last())
    }
}

/// A list of strings as `Debug` prints it: `["a", "b"]`.
pub open spec fn list_debug(items: Seq<Seq<char>>) -> Seq<char> {
    "["@ + debug_items(items) + "]"@
}

/// The lines that describe the regression `name` with the settings `c`.
pub open spec fn description_text(name: Seq<char>, c: crate::config::ConfigView) -> Seq<Seq<char>> {
    seq![
        status_text(name, OutcomeView::Described(c)),
        "  regbase: "@ + c.regbase,
        "  sourcedata: "@ + c.sourcedata,
        "  targetdata: "@ + c.targetdata,
        "  regcommand: "@ + c.regcommand,
        "  tags: "@ + list_debug(c.tags),
    ]
}

/// `tags` as `Debug` prints a list of strings.
pub fn tags_debug(tags: &Vec<String>) -> (res: String)
    ensures
        res@ == list_debug(string_views(tags@)),
{
    let mut items = String::from_str("");
    proof {
        reveal_strlit("");
    }
    let n: usize = tags.len();
    let mut i: usize = 0;
    while i < n
        invariant
            n == tags@.len(),
            i <= n,
            items@ == debug_items(string_views(tags@).take(i as int)),
        decreases n - i,
    {
        assert(string_views(tags@).take(i + 1).drop_last() =~= string_views(tags@).take(i as int));
        assert(string_views(tags@).take(i + 1).last() == tags@[i as int]@);
        let quoted = debug_quoted(tags[i].as_str());
        if i > 0 {
            items.append(", ");
        } else {
            assert(items@ =~= Seq::<char>::empty());
            assert(Seq::<char>::empty() + quoted@ =~= quoted@);
        }
        items.append(quoted.as_str());
        i = i + 1;
    }
    assert(string_views(tags@).take(n as int) =~= string_views(tags@));
    let mut res = String::from_str("[");
    res.append(items.as_str());
    res.append("]");
    res
}

/// The lines that describe the regression `name` with the settings
/// `config`: the coloured header, then one indented line for each setting.
pub fn description_lines(name: &str, config: &RegressionConfig) -> (lines: Vec<String>)
    ensures
        string_views(lines@) == description_text(name@, config@),
{
    let mut lines: Vec<String> = Vec::new();
    let mut header = String::from_str("Regression: \x1b[0;32m");
    header.append(name);
    header.append("\x1b[0m");
    lines.push(header);
    let mut line = String::from_str("  regbase: ");
    line.append(config.regbase.as_str());
    lines.push(line);
    let mut line = String::from_str("  sourcedata: ");
    line.append(config.sourcedata.as_str());
    lines.push(line);
    let mut line = String::from_str("  targetdata: ");
    line.append(config.targetdata.as_str());
    lines.push(line);
    let mut line = String::from_str("  regcommand: ");
    line.append(config.regcommand.as_str());
    lines.push(line);
    let mut line = String::from_str("  tags: ");
    let tags = tags_debug(&config.tags);
    line.append(tags.as_str());
    lines.push(line);
    assert(string_views(lines@) =~= description_text(name@, config@));
    lines
}

/// How a printed list grows: no tags print as `[]`, one tag `t` as `[`,
/// its quoted text and `]`, and one more tag at the end of a non-empty list
/// replaces the closing bracket by `, `, the new tag's quoted text and the
/// bracket again. So the tags line shows every tag, in order.
pub proof fn law_tag_list_shows_every_tag(items: Seq<Seq<char>>, t: Seq<char>)
    ensures
        list_debug(Seq::empty()) == "[]"@,
        list_debug(seq![t]) == "["@ + str_debug(t) + "]"@,
        items.len() > 0 ==> list_debug(items.push(t)) == list_debug(items).drop_last() + ", "@
            + str_debug(t) + "]"@,
{
    reveal_strlit("[]");
    reveal_strlit("[");
    reveal_strlit("]");
    assert(seq![t].len() == 1 && seq![t][0] == t);
    assert(("["@ + Seq::<char>::empty()) + "]"@ =~= "[]"@);
    if items.len() > 0 {
        let grown = items.push(t);
        assert(grown.drop_last() =~= items);
        assert(grown.last() == t);
        let d = debug_items(items);
        assert(("["@ + d + "]"@).drop_last() =~= "["@ + d);
        assert(("["@ + (d + ", "@ + str_debug(t))) + "]"@ =~= ("["@ + d) + ", "@ + str_debug(t)
            + "]"@);
    }
}

/// The printed list is exactly as long as its two brackets, the quoted
/// texts of all its tags and a `, ` between each two of them: no tag is
/// left out and none is added.
pub proof fn law_tag_list_length(items: Seq<Seq<char>>)
    ensures
        list_debug(items).len() == 2 + quoted_length(items) + if items.len() > 0 {
            2 * (items.len() - 1)
        } else {
            0
        },
{
    reveal_strlit("[");
    reveal_strlit("]");
    reveal_strlit(", ");
    lemma_debug_items_length(items);
}

/// The combined length of the quoted texts of `items`.
pub open spec fn quoted_length(items: Seq<Seq<char>>) -> int
    decreases items.len(),
{
    if items.len() == 0 {
        0
    } else {
        quoted_length(items.drop_last()) + str_debug(items.last()).len()
    }
}

proof fn lemma_debug_items_length(items: Seq<Seq<char>>)
    ensures
        debug_items(items).len() == quoted_length(items) + if items.len() > 0 {
            2 * (items.len() - 1)
        } else {
            0
        },
    decreases items.len(),
{
    reveal_strlit(", ");
    if items.len() > 1 {
        lemma_debug_items_length(items.drop_last());
        assert(", "@.len() == 2);
    } else if items.len() == 1 {
        assert(items.drop_last().len() == 0);
        assert(quoted_length(items.drop_last()) == 0);
        assert(items.last() == items[0]);
    }
}

} // verus!
