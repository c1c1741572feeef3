use bmregression::selection::select_regression;
use bmregression::text::{join_path, parse_tag_list, split_and_trim, str_contains, str_equal, trim_str};

fn strings(v: &[&str]) -> Vec<String> {
    v.iter().map(|s| s.to_string()).collect()
}

#[test]
fn default_tag_specification_names_default() {
    assert_eq!(parse_tag_list("default"), strings(&["default"]));
}

#[test]
fn tag_specification_is_split_and_trimmed() {
    assert_eq!(parse_tag_list("quick,smoke"), strings(&["quick", "smoke"]));
    assert_eq!(parse_tag_list(" quick , smoke "), strings(&["quick", "smoke"]));
    assert_eq!(parse_tag_list("a,,b"), strings(&["a", "", "b"]));
}

#[test]
fn empty_tag_specification_names_one_empty_tag() {
    assert_eq!(parse_tag_list(""), strings(&[""]));
    assert_eq!(parse_tag_list(","), strings(&["", ""]));
}

#[test]
fn tag_count_is_one_more_than_commas() {
    let spec = "x, y ,z,,";
    let commas = spec.chars().filter(|c| *c == ',').count();
    assert_eq!(parse_tag_list(spec).len(), commas + 1);
}

#[test]
fn trim_matches_std_trim() {
    for s in ["", "  ", " a ", "\t\nab c\r\n", "\u{3000}x\u{a0}", "\u{2028}y\u{85}", "ü ", " z\u{200b}"] {
        assert_eq!(trim_str(s), s.trim().to_string(), "input {:?}", s);
    }
}

#[test]
fn split_and_trim_matches_std() {
    for s in ["a;b", " a ; b ;", ";", "", "no separator"] {
        let expected: Vec<String> = s.split(';').map(|p| p.trim().to_string()).collect();
        assert_eq!(split_and_trim(s, ';'), expected);
    }
}

#[test]
fn contains_matches_std() {
    let cases = [("basys3_blink", "basys3"), ("basys3_blink", "blink"), ("abc", ""), ("", ""), ("", "a"), ("ab", "abc"), ("aab", "ab"), ("xyz", "xz")];
    for (s, p) in cases {
        assert_eq!(str_contains(s, p), s.contains(p), "{:?} {:?}", s, p);
    }
}

#[test]
fn string_equality() {
    assert!(str_equal(".git", ".git"));
    assert!(!str_equal(".git", ".gi"));
    assert!(!str_equal("abc", "abd"));
    assert!(str_equal("", ""));
}

#[test]
fn paths_are_joined_with_a_slash() {
    assert_eq!(join_path("/data", "basys3_blink"), "/data/basys3_blink");
    assert_eq!(join_path("", "x"), "/x");
}

#[test]
fn git_directory_is_never_a_regression() {
    assert!(!select_regression(".git", ""));
    assert!(!select_regression(".git", "git"));
}

#[test]
fn empty_pattern_selects_every_other_entry() {
    assert!(select_regression("basys3_blink", ""));
    assert!(select_regression(".gitignore", ""));
}

#[test]
fn pattern_selects_entries_containing_it() {
    assert!(select_regression("basys3_blink", "basys3"));
    assert!(select_regression("basys3_counter", "counter"));
    assert!(!select_regression("zedboard_blink", "basys3"));
}
