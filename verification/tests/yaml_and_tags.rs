use bmregression::config::{parse_regression_config, ConfigDefect, ConfigField};
use bmregression::tags::{check_regression_tags, tags_intersect};
use bmregression::yaml::{regression_tags, yaml_lookup, YamlValue};

fn strings(v: &[&str]) -> Vec<String> {
    v.iter().map(|s| s.to_string()).collect()
}

const FULL: &str = "regbase: basys3_blink\nsourcedata: working_dir/bondmachine.sv\ntargetdata: bondmachine.sv\nregcommand: make hdl\ntags: [default, quick]\n";

#[test]
fn tags_are_read_from_the_tags_list() {
    assert_eq!(regression_tags(FULL), Some(strings(&["default", "quick"])));
}

#[test]
fn missing_tags_default_to_default() {
    assert_eq!(regression_tags("regbase: a\n"), Some(strings(&["default"])));
}

#[test]
fn tags_that_are_no_list_default_to_default() {
    assert_eq!(regression_tags("tags: quick\n"), Some(strings(&["default"])));
}

#[test]
fn non_string_tags_are_passed_over() {
    assert_eq!(regression_tags("tags: [1, quick, true, {a: b}, slow]\n"), Some(strings(&["quick", "slow"])));
    assert_eq!(regression_tags("tags: []\n"), Some(Vec::new()));
}

#[test]
fn block_list_of_tags() {
    assert_eq!(regression_tags("tags:\n  - python\n  - \"default\"\n"), Some(strings(&["python", "default"])));
}

#[test]
fn unparsable_or_empty_configuration_has_no_tags() {
    assert_eq!(regression_tags("tags: [a, b\n"), None);
    assert_eq!(regression_tags(""), None);
}

#[test]
fn only_the_first_document_counts() {
    assert_eq!(regression_tags("tags: [a]\n---\ntags: [b]\n"), Some(strings(&["a"])));
}

#[test]
fn lookup_finds_string_keys_only() {
    let mut entries = Vec::new();
    entries.push((YamlValue::Integer(1), YamlValue::Str("one".to_string())));
    entries.push((YamlValue::Str("tags".to_string()), YamlValue::Null));
    entries.push((YamlValue::Str("name".to_string()), YamlValue::Str("x".to_string())));
    let node = YamlValue::Hash(entries);
    assert!(matches!(yaml_lookup(&node, "tags"), Some(YamlValue::Null)));
    assert!(matches!(yaml_lookup(&node, "name"), Some(YamlValue::Str(s)) if s == "x"));
    assert!(yaml_lookup(&node, "1").is_none());
    assert!(yaml_lookup(&node, "missing").is_none());
    assert!(yaml_lookup(&YamlValue::Str("tags".to_string()), "tags").is_none());
}

#[test]
fn requested_tags_select_by_intersection() {
    assert!(tags_intersect(&strings(&["quick", "smoke"]), &strings(&["default", "quick"])));
    assert!(!tags_intersect(&strings(&["smoke"]), &strings(&["default", "quick"])));
    assert!(!tags_intersect(&Vec::new(), &strings(&["default"])));
    assert!(!tags_intersect(&strings(&["default"]), &Vec::new()));
}

#[test]
fn intersection_is_symmetric() {
    let a = strings(&["x", "y"]);
    let b = strings(&["y", "z"]);
    assert_eq!(tags_intersect(&a, &b), tags_intersect(&b, &a));
}

#[test]
fn untagged_regression_is_selected_by_default_only() {
    let cfg = "regbase: a\n";
    assert!(check_regression_tags(cfg, &strings(&["default"])));
    assert!(check_regression_tags(cfg, &strings(&["quick", "default"])));
    assert!(!check_regression_tags(cfg, &strings(&["quick"])));
}

#[test]
fn tagged_regression_selection() {
    assert!(check_regression_tags(FULL, &strings(&["quick"])));
    assert!(!check_regression_tags(FULL, &strings(&["slow"])));
    assert!(!check_regression_tags("tags: [a\n", &strings(&["default"])));
    assert!(!check_regression_tags("", &strings(&["default"])));
}

#[test]
fn full_configuration_is_read() {
    let c = parse_regression_config(FULL).ok().unwrap();
    assert_eq!(c.regbase, "basys3_blink");
    assert_eq!(c.sourcedata, "working_dir/bondmachine.sv");
    assert_eq!(c.targetdata, "bondmachine.sv");
    assert_eq!(c.regcommand, "make hdl");
    assert_eq!(c.tags, strings(&["default", "quick"]));
}

#[test]
fn configuration_defects() {
    assert_eq!(parse_regression_config("regbase: [").err(), Some(ConfigDefect::Unparsable));
    assert_eq!(parse_regression_config("").err(), Some(ConfigDefect::NoDocument));
    assert_eq!(parse_regression_config("sourcedata: a\n").err(), Some(ConfigDefect::MissingField(ConfigField::RegBase)));
    assert_eq!(parse_regression_config("regbase: a\nsourcedata: 3\ntargetdata: c\n").err(), Some(ConfigDefect::MissingField(ConfigField::SourceData)));
    assert_eq!(parse_regression_config("regbase: a\nsourcedata: b\nregcommand: d\n").err(), Some(ConfigDefect::MissingField(ConfigField::TargetData)));
    assert_eq!(parse_regression_config("regbase: a\nsourcedata: b\ntargetdata: c\n").err(), Some(ConfigDefect::MissingField(ConfigField::RegCommand)));
}

#[test]
fn multiline_command_is_kept() {
    let text = "regbase: t\nsourcedata: o\ntargetdata: e\nregcommand: |\n  ./setup.sh &&\n  make all\n";
    let c = parse_regression_config(text).ok().unwrap();
    assert_eq!(c.regcommand, "./setup.sh &&\nmake all\n");
    assert_eq!(c.tags, strings(&["default"]));
}
