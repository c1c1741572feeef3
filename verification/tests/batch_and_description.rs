use bmregression::batch::Batch;
use bmregression::config::RegressionConfig;
use bmregression::report::{description_lines, tags_debug};
use bmregression::session::{Outcome, RegressionAction, RegressionError, Verdict};

fn strings(v: &[&str]) -> Vec<String> {
    v.iter().map(|s| s.to_string()).collect()
}

fn config() -> RegressionConfig {
    RegressionConfig {
        regbase: "basys3_blink".to_string(),
        sourcedata: "working_dir/bondmachine.sv".to_string(),
        targetdata: "bondmachine.sv".to_string(),
        regcommand: "make hdl".to_string(),
        tags: strings(&["default", "quick"]),
    }
}

#[test]
fn tags_are_printed_as_a_debug_list() {
    let tags = strings(&["default", "quick"]);
    assert_eq!(tags_debug(&tags), format!("{:?}", tags));
    assert_eq!(tags_debug(&Vec::new()), "[]");
    let odd = strings(&["a\"b", "tab\there", "ü"]);
    assert_eq!(tags_debug(&odd), format!("{:?}", odd));
}

#[test]
fn description_lists_the_settings() {
    let lines = description_lines("basys3_blink", &config());
    assert_eq!(
        lines,
        strings(&[
            "Regression: \x1b[0;32mbasys3_blink\x1b[0m",
            "  regbase: basys3_blink",
            "  sourcedata: working_dir/bondmachine.sv",
            "  targetdata: bondmachine.sv",
            "  regcommand: make hdl",
            "  tags: [\"default\", \"quick\"]",
        ])
    );
}

#[test]
fn batch_succeeds_when_every_regression_ends_well() {
    let mut b = Batch::new(RegressionAction::Run);
    assert_eq!(b.record("a", Verdict::Finished(Outcome::Passed)), strings(&["Regression a: \x1b[0;32mpassed\x1b[0m"]));
    assert_eq!(b.record("b", Verdict::Finished(Outcome::Failed)), strings(&["Regression b: \x1b[0;31mfailed\x1b[0m"]));
    assert!(b.finish().is_ok());
}

#[test]
fn batch_reports_the_first_failure_and_goes_on() {
    let mut b = Batch::new(RegressionAction::Run);
    assert_eq!(
        b.record("a", Verdict::Failed(RegressionError::CommandFailed)),
        strings(&["Error executing regression a: executing regression command failed"])
    );
    assert_eq!(b.record("b", Verdict::Finished(Outcome::Passed)).len(), 1);
    b.record("c", Verdict::Failed(RegressionError::ResultMissing));
    assert!(matches!(b.finish(), Err(RegressionError::CommandFailed)));
}

#[test]
fn batch_lines_for_diff_and_describe() {
    let mut b = Batch::new(RegressionAction::Diff);
    assert_eq!(
        b.record("d", Verdict::Finished(Outcome::DifferencesFound("x | y\n".to_string()))),
        strings(&["Regression d: \x1b[0;31mdifferences found\x1b[0m", "x | y\n"])
    );
    let mut b = Batch::new(RegressionAction::Describe);
    assert_eq!(b.record("basys3_blink", Verdict::Finished(Outcome::Described(config()))).len(), 6);
    assert_eq!(
        b.record("e", Verdict::Failed(RegressionError::RegressionDirMissing)),
        strings(&["Error describing regression e: getting regression directory failed"])
    );
    assert!(b.finish().is_err());
}
