use bmregression::config::{ConfigDefect, ConfigField};
use bmregression::report::{error_message, failure_line, status_line};
use bmregression::session::{
    config_file_path, Event, Outcome, RegressionAction, RegressionError, RegressionJob, Request,
    Session, Step, Verdict,
};

const CONFIG: &str = "regbase: blink\nsourcedata: out/result.sv\ntargetdata: expected.sv\nregcommand: make hdl\ntags: [default]\n";

fn job(action: RegressionAction) -> RegressionJob {
    RegressionJob {
        source: "/ex".to_string(),
        target: "/data".to_string(),
        action,
        name: "reg1".to_string(),
    }
}

fn advance(s: Session, e: Event) -> Session {
    match s.step(e) {
        Step::Next(s) => s,
        Step::Concluded(_) => panic!("concluded too early"),
    }
}

fn conclude(s: Session, e: Event) -> Verdict {
    match s.step(e) {
        Step::Next(_) => panic!("did not conclude"),
        Step::Concluded(v) => v,
    }
}

fn path_of(r: &Request) -> String {
    match r {
        Request::CheckPath(p) | Request::ReadFile(p) => p.clone(),
        _ => panic!("not a path request"),
    }
}

/// Drives a session for `action` through the checks up to the expected output.
fn up_to_expected(action: RegressionAction, output: &str) -> Session {
    let s = Session::start(job(action));
    assert!(matches!(s.pending(), Request::CheckPath(p) if p == "/data/reg1"));
    let s = advance(s, Event::Checked(true));
    assert!(matches!(s.pending(), Request::CheckPath(p) if p == "/data/reg1/config.yaml"));
    let s = advance(s, Event::Checked(true));
    assert!(matches!(s.pending(), Request::ReadFile(p) if p == "/data/reg1/config.yaml"));
    let s = advance(s, Event::Read(Ok(CONFIG.to_string())));
    assert_eq!(path_of(&s.pending()), "/ex/blink");
    let s = advance(s, Event::Checked(true));
    match s.pending() {
        Request::RunShell { dir, command } => {
            assert_eq!(dir, "/ex/blink");
            assert_eq!(command, "make hdl");
        }
        _ => panic!("expected the command"),
    }
    let s = advance(s, Event::Ran(Ok(true)));
    assert!(matches!(s.pending(), Request::CheckPath(p) if p == "/ex/blink/out/result.sv"));
    let s = advance(s, Event::Checked(true));
    assert!(matches!(s.pending(), Request::ReadFile(p) if p == "/ex/blink/out/result.sv"));
    let s = advance(s, Event::Read(Ok(output.to_string())));
    assert!(matches!(s.pending(), Request::CheckPath(p) if p == "/data/reg1/expected.sv"));
    let s = advance(s, Event::Checked(true));
    assert!(matches!(s.pending(), Request::ReadFile(p) if p == "/data/reg1/expected.sv"));
    s
}

#[test]
fn run_passes_when_outputs_agree() {
    let s = up_to_expected(RegressionAction::Run, "module x;\n");
    let v = conclude(s, Event::Read(Ok("module x;\n".to_string())));
    assert!(matches!(v, Verdict::Finished(Outcome::Passed)));
}

#[test]
fn run_fails_when_outputs_differ() {
    let s = up_to_expected(RegressionAction::Run, "module x;\n");
    let v = conclude(s, Event::Read(Ok("module y;\n".to_string())));
    assert!(matches!(v, Verdict::Finished(Outcome::Failed)));
}

#[test]
fn reset_copies_output_over_expected() {
    let s = up_to_expected(RegressionAction::Reset, "new");
    let s = advance(s, Event::Read(Ok("old".to_string())));
    match s.pending() {
        Request::CopyFile { from, to } => {
            assert_eq!(from, "/ex/blink/out/result.sv");
            assert_eq!(to, "/data/reg1/expected.sv");
        }
        _ => panic!("expected a copy"),
    }
    let v = conclude(s, Event::Copied(Ok(())));
    assert!(matches!(v, Verdict::Finished(Outcome::ResetDone)));
}

#[test]
fn reset_reports_a_failed_copy() {
    let s = up_to_expected(RegressionAction::Reset, "new");
    let s = advance(s, Event::Read(Ok("old".to_string())));
    let v = conclude(s, Event::Copied(Err("Permission denied (os error 13)".to_string())));
    assert!(matches!(v, Verdict::Failed(RegressionError::Io(m)) if m == "Permission denied (os error 13)"));
}

#[test]
fn diff_compares_the_two_files() {
    let s = up_to_expected(RegressionAction::Diff, "a");
    let s = advance(s, Event::Read(Ok("b".to_string())));
    match s.pending() {
        Request::RunDiff { left, right } => {
            assert_eq!(left, "/ex/blink/out/result.sv");
            assert_eq!(right, "/data/reg1/expected.sv");
        }
        _ => panic!("expected a comparison"),
    }
    let v = conclude(s, Event::Diffed(Ok((false, "a | b\n".to_string()))));
    assert!(matches!(v, Verdict::Finished(Outcome::DifferencesFound(o)) if o == "a | b\n"));
}

#[test]
fn diff_without_differences() {
    let s = up_to_expected(RegressionAction::Diff, "a");
    let s = advance(s, Event::Read(Ok("a".to_string())));
    let v = conclude(s, Event::Diffed(Ok((true, String::new()))));
    assert!(matches!(v, Verdict::Finished(Outcome::NoDifferences)));
}

#[test]
fn describe_reads_only_the_configuration() {
    let s = Session::start(job(RegressionAction::Describe));
    let s = advance(s, Event::Checked(true));
    let s = advance(s, Event::Checked(true));
    match conclude(s, Event::Read(Ok(CONFIG.to_string()))) {
        Verdict::Finished(Outcome::Described(c)) => {
            assert_eq!(c.regbase, "blink");
            assert_eq!(c.sourcedata, "out/result.sv");
            assert_eq!(c.targetdata, "expected.sv");
            assert_eq!(c.regcommand, "make hdl");
            assert_eq!(c.tags, vec!["default".to_string()]);
        }
        _ => panic!("expected a description"),
    }
}

#[test]
fn missing_paths_end_with_their_errors() {
    let v = conclude(Session::start(job(RegressionAction::Run)), Event::Checked(false));
    assert!(matches!(v, Verdict::Failed(RegressionError::RegressionDirMissing)));
    let s = advance(Session::start(job(RegressionAction::Run)), Event::Checked(true));
    assert!(matches!(conclude(s, Event::Checked(false)), Verdict::Failed(RegressionError::ConfigFileMissing)));
    let s = advance(Session::start(job(RegressionAction::Run)), Event::Checked(true));
    let s = advance(s, Event::Checked(true));
    let s = advance(s, Event::Read(Ok(CONFIG.to_string())));
    assert!(matches!(conclude(s, Event::Checked(false)), Verdict::Failed(RegressionError::ExampleDirMissing)));
}

#[test]
fn failing_command_ends_the_regression() {
    let s = advance(Session::start(job(RegressionAction::Run)), Event::Checked(true));
    let s = advance(s, Event::Checked(true));
    let s = advance(s, Event::Read(Ok(CONFIG.to_string())));
    let s = advance(s, Event::Checked(true));
    assert!(matches!(conclude(s, Event::Ran(Ok(false))), Verdict::Failed(RegressionError::CommandFailed)));
}

#[test]
fn missing_output_and_expected_output() {
    let s = advance(Session::start(job(RegressionAction::Run)), Event::Checked(true));
    let s = advance(s, Event::Checked(true));
    let s = advance(s, Event::Read(Ok(CONFIG.to_string())));
    let s = advance(s, Event::Checked(true));
    let s = advance(s, Event::Ran(Ok(true)));
    assert!(matches!(conclude(s, Event::Checked(false)), Verdict::Failed(RegressionError::ResultMissing)));
    let s = up_to_expected(RegressionAction::Run, "x");
    let _ = s;
}

#[test]
fn unusable_configuration_is_an_error() {
    let s = advance(Session::start(job(RegressionAction::Run)), Event::Checked(true));
    let s = advance(s, Event::Checked(true));
    let v = conclude(s, Event::Read(Ok("regbase: a\n".to_string())));
    assert!(matches!(v, Verdict::Failed(RegressionError::InvalidConfig(ConfigDefect::MissingField(ConfigField::SourceData)))));
    for (text, defect) in [("a: [", ConfigDefect::Unparsable), ("", ConfigDefect::NoDocument)] {
        let s = advance(Session::start(job(RegressionAction::Describe)), Event::Checked(true));
        let s = advance(s, Event::Checked(true));
        match conclude(s, Event::Read(Ok(text.to_string()))) {
            Verdict::Failed(RegressionError::InvalidConfig(d)) => assert_eq!(d, defect),
            _ => panic!("expected an invalid configuration"),
        }
    }
}

#[test]
fn invalid_configuration_messages() {
    assert_eq!(
        failure_line(RegressionAction::Run, "r", &RegressionError::InvalidConfig(ConfigDefect::MissingField(ConfigField::RegCommand))),
        "Error executing regression r: regression configuration has no regcommand"
    );
    assert_eq!(
        error_message(&RegressionError::InvalidConfig(ConfigDefect::Unparsable)),
        "parsing regression configuration file failed"
    );
    assert_eq!(
        error_message(&RegressionError::InvalidConfig(ConfigDefect::NoDocument)),
        "regression configuration file holds no document"
    );
}

#[test]
fn wrong_answer_is_ignored() {
    let s = Session::start(job(RegressionAction::Run));
    let s = advance(s, Event::Ran(Ok(true)));
    assert!(matches!(s.pending(), Request::CheckPath(p) if p == "/data/reg1"));
}

#[test]
fn configuration_path() {
    assert_eq!(config_file_path("/data", "reg1"), "/data/reg1/config.yaml");
}

#[test]
fn status_lines() {
    assert_eq!(status_line("r", &Outcome::Passed), "Regression r: \x1b[0;32mpassed\x1b[0m");
    assert_eq!(status_line("r", &Outcome::Failed), "Regression r: \x1b[0;31mfailed\x1b[0m");
    assert_eq!(status_line("r", &Outcome::ResetDone), "Regression r: \x1b[0;33mreset\x1b[0m");
    assert_eq!(status_line("r", &Outcome::NoDifferences), "Regression r: \x1b[0;32mno differences\x1b[0m");
    assert_eq!(status_line("r", &Outcome::DifferencesFound(String::new())), "Regression r: \x1b[0;31mdifferences found\x1b[0m");
}

#[test]
fn error_lines() {
    assert_eq!(error_message(&RegressionError::CommandFailed), "executing regression command failed");
    assert_eq!(
        failure_line(RegressionAction::Run, "r", &RegressionError::TargetDataMissing),
        "Error executing regression r: getting regression target data directory failed"
    );
    assert_eq!(
        failure_line(RegressionAction::Describe, "r", &RegressionError::Io("boom".to_string())),
        "Error describing regression r: boom"
    );
}
