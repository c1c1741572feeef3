//! The course of one regression, as a machine that the caller drives: it
//! names the next piece of file or process work, the caller performs it and
//! hands back what came of it, and the machine decides what follows, until
//! it reaches a verdict.

use vstd::prelude::*;
use crate::config::{
    config_of_text, parse_regression_config, ConfigDefect, ConfigView,
    RegressionConfig,
};
use crate::text::join_path;

verus! {

/// What to do with a regression.
#[derive(Clone, Copy, Debug, PartialEq, Eq, Structural)]
pub enum RegressionAction {
    /// Show its settings.
    Describe,
    /// Run its command and compare the output with the expected output.
    Run,
    /// Run its command and make the output the expected output.
    Reset,
    /// Run its command and show how the output differs from the expected one.
    Diff,
}

/// One regression to work on.
pub struct RegressionJob {
    /// The directory of the examples.
    pub source: String,
    /// The directory of the regression data.
    pub target: String,
    pub action: RegressionAction,
    /// The regression's directory name inside `target`.
    pub name: String,
}

pub struct JobView {
    pub source: Seq<char>,
    pub target: Seq<char>,
    pub action: RegressionAction,
    pub name: Seq<char>,
}

impl View for RegressionJob {
    type V = JobView;

    open spec fn view(&self) -> JobView {
        JobView {
            source: self.source@,
            target: self.target@,
            action: self.action,
            name: self.name@,
        }
    }
}

/// `dir/name`.
pub open spec fn path(dir: Seq<char>, name: Seq<char>) -> Seq<char> {
    dir + seq!['/'] + name
}

/// `target/name`: the regression's data directory.
pub open spec fn regression_dir(job: JobView) -> Seq<char> {
    path(job.target, job.name)
}

/// `target/name/config.yaml`.
pub open spec fn config_path(job: JobView) -> Seq<char> {
    path(regression_dir(job), "config.yaml"@)
}

/// `source/regbase`: the example directory that the command runs in.
pub open spec fn example_dir(job: JobView, config: ConfigView) -> Seq<char> {
    path(job.source, config.regbase)
}

/// `source/regbase/sourcedata`: the output that the command writes.
pub open spec fn result_path(job: JobView, config: ConfigView) -> Seq<char> {
    path(example_dir(job, config), config.sourcedata)
}

/// `target/name/targetdata`: the expected output.
pub open spec fn expected_path(job: JobView, config: ConfigView) -> Seq<char> {
    path(regression_dir(job), config.targetdata)
}

/// A piece of file or process work that the machine asks for.
pub enum Request {
    /// Whether something exists at this path.
    CheckPath(String),
    /// The text of this file.
    ReadFile(String),
    /// Run `command` with `sh -c` in the directory `dir`.
    RunShell { dir: String, command: String },
    /// Copy the file `from` over the file `to`.
    CopyFile { from: String, to: String },
    /// Compare the two files side by side, leaving out the common lines.
    RunDiff { left: String, right: String },
}

pub enum RequestView {
    CheckPath(Seq<char>),
    ReadFile(Seq<char>),
    RunShell { dir: Seq<char>, command: Seq<char> },
    CopyFile { from: Seq<char>, to: Seq<char> },
    RunDiff { left: Seq<char>, right: Seq<char> },
}

impl View for Request {
    type V = RequestView;

    open spec fn view(&self) -> RequestView {
        match self {
            Request::CheckPath(p) => RequestView::CheckPath(p@),
            Request::ReadFile(p) => RequestView::ReadFile(p@),
            Request::RunShell { dir, command } => RequestView::RunShell {
                dir: dir@,
                command: command@,
            },
            Request::CopyFile { from, to } => RequestView::CopyFile { from: from@, to: to@ },
            Request::RunDiff { left, right } => RequestView::RunDiff { left: left@, right: right@ },
        }
    }
}

/// What came of a request. A failure carries the system's message.
pub enum Event {
    /// Answers `CheckPath`.
    Checked(bool),
    /// Answers `ReadFile` with the text or the error.
    Read(Result<String, String>),
    /// Answers `RunShell`: whether the command succeeded, or why it could not
    /// be started.
    Ran(Result<bool, String>),
    /// Answers `CopyFile`.
    Copied(Result<(), String>),
    /// Answers `RunDiff`: whether the files agree, and the comparison's
    /// output; or why it could not be started.
    Diffed(Result<(bool, String), String>),
}

pub enum EventView {
    Checked(bool),
    Read(Result<Seq<char>, Seq<char>>),
    Ran(Result<bool, Seq<char>>),
    Copied(Result<(), Seq<char>>),
    Diffed(Result<(bool, Seq<char>), Seq<char>>),
}

impl View for Event {
    type V = EventView;

    open spec fn view(&self) -> EventView {
        match self {
            Event::Checked(b) => EventView::Checked(*b),
            Event::Read(r) => EventView::Read(
                match r {
                    Ok(t) => Ok(t@),
                    Err(m) => Err(m@),
                },
            ),
            Event::Ran(r) => EventView::Ran(
                match r {
                    Ok(b) => Ok(*b),
                    Err(m) => Err(m@),
                },
            ),
            Event::Copied(r) => EventView::Copied(
                match r {
                    Ok(u) => Ok(*u),
                    Err(m) => Err(m@),
                },
            ),
            Event::Diffed(r) => EventView::Diffed(
                match r {
                    Ok((same, out)) => Ok((*same, out@)),
                    Err(m) => Err(m@),
                },
            ),
        }
    }
}

/// How a regression ended well.
pub enum Outcome {
    /// Its settings, for `Describe`.
    Described(RegressionConfig),
    /// The output equals the expected output.
    Passed,
    /// The output differs from the expected output.
    Failed,
    /// The expected output was replaced by the output.
    ResetDone,
    /// The comparison found no difference.
    NoDifferences,
    /// The comparison found differences; its output.
    DifferencesFound(String),
}

pub enum OutcomeView {
    Described(ConfigView),
    Passed,
    Failed,
    ResetDone,
    NoDifferences,
    DifferencesFound(Seq<char>),
}

impl View for Outcome {
    type V = OutcomeView;

    open spec fn view(&self) -> OutcomeView {
        match self {
            Outcome::Described(c) => OutcomeView::Described(c@),
            Outcome::Passed => OutcomeView::Passed,
            Outcome::Failed => OutcomeView::Failed,
            Outcome::ResetDone => OutcomeView::ResetDone,
            Outcome::NoDifferences => OutcomeView::NoDifferences,
            Outcome::DifferencesFound(o) => OutcomeView::DifferencesFound(o@),
        }
    }
}

/// Why a regression could not be carried out.
pub enum RegressionError {
    /// `target/name` does not exist.
    RegressionDirMissing,
    /// `target/name/config.yaml` does not exist.
    ConfigFileMissing,
    /// `source/regbase` does not exist.
    ExampleDirMissing,
    /// The command ended unsuccessfully.
    CommandFailed,
    /// The command left no output at `source/regbase/sourcedata`.
    ResultMissing,
    /// There is no expected output at `target/name/targetdata`.
    TargetDataMissing,
    /// `config.yaml` gives no usable configuration.
    InvalidConfig(ConfigDefect),
    /// A file or process operation failed; the system's message.
    Io(String),
}

pub enum ErrorView {
    RegressionDirMissing,
    ConfigFileMissing,
    ExampleDirMissing,
    CommandFailed,
    ResultMissing,
    TargetDataMissing,
    InvalidConfig(ConfigDefect),
    Io(Seq<char>),
}

impl View for RegressionError {
    type V = ErrorView;

    open spec fn view(&self) -> ErrorView {
        match self {
            RegressionError::RegressionDirMissing => ErrorView::RegressionDirMissing,
            RegressionError::ConfigFileMissing => ErrorView::ConfigFileMissing,
            RegressionError::ExampleDirMissing => ErrorView::ExampleDirMissing,
            RegressionError::CommandFailed => ErrorView::CommandFailed,
            RegressionError::ResultMissing => ErrorView::ResultMissing,
            RegressionError::TargetDataMissing => ErrorView::TargetDataMissing,
            RegressionError::InvalidConfig(d) => ErrorView::InvalidConfig(*d),
            RegressionError::Io(m) => ErrorView::Io(m@),
        }
    }
}

/// How a regression ended.
pub enum Verdict {
    Finished(Outcome),
    Failed(RegressionError),
}

pub enum VerdictView {
    Finished(OutcomeView),
    Failed(ErrorView),
}

impl View for Verdict {
    type V = VerdictView;

    open spec fn view(&self) -> VerdictView {
        match self {
            Verdict::Finished(o) => VerdictView::Finished(o@),
            Verdict::Failed(e) => VerdictView::Failed(e@),
        }
    }
}

/// Where a regression stands: which answer it awaits, and what it has
/// learnt so far.
pub enum Stage {
    CheckRegressionDir,
    CheckConfig,
    ReadConfig,
    CheckExample(RegressionConfig),
    RunCommand(RegressionConfig),
    CheckResult(RegressionConfig),
    ReadResult(RegressionConfig),
    CheckTarget(RegressionConfig, String),
    ReadTarget(RegressionConfig, String),
    CopyResult(RegressionConfig),
    DiffResult(RegressionConfig),
}

pub enum StageView {
    CheckRegressionDir,
    CheckConfig,
    ReadConfig,
    CheckExample(ConfigView),
    RunCommand(ConfigView),
    CheckResult(ConfigView),
    ReadResult(ConfigView),
    /// With the command's output.
    CheckTarget(ConfigView, Seq<char>),
    /// With the command's output.
    ReadTarget(ConfigView, Seq<char>),
    CopyResult(ConfigView),
    DiffResult(ConfigView),
}

impl View for Stage {
    type V = StageView;

    open spec fn view(&self) -> StageView {
        match self {
            Stage::CheckRegressionDir => StageView::CheckRegressionDir,
            Stage::CheckConfig => StageView::CheckConfig,
            Stage::ReadConfig => StageView::ReadConfig,
            Stage::CheckExample(c) => StageView::CheckExample(c@),
            Stage::RunCommand(c) => StageView::RunCommand(c@),
            Stage::CheckResult(c) => StageView::CheckResult(c@),
            Stage::ReadResult(c) => StageView::ReadResult(c@),
            Stage::CheckTarget(c, d) => StageView::CheckTarget(c@, d@),
            Stage::ReadTarget(c, d) => StageView::ReadTarget(c@, d@),
            Stage::CopyResult(c) => StageView::CopyResult(c@),
            Stage::DiffResult(c) => StageView::DiffResult(c@),
        }
    }
}

/// One regression in progress.
pub struct Session {
    job: RegressionJob,
    stage: Stage,
}

pub struct SessionView {
    pub job: JobView,
    pub stage: StageView,
}

impl View for Session {
    type V = SessionView;

    closed spec fn view(&self) -> SessionView {
        SessionView { job: self.job@, stage: self.stage@ }
    }
}

/// The result of handing an answer to a session.
pub enum Step {
    /// The session goes on and asks for its next piece of work.
    Next(Session),
    /// The session is over.
    Concluded(Verdict),
}

pub enum StepView {
    Next(SessionView),
    Concluded(VerdictView),
}

impl View for Step {
    type V = StepView;

    open spec fn view(&self) -> StepView {
        match self {
            Step::Next(s) => StepView::Next(s@),
            Step::Concluded(v) => StepView::Concluded(v@),
        }
    }
}

/// The session that a job starts in: it first checks the regression's
/// directory.
pub open spec fn initial(job: JobView) -> SessionView {
    SessionView { job, stage: StageView::CheckRegressionDir }
}

/// The work that a session asks for.
pub open spec fn pending(s: SessionView) -> RequestView {
    let job = s.job;
    match s.stage {
        StageView::CheckRegressionDir => RequestView::CheckPath(regression_dir(job)),
        StageView::CheckConfig => RequestView::CheckPath(config_path(job)),
        StageView::ReadConfig => RequestView::ReadFile(config_path(job)),
        StageView::CheckExample(c) => RequestView::CheckPath(example_dir(job, c)),
        StageView::RunCommand(c) => RequestView::RunShell {
            dir: example_dir(job, c),
            command: c.regcommand,
        },
        StageView::CheckResult(c) => RequestView::CheckPath(result_path(job, c)),
        StageView::ReadResult(c) => RequestView::ReadFile(result_path(job, c)),
        StageView::CheckTarget(c, _) => RequestView::CheckPath(expected_path(job, c)),
        StageView::ReadTarget(c, _) => RequestView::ReadFile(expected_path(job, c)),
        StageView::CopyResult(c) => RequestView::CopyFile {
            from: result_path(job, c),
            to: expected_path(job, c),
        },
        StageView::DiffResult(c) => RequestView::RunDiff {
            left: result_path(job, c),
            right: expected_path(job, c),
        },
    }
}

/// Whether `e` is the kind of answer that the work `r` gets.
pub open spec fn answers(r: RequestView, e: EventView) -> bool {
    match r {
        RequestView::CheckPath(_) => e is Checked,
        RequestView::ReadFile(_) => e is Read,
        RequestView::RunShell { .. } => e is Ran,
        RequestView::CopyFile { .. } => e is Copied,
        RequestView::RunDiff { .. } => e is Diffed,
    }
}

/// Goes on to stage `stage` of the same job.
pub open spec fn go(s: SessionView, stage: StageView) -> StepView {
    StepView::Next(SessionView { job: s.job, stage })
}

pub open spec fn fail(e: ErrorView) -> StepView {
    StepView::Concluded(VerdictView::Failed(e))
}

pub open spec fn finish(o: OutcomeView) -> StepView {
    StepView::Concluded(VerdictView::Finished(o))
}

/// What follows when a session gets the answer `e`. An answer of the wrong
/// kind leaves the session as it is. A missing path ends the regression with
/// the error for that path, a failed operation with its message. The
/// configuration decides the rest: a defect in it ends the regression with
/// `InvalidConfig`; `Describe` ends
/// with the settings; the other actions run the command and read its output
/// and the expected output, then `Run` compares them, `Reset` copies the
/// output over the expected output and `Diff` compares the files.
pub open spec fn next(s: SessionView, e: EventView) -> StepView {
    if !answers(pending(s), e) {
        StepView::Next(s)
    } else {
        match s.stage {
            StageView::CheckRegressionDir => if e->Checked_0 {
                go(s, StageView::CheckConfig)
            } else {
                fail(ErrorView::RegressionDirMissing)
            },
            StageView::CheckConfig => if e->Checked_0 {
                go(s, StageView::ReadConfig)
            } else {
                fail(ErrorView::ConfigFileMissing)
            },
            StageView::ReadConfig => match e->Read_0 {
                Err(m) => fail(ErrorView::Io(m)),
                Ok(text) => match config_of_text(text) {
                    Err(d) => fail(ErrorView::InvalidConfig(d)),
                    Ok(c) => if s.job.action == RegressionAction::Describe {
                        finish(OutcomeView::Described(c))
                    } else {
                        go(s, StageView::CheckExample(c))
                    },
                },
            },
            StageView::CheckExample(c) => if e->Checked_0 {
                go(s, StageView::RunCommand(c))
            } else {
                fail(ErrorView::ExampleDirMissing)
            },
            StageView::RunCommand(c) => match e->Ran_0 {
                Err(m) => fail(ErrorView::Io(m)),
                Ok(success) => if success {
                    go(s, StageView::CheckResult(c))
                } else {
                    fail(ErrorView::CommandFailed)
                },
            },
            StageView::CheckResult(c) => if e->Checked_0 {
                go(s, StageView::ReadResult(c))
            } else {
                fail(ErrorView::ResultMissing)
            },
            StageView::ReadResult(c) => match e->Read_0 {
                Err(m) => fail(ErrorView::Io(m)),
                Ok(data) => go(s, StageView::CheckTarget(c, data)),
            },
            StageView::CheckTarget(c, data) => if e->Checked_0 {
                go(s, StageView::ReadTarget(c, data))
            } else {
                fail(ErrorView::TargetDataMissing)
            },
            StageView::ReadTarget(c, data) => match e->Read_0 {
                Err(m) => fail(ErrorView::Io(m)),
                Ok(expected) => match s.job.action {
                    RegressionAction::Reset => go(s, StageView::CopyResult(c)),
                    RegressionAction::Diff => go(s, StageView::DiffResult(c)),
                    _ => if data == expected {
                        finish(OutcomeView::Passed)
                    } else {
                        finish(OutcomeView::Failed)
                    },
                },
            },
            StageView::CopyResult(_) => match e->Copied_0 {
                Err(m) => fail(ErrorView::Io(m)),
                Ok(_) => finish(OutcomeView::ResetDone),
            },
            StageView::DiffResult(_) => match e->Diffed_0 {
                Err(m) => fail(ErrorView::Io(m)),
                Ok((same, out)) => if same {
                    finish(OutcomeView::NoDifferences)
                } else {
                    finish(OutcomeView::DifferencesFound(out))
                },
            },
        }
    }
}


/// `target/name`.
fn regression_dir_of(job: &RegressionJob) -> (res: String)
    ensures
        res@ == regression_dir(job@),
{
    join_path(job.target.as_str(), job.name.as_str())
}

/// `target/name/config.yaml`: where the configuration of the regression
/// `name` in the data directory `target` stands.
pub fn config_file_path(target: &str, name: &str) -> (res: String)
    ensures
        res@ == path(path(target@, name@), "config.yaml"@),
{
    let dir = join_path(target, name);
    let file = "config.yaml";
    join_path(dir.as_str(), file)
}

/// `target/name/config.yaml`.
fn config_path_of(job: &RegressionJob) -> (res: String)
    ensures
        res@ == config_path(job@),
{
    config_file_path(job.target.as_str(), job.name.as_str())
}

/// `source/regbase`.
fn example_dir_of(job: &RegressionJob, config: &RegressionConfig) -> (res: String)
    ensures
        res@ == example_dir(job@, config@),
{
    join_path(job.source.as_str(), config.regbase.as_str())
}

/// `source/regbase/sourcedata`.
fn result_path_of(job: &RegressionJob, config: &RegressionConfig) -> (res: String)
    ensures
        res@ == result_path(job@, config@),
{
    let dir = example_dir_of(job, config);
    join_path(dir.as_str(), config.sourcedata.as_str())
}

/// `target/name/targetdata`.
fn expected_path_of(job: &RegressionJob, config: &RegressionConfig) -> (res: String)
    ensures
        res@ == expected_path(job@, config@),
{
    let dir = regression_dir_of(job);
    join_path(dir.as_str(), config.targetdata.as_str())
}

impl Session {
    /// A session for `job`, about to check the regression's directory.
    pub fn start(job: RegressionJob) -> (s: Session)
        ensures
            s@ == initial(job@),
    {
        Session { job, stage: Stage::CheckRegressionDir }
    }

    /// The job that the session works on.
    pub fn job(&self) -> (job: &RegressionJob)
        ensures
            job@ == self@.job,
    {
        &self.job
    }

    /// The work that the session asks for next.
    pub fn pending(&self) -> (r: Request)
        ensures
            r@ == pending(self@),
    {
        let job = &self.job;
        match &self.stage {
            Stage::CheckRegressionDir => Request::CheckPath(regression_dir_of(job)),
            Stage::CheckConfig => Request::CheckPath(config_path_of(job)),
            Stage::ReadConfig => Request::ReadFile(config_path_of(job)),
            Stage::CheckExample(c) => Request::CheckPath(example_dir_of(job, c)),
            Stage::RunCommand(c) => Request::RunShell {
                dir: example_dir_of(job, c),
                command: c.regcommand.clone(),
            },
            Stage::CheckResult(c) => Request::CheckPath(result_path_of(job, c)),
            Stage::ReadResult(c) => Request::ReadFile(result_path_of(job, c)),
            Stage::CheckTarget(c, _) => Request::CheckPath(expected_path_of(job, c)),
            Stage::ReadTarget(c, _) => Request::ReadFile(expected_path_of(job, c)),
            Stage::CopyResult(c) => Request::CopyFile {
                from: result_path_of(job, c),
                to: expected_path_of(job, c),
            },
            Stage::DiffResult(c) => Request::RunDiff {
                left: result_path_of(job, c),
                right: expected_path_of(job, c),
            },
        }
    }

    /// Hands the session what came of its pending work.
    pub fn step(self, event: Event) -> (res: Step)
        ensures
            res@ == next(self@, event@),
    {
        let ghost before = self@;
        let Session { job, stage } = self;
        match stage {
            Stage::CheckRegressionDir => match event {
                Event::Checked(true) => Step::Next(Session { job, stage: Stage::CheckConfig }),
                Event::Checked(false) => Step::Concluded(
                    Verdict::Failed(RegressionError::RegressionDirMissing),
                ),
                _ => Step::Next(Session { job, stage: Stage::CheckRegressionDir }),
            },
            Stage::CheckConfig => match event {
                Event::Checked(true) => Step::Next(Session { job, stage: Stage::ReadConfig }),
                Event::Checked(false) => Step::Concluded(
                    Verdict::Failed(RegressionError::ConfigFileMissing),
                ),
                _ => Step::Next(Session { job, stage: Stage::CheckConfig }),
            },
            Stage::ReadConfig => match event {
                Event::Read(Err(m)) => Step::Concluded(Verdict::Failed(RegressionError::Io(m))),
                Event::Read(Ok(text)) => match parse_regression_config(text.as_str()) {
                    Err(d) => Step::Concluded(Verdict::Failed(RegressionError::InvalidConfig(d))),
                    Ok(c) => if job.action == RegressionAction::Describe {
                        Step::Concluded(Verdict::Finished(Outcome::Described(c)))
                    } else {
                        Step::Next(Session { job, stage: Stage::CheckExample(c) })
                    },
                },
                _ => Step::Next(Session { job, stage: Stage::ReadConfig }),
            },
            Stage::CheckExample(c) => match event {
                Event::Checked(true) => Step::Next(Session { job, stage: Stage::RunCommand(c) }),
                Event::Checked(false) => Step::Concluded(
                    Verdict::Failed(RegressionError::ExampleDirMissing),
                ),
                _ => Step::Next(Session { job, stage: Stage::CheckExample(c) }),
            },
            Stage::RunCommand(c) => match event {
                Event::Ran(Err(m)) => Step::Concluded(Verdict::Failed(RegressionError::Io(m))),
                Event::Ran(Ok(true)) => Step::Next(Session { job, stage: Stage::CheckResult(c) }),
                Event::Ran(Ok(false)) => Step::Concluded(
                    Verdict::Failed(RegressionError::CommandFailed),
                ),
                _ => Step::Next(Session { job, stage: Stage::RunCommand(c) }),
            },
            Stage::CheckResult(c) => match event {
                Event::Checked(true) => Step::Next(Session { job, stage: Stage::ReadResult(c) }),
                Event::Checked(false) => Step::Concluded(
                    Verdict::Failed(RegressionError::ResultMissing),
                ),
                _ => Step::Next(Session { job, stage: Stage::CheckResult(c) }),
            },
            Stage::ReadResult(c) => match event {
                Event::Read(Err(m)) => Step::Concluded(Verdict::Failed(RegressionError::Io(m))),
                Event::Read(Ok(data)) => Step::Next(
                    Session { job, stage: Stage::CheckTarget(c, data) },
                ),
                _ => Step::Next(Session { job, stage: Stage::ReadResult(c) }),
            },
            Stage::CheckTarget(c, data) => match event {
                Event::Checked(true) => Step::Next(
                    Session { job, stage: Stage::ReadTarget(c, data) },
                ),
                Event::Checked(false) => Step::Concluded(
                    Verdict::Failed(RegressionError::TargetDataMissing),
                ),
                _ => Step::Next(Session { job, stage: Stage::CheckTarget(c, data) }),
            },
            Stage::ReadTarget(c, data) => match event {
                Event::Read(Err(m)) => Step::Concluded(Verdict::Failed(RegressionError::Io(m))),
                Event::Read(Ok(expected)) => match job.action {
                    RegressionAction::Reset => Step::Next(
                        Session { job, stage: Stage::CopyResult(c) },
                    ),
                    RegressionAction::Diff => Step::Next(
                        Session { job, stage: Stage::DiffResult(c) },
                    ),
                    _ => if data == expected {
                        Step::Concluded(Verdict::Finished(Outcome::Passed))
                    } else {
                        Step::Concluded(Verdict::Finished(Outcome::Failed))
                    },
                },
                _ => Step::Next(Session { job, stage: Stage::ReadTarget(c, data) }),
            },
            Stage::CopyResult(c) => match event {
                Event::Copied(Err(m)) => Step::Concluded(
                    Verdict::Failed(RegressionError::Io(m)),
                ),
                Event::Copied(Ok(())) => Step::Concluded(Verdict::Finished(Outcome::ResetDone)),
                _ => Step::Next(Session { job, stage: Stage::CopyResult(c) }),
            },
            Stage::DiffResult(c) => match event {
                Event::Diffed(Err(m)) => Step::Concluded(Verdict::Failed(RegressionError::Io(m))),
                Event::Diffed(Ok((same, out))) => if same {
                    Step::Concluded(Verdict::Finished(Outcome::NoDifferences))
                } else {
                    Step::Concluded(Verdict::Finished(Outcome::DifferencesFound(out)))
                },
                _ => Step::Next(Session { job, stage: Stage::DiffResult(c) }),
            },
        }
    }
}


/// Where a session ends up after the answers `events`, one after another;
/// answers after a verdict are not looked at.
pub open spec fn run(s: SessionView, events: Seq<EventView>) -> StepView
    decreases events.len(),
{
    if events.len() == 0 {
        StepView::Next(s)
    } else {
        match next(s, events[0]) {
            StepView::Next(s2) => run(s2, events.drop_first()),
            concluded => concluded,
        }
    }
}

/// The stages that a session for `action` can reach: `Describe` never gets
/// past reading the configuration, only `Reset` copies and only `Diff`
/// compares files.
pub open spec fn stage_fits(action: RegressionAction, stage: StageView) -> bool {
    match action {
        RegressionAction::Describe => stage is CheckRegressionDir || stage is CheckConfig
            || stage is ReadConfig,
        RegressionAction::Run => !(stage is CopyResult) && !(stage is DiffResult),
        RegressionAction::Reset => !(stage is DiffResult),
        RegressionAction::Diff => !(stage is CopyResult),
    }
}

/// The work that a session for `action` may ask for: only the actions that
/// need the command's output run it; only `Reset` writes a file; only
/// `Diff` runs the comparison tool.
pub open spec fn request_fits(action: RegressionAction, r: RequestView) -> bool {
    &&& r is RunShell ==> action != RegressionAction::Describe
    &&& r is CopyFile ==> action == RegressionAction::Reset
    &&& r is RunDiff ==> action == RegressionAction::Diff
}

/// The verdicts that a session for `action` can reach.
pub open spec fn verdict_fits(action: RegressionAction, v: VerdictView) -> bool {
    match v {
        VerdictView::Finished(o) => match o {
            OutcomeView::Described(_) => action == RegressionAction::Describe,
            OutcomeView::Passed => action == RegressionAction::Run,
            OutcomeView::Failed => action == RegressionAction::Run,
            OutcomeView::ResetDone => action == RegressionAction::Reset,
            OutcomeView::NoDifferences => action == RegressionAction::Diff,
            OutcomeView::DifferencesFound(_) => action == RegressionAction::Diff,
        },
        _ => true,
    }
}

/// How far a stage lies along the course of a regression.
pub open spec fn stage_rank(stage: StageView) -> nat {
    match stage {
        StageView::CheckRegressionDir => 0,
        StageView::CheckConfig => 1,
        StageView::ReadConfig => 2,
        StageView::CheckExample(_) => 3,
        StageView::RunCommand(_) => 4,
        StageView::CheckResult(_) => 5,
        StageView::ReadResult(_) => 6,
        StageView::CheckTarget(_, _) => 7,
        StageView::ReadTarget(_, _) => 8,
        StageView::CopyResult(_) => 9,
        StageView::DiffResult(_) => 9,
    }
}

proof fn lemma_step_fits(s: SessionView, e: EventView)
    requires
        stage_fits(s.job.action, s.stage),
    ensures
        match next(s, e) {
            StepView::Next(s2) => s2.job == s.job && stage_fits(s.job.action, s2.stage),
            StepView::Concluded(v) => verdict_fits(s.job.action, v),
        },
{
}

/// Whatever the answers, a session keeps its job, stays within the stages
/// of its action, asks only for work that its action needs, and ends only
/// with a verdict of its action: a description for `Describe`, passed or
/// failed for `Run`, reset for `Reset`, the comparison's finding for
/// `Diff`, or an error (an unusable configuration among them) for any.
pub proof fn law_sessions_keep_to_their_action(job: JobView, events: Seq<EventView>)
    ensures
        match run(initial(job), events) {
            StepView::Next(s) => s.job == job && stage_fits(job.action, s.stage) && request_fits(
                job.action,
                pending(s),
            ),
            StepView::Concluded(v) => verdict_fits(job.action, v),
        },
{
    lemma_run_fits(initial(job), events);
}

proof fn lemma_run_fits(s: SessionView, events: Seq<EventView>)
    requires
        stage_fits(s.job.action, s.stage),
    ensures
        match run(s, events) {
            StepView::Next(s2) => s2.job == s.job && stage_fits(s.job.action, s2.stage)
                && request_fits(s.job.action, pending(s2)),
            StepView::Concluded(v) => verdict_fits(s.job.action, v),
        },
    decreases events.len(),
{
    if events.len() > 0 {
        lemma_step_fits(s, events[0]);
        if let StepView::Next(s2) = next(s, events[0]) {
            lemma_run_fits(s2, events.drop_first());
        }
    }
}

/// Every answer of the kind that the pending work gets moves the session
/// on: it reaches a verdict or a later stage. A regression therefore asks
/// for at most ten pieces of work.
pub proof fn law_answers_make_progress(s: SessionView, e: EventView)
    requires
        answers(pending(s), e),
    ensures
        match next(s, e) {
            StepView::Next(s2) => stage_rank(s2.stage) > stage_rank(s.stage),
            StepView::Concluded(_) => true,
        },
{
}

/// An answer of the wrong kind changes nothing.
pub proof fn law_wrong_answers_are_ignored(s: SessionView, e: EventView)
    requires
        !answers(pending(s), e),
    ensures
        next(s, e) == StepView::Next(s),
{
}

/// A reset ends well only by copying: the session reports the reset right
/// after its copy of the command's output (`source/regbase/sourcedata`) over
/// the expected output (`target/name/targetdata`) succeeded.
pub proof fn law_reset_copies_output_over_expected(s: SessionView, e: EventView)
    requires
        next(s, e) == finish(OutcomeView::ResetDone),
    ensures
        s.stage is CopyResult,
        pending(s) == (RequestView::CopyFile {
            from: result_path(s.job, s.stage->CopyResult_0),
            to: expected_path(s.job, s.stage->CopyResult_0),
        }),
        e is Copied && e->Copied_0 is Ok,
{
}

/// A run passes exactly when the command's output and the expected output
/// read from their files are equal, and fails exactly when they differ.
pub proof fn law_run_passes_iff_outputs_equal(
    s: SessionView,
    config: ConfigView,
    output: Seq<char>,
    expected: Seq<char>,
)
    requires
        s.job.action == RegressionAction::Run,
        s.stage == StageView::ReadTarget(config, output),
    ensures
        next(s, EventView::Read(Ok(expected))) == finish(OutcomeView::Passed) <==> output
            == expected,
        next(s, EventView::Read(Ok(expected))) == finish(OutcomeView::Failed) <==> output
            != expected,
{
}

/// A description reports exactly the configuration that the text read from
/// `target/name/config.yaml` describes, and asks for nothing more.
pub proof fn law_describe_reports_the_configuration(s: SessionView, text: Seq<char>)
    requires
        s.job.action == RegressionAction::Describe,
        s.stage == StageView::ReadConfig,
        config_of_text(text) is Ok,
    ensures
        pending(s) == RequestView::ReadFile(config_path(s.job)),
        next(s, EventView::Read(Ok(text))) == finish(
            OutcomeView::Described(config_of_text(text)->Ok_0),
        ),
{
}

/// A configuration that is no YAML, holds no document or lacks one of the
/// four settings ends the regression with an error, not with a halt, and
/// before any command runs.
pub proof fn law_invalid_configuration_is_an_error(s: SessionView, text: Seq<char>)
    requires
        s.stage == StageView::ReadConfig,
        config_of_text(text) is Err,
    ensures
        next(s, EventView::Read(Ok(text))) == fail(
            ErrorView::InvalidConfig(config_of_text(text)->Err_0),
        ),
{
}

/// A comparison's verdict comes only from comparing: a run passes only
/// right after it read the expected output and found it equal to the
/// command's output, and fails only when it found them different; a diff
/// finds no differences only when the comparison tool reported agreement,
/// and reports differences only with the tool's output after disagreement.
pub proof fn law_comparison_verdicts_come_from_comparing(s: SessionView, e: EventView)
    ensures
        next(s, e) == finish(OutcomeView::Passed) ==> s.job.action != RegressionAction::Reset
            && s.job.action != RegressionAction::Diff && s.stage is ReadTarget && e == EventView::Read(Ok(s.stage->ReadTarget_1)),
        next(s, e) == finish(OutcomeView::Failed) ==> s.job.action != RegressionAction::Reset
            && s.job.action != RegressionAction::Diff && s.stage is ReadTarget && e is Read && e->Read_0 is Ok && e->Read_0->Ok_0
            != s.stage->ReadTarget_1,
        next(s, e) == finish(OutcomeView::NoDifferences) ==> s.stage is DiffResult && e is Diffed
            && e->Diffed_0 is Ok && e->Diffed_0->Ok_0.0,
        next(s, e) is Concluded && next(s, e)->Concluded_0 is Finished && next(
            s,
            e,
        )->Concluded_0->Finished_0 is DifferencesFound ==> s.stage is DiffResult && e
            == EventView::Diffed(
            Ok((false, next(s, e)->Concluded_0->Finished_0->DifferencesFound_0)),
        ),
        next(s, e) == finish(OutcomeView::ResetDone) ==> s.stage is CopyResult && e is Copied
            && e->Copied_0 is Ok,
{
}

/// A path found missing ends the regression with the error for that path:
/// the regression's directory, its configuration, the example directory,
/// the command's output, the expected output.
pub proof fn law_missing_paths_fail(s: SessionView)
    ensures
        s.stage is CheckRegressionDir ==> next(s, EventView::Checked(false)) == fail(
            ErrorView::RegressionDirMissing,
        ),
        s.stage is CheckConfig ==> next(s, EventView::Checked(false)) == fail(
            ErrorView::ConfigFileMissing,
        ),
        s.stage is CheckExample ==> next(s, EventView::Checked(false)) == fail(
            ErrorView::ExampleDirMissing,
        ),
        s.stage is CheckResult ==> next(s, EventView::Checked(false)) == fail(
            ErrorView::ResultMissing,
        ),
        s.stage is CheckTarget ==> next(s, EventView::Checked(false)) == fail(
            ErrorView::TargetDataMissing,
        ),
{
}

/// A command that ends unsuccessfully stops the regression, whatever the
/// action, before its output is looked at.
pub proof fn law_failed_command_stops(s: SessionView)
    requires
        s.stage is RunCommand,
    ensures
        next(s, EventView::Ran(Ok(false))) == fail(ErrorView::CommandFailed),
{
}

/// The command's output is looked at only after the command succeeded, and
/// the copy and the comparison tool come only after both outputs were read:
/// every stage past the command is entered from the stage before it, on a
/// successful answer.
pub proof fn law_later_stages_follow_success(s: SessionView, e: EventView)
    ensures
        next(s, e) is Next && next(s, e)->Next_0.stage is CheckResult && !(s.stage is CheckResult)
            ==> s.stage is RunCommand
            && e == EventView::Ran(Ok(true)),
        next(s, e) is Next && next(s, e)->Next_0.stage is CopyResult && !(s.stage is CopyResult)
            ==> s.job.action == RegressionAction::Reset && s.stage is ReadTarget && e is Read
            && e->Read_0 is Ok,
        next(s, e) is Next && next(s, e)->Next_0.stage is DiffResult && !(s.stage is DiffResult)
            ==> s.job.action == RegressionAction::Diff && s.stage is ReadTarget && e is Read
            && e->Read_0 is Ok,
        next(s, e) is Next && next(s, e)->Next_0.stage is ReadTarget && !(s.stage is ReadTarget)
            ==> s.stage is CheckTarget && e == EventView::Checked(true),
{
}

/// A file or process operation that fails ends the regression with the
/// system's message, unchanged, at whichever stage it happens.
pub proof fn law_failed_operations_report_their_message(s: SessionView, m: Seq<char>)
    ensures
        s.stage is ReadConfig || s.stage is ReadResult || s.stage is ReadTarget ==> next(
            s,
            EventView::Read(Err(m)),
        ) == fail(ErrorView::Io(m)),
        s.stage is RunCommand ==> next(s, EventView::Ran(Err(m))) == fail(ErrorView::Io(m)),
        s.stage is CopyResult ==> next(s, EventView::Copied(Err(m))) == fail(ErrorView::Io(m)),
        s.stage is DiffResult ==> next(s, EventView::Diffed(Err(m))) == fail(ErrorView::Io(m)),
{
}

} // verus!
