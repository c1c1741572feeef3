//! A model of the files and commands that a regression works with, and what
//! regressions do to them over several commands. Commands are taken to be
//! deterministic: what one writes depends only on its directory and its
//! text, and the comparison tool reports agreement exactly when the two
//! files are equal.

use vstd::prelude::*;
use crate::batch::{first_failure_of, verdict_text};
use crate::config::{config_of_text, ConfigView};
use crate::session::{
    config_path, example_dir, expected_path, initial, next, pending, regression_dir, result_path,
    stage_rank, EventView, JobView, OutcomeView, RegressionAction, RequestView, SessionView,
    StageView, StepView,
    VerdictView,
};

verus! {

/// Files with their texts, and directories.
pub struct FsModel {
    pub files: Map<Seq<char>, Seq<char>>,
    pub dirs: Set<Seq<char>>,
}

/// How commands behave: what a command run in a directory writes (`None`
/// where it fails), and what the comparison tool prints for two texts.
pub struct WorldModel {
    pub produce: spec_fn(Seq<char>, Seq<char>) -> Option<Map<Seq<char>, Seq<char>>>,
    pub diff_output: spec_fn(Seq<char>, Seq<char>) -> Seq<char>,
}

pub open spec fn present(fs: FsModel, p: Seq<char>) -> bool {
    fs.files.dom().contains(p) || fs.dirs.contains(p)
}

/// The answer that the world gives to a request, and the files afterwards.
pub open spec fn answer(w: WorldModel, fs: FsModel, r: RequestView) -> (EventView, FsModel) {
    match r {
        RequestView::CheckPath(p) => (EventView::Checked(present(fs, p)), fs),
        RequestView::ReadFile(p) => if fs.files.dom().contains(p) {
            (EventView::Read(Ok(fs.files[p])), fs)
        } else {
            (EventView::Read(Err(Seq::empty())), fs)
        },
        RequestView::RunShell { dir, command } => match (w.produce)(dir, command) {
            Some(out) => (
                EventView::Ran(Ok(true)),
                FsModel { files: fs.files.union_prefer_right(out), dirs: fs.dirs },
            ),
            None => (EventView::Ran(Ok(false)), fs),
        },
        RequestView::CopyFile { from, to } => if fs.files.dom().contains(from) {
            (
                EventView::Copied(Ok(())),
                FsModel { files: fs.files.insert(to, fs.files[from]), dirs: fs.dirs },
            )
        } else {
            (EventView::Copied(Err(Seq::empty())), fs)
        },
        RequestView::RunDiff { left, right } => if fs.files.dom().contains(left)
            && fs.files.dom().contains(right) {
            (
                EventView::Diffed(
                    Ok(
                        (
                            fs.files[left] == fs.files[right],
                            (w.diff_output)(fs.files[left], fs.files[right]),
                        ),
                    ),
                ),
                fs,
            )
        } else {
            (EventView::Diffed(Err(Seq::empty())), fs)
        },
    }
}

/// A session driven by the world for at most `fuel` requests.
pub open spec fn drive(w: WorldModel, s: SessionView, fs: FsModel, fuel: nat) -> (StepView, FsModel)
    decreases fuel,
{
    if fuel == 0 {
        (StepView::Next(s), fs)
    } else {
        let (e, fs2) = answer(w, fs, pending(s));
        match next(s, e) {
            StepView::Next(s2) => drive(w, s2, fs2, (fuel - 1) as nat),
            concluded => (concluded, fs2),
        }
    }
}

/// One regression carried out in the world: its verdict and the files
/// afterwards. Ten requests are the most that a regression makes.
#[verifier::opaque]
pub open spec fn perform(w: WorldModel, job: JobView, fs: FsModel) -> (StepView, FsModel) {
    drive(w, initial(job), fs, 10)
}

/// The same regression with another action.
pub open spec fn with_action(job: JobView, action: RegressionAction) -> JobView {
    JobView { action, ..job }
}

/// The configuration of a regression in `fs`.
pub open spec fn config_in(job: JobView, fs: FsModel) -> ConfigView {
    config_of_text(fs.files[config_path(job)])->Ok_0
}

/// The regression is set up so that its command runs: its directory, its
/// configuration (usable) and its example directory are there, the command
/// succeeds, its output and the expected output then exist, and the
/// command writes neither the configuration nor the expected output.
pub open spec fn well_set_up(w: WorldModel, job: JobView, fs: FsModel) -> bool {
    let c = config_in(job, fs);
    let out = (w.produce)(example_dir(job, c), c.regcommand);
    &&& present(fs, regression_dir(job))
    &&& fs.files.dom().contains(config_path(job))
    &&& config_of_text(fs.files[config_path(job)]) is Ok
    &&& present(fs, example_dir(job, c))
    &&& out is Some
    &&& fs.files.union_prefer_right(out->0).dom().contains(result_path(job, c))
    &&& fs.files.dom().contains(expected_path(job, c))
    &&& !out->0.dom().contains(config_path(job))
    &&& !out->0.dom().contains(expected_path(job, c))
    &&& expected_path(job, c) != config_path(job)
}

/// What a stage that carries the command's output knows of the files: the
/// output is still the text of `source/regbase/sourcedata`.
pub open spec fn output_still_read(s: SessionView, fs: FsModel) -> bool {
    match s.stage {
        StageView::CheckTarget(c, d) => fs.files.dom().contains(
            result_path(s.job, c),
        ) && fs.files[result_path(s.job, c)] == d,
        StageView::ReadTarget(c, d) => fs.files.dom().contains(
            result_path(s.job, c),
        ) && fs.files[result_path(s.job, c)] == d,
        _ => true,
    }
}

proof fn lemma_diff_agrees_with_run(
    w: WorldModel,
    run_s: SessionView,
    diff_s: SessionView,
    fs: FsModel,
    fuel: nat,
)
    requires
        diff_s.job.action == RegressionAction::Diff,
        run_s.job == with_action(diff_s.job, RegressionAction::Run),
        run_s.stage == diff_s.stage,
        !(run_s.stage is CopyResult) && !(run_s.stage is DiffResult),
        stage_rank(run_s.stage) + fuel == 10,
        output_still_read(run_s, fs),
    ensures
        (drive(w, run_s, fs, fuel).0 == StepView::Concluded(
            VerdictView::Finished(OutcomeView::Passed),
        )) <==> (drive(w, diff_s, fs, fuel).0 == StepView::Concluded(
            VerdictView::Finished(OutcomeView::NoDifferences),
        )),
    decreases fuel,
{
    assert(pending(run_s) == pending(diff_s));
    let (e, fs2) = answer(w, fs, pending(run_s));
    match run_s.stage {
        StageView::ReadTarget(c, data) => {
            if let EventView::Read(Ok(x)) = e {
                let d2 = SessionView {
                    job: diff_s.job,
                    stage: StageView::DiffResult(c),
                };
                assert(next(diff_s, e) == StepView::Next(d2));
                assert(pending(d2) == RequestView::RunDiff {
                    left: result_path(diff_s.job, c),
                    right: expected_path(diff_s.job, c),
                });
                assert(result_path(diff_s.job, c) == result_path(run_s.job, c));
                assert(expected_path(diff_s.job, c) == expected_path(run_s.job, c));
                assert(drive(w, d2, fs2, (fuel - 1) as nat) == drive(w, d2, fs2, 1));
            }
        },
        _ => {
            match next(run_s, e) {
                StepView::Next(r2) => {
                    let d2 = next(diff_s, e)->Next_0;
                    assert(r2.job == run_s.job);
                    lemma_diff_agrees_with_run(w, r2, d2, fs2, (fuel - 1) as nat);
                },
                _ => {},
            }
        },
    }
}

/// On the same files, a diff finds no differences exactly when a run
/// passes: both run the same command and read the same two files, and the
/// comparison tool agrees exactly when the texts are equal.
pub proof fn law_diff_finds_nothing_iff_run_passes(w: WorldModel, job: JobView, fs: FsModel)
    ensures
        (perform(w, with_action(job, RegressionAction::Run), fs).0 == StepView::Concluded(
            VerdictView::Finished(OutcomeView::Passed),
        )) <==> (perform(w, with_action(job, RegressionAction::Diff), fs).0
            == StepView::Concluded(VerdictView::Finished(OutcomeView::NoDifferences))),
{
    reveal(perform);
    lemma_diff_agrees_with_run(
        w,
        initial(with_action(job, RegressionAction::Run)),
        initial(with_action(job, RegressionAction::Diff)),
        fs,
        10,
    );
}

/// The files after the command of a well set up regression has run.
pub open spec fn after_command(w: WorldModel, job: JobView, fs: FsModel) -> FsModel {
    let c = config_in(job, fs);
    FsModel {
        files: fs.files.union_prefer_right(((w.produce)(example_dir(job, c), c.regcommand))->0),
        dirs: fs.dirs,
    }
}

/// The files after a reset of a well set up regression: those after its
/// command, with the output copied over the expected output.
pub open spec fn after_reset(w: WorldModel, job: JobView, fs: FsModel) -> FsModel {
    let c = config_in(job, fs);
    let ran = after_command(w, job, fs);
    FsModel {
        files: ran.files.insert(expected_path(job, c), ran.files[result_path(job, c)]),
        dirs: fs.dirs,
    }
}

/// What a regression that gets as far as comparing does, for any action
/// other than `Describe`: it reaches `ReadTarget` with the output after the
/// command, on the files after the command.
proof fn lemma_well_set_up_reaches_comparison(w: WorldModel, job: JobView, fs: FsModel)
    requires
        well_set_up(w, job, fs),
        job.action != RegressionAction::Describe,
    ensures
        ({
            let c = config_in(job, fs);
            let ran = after_command(w, job, fs);
            let s8 = SessionView {
                job,
                stage: StageView::ReadTarget(c, ran.files[result_path(job, c)]),
            };
            perform(w, job, fs) == drive(w, s8, ran, 2)
        }),
{
    reveal(perform);
    let c = config_in(job, fs);
    let ran = after_command(w, job, fs);
    let r = ran.files[result_path(job, c)];
    let st = |stage: crate::session::StageView| SessionView { job, stage };
    let s0 = initial(job);
    let s1 = st(StageView::CheckConfig);
    let s2 = st(StageView::ReadConfig);
    let s3 = st(StageView::CheckExample(c));
    let s4 = st(StageView::RunCommand(c));
    let s5 = st(StageView::CheckResult(c));
    let s6 = st(StageView::ReadResult(c));
    let s7 = st(StageView::CheckTarget(c, r));
    let s8 = st(StageView::ReadTarget(c, r));
    assert(fs.files.dom().contains(config_path(job)));
    assert(drive(w, s0, fs, 10) == drive(w, s1, fs, 9));
    assert(drive(w, s1, fs, 9) == drive(w, s2, fs, 8));
    assert(drive(w, s2, fs, 8) == drive(w, s3, fs, 7));
    assert(drive(w, s3, fs, 7) == drive(w, s4, fs, 6));
    assert(drive(w, s4, fs, 6) == drive(w, s5, ran, 5));
    assert(drive(w, s5, ran, 5) == drive(w, s6, ran, 4));
    assert(drive(w, s6, ran, 4) == drive(w, s7, ran, 3));
    assert(ran.files.dom().contains(expected_path(job, c)));
    assert(drive(w, s7, ran, 3) == drive(w, s8, ran, 2));
}

proof fn lemma_reset_outcome(w: WorldModel, job: JobView, fs: FsModel)
    requires
        well_set_up(w, job, fs),
        job.action == RegressionAction::Reset,
    ensures
        perform(w, job, fs) == (
            StepView::Concluded(VerdictView::Finished(OutcomeView::ResetDone)),
            after_reset(w, job, fs),
        ),
{
    lemma_well_set_up_reaches_comparison(w, job, fs);
    let c = config_in(job, fs);
    let ran = after_command(w, job, fs);
    let r = ran.files[result_path(job, c)];
    let s8 = SessionView { job, stage: StageView::ReadTarget(c, r) };
    let s9 = SessionView { job, stage: StageView::CopyResult(c) };
    assert(drive(w, s8, ran, 2) == drive(w, s9, ran, 1));
}

/// The files that a reset leaves hold the same configuration, and the
/// regression stays well set up in them.
proof fn lemma_reset_keeps_set_up(w: WorldModel, job: JobView, fs: FsModel)
    requires
        well_set_up(w, job, fs),
    ensures
        ({
            let fs1 = after_reset(w, job, fs);
            &&& fs1.files[config_path(job)] == fs.files[config_path(job)]
            &&& config_in(job, fs1) == config_in(job, fs)
            &&& well_set_up(w, job, fs1)
            &&& fs1.files[expected_path(job, config_in(job, fs))] == after_command(
                w,
                job,
                fs,
            ).files[result_path(job, config_in(job, fs))]
        }),
{
    let c = config_in(job, fs);
    let fs1 = after_reset(w, job, fs);
    assert(fs1.files[config_path(job)] == fs.files[config_path(job)]);
    assert(config_in(job, fs1) == c);
}

/// The files after a well set up regression's command has run on the files
/// that a reset left are those files again.
proof fn lemma_command_after_reset_changes_nothing(w: WorldModel, job: JobView, fs: FsModel)
    requires
        well_set_up(w, job, fs),
    ensures
        after_command(w, job, after_reset(w, job, fs)).files =~= after_reset(w, job, fs).files,
{
    lemma_reset_keeps_set_up(w, job, fs);
}

/// After a reset of a regression whose command is deterministic and writes
/// neither its configuration nor its expected output, a run of the same
/// regression passes.
pub proof fn law_run_after_reset_passes(w: WorldModel, job: JobView, fs: FsModel)
    requires
        well_set_up(w, job, fs),
    ensures
        perform(w, with_action(job, RegressionAction::Reset), fs) == (
            StepView::Concluded(VerdictView::Finished(OutcomeView::ResetDone)),
            after_reset(w, job, fs),
        ),
        perform(w, with_action(job, RegressionAction::Run), after_reset(w, job, fs)).0
            == StepView::Concluded(VerdictView::Finished(OutcomeView::Passed)),
{
    let reset_job = with_action(job, RegressionAction::Reset);
    let run_job = with_action(job, RegressionAction::Run);
    assert(config_path(reset_job) == config_path(job));
    assert(config_in(reset_job, fs) == config_in(job, fs));
    assert(after_reset(w, reset_job, fs) == after_reset(w, job, fs));
    lemma_reset_outcome(w, reset_job, fs);
    let fs1 = after_reset(w, job, fs);
    lemma_reset_keeps_set_up(w, job, fs);
    lemma_command_after_reset_changes_nothing(w, job, fs);
    assert(config_in(run_job, fs1) == config_in(job, fs1));
    assert(well_set_up(w, run_job, fs1));
    lemma_well_set_up_reaches_comparison(w, run_job, fs1);
    let c = config_in(job, fs);
    let ran1 = after_command(w, run_job, fs1);
    assert(ran1.files == fs1.files);
    let r = ran1.files[result_path(job, c)];
    assert(r == fs1.files[expected_path(job, c)]);
    let s8 = SessionView { job: run_job, stage: StageView::ReadTarget(c, r) };
    assert(drive(w, s8, ran1, 2).0 == StepView::Concluded(
        VerdictView::Finished(OutcomeView::Passed),
    ));
}

/// A second reset of a regression whose command is deterministic and writes
/// neither its configuration nor its expected output changes no file.
pub proof fn law_second_reset_changes_nothing(w: WorldModel, job: JobView, fs: FsModel)
    requires
        well_set_up(w, job, fs),
    ensures
        perform(w, with_action(job, RegressionAction::Reset), after_reset(w, job, fs)) == (
            StepView::Concluded(VerdictView::Finished(OutcomeView::ResetDone)),
            after_reset(w, job, fs),
        ),
{
    let reset_job = with_action(job, RegressionAction::Reset);
    let fs1 = after_reset(w, job, fs);
    lemma_reset_keeps_set_up(w, job, fs);
    lemma_command_after_reset_changes_nothing(w, job, fs);
    assert(config_in(reset_job, fs1) == config_in(job, fs1));
    assert(well_set_up(w, reset_job, fs1));
    lemma_reset_outcome(w, reset_job, fs1);
    let c = config_in(job, fs);
    assert(after_command(w, reset_job, fs1).files == fs1.files);
    assert(after_reset(w, reset_job, fs1).files =~= fs1.files);
    assert(after_reset(w, reset_job, fs1) == fs1);
}

/// Regressions carried out one after another, each on the files that the
/// one before left: their results, and the files at the end.
pub open spec fn perform_all(w: WorldModel, jobs: Seq<JobView>, fs: FsModel) -> (
    Seq<StepView>,
    FsModel,
)
    decreases jobs.len(),
{
    if jobs.len() == 0 {
        (Seq::empty(), fs)
    } else {
        let (before, mid) = perform_all(w, jobs.drop_last(), fs);
        let (last, after) = perform(w, jobs.last(), mid);
        (before.push(last), after)
    }
}

/// The files that the `i`-th of `jobs` finds.
pub open spec fn files_before(w: WorldModel, jobs: Seq<JobView>, fs: FsModel, i: int) -> FsModel {
    perform_all(w, jobs.take(i), fs).1
}

/// The verdicts of concluded results.
pub open spec fn verdicts_of(steps: Seq<StepView>) -> Seq<VerdictView> {
    steps.map_values(|s: StepView| s->Concluded_0)
}

/// The configuration that the `i`-th of `jobs` reads.
pub open spec fn config_at(w: WorldModel, jobs: Seq<JobView>, fs: FsModel, i: int) -> ConfigView {
    config_in(jobs[i], files_before(w, jobs, fs, i))
}

proof fn lemma_perform_all_prefix(w: WorldModel, jobs: Seq<JobView>, fs: FsModel, i: int)
    requires
        0 <= i < jobs.len(),
    ensures
        perform_all(w, jobs.take(i + 1), fs).1 == perform(w, jobs[i], files_before(w, jobs, fs, i)).1,
        perform_all(w, jobs.take(i + 1), fs).0 == perform_all(w, jobs.take(i), fs).0.push(
            perform(w, jobs[i], files_before(w, jobs, fs, i)).0,
        ),
{
    assert(jobs.take(i + 1).drop_last() =~= jobs.take(i));
    assert(jobs.take(i + 1).last() == jobs[i]);
}

proof fn lemma_reset_all(w: WorldModel, jobs: Seq<JobView>, fs: FsModel, n: int)
    requires
        0 <= n <= jobs.len(),
        forall|i: int|
            0 <= i < jobs.len() ==> (#[trigger] jobs[i]).action == RegressionAction::Reset
                && well_set_up(w, jobs[i], files_before(w, jobs, fs, i)),
    ensures
        perform_all(w, jobs.take(n), fs).0.len() == n,
        forall|i: int|
            0 <= i < n ==> #[trigger] perform_all(w, jobs.take(n), fs).0[i] == StepView::Concluded(
                VerdictView::Finished(OutcomeView::ResetDone),
            ),
        forall|i: int|
            0 <= i < n ==> #[trigger] files_before(w, jobs, fs, i + 1) == after_reset(
                w,
                jobs[i],
                files_before(w, jobs, fs, i),
            ),
    decreases n,
{
    if n > 0 {
        lemma_reset_all(w, jobs, fs, n - 1);
        let k = n - 1;
        lemma_perform_all_prefix(w, jobs, fs, k);
        let fk = files_before(w, jobs, fs, k);
        assert(jobs[k].action == RegressionAction::Reset && well_set_up(w, jobs[k], fk));
        assert(with_action(jobs[k], RegressionAction::Reset) == jobs[k]);
        law_run_after_reset_passes(w, jobs[k], fk);
        assert(files_before(w, jobs, fs, k + 1) == perform_all(w, jobs.take(k + 1), fs).1);
        assert forall|i: int| 0 <= i < n implies #[trigger] perform_all(w, jobs.take(n), fs).0[i]
            == StepView::Concluded(VerdictView::Finished(OutcomeView::ResetDone)) by {
            if i < k {
                assert(perform_all(w, jobs.take(n), fs).0[i] == perform_all(w, jobs.take(k), fs).0[i]);
            }
        }
    }
}

/// A reset over a whole command: when each regression, on the files that
/// the ones before it left, is set up so that its command succeeds and
/// writes neither its configuration nor its expected output, every
/// regression ends with the reset, its expected output then holds what its
/// command wrote to its output, each prints its reset line, and the command
/// ends well.
pub proof fn law_reset_command_resets_every_regression(
    w: WorldModel,
    jobs: Seq<JobView>,
    fs: FsModel,
)
    requires
        forall|i: int|
            0 <= i < jobs.len() ==> (#[trigger] jobs[i]).action == RegressionAction::Reset
                && well_set_up(w, jobs[i], files_before(w, jobs, fs, i)),
    ensures
        perform_all(w, jobs, fs).0.len() == jobs.len(),
        forall|i: int|
            0 <= i < jobs.len() ==> #[trigger] perform_all(w, jobs, fs).0[i] == StepView::Concluded(
                VerdictView::Finished(OutcomeView::ResetDone),
            ),
        forall|i: int|
            0 <= i < jobs.len() ==> (#[trigger] files_before(w, jobs, fs, i + 1)).files[expected_path(
                jobs[i],
                config_at(w, jobs, fs, i),
            )] == after_command(w, jobs[i], files_before(w, jobs, fs, i)).files[result_path(
                jobs[i],
                config_at(w, jobs, fs, i),
            )],
        forall|i: int|
            0 <= i < jobs.len() ==> verdict_text(
                RegressionAction::Reset,
                (#[trigger] jobs[i]).name,
                VerdictView::Finished(OutcomeView::ResetDone),
            ) == seq!["Regression "@ + jobs[i].name + ": \x1b[0;33mreset\x1b[0m"@],
        first_failure_of(verdicts_of(perform_all(w, jobs, fs).0)) is None,
{
    lemma_reset_all(w, jobs, fs, jobs.len() as int);
    assert(jobs.take(jobs.len() as int) =~= jobs);
    assert forall|i: int| 0 <= i < jobs.len() implies (#[trigger] files_before(
        w,
        jobs,
        fs,
        i + 1,
    )).files[expected_path(jobs[i], config_at(w, jobs, fs, i))] == after_command(
        w,
        jobs[i],
        files_before(w, jobs, fs, i),
    ).files[result_path(jobs[i], config_at(w, jobs, fs, i))] by {
        let fi = files_before(w, jobs, fs, i);
        assert(well_set_up(w, jobs[i], fi));
        lemma_reset_keeps_set_up(w, jobs[i], fi);
    }
    let vs = verdicts_of(perform_all(w, jobs, fs).0);
    assert forall|i: int| 0 <= i < vs.len() implies !(#[trigger] vs[i] is Failed) by {
        assert(perform_all(w, jobs, fs).0[i] == StepView::Concluded(
            VerdictView::Finished(OutcomeView::ResetDone),
        ));
    }
    crate::batch::law_command_fails_iff_a_regression_failed(vs);
}

} // verus!
