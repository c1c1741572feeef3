//! A command over several regressions: what is printed for each, and the
//! command's overall result.

use vstd::prelude::*;
use crate::report::{description_lines, description_text, failure_line, failure_text, status_line, status_text};
use crate::session::{ErrorView, Outcome, OutcomeView, RegressionAction, RegressionError, Verdict, VerdictView};
use crate::text::string_views;

verus! {

/// The lines printed for the verdict of the regression `name`: the
/// description for `Describe`; the status line, followed by the comparison's
/// output where differences were found; the error line for a failure.
pub open spec fn verdict_text(action: RegressionAction, name: Seq<char>, v: VerdictView) -> Seq<
    Seq<char>,
> {
    match v {
        VerdictView::Finished(o) => match o {
            OutcomeView::Described(c) => description_text(name, c),
            OutcomeView::DifferencesFound(out) => seq![status_text(name, o), out],
            _ => seq![status_text(name, o)],
        },
        VerdictView::Failed(e) => seq![failure_text(action, name, e)],
    }
}

/// The overall state of a command: the action it performs and the first
/// error that one of its regressions ended with.
pub struct Batch {
    action: RegressionAction,
    first_failure: Option<RegressionError>,
}

pub struct BatchView {
    pub action: RegressionAction,
    pub first_failure: Option<ErrorView>,
}

impl View for Batch {
    type V = BatchView;

    closed spec fn view(&self) -> BatchView {
        BatchView {
            action: self.action,
            first_failure: match self.first_failure {
                Some(e) => Some(e@),
                None => None,
            },
        }
    }
}

/// The first failure after one more verdict.
pub open spec fn after_verdict(first: Option<ErrorView>, v: VerdictView) -> Option<ErrorView> {
    match first {
        Some(e) => Some(e),
        None => match v {
            VerdictView::Failed(e) => Some(e),
            _ => None,
        },
    }
}

impl Batch {
    /// A command performing `action`, before any regression.
    pub fn new(action: RegressionAction) -> (b: Batch)
        ensures
            b@ == (BatchView { action, first_failure: None }),
    {
        Batch { action, first_failure: None }
    }

    /// Takes the verdict of the regression `name` into account and gives the
    /// lines to print for it.
    pub fn record(&mut self, name: &str, verdict: Verdict) -> (lines: Vec<String>)
        ensures
            final(self)@ == (BatchView {
                action: old(self)@.action,
                first_failure: after_verdict(old(self)@.first_failure, verdict@),
            }),
            string_views(lines@) == verdict_text(old(self)@.action, name@, verdict@),
    {
        match verdict {
            Verdict::Finished(Outcome::Described(c)) => description_lines(name, &c),
            Verdict::Finished(Outcome::DifferencesFound(out)) => {
                let mut lines: Vec<String> = Vec::new();
                lines.push(status_line(name, &Outcome::DifferencesFound(String::new())));
                lines.push(out);
                assert(string_views(lines@) =~= verdict_text(
                    old(self)@.action,
                    name@,
                    verdict@,
                ));
                lines
            },
            Verdict::Finished(o) => {
                let mut lines: Vec<String> = Vec::new();
                lines.push(status_line(name, &o));
                assert(string_views(lines@) =~= verdict_text(
                    old(self)@.action,
                    name@,
                    verdict@,
                ));
                lines
            },
            Verdict::Failed(e) => {
                let mut lines: Vec<String> = Vec::new();
                lines.push(failure_line(self.action, name, &e));
                assert(string_views(lines@) =~= verdict_text(
                    old(self)@.action,
                    name@,
                    verdict@,
                ));
                if self.first_failure.is_none() {
                    self.first_failure = Some(e);
                }
                lines
            },
        }
    }

    /// The command's result: the first error that a regression ended with,
    /// or success where every regression ended well.
    pub fn finish(self) -> (res: Result<(), RegressionError>)
        ensures
            match res {
                Ok(_) => self@.first_failure is None,
                Err(e) => self@.first_failure == Some(e@),
            },
    {
        match self.first_failure {
            Some(e) => Err(e),
            None => Ok(()),
        }
    }
}

/// A command succeeds exactly when none of its regressions failed, and
/// otherwise reports the first failure; later verdicts do not change it.
pub proof fn law_first_failure_is_kept(first: Option<ErrorView>, v: VerdictView)
    ensures
        first is Some ==> after_verdict(first, v) == first,
        first is None ==> (after_verdict(first, v) is Some <==> v is Failed),
{
}

/// The first failure among the verdicts `vs`, taken one after another.
pub open spec fn first_failure_of(vs: Seq<VerdictView>) -> Option<ErrorView>
    decreases vs.len(),
{
    if vs.len() == 0 {
        None
    } else {
        after_verdict(first_failure_of(vs.drop_last()), vs.last())
    }
}

/// Over a whole command, the result is an error exactly when some
/// regression failed, and the error is that of the first one that failed.
pub proof fn law_command_fails_iff_a_regression_failed(vs: Seq<VerdictView>)
    ensures
        first_failure_of(vs) is Some <==> exists|i: int| 0 <= i < vs.len() && #[trigger] vs[i] is Failed,
        first_failure_of(vs) matches Some(e) ==> exists|i: int|
            0 <= i < vs.len() && #[trigger] vs[i] == VerdictView::Failed(e) && forall|j: int|
                0 <= j < i ==> !(#[trigger] vs[j] is Failed),
    decreases vs.len(),
{
    if vs.len() > 0 {
        let prev = vs.drop_last();
        law_command_fails_iff_a_regression_failed(prev);
        assert forall|i: int| 0 <= i < prev.len() implies prev[i] == vs[i] by {}
        if first_failure_of(prev) is Some {
            let e = first_failure_of(prev)->0;
            let i = choose|i: int|
                0 <= i < prev.len() && #[trigger] prev[i] == VerdictView::Failed(e) && forall|j: int|
                    0 <= j < i ==> !(#[trigger] prev[j] is Failed);
            assert(vs[i] == VerdictView::Failed(e));
            assert forall|j: int| 0 <= j < i implies !(#[trigger] vs[j] is Failed) by {
                assert(vs[j] == prev[j]);
            }
        } else {
            let k = vs.len() - 1;
            if vs.last() is Failed {
                assert(vs[k] is Failed);
                assert forall|j: int| 0 <= j < k implies !(#[trigger] vs[j] is Failed) by {
                    assert(vs[j] == prev[j]);
                }
            } else {
                assert forall|i: int| 0 <= i < vs.len() implies !(#[trigger] vs[i] is Failed) by {
                    if i < k {
                        assert(vs[i] == prev[i]);
                    }
                }
            }
        }
    }
}

/// The lines printed for a finished regression begin with the status line
/// of that very outcome; a description is that line followed by the
/// settings, and a found difference is followed by the comparison's output.
pub proof fn law_first_line_is_the_outcome_status(
    action: RegressionAction,
    name: Seq<char>,
    o: OutcomeView,
)
    ensures
        verdict_text(action, name, VerdictView::Finished(o)).len() >= 1,
        verdict_text(action, name, VerdictView::Finished(o))[0] == status_text(name, o),
        !(o is Described) && !(o is DifferencesFound) ==> verdict_text(
            action,
            name,
            VerdictView::Finished(o),
        ) == seq![status_text(name, o)],
        o is DifferencesFound ==> verdict_text(action, name, VerdictView::Finished(o)) == seq![
            status_text(name, o),
            o->DifferencesFound_0,
        ],
{
}

/// The word that a status line gives an outcome, after the name.
pub open spec fn status_suffix(o: OutcomeView) -> Seq<char> {
    match o {
        OutcomeView::Described(_) => "\x1b[0m"@,
        OutcomeView::Passed => ": \x1b[0;32mpassed\x1b[0m"@,
        OutcomeView::Failed => ": \x1b[0;31mfailed\x1b[0m"@,
        OutcomeView::ResetDone => ": \x1b[0;33mreset\x1b[0m"@,
        OutcomeView::NoDifferences => ": \x1b[0;32mno differences\x1b[0m"@,
        OutcomeView::DifferencesFound(_) => ": \x1b[0;31mdifferences found\x1b[0m"@,
    }
}

/// Outcomes of different kinds print different status lines for the same
/// regression: a line tells which outcome it reports.
pub proof fn law_status_lines_tell_outcomes_apart(name: Seq<char>, o1: OutcomeView, o2: OutcomeView)
    requires
        !(o1 is Described),
        !(o2 is Described),
        status_text(name, o1) == status_text(name, o2),
    ensures
        o1 is Passed <==> o2 is Passed,
        o1 is Failed <==> o2 is Failed,
        o1 is ResetDone <==> o2 is ResetDone,
        o1 is NoDifferences <==> o2 is NoDifferences,
        o1 is DifferencesFound <==> o2 is DifferencesFound,
{
    reveal_strlit("Regression ");
    reveal_strlit(": \x1b[0;32mpassed\x1b[0m");
    reveal_strlit(": \x1b[0;31mfailed\x1b[0m");
    reveal_strlit(": \x1b[0;33mreset\x1b[0m");
    reveal_strlit(": \x1b[0;32mno differences\x1b[0m");
    reveal_strlit(": \x1b[0;31mdifferences found\x1b[0m");
    let p = "Regression "@ + name;
    let t1 = status_text(name, o1);
    assert(t1 == p + status_suffix(o1));
    assert(status_text(name, o2) == p + status_suffix(o2));
    assert(t1.subrange(p.len() as int, t1.len() as int) =~= status_suffix(o1));
    assert(t1.subrange(p.len() as int, t1.len() as int) =~= status_suffix(o2));
    let (s1, s2) = (status_suffix(o1), status_suffix(o2));
    assert(s1.len() == s2.len());
    assert(s1[9] == s2[9]);
    assert(s1[6] == s2[6]);
}

} // verus!
