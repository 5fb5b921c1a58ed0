//! One invocation of the test command as a state machine: build every
//! target in turn, stopping at the first failed build; stop after the builds
//! when only building was asked for; run every build, never stopping at a
//! failed run; then finish with the aggregate outcome.

use vstd::prelude::*;

use crate::config::Triplet;
use crate::dispatch::{native_needs_script_runtime_message, Runtime};
use crate::model::{Error, FAILURE_STATUS, SUCCESS_STATUS};

verus! {

#[derive(Clone, Copy, Debug, PartialEq, Eq, Structural)]
pub enum Phase {
    /// Nothing has happened yet.
    Ready,
    /// Target `i` is being built.
    Building(usize),
    /// Build `i` is being run.
    Running(usize),
    /// The session has ended; it accepts no further event.
    Finished,
}

/// What the caller reports back.
#[derive(Clone, Copy, Debug, PartialEq, Eq, Structural)]
pub enum Event {
    Start,
    Built,
    BuildFailed,
    /// A run ended; `true` when its tests passed.
    Ran(bool),
}

/// What the caller is to do next.
#[derive(Clone, Copy, Debug, PartialEq, Eq, Structural)]
pub enum Action {
    /// Build target `i` with the test profile.
    Build(usize),
    /// Run build `i` on the selected runtime.
    Run(usize),
    /// End the process at once with this status.
    Exit(i32),
    /// End successfully; `true` when an explicit all-passed message is to be
    /// printed, as the run itself showed nothing.
    Succeed(bool),
    /// End with `Error::BuildError`; the toolchain has reported the cause.
    AbortBuild,
}

#[derive(Clone, Copy, Debug, PartialEq, Eq, Structural)]
pub struct Session {
    pub n_targets: usize,
    pub no_run: bool,
    pub announce_pass: bool,
    pub phase: Phase,
    pub any_failure: bool,
}

impl Session {
    pub open spec fn wf(self) -> bool {
        match self.phase {
            Phase::Building(i) => i < self.n_targets,
            Phase::Running(i) => i < self.n_targets,
            _ => true,
        }
    }

    pub open spec fn initial(n_targets: usize, no_run: bool, announce_pass: bool) -> Session {
        Session { n_targets, no_run, announce_pass, phase: Phase::Ready, any_failure: false }
    }

    /// Whether the session is waiting for `e`.
    pub open spec fn expects(self, e: Event) -> bool {
        match self.phase {
            Phase::Ready => e == Event::Start,
            Phase::Building(_) => e == Event::Built || e == Event::BuildFailed,
            Phase::Running(_) => e is Ran,
            Phase::Finished => false,
        }
    }

    /// The end of the session, with the aggregate outcome.
    pub open spec fn finish(self) -> (Session, Action) {
        (
            Session { phase: Phase::Finished, ..self },
            if self.any_failure {
                Action::Exit(FAILURE_STATUS)
            } else {
                Action::Succeed(self.announce_pass)
            },
        )
    }

    /// What follows the last build.
    pub open spec fn after_builds(self) -> (Session, Action) {
        if self.no_run {
            (Session { phase: Phase::Finished, ..self }, Action::Exit(SUCCESS_STATUS))
        } else if self.n_targets > 0 {
            (Session { phase: Phase::Running(0), ..self }, Action::Run(0))
        } else {
            self.finish()
        }
    }

    /// The transition on `e`. An event that the session does not expect is
    /// never given to `step`; here it leaves the session as it is.
    pub open spec fn next(self, e: Event) -> (Session, Action) {
        match (self.phase, e) {
            (Phase::Ready, Event::Start) => if self.n_targets > 0 {
                (Session { phase: Phase::Building(0), ..self }, Action::Build(0))
            } else {
                self.after_builds()
            },
            (Phase::Building(i), Event::Built) => if i + 1 < self.n_targets {
                (
                    Session { phase: Phase::Building((i + 1) as usize), ..self },
                    Action::Build((i + 1) as usize),
                )
            } else {
                self.after_builds()
            },
            (Phase::Building(_), Event::BuildFailed) => (
                Session { phase: Phase::Finished, ..self },
                Action::AbortBuild,
            ),
            (Phase::Running(i), Event::Ran(passed)) => {
                let s = Session { any_failure: self.any_failure || !passed, ..self };
                if i + 1 < self.n_targets {
                    (
                        Session { phase: Phase::Running((i + 1) as usize), ..s },
                        Action::Run((i + 1) as usize),
                    )
                } else {
                    s.finish()
                }
            },
            _ => (self, Action::AbortBuild),
        }
    }

    /// A session for `n_targets` targets. Native WebAssembly can only be
    /// tested on the script runtime: with the browser harness it is a
    /// configuration error, found before anything is built, unless only
    /// building is asked for, which ends before a runtime is needed.
    pub fn new(n_targets: usize, no_run: bool, runtime: Runtime, triplet: Triplet) -> (r: Result<
        Session,
        Error,
    >)
        ensures
            r is Err <==> (triplet == Triplet::WasmNative && runtime == Runtime::Browser
                && !no_run),
            r is Err ==> r->Err_0.is_configuration_error(native_needs_script_runtime_message()),
            r is Ok ==> r->Ok_0 == Session::initial(
                n_targets,
                no_run,
                triplet == Triplet::WasmNative && runtime == Runtime::Script,
            ),
    {
        if triplet == Triplet::WasmNative && runtime == Runtime::Browser && !no_run {
            return Err(
                Error::ConfigurationError(
                    String::from_str(
                        "running tests for the native wasm target is currently only supported with `--nodejs`",
                    ),
                ),
            );
        }
        Ok(
            Session {
                n_targets,
                no_run,
                announce_pass: triplet == Triplet::WasmNative && runtime == Runtime::Script,
                phase: Phase::Ready,
                any_failure: false,
            },
        )
    }

    pub fn is_finished(&self) -> (r: bool)
        ensures
            r == (self.phase == Phase::Finished),
    {
        self.phase == Phase::Finished
    }

    fn finish_exec(&mut self) -> (a: Action)
        ensures
            (*final(self), a) == old(self).finish(),
    {
        self.phase = Phase::Finished;
        if self.any_failure {
            Action::Exit(FAILURE_STATUS)
        } else {
            Action::Succeed(self.announce_pass)
        }
    }

    fn after_builds_exec(&mut self) -> (a: Action)
        ensures
            (*final(self), a) == old(self).after_builds(),
    {
        if self.no_run {
            self.phase = Phase::Finished;
            Action::Exit(SUCCESS_STATUS)
        } else if self.n_targets > 0 {
            self.phase = Phase::Running(0);
            Action::Run(0)
        } else {
            self.finish_exec()
        }
    }

    /// Takes the event that the caller reports and gives the next action.
    pub fn step(&mut self, e: Event) -> (a: Action)
        requires
            old(self).wf(),
            old(self).expects(e),
        ensures
            (*final(self), a) == old(self).next(e),
            final(self).wf(),
    {
        match (self.phase, e) {
            (Phase::Ready, Event::Start) => {
                if self.n_targets > 0 {
                    self.phase = Phase::Building(0);
                    Action::Build(0)
                } else {
                    self.after_builds_exec()
                }
            },
            (Phase::Building(i), Event::Built) => {
                if i + 1 < self.n_targets {
                    self.phase = Phase::Building(i + 1);
                    Action::Build(i + 1)
                } else {
                    self.after_builds_exec()
                }
            },
            (Phase::Building(_), Event::BuildFailed) => {
                self.phase = Phase::Finished;
                Action::AbortBuild
            },
            (Phase::Running(i), Event::Ran(passed)) => {
                self.any_failure = self.any_failure || !passed;
                if i + 1 < self.n_targets {
                    self.phase = Phase::Running(i + 1);
                    Action::Run(i + 1)
                } else {
                    self.finish_exec()
                }
            },
            _ => Action::AbortBuild,
        }
    }
}

/// The session and the actions after the events `evs`, taken in order.
pub open spec fn run(s: Session, evs: Seq<Event>) -> (Session, Seq<Action>)
    decreases evs.len(),
{
    if evs.len() == 0 {
        (s, seq![])
    } else {
        let (s1, acts) = run(s, evs.drop_last());
        let (s2, a) = s1.next(evs.last());
        (s2, acts.push(a))
    }
}

/// Whether the session waits for each of `evs` in turn.
pub open spec fn accepts(s: Session, evs: Seq<Event>) -> bool
    decreases evs.len(),
{
    if evs.len() == 0 {
        true
    } else {
        accepts(s, evs.drop_last()) && run(s, evs.drop_last()).0.expects(evs.last())
    }
}

/// The start, then `k` successful builds.
pub open spec fn build_events(k: nat) -> Seq<Event> {
    seq![Event::Start] + Seq::new(k, |_i: int| Event::Built)
}

/// One finished run per outcome.
pub open spec fn run_events(outcomes: Seq<bool>) -> Seq<Event> {
    Seq::new(outcomes.len(), |j: int| Event::Ran(outcomes[j]))
}

pub open spec fn builds_upto(k: nat) -> Seq<Action> {
    Seq::new(k, |j: int| Action::Build(j as usize))
}

pub open spec fn runs_upto(k: nat) -> Seq<Action> {
    Seq::new(k, |j: int| Action::Run(j as usize))
}

/// Whether one of the first `m` runs failed.
pub open spec fn failed_before(outcomes: Seq<bool>, m: int) -> bool {
    exists|j: int| 0 <= j < m && !outcomes[j]
}

proof fn lemma_build_prefix(s: Session, k: nat)
    requires
        s.phase == Phase::Ready,
        k < s.n_targets,
    ensures
        accepts(s, build_events(k)),
        run(s, build_events(k)) == (
            Session { phase: Phase::Building(k as usize), ..s },
            builds_upto(k + 1),
        ),
    decreases k,
{
    if k == 0 {
        assert(build_events(0).drop_last() =~= seq![]);
        assert(build_events(0).last() == Event::Start);
        assert(accepts(s, seq![]));
        assert(run(s, seq![]) == (s, Seq::<Action>::empty()));
        assert(builds_upto(1) =~= seq![Action::Build(0)]);
    } else {
        lemma_build_prefix(s, (k - 1) as nat);
        assert(build_events(k).drop_last() =~= build_events((k - 1) as nat));
        assert(build_events(k).last() == Event::Built);
        assert(builds_upto(k).push(Action::Build(k as usize)) =~= builds_upto(k + 1));
    }
}

proof fn lemma_all_built(s: Session)
    requires
        s.phase == Phase::Ready,
    ensures
        accepts(s, build_events(s.n_targets as nat)),
        run(s, build_events(s.n_targets as nat)) == (
            s.after_builds().0,
            builds_upto(s.n_targets as nat).push(s.after_builds().1),
        ),
{
    let n = s.n_targets as nat;
    if n == 0 {
        assert(build_events(0).drop_last() =~= seq![]);
        assert(build_events(0).last() == Event::Start);
        assert(accepts(s, seq![]));
        assert(run(s, seq![]) == (s, Seq::<Action>::empty()));
        assert(builds_upto(0).push(s.after_builds().1) =~= seq![s.after_builds().1]);
    } else {
        lemma_build_prefix(s, (n - 1) as nat);
        assert(build_events(n).drop_last() =~= build_events((n - 1) as nat));
        assert(build_events(n).last() == Event::Built);
    }
}

/// Builds stop at the first failure: when targets `0..k` build and target
/// `k` fails, exactly those builds are asked for, the command ends with the
/// build error, and no further build is ever asked for.
pub proof fn lemma_fail_fast(n_targets: usize, no_run: bool, announce_pass: bool, k: nat)
    requires
        k < n_targets,
    ensures
        ({
            let s = Session::initial(n_targets, no_run, announce_pass);
            let evs = build_events(k).push(Event::BuildFailed);
            &&& accepts(s, evs)
            &&& run(s, evs).1 == builds_upto(k + 1).push(Action::AbortBuild)
            &&& forall|e: Event| !run(s, evs).0.expects(e)
        }),
{
    let s = Session::initial(n_targets, no_run, announce_pass);
    lemma_build_prefix(s, k);
    assert(build_events(k).push(Event::BuildFailed).drop_last() =~= build_events(k));
}

/// With only building asked for, the command ends with the success status
/// right after the last build, and nothing is run.
pub proof fn lemma_build_only(n_targets: usize, announce_pass: bool)
    ensures
        ({
            let s = Session::initial(n_targets, true, announce_pass);
            let evs = build_events(n_targets as nat);
            &&& accepts(s, evs)
            &&& run(s, evs).1 == builds_upto(n_targets as nat).push(Action::Exit(SUCCESS_STATUS))
            &&& forall|e: Event| !run(s, evs).0.expects(e)
        }),
{
    lemma_all_built(Session::initial(n_targets, true, announce_pass));
}

proof fn lemma_run_prefix(s: Session, outcomes: Seq<bool>, m: nat)
    requires
        s == Session::initial(s.n_targets, false, s.announce_pass),
        outcomes.len() == s.n_targets,
        m < s.n_targets,
    ensures
        accepts(s, build_events(s.n_targets as nat) + run_events(outcomes.take(m as int))),
        run(s, build_events(s.n_targets as nat) + run_events(outcomes.take(m as int))) == (
            Session {
                phase: Phase::Running(m as usize),
                any_failure: failed_before(outcomes, m as int),
                ..s
            },
            builds_upto(s.n_targets as nat) + runs_upto(m + 1),
        ),
    decreases m,
{
    let n = s.n_targets as nat;
    lemma_all_built(s);
    if m == 0 {
        assert(build_events(n) + run_events(outcomes.take(0)) =~= build_events(n));
        assert(builds_upto(n).push(Action::Run(0)) =~= builds_upto(n) + runs_upto(1));
    } else {
        lemma_run_prefix(s, outcomes, (m - 1) as nat);
        let evs = build_events(n) + run_events(outcomes.take(m as int));
        assert(evs.drop_last() =~= build_events(n) + run_events(outcomes.take(m - 1)));
        assert(evs.last() == Event::Ran(outcomes[m - 1]));
        assert((builds_upto(n) + runs_upto(m as nat)).push(Action::Run(m as usize)) =~= builds_upto(
            n,
        ) + runs_upto(m + 1));
        assert(failed_before(outcomes, m as int) == (failed_before(outcomes, m - 1)
            || !outcomes[m - 1]));
    }
}

/// A finished run is folded into the aggregate outcome: a failure always
/// sets it, and a pass never clears an earlier failure.
pub proof fn lemma_run_outcome(s: Session, passed: bool)
    requires
        s.phase is Running,
    ensures
        s.next(Event::Ran(passed)).0.any_failure == (s.any_failure || !passed),
{
}

/// Runs never stop at a failure, and the outcome is the disjunction of all
/// of them: after every target is built and run, the command ends with the
/// failure status exactly when some run failed, and a later pass never
/// clears an earlier failure.
pub proof fn lemma_aggregate(n_targets: usize, announce_pass: bool, outcomes: Seq<bool>)
    requires
        outcomes.len() == n_targets,
        n_targets > 0,
    ensures
        ({
            let s = Session::initial(n_targets, false, announce_pass);
            let evs = build_events(n_targets as nat) + run_events(outcomes);
            let r = run(s, evs);
            &&& accepts(s, evs)
            &&& r.0.any_failure == failed_before(outcomes, n_targets as int)
            &&& r.1 == builds_upto(n_targets as nat) + runs_upto(n_targets as nat) + seq![
                if failed_before(outcomes, n_targets as int) {
                    Action::Exit(FAILURE_STATUS)
                } else {
                    Action::Succeed(announce_pass)
                },
            ]
            &&& forall|e: Event| !r.0.expects(e)
        }),
{
    let s = Session::initial(n_targets, false, announce_pass);
    let n = n_targets as nat;
    let m = (n - 1) as nat;
    lemma_run_prefix(s, outcomes, m);
    let evs = build_events(n) + run_events(outcomes);
    assert(outcomes.take(n as int) =~= outcomes);
    assert(evs.drop_last() =~= build_events(n) + run_events(outcomes.take(m as int)));
    assert(evs.last() == Event::Ran(outcomes[m as int]));
    assert(failed_before(outcomes, n as int) == (failed_before(outcomes, m as int)
        || !outcomes[m as int]));
    let last = if failed_before(outcomes, n as int) {
        Action::Exit(FAILURE_STATUS)
    } else {
        Action::Succeed(announce_pass)
    };
    assert((builds_upto(n) + runs_upto(n)).push(last) =~= builds_upto(n) + runs_upto(n)
        + seq![last]);
}

} // verus!
