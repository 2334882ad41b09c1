use crate::model::{TestResult, TestResultKind};
use crate::template::{subst_from, substitute_vars, vars_view};
use vstd::prelude::*;
use vstd::string::StringExecFns;

verus! {

/// The test cases to run, in the suite's order: those of `all` that `wanted`
/// names, or every one of them when `wanted` is empty.
pub open spec fn spec_selected(all: Seq<Seq<char>>, wanted: Seq<Seq<char>>) -> Seq<Seq<char>> {
    if wanted.len() == 0 {
        all
    } else {
        all.filter(|t: Seq<char>| wanted.contains(t))
    }
}

pub open spec fn views(v: Seq<String>) -> Seq<Seq<char>> {
    v.map_values(|s: String| s@)
}

fn names(wanted: &Vec<String>, t: &String) -> (r: bool)
    ensures
        r == views(wanted@).contains(t@),
{
    let mut i: usize = 0;
    while i < wanted.len()
        invariant
            0 <= i <= wanted@.len(),
            forall|k: int| 0 <= k < i ==> views(wanted@)[k] != t@,
        decreases wanted@.len() - i,
    {
        if wanted[i] == *t {
            assert(views(wanted@)[i as int] == t@);
            return true;
        }
        i = i + 1;
    }
    false
}

/// Picks the test cases a job runs.
pub fn select_tests(all: &Vec<String>, wanted: &Vec<String>) -> (r: Vec<String>)
    ensures
        views(r@) == spec_selected(views(all@), views(wanted@)),
{
    let mut r: Vec<String> = Vec::new();
    let mut i: usize = 0;
    let ghost pick = |t: Seq<char>| views(wanted@).contains(t);
    while i < all.len()
        invariant
            0 <= i <= all@.len(),
            pick == (|t: Seq<char>| views(wanted@).contains(t)),
            views(r@) == (if wanted@.len() == 0 {
                views(all@).subrange(0, i as int)
            } else {
                views(all@).subrange(0, i as int).filter(pick)
            }),
        decreases all@.len() - i,
    {
        let ghost before = views(all@).subrange(0, i as int);
        let ghost r0 = views(r@);
        let take = wanted.len() == 0 || names(wanted, &all[i]);
        if take {
            r.push(all[i].clone());
        }
        proof {
            let after = views(all@).subrange(0, i + 1);
            assert(after =~= before.push(views(all@)[i as int]));
            before.lemma_filter_push(views(all@)[i as int], pick);
            assert(take == (wanted@.len() == 0 || pick(views(all@)[i as int])));
            if take {
                assert(views(r@) =~= r0.push(all@[i as int]@));
            } else {
                assert(views(r@) =~= r0);
            }
        }
        i = i + 1;
    }
    proof {
        assert(views(all@).subrange(0, all@.len() as int) =~= views(all@));
    }
    r
}

/// The verdict of a test case whose steps all ran, from their return codes:
/// accepted when every step exited with 0, a runtime error otherwise.
pub fn test_verdict(ret_codes: &Vec<i32>) -> (r: TestResultKind)
    ensures
        (forall|i: int| 0 <= i < ret_codes@.len() ==> ret_codes@[i] == 0) ==> r
            == TestResultKind::Accepted,
        !(forall|i: int| 0 <= i < ret_codes@.len() ==> ret_codes@[i] == 0) ==> r
            == TestResultKind::RuntimeError,
{
    let mut i: usize = 0;
    while i < ret_codes.len()
        invariant
            0 <= i <= ret_codes@.len(),
            forall|k: int| 0 <= k < i ==> ret_codes@[k] == 0,
        decreases ret_codes@.len() - i,
    {
        if ret_codes[i] != 0 {
            return TestResultKind::RuntimeError;
        }
        i = i + 1;
    }
    TestResultKind::Accepted
}

/// The variables a test case's steps see: `test`, the case's name.
pub open spec fn test_vars(test: Seq<char>) -> Seq<(Seq<char>, Seq<char>)> {
    seq![("test"@, test)]
}

fn test_vars_exec(test: &String) -> (r: Vec<(String, String)>)
    ensures
        vars_view(r@) == test_vars(test@),
{
    let mut r: Vec<(String, String)> = Vec::new();
    r.push((String::from_str("test"), test.clone()));
    assert(vars_view(r@) =~= test_vars(test@));
    r
}

/// How one step of a test case went.
pub enum StepOutcome {
    /// The step ran and exited with this code.
    Exited(i32),
    /// The step could not be run at all.
    Failed(String),
}

/// The next thing the executor does.
pub enum ExecAction {
    /// Run `command` (a step with its placeholders filled) for `test_id`,
    /// with `vars` in its environment.
    Run { test_id: String, command: String, vars: Vec<(String, String)> },
    /// Test case `test_id` is complete: send its result.
    Report { test_id: String, result: TestResult },
    /// Nothing more to run.
    Done,
}

/// The executor of a suite: runs each selected test case's steps in order,
/// stops a case at its first failing step, reports each case as it
/// completes, and issues nothing new once cancelled.
pub struct SuiteExecution {
    tests: Vec<String>,
    steps: Vec<String>,
    test: usize,
    step: usize,
    codes: Vec<i32>,
    pending: Option<TestResult>,
}

impl SuiteExecution {
    pub closed spec fn tests(&self) -> Seq<Seq<char>> {
        views(self.tests@)
    }

    pub closed spec fn steps(&self) -> Seq<Seq<char>> {
        views(self.steps@)
    }

    /// The index of the test case under way.
    pub closed spec fn test_index(&self) -> int {
        self.test as int
    }

    /// The index of its next step.
    pub closed spec fn step_index(&self) -> int {
        self.step as int
    }

    /// The result of the current case once it is decided.
    pub closed spec fn pending(&self) -> Option<TestResult> {
        self.pending
    }

    pub closed spec fn wf(&self) -> bool {
        &&& self.test <= self.tests@.len()
        &&& self.step <= self.steps@.len()
        &&& self.pending is None ==> self.test < self.tests@.len() || self.step == 0
        &&& self.pending is Some ==> self.test < self.tests@.len()
        &&& self.pending is None ==> forall|k: int| 0 <= k < self.codes@.len() ==> self.codes@[k] == 0
    }

    /// An executor of the steps `steps` over the test cases `tests`.
    pub fn new(tests: Vec<String>, steps: Vec<String>) -> (r: SuiteExecution)
        ensures
            r.wf(),
            r.tests() == views(tests@),
            r.steps() == views(steps@),
            r.test_index() == 0,
            r.step_index() == 0,
            r.pending() is None,
    {
        SuiteExecution { tests, steps, test: 0, step: 0, codes: Vec::new(), pending: None }
    }

    /// The next thing to do; `cancelled` says whether the job was cancelled.
    pub fn next(&mut self, cancelled: bool) -> (r: ExecAction)
        requires
            old(self).wf(),
        ensures
            final(self).wf(),
            final(self).tests() == old(self).tests(),
            final(self).steps() == old(self).steps(),
            old(self).pending() is Some ==> {
                &&& r is Report
                &&& r->Report_test_id@ == old(self).tests()[old(self).test_index()]
                &&& r->Report_result == old(self).pending()->Some_0
                &&& final(self).test_index() == old(self).test_index() + 1
                &&& final(self).step_index() == 0
                &&& final(self).pending() is None
            },
            old(self).pending() is None && (cancelled || old(self).test_index() >= old(
                self,
            ).tests().len()) ==> r is Done && final(self).test_index() == old(self).test_index(),
            old(self).pending() is None && !cancelled && old(self).test_index() < old(
                self,
            ).tests().len() && old(self).step_index() >= old(self).steps().len() ==> {
                &&& r is Report
                &&& r->Report_test_id@ == old(self).tests()[old(self).test_index()]
                &&& r->Report_result == (TestResult { kind: TestResultKind::Accepted, message: None })
                &&& final(self).test_index() == old(self).test_index() + 1
                &&& final(self).step_index() == 0
            },
            old(self).pending() is None && !cancelled && old(self).test_index() < old(
                self,
            ).tests().len() && old(self).step_index() < old(self).steps().len() ==> {
                &&& r is Run
                &&& r->Run_test_id@ == old(self).tests()[old(self).test_index()]
                &&& vars_view(r->Run_vars@) == test_vars(r->Run_test_id@)
                &&& r->Run_command@ == subst_from(
                    old(self).steps()[old(self).step_index()],
                    0,
                    test_vars(r->Run_test_id@),
                )
                &&& *final(self) == *old(self)
            },
    {
        if let Some(result) = self.pending.take() {
            let n = self.tests.len();
            assert(self.test < n);
            let test_id = self.tests[self.test].clone();
            self.test = self.test + 1;
            self.step = 0;
            self.codes = Vec::new();
            return ExecAction::Report { test_id, result };
        }
        if cancelled || self.test >= self.tests.len() {
            return ExecAction::Done;
        }
        let test_id = self.tests[self.test].clone();
        if self.step >= self.steps.len() {
            self.test = self.test + 1;
            self.step = 0;
            self.codes = Vec::new();
            return ExecAction::Report {
                test_id,
                result: TestResult { kind: TestResultKind::Accepted, message: None },
            };
        }
        let vars = test_vars_exec(&test_id);
        let command = substitute_vars(self.steps[self.step].as_str(), &vars);
        ExecAction::Run { test_id, command, vars }
    }

    /// Takes how the step just run went: a non-zero exit ends the case with
    /// its verdict, a step that could not run ends it as a pipeline failure,
    /// and otherwise the case goes on to its next step.
    pub fn record(&mut self, outcome: StepOutcome)
        requires
            old(self).wf(),
            old(self).pending() is None,
            old(self).test_index() < old(self).tests().len(),
            old(self).step_index() < old(self).steps().len(),
        ensures
            final(self).wf(),
            final(self).tests() == old(self).tests(),
            final(self).steps() == old(self).steps(),
            final(self).test_index() == old(self).test_index(),
            final(self).step_index() == old(self).step_index() + 1,
            (match outcome {
                StepOutcome::Exited(c) => if c == 0 {
                    final(self).pending() is None
                } else {
                    final(self).pending() == Some(
                        TestResult { kind: TestResultKind::RuntimeError, message: None },
                    )
                },
                StepOutcome::Failed(e) => final(self).pending() == Some(
                    TestResult { kind: TestResultKind::PipelineFailed, message: Some(e) },
                ),
            }),
    {
        let m = self.steps.len();
        assert(self.step < m);
        self.step = self.step + 1;
        match outcome {
            StepOutcome::Exited(c) => {
                self.codes.push(c);
                assert(self.codes@[self.codes@.len() - 1] == c);
                if c != 0 {
                    let kind = test_verdict(&self.codes);
                    self.pending = Some(TestResult { kind, message: None });
                }
            },
            StepOutcome::Failed(e) => {
                self.pending = Some(TestResult { kind: TestResultKind::PipelineFailed, message: Some(e) });
            },
        }
    }
}

} // verus!
