use vstd::prelude::*;
use crate::context::RuntimeError;
use crate::phase::{Phase, EXIT_SUCCESS, EXIT_DETECT_FAILED, EXIT_TEST_FAILED};

verus! {

/// Outcome of the buildpack's detect phase.
#[derive(Debug)]
pub enum DetectOutcome<BP> {
    /// Detection passed, with the build plan to write.
    Pass(BP),
    /// Detection failed.
    Fail,
}

/// Status of a single test, or of a whole test run.
#[derive(Clone, Copy, Debug, PartialEq, Eq, Structural)]
pub enum TestStatus {
    Pass,
    Fail,
    Ready,
    Ignore,
}

/// One test with its description and status.
#[derive(Debug)]
pub struct TestResult {
    pub desc: &'static str,
    pub status: TestStatus,
}

impl TestResult {
    pub fn new(desc: &'static str, status: TestStatus) -> (r: TestResult)
        ensures
            r.desc@ == desc@,
            r.status == status,
    {
        TestResult { desc, status }
    }
}

/// Results of a test run, partitioned by outcome, with an overall status.
#[derive(Debug)]
pub struct TestResults {
    pub passed: Vec<TestResult>,
    pub failed: Vec<TestResult>,
    pub ignored: Vec<TestResult>,
    pub status: TestStatus,
}

impl TestResults {
    /// No results yet, status `Ready`.
    pub fn new() -> (r: TestResults)
        ensures
            r.passed@.len() == 0,
            r.failed@.len() == 0,
            r.ignored@.len() == 0,
            r.status == TestStatus::Ready,
    {
        TestResults { passed: Vec::new(), failed: Vec::new(), ignored: Vec::new(), status: TestStatus::Ready }
    }
}

/// Outcome of the buildpack's test phase.
#[derive(Debug)]
pub enum TestOutcome {
    Pass(TestResults),
    Fail(TestResults),
}

/// What the runtime does after a phase function returned.
#[derive(Debug)]
pub enum Conclusion<D, E> {
    /// Write `document`, then exit with `exit_code`.
    Persist { document: D, exit_code: i32 },
    /// Exit with this code, writing nothing.
    Exit(i32),
    /// Hand the error to the error handler and exit with its code.
    Handle(RuntimeError<E>),
    /// Return normally, which ends the process with code 0.
    Return,
}

/// Detect: a pass persists the build plan then exits 0; a fail exits 100.
pub open spec fn detect_conclusion<BP, E>(r: Result<DetectOutcome<BP>, E>) -> Conclusion<BP, E> {
    match r {
        Ok(DetectOutcome::Pass(plan)) => Conclusion::Persist { document: plan, exit_code: 0 },
        Ok(DetectOutcome::Fail) => Conclusion::Exit(100),
        Err(e) => Conclusion::Handle(RuntimeError::BuildpackError(e)),
    }
}

pub fn conclude_detect<BP, E>(r: Result<DetectOutcome<BP>, E>) -> (c: Conclusion<BP, E>)
    ensures
        c == detect_conclusion(r),
{
    match r {
        Ok(DetectOutcome::Pass(plan)) => Conclusion::Persist { document: plan, exit_code: EXIT_SUCCESS },
        Ok(DetectOutcome::Fail) => Conclusion::Exit(EXIT_DETECT_FAILED),
        Err(e) => Conclusion::Handle(RuntimeError::BuildpackError(e)),
    }
}

/// Test: both outcomes persist their results; a pass then exits 0, a fail 1.
pub open spec fn test_conclusion<E>(r: Result<TestOutcome, E>) -> Conclusion<TestResults, E> {
    match r {
        Ok(TestOutcome::Pass(res)) => Conclusion::Persist { document: res, exit_code: 0 },
        Ok(TestOutcome::Fail(res)) => Conclusion::Persist { document: res, exit_code: 1 },
        Err(e) => Conclusion::Handle(RuntimeError::BuildpackError(e)),
    }
}

pub fn conclude_test<E>(r: Result<TestOutcome, E>) -> (c: Conclusion<TestResults, E>)
    ensures
        c == test_conclusion(r),
{
    match r {
        Ok(TestOutcome::Pass(res)) => Conclusion::Persist { document: res, exit_code: EXIT_SUCCESS },
        Ok(TestOutcome::Fail(res)) => Conclusion::Persist { document: res, exit_code: EXIT_TEST_FAILED },
        Err(e) => Conclusion::Handle(RuntimeError::BuildpackError(e)),
    }
}

/// Build and publish: success returns normally, an error goes to the handler.
pub fn conclude_plain<E>(r: Result<(), E>) -> (c: Conclusion<(), E>)
    ensures
        match r {
            Ok(_) => c == Conclusion::<(), E>::Return,
            Err(e) => c == Conclusion::<(), E>::Handle(RuntimeError::BuildpackError(e)),
        },
{
    match r {
        Ok(_) => Conclusion::Return,
        Err(e) => Conclusion::Handle(RuntimeError::BuildpackError(e)),
    }
}

/// After a `Persist`: the pending exit code if the write succeeded, else the
/// write error of the phase (build plan for detect, test results otherwise).
pub open spec fn persisted<E>(phase: Phase, exit_code: i32, written: Result<(), String>) -> Result<i32, RuntimeError<E>> {
    match written {
        Ok(_) => Ok(exit_code),
        Err(cause) => if phase == Phase::Detect {
            Err(RuntimeError::CannotWriteBuildPlan(cause))
        } else {
            Err(RuntimeError::CannotWriteTestResults(cause))
        },
    }
}

pub fn after_persist<E>(phase: Phase, exit_code: i32, written: Result<(), String>) -> (r: Result<i32, RuntimeError<E>>)
    ensures
        r == persisted::<E>(phase, exit_code, written),
{
    match written {
        Ok(_) => Ok(exit_code),
        Err(cause) => match phase {
            Phase::Detect => Err(RuntimeError::CannotWriteBuildPlan(cause)),
            _ => Err(RuntimeError::CannotWriteTestResults(cause)),
        },
    }
}

pub open spec fn persist_then_exit<D, E>(document: D, exit_code: i32) -> Conclusion<D, E> {
    Conclusion::Persist { document, exit_code }
}

/// Detect: a pass writes exactly the plan it carries and, once written, exits
/// 0; a fail exits 100 and writes nothing.
pub proof fn detect_outcomes_exit<BP, E>(plan: BP)
    ensures
        detect_conclusion::<BP, E>(Ok(DetectOutcome::Pass(plan))) == persist_then_exit::<BP, E>(plan, 0),
        persisted::<E>(Phase::Detect, 0, Ok(())) == (Ok::<i32, RuntimeError<E>>(0)),
        detect_conclusion::<BP, E>(Ok(DetectOutcome::Fail)) == (Conclusion::<BP, E>::Exit(100)),
{
}

/// Test: the results are written whichever way the run went; once written, a
/// pass exits 0 and a fail exits 1.
pub proof fn test_outcomes_exit<E>(results: TestResults)
    ensures
        test_conclusion::<E>(Ok(TestOutcome::Pass(results))) == persist_then_exit::<TestResults, E>(results, 0),
        test_conclusion::<E>(Ok(TestOutcome::Fail(results))) == persist_then_exit::<TestResults, E>(results, 1),
        persisted::<E>(Phase::Test, 0, Ok(())) == (Ok::<i32, RuntimeError<E>>(0)),
        persisted::<E>(Phase::Test, 1, Ok(())) == (Ok::<i32, RuntimeError<E>>(1)),
{
}

} // verus!
