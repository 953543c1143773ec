use vstd::prelude::*;

verus! {

/// The reasons why a test may not pass.
#[derive(Debug, PartialEq, Eq, Structural, Clone, Copy)]
pub enum TestExecutionFailures {
    TestFailed,
    BenchTestNotSupported,
    DynamicTestNotSupported,
}

/// A test that runs on the microcontroller.
pub trait Esp32Test {
    fn execute(&self) -> Result<(), TestExecutionFailures>;

    fn name(&self) -> &str;
}

/// How a test ended: passed, failed, or not executed.
#[derive(Debug, PartialEq, Eq, Structural, Clone, Copy)]
pub enum TestVerdict {
    Passed,
    Failed,
    NotExecuted(TestExecutionFailures),
}

/// The counters that persist across the restarts between tests.
#[derive(Debug, PartialEq, Eq, Structural, Clone, Copy)]
pub struct TestCounters {
    pub current_test: u8,
    pub successfull: u8,
    pub skipped: u8,
}

/// How a test result counts: a pass adds to the successful tests, an
/// unsupported test to the skipped ones, a failure to neither.
pub open spec fn spec_handle_res(c: TestCounters, res: Result<(), TestExecutionFailures>) -> (
    TestCounters,
    TestVerdict,
) {
    match res {
        Ok(_) => (TestCounters { successfull: (c.successfull + 1) as u8, ..c }, TestVerdict::Passed),
        Err(TestExecutionFailures::TestFailed) => (c, TestVerdict::Failed),
        Err(e) => (TestCounters { skipped: (c.skipped + 1) as u8, ..c }, TestVerdict::NotExecuted(e)),
    }
}

impl TestCounters {
    /// The counters at the start of a run.
    pub fn new() -> (res: TestCounters)
        ensures
            res == (TestCounters { current_test: 0, successfull: 0, skipped: 0 }),
    {
        TestCounters { current_test: 0, successfull: 0, skipped: 0 }
    }

    /// Counts the result of the current test.
    pub fn handle_res(&mut self, res: Result<(), TestExecutionFailures>) -> (verdict: TestVerdict)
        requires
            res is Ok ==> old(self).successfull < u8::MAX,
            (res matches Err(e) && e != TestExecutionFailures::TestFailed) ==> old(self).skipped
                < u8::MAX,
        ensures
            (*final(self), verdict) == spec_handle_res(*old(self), res),
    {
        match res {
            Ok(_) => {
                self.successfull = self.successfull + 1;
                TestVerdict::Passed
            },
            Err(err) => match err {
                TestExecutionFailures::TestFailed => TestVerdict::Failed,
                TestExecutionFailures::BenchTestNotSupported => {
                    self.skipped = self.skipped + 1;
                    TestVerdict::NotExecuted(err)
                },
                TestExecutionFailures::DynamicTestNotSupported => {
                    self.skipped = self.skipped + 1;
                    TestVerdict::NotExecuted(err)
                },
            },
        }
    }

    /// Whether every test has run.
    pub fn is_finished(&self, test_quantity: usize) -> (res: bool)
        ensures
            res == (self.current_test >= test_quantity),
    {
        self.current_test as usize >= test_quantity
    }

    /// Moves on to the next test; returns the index of the test to run now.
    pub fn start_next_test(&mut self) -> (index: u8)
        requires
            old(self).current_test < u8::MAX,
        ensures
            index == old(self).current_test,
            *final(self) == (TestCounters {
                current_test: (old(self).current_test + 1) as u8,
                ..*old(self)
            }),
    {
        let index = self.current_test;
        self.current_test = self.current_test + 1;
        index
    }

    /// The number of tests that failed: those that neither passed nor were
    /// skipped. The quantity is counted in a byte, as the counters are.
    pub fn failed_tests(&self, test_quantity: usize) -> (failed: u8)
        requires
            self.successfull + self.skipped <= (test_quantity as u8),
        ensures
            failed == (test_quantity as u8) - self.successfull - self.skipped,
    {
        (test_quantity as u8) - self.successfull - self.skipped
    }

    /// The counters after the run ends.
    pub fn reset(&mut self)
        ensures
            *final(self) == (TestCounters { current_test: 0, successfull: 0, skipped: 0 }),
    {
        self.current_test = 0;
        self.successfull = 0;
        self.skipped = 0;
    }
}

/// Each test's result is counted once: after a test runs, the passed,
/// skipped and failed tests add up to the tests run, when they did before.
pub proof fn lemma_counters_add_up(
    c: TestCounters,
    res: Result<(), TestExecutionFailures>,
    failed_before: int,
)
    requires
        c.successfull + c.skipped + failed_before == c.current_test,
        c.successfull < u8::MAX,
        c.skipped < u8::MAX,
    ensures
        ({
            let (c2, v) = spec_handle_res(c, res);
            let failed_after = if v == TestVerdict::Failed {
                failed_before + 1
            } else {
                failed_before
            };
            c2.successfull + c2.skipped + failed_after == c.current_test + 1
        }),
{
}

} // verus!
