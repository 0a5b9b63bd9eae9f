//! The tests that the editor offers for a program.

use vstd::prelude::*;

verus! {

/// How a test went.
#[derive(Clone, Copy, Debug, PartialEq, Eq, Structural)]
pub enum TestResult {
    /// The test has not run.
    Unset,
    /// The test failed.
    Failed,
    /// The test passed.
    Passed,
}

/// A test and how it went.
#[derive(Debug)]
pub struct TestItem {
    /// The name of the test.
    pub name: String,
    /// How it went.
    pub result: TestResult,
}

/// The tests that the editor offers. It offers none.
pub fn all_tests() -> (tests: Vec<TestItem>)
    ensures
        tests@.len() == 0,
{
    Vec::new()
}

/// Runs the tests that the editor offers on the program at `path`. It offers
/// none.
pub fn run_tests(path: &str) -> (tests: Vec<TestItem>)
    ensures
        tests@.len() == 0,
{
    Vec::new()
}

} // verus!
