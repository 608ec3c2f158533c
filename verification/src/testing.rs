//! The test runner's judging and scoring: one verdict per test case, in
//! submitted order, with points awarded exactly for byte-for-byte equal
//! effective output.

use vstd::prelude::*;
use crate::models::CodeTest;
use crate::process::ProcResult;

verus! {

/// Points awarded for one test: the declared value (1 when none was
/// declared) on a pass, zero on a fail — no partial credit.
pub open spec fn awarded_points(declared: Option<u32>, passed: bool) -> u32 {
    if passed {
        match declared {
            Some(p) => p,
            None => 1u32,
        }
    } else {
        0u32
    }
}

/// The verdict `out` is the judged form of `test` against the captured run
/// `result`: the case's own fields are kept, it passes exactly when the
/// effective output equals the expected output, and points follow the
/// no-partial-credit rule.
pub open spec fn judged(test: CodeTest, result: ProcResult, out: CodeTest) -> bool {
    let passed = result.output@ == test.output@;
    &&& out.input@ == test.input@
    &&& out.output@ == test.output@
    &&& out.run_timeout == test.run_timeout
    &&& out.run_memory_limit == test.run_memory_limit
    &&& out.passed == Some(passed)
    &&& out.points == Some(awarded_points(test.points, passed))
}

/// Judges one test case against the captured result of its run: an exact,
/// whole-output comparison of the effective output with the expected text,
/// no whitespace normalization.
pub fn judge_test(test: &CodeTest, result: &ProcResult) -> (out: CodeTest)
    ensures
        judged(*test, *result, out),
{
    let passed = result.output == test.output;
    let points: u32 = if passed {
        match test.points {
            Some(p) => p,
            None => 1,
        }
    } else {
        0
    };
    CodeTest {
        input: test.input.clone(),
        output: test.output.clone(),
        run_timeout: test.run_timeout,
        run_memory_limit: test.run_memory_limit,
        points: Some(points),
        passed: Some(passed),
    }
}

/// Judges a whole batch: one verdict per test, against that test's own run,
/// returned in submitted order. Each verdict depends only on its own test
/// and run — no state is shared between sibling tests.
pub fn score_tests(tests: &Vec<CodeTest>, results: &Vec<ProcResult>) -> (out: Vec<CodeTest>)
    requires
        tests@.len() == results@.len(),
    ensures
        out@.len() == tests@.len(),
        forall|i: int| 0 <= i < out@.len() ==> judged(tests@[i], results@[i], #[trigger] out@[i]),
{
    let mut out: Vec<CodeTest> = Vec::new();
    let mut k: usize = 0;
    while k < tests.len()
        invariant
            k <= tests@.len(),
            tests@.len() == results@.len(),
            out@.len() == k,
            forall|i: int| 0 <= i < k ==> judged(tests@[i], results@[i], #[trigger] out@[i]),
        decreases tests@.len() - k,
    {
        let verdict = judge_test(&tests[k], &results[k]);
        out.push(verdict);
        k = k + 1;
    }
    out
}

/// No partial credit, stated on its own: a judged test carries nonzero
/// points only if the captured effective output was byte-for-byte equal to
/// the expected output, and zero points otherwise.
pub proof fn lemma_points_only_for_exact_output(test: CodeTest, result: ProcResult, out: CodeTest)
    requires
        judged(test, result, out),
    ensures
        out.points is Some,
        out.points->0 != 0 ==> result.output@ == test.output@,
        result.output@ != test.output@ ==> out.points == Some(0u32),
{
}

} // verus!
