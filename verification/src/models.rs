//! Request and response shapes of the service, the language metadata the
//! registry hands the pipeline, and the health-summary assembly.

use vstd::prelude::*;
use crate::limits::ProcLimit;
use crate::numerals::{dec_digits, dec_str};
use crate::process::{ProcInput, ProcResult};
use vstd::string::StringExecFns;

verus! {

/// Outcome of the health check: how many registered languages passed their
/// self-test, and which ones did or did not.
pub struct StatusResponse {
    pub status: String,
    pub passed: Vec<String>,
    pub failed: Vec<String>,
}

/// What the registry knows about one supported language. The speed index is
/// a relative performance figure in hundredths. Immutable once loaded.
pub struct LanguageMetadata {
    pub language: String,
    pub speed_index: u32,
    pub is_compiled: bool,
    pub extension: String,
    pub aliases: Vec<String>,
}

/// One file submitted by the caller: a name, its content, and an optional
/// text encoding label.
pub struct ExecuteRequestFiles {
    pub name: String,
    pub content: String,
    pub encoding: Option<String>,
}

/// A single-execution request: run the entry file of `files` under the given
/// language with optional standard input, arguments and limit overrides.
pub struct ExecuteRequest {
    pub language: String,
    pub files: Vec<ExecuteRequestFiles>,
    pub stdin: Option<String>,
    pub args: Option<Vec<String>>,
    pub run_timeout: Option<i64>,
    pub run_memory_limit: Option<i64>,
    pub compile_timeout: Option<i64>,
    pub compile_memory_limit: Option<i64>,
}

/// Result of a single execution: the run outcome — absent when a compile
/// failure stopped the job before any run — and the compile outcome where
/// the language required compilation.
pub struct ExecuteResponse {
    pub language: String,
    pub run: Option<ProcResult>,
    pub compile: Option<ProcResult>,
}

/// One test case of a batch: input fed to the program, the output expected
/// back, the per-test ceilings, and — once judged — whether it passed and
/// how many points it was awarded.
#[derive(Clone)]
pub struct CodeTest {
    pub input: String,
    pub output: String,
    pub run_timeout: i64,
    pub run_memory_limit: i64,
    pub points: Option<u32>,
    pub passed: Option<bool>,
}

/// A batch-test request: score the entry file of `files` against `tests`.
pub struct TestRequest {
    pub language: String,
    pub files: Vec<ExecuteRequestFiles>,
    pub tests: Vec<CodeTest>,
    pub compile_timeout: Option<i64>,
    pub compile_memory_limit: Option<i64>,
}

impl ExecuteRequest {
    /// The run-stage ceilings this request asked for.
    pub fn run_limit(&self) -> (r: ProcLimit)
        ensures
            r.timeout == self.run_timeout,
            r.memory_limit == self.run_memory_limit,
    {
        ProcLimit { timeout: self.run_timeout, memory_limit: self.run_memory_limit }
    }

    /// The compile-stage ceilings this request asked for.
    pub fn compile_limit(&self) -> (r: ProcLimit)
        ensures
            r.timeout == self.compile_timeout,
            r.memory_limit == self.compile_memory_limit,
    {
        ProcLimit { timeout: self.compile_timeout, memory_limit: self.compile_memory_limit }
    }
}

impl TestRequest {
    /// The compile-stage ceilings this request asked for.
    pub fn compile_limit(&self) -> (r: ProcLimit)
        ensures
            r.timeout == self.compile_timeout,
            r.memory_limit == self.compile_memory_limit,
    {
        ProcLimit { timeout: self.compile_timeout, memory_limit: self.compile_memory_limit }
    }
}

impl CodeTest {
    /// Each test runs under its own declared ceilings, independent of its
    /// sibling tests.
    pub fn run_limit(&self) -> (r: ProcLimit)
        ensures
            r.timeout == Some(self.run_timeout),
            r.memory_limit == Some(self.run_memory_limit),
    {
        ProcLimit { timeout: Some(self.run_timeout), memory_limit: Some(self.run_memory_limit) }
    }

    /// What a test's run is fed: exactly this test's input text on standard
    /// input, and no command-line arguments. No value of any other test
    /// takes part.
    pub fn run_input(&self) -> (r: ProcInput)
        ensures
            r.stdin == Some(self.input),
            r.args is None,
    {
        ProcInput { stdin: Some(self.input.clone()), args: None }
    }
}

/// A language's self-test counts as passed exactly when the probe process
/// exited successfully — exit code zero and no terminating signal — and
/// printed the acknowledgement line on standard output. A probe killed by a
/// signal failed, whatever it managed to print first.
pub open spec fn spec_self_test_passed(code: int, signal: int, stdout: Seq<char>) -> bool {
    code == 0 && signal == 0 && stdout == "OK\n"@
}

/// Decides one language's self-test from the probe's captured result.
pub fn self_test_passed(probe: &ProcResult) -> (b: bool)
    ensures
        b == spec_self_test_passed(probe.code as int, probe.signal as int, probe.stdout@),
{
    let expected = String::from_str("OK\n");
    probe.code == 0 && probe.signal == 0 && probe.stdout == expected
}

/// The health summary's counter line: passed count, a slash, total count.
pub open spec fn status_line(passed: nat, total: nat) -> Seq<char> {
    dec_digits(passed) + "/"@ + dec_digits(total)
}

/// Assembles the health response from the per-language verdicts: the lists
/// are kept as given and the counter line reports how many of all probed
/// languages passed.
pub fn status_summary(passed: Vec<String>, failed: Vec<String>) -> (r: StatusResponse)
    requires
        passed@.len() + failed@.len() <= usize::MAX,
    ensures
        r.passed == passed,
        r.failed == failed,
        r.status@ == status_line(passed@.len(), passed@.len() + failed@.len()),
{
    let p: usize = passed.len();
    let total: usize = p + failed.len();
    let status = dec_str(p as u64).concat("/").concat(dec_str(total as u64).as_str());
    proof {
        assert(status@ =~= status_line(passed@.len(), passed@.len() + failed@.len()));
    }
    StatusResponse { status, passed, failed }
}

} // verus!
