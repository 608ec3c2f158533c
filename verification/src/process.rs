//! Captured output of one spawned process, and the policy that picks which
//! stream is surfaced to callers and to test comparison.

use vstd::prelude::*;

verus! {

/// Input handed to a spawned process: optional standard input and optional
/// command-line arguments.
pub struct ProcInput {
    pub stdin: Option<String>,
    pub args: Option<Vec<String>>,
}

/// Everything captured from one finished process: both streams in full, the
/// surfaced "effective output", exit code, terminating signal (0 if none) and
/// elapsed wall-clock time in milliseconds.
pub struct ProcResult {
    pub stdout: String,
    pub stderr: String,
    pub output: String,
    pub code: i32,
    pub signal: i32,
    pub time: u128,
}

/// The stream surfaced to clients and to test comparison: standard error
/// shadows standard output whenever it is non-empty.
pub open spec fn effective_output(stdout: Seq<char>, stderr: Seq<char>) -> Seq<char> {
    if stderr.len() == 0 {
        stdout
    } else {
        stderr
    }
}

/// A `ProcResult` is well formed when its `output` field agrees with the
/// effective-output policy applied to its two streams.
pub open spec fn proc_result_wf(r: ProcResult) -> bool {
    r.output@ == effective_output(r.stdout@, r.stderr@)
}

impl ProcResult {
    /// Assembles the result reported for one finished process from the raw
    /// capture, deriving the effective output from the two streams.
    pub fn from_capture(stdout: String, stderr: String, code: i32, signal: i32, time: u128) -> (r:
        ProcResult)
        ensures
            r.stdout == stdout,
            r.stderr == stderr,
            r.output@ == effective_output(stdout@, stderr@),
            r.code == code,
            r.signal == signal,
            r.time == time,
            proc_result_wf(r),
    {
        let output = if stderr.as_str().is_empty() {
            stdout.clone()
        } else {
            stderr.clone()
        };
        ProcResult { stdout, stderr, output, code, signal, time }
    }
}

/// Determinism of reporting: two runs that captured the same streams and
/// exit code are reported with the same surfaced output and code, however
/// long each took. Repeating a request against a deterministic program
/// therefore yields an identical `output` and `code`.
pub proof fn lemma_capture_deterministic(r1: ProcResult, r2: ProcResult)
    requires
        proc_result_wf(r1),
        proc_result_wf(r2),
        r1.stdout@ == r2.stdout@,
        r1.stderr@ == r2.stderr@,
        r1.code == r2.code,
    ensures
        r1.output@ == r2.output@,
{
}

} // verus!
