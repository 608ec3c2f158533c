//! The resource limiter: turns a logical limit specification into the
//! concrete process-launch wrapping (command plus argument prefix) that every
//! spawned process is launched through, so that no execution ever runs with
//! unbounded time, memory, process count or open files.

use vstd::prelude::*;
use crate::numerals::{dec_digits, dec_str, digit_char, digit_str};
use vstd::string::StringExecFns;

verus! {

/// Caller-settable ceilings for one spawned process: a wall-clock/CPU timeout
/// in milliseconds and a memory (stack) ceiling in bytes. Either may be
/// omitted, in which case a small default applies. Process count, open-file
/// count and file size are fixed platform ceilings and deliberately not
/// settable here.
pub struct ProcLimit {
    pub timeout: Option<i64>,
    pub memory_limit: Option<i64>,
}

/// Fixed platform ceiling on the number of processes one job may hold.
pub const MAX_PROC_COUNT: u64 = 1024;

/// Fixed platform ceiling on open file descriptors.
pub const MAX_OPEN_FILES: u64 = 1024;

/// Fixed platform ceiling on the size of any file a job writes, in bytes.
pub const MAX_FILE_SIZE: u64 = 33554432;

/// Timeout applied when the caller gives none, in milliseconds.
pub const DEFAULT_TIMEOUT_MS: i64 = 2000;

/// Memory ceiling applied when the caller gives none, in bytes.
pub const DEFAULT_MEMORY_LIMIT: i64 = 100000;

/// Largest timeout the platform accepts, in milliseconds.
pub const MAX_TIMEOUT_MS: i64 = 600000;

/// Largest memory ceiling the platform accepts, in bytes.
pub const MAX_MEMORY_LIMIT: i64 = 1073741824;

/// A limit specification the platform cannot enforce: constructing a wrapping
/// from it is a configuration error, never silently ignored.
#[derive(Debug)]
pub enum LimitError {
    InvalidTimeout,
    InvalidMemory,
}

/// The timeout that will actually be enforced: the caller's value, or the
/// default when the caller gave none.
pub open spec fn effective_timeout_ms(lim: ProcLimit) -> int {
    match lim.timeout {
        Some(t) => t as int,
        None => DEFAULT_TIMEOUT_MS as int,
    }
}

/// The memory ceiling that will actually be enforced: the caller's value, or
/// the default when the caller gave none.
pub open spec fn effective_memory(lim: ProcLimit) -> int {
    match lim.memory_limit {
        Some(m) => m as int,
        None => DEFAULT_MEMORY_LIMIT as int,
    }
}

/// A limit specification is valid when both effective ceilings are positive
/// and within the platform's own bounds: only then can a finite, enforceable
/// wrapping be built.
pub open spec fn limit_valid(lim: ProcLimit) -> bool {
    &&& 1 <= effective_timeout_ms(lim) <= MAX_TIMEOUT_MS
    &&& 1 <= effective_memory(lim) <= MAX_MEMORY_LIMIT
}

/// Three-digit, zero-padded rendering of a value below 1000.
pub open spec fn frac3_digits(f: nat) -> Seq<char>
    recommends
        f < 1000,
{
    seq![digit_char(f / 100), digit_char((f / 10) % 10), digit_char(f % 10)]
}

/// A millisecond count rendered as seconds with exactly three decimal places,
/// the form the timeout utility is handed.
pub open spec fn sec_digits(ms: nat) -> Seq<char> {
    dec_digits(ms / 1000) + seq!['.'] + frac3_digits(ms % 1000)
}

/// Whole seconds covering `ms` milliseconds, rounded up; the CPU-time ceiling
/// is expressed in these.
pub open spec fn cpu_secs(ms: nat) -> nat {
    (ms + 999) / 1000
}

/// The exact argument prefix enforced for a timeout of `t` milliseconds and a
/// memory ceiling of `m` bytes: a forced-kill wall-clock timeout, then fixed
/// process/file/file-size caps, a stack ceiling, and an independent CPU-time
/// ceiling.
pub open spec fn wrapping_args(t: nat, m: nat) -> Seq<Seq<char>> {
    seq![
        "crate"@,
        "timeout"@,
        "-s"@,
        "9"@,
        sec_digits(t),
        "prlimit"@,
        "--nproc="@ + dec_digits(MAX_PROC_COUNT as nat),
        "--nofile="@ + dec_digits(MAX_OPEN_FILES as nat),
        "--fsize="@ + dec_digits(MAX_FILE_SIZE as nat),
        "--stack="@ + dec_digits(m),
        "--cpu="@ + dec_digits(cpu_secs(t)),
    ]
}

/// Renders milliseconds as zero-padded fractional seconds.
fn sec_str(ms: u64) -> (r: String)
    ensures
        r@ == sec_digits(ms as nat),
{
    proof {
        reveal_strlit(".");
    }
    let whole = dec_str(ms / 1000);
    let f = ms % 1000;
    let r = whole.concat(".").concat(digit_str(f / 100)).concat(digit_str((f / 10) % 10)).concat(
        digit_str(f % 10),
    );
    proof {
        assert((f % 10) as nat == (ms as nat) % 10) by {
            assert(ms as nat % 1000 % 10 == ms as nat % 10) by (nonlinear_arith);
        }
        assert(r@ =~= sec_digits(ms as nat));
    }
    r
}

/// Builds the process-launch wrapping for one limit specification: the
/// command to launch and the argument prefix every spawned process runs
/// under. Ceilings outside the platform's bounds are a configuration error.
/// The process-count, open-file and file-size caps are constants of the
/// platform and appear in the wrapping whatever the caller asked for.
pub fn limit_process(lim: ProcLimit) -> (r: Result<(String, Vec<String>), LimitError>)
    ensures
        r is Ok <==> limit_valid(lim),
        r is Ok ==> r->Ok_0.0@ == "sudo"@,
        r is Ok ==> r->Ok_0.1.deep_view() == wrapping_args(
            effective_timeout_ms(lim) as nat,
            effective_memory(lim) as nat,
        ),
        !(1 <= effective_timeout_ms(lim) <= MAX_TIMEOUT_MS) ==> r == Err::<(String, Vec<String>), LimitError>(
            LimitError::InvalidTimeout,
        ),
        (1 <= effective_timeout_ms(lim) <= MAX_TIMEOUT_MS && !(1 <= effective_memory(lim)
            <= MAX_MEMORY_LIMIT)) ==> r == Err::<(String, Vec<String>), LimitError>(
            LimitError::InvalidMemory,
        ),
{
    let t: i64 = match lim.timeout {
        Some(v) => v,
        None => DEFAULT_TIMEOUT_MS,
    };
    if t < 1 || t > MAX_TIMEOUT_MS {
        return Err(LimitError::InvalidTimeout);
    }
    let m: i64 = match lim.memory_limit {
        Some(v) => v,
        None => DEFAULT_MEMORY_LIMIT,
    };
    if m < 1 || m > MAX_MEMORY_LIMIT {
        return Err(LimitError::InvalidMemory);
    }
    let tu: u64 = t as u64;
    let mu: u64 = m as u64;

    let mut args: Vec<String> = Vec::new();
    args.push(String::from_str("crate"));
    args.push(String::from_str("timeout"));
    args.push(String::from_str("-s"));
    args.push(String::from_str("9"));
    args.push(sec_str(tu));
    args.push(String::from_str("prlimit"));
    args.push(String::from_str("--nproc=").concat(dec_str(MAX_PROC_COUNT).as_str()));
    args.push(String::from_str("--nofile=").concat(dec_str(MAX_OPEN_FILES).as_str()));
    args.push(String::from_str("--fsize=").concat(dec_str(MAX_FILE_SIZE).as_str()));
    args.push(String::from_str("--stack=").concat(dec_str(mu).as_str()));
    args.push(String::from_str("--cpu=").concat(dec_str((tu + 999) / 1000).as_str()));
    proof {
        assert(args.deep_view() =~~= wrapping_args(tu as nat, mu as nat));
    }
    Ok((String::from_str("sudo"), args))
}

/// Every wrapping this limiter can produce is a finite ceiling: the enforced
/// timeout and memory bounds are positive, bounded by the platform, and the
/// wall-clock timeout stands in the wrapping itself together with a forced
/// kill signal, so no accepted limit specification ever launches an
/// unbounded process.
pub proof fn lemma_wrapping_is_finite_ceiling(lim: ProcLimit)
    requires
        limit_valid(lim),
    ensures
        1 <= effective_timeout_ms(lim) <= MAX_TIMEOUT_MS,
        1 <= effective_memory(lim) <= MAX_MEMORY_LIMIT,
        wrapping_args(effective_timeout_ms(lim) as nat, effective_memory(lim) as nat)[1]
            == "timeout"@,
        wrapping_args(effective_timeout_ms(lim) as nat, effective_memory(lim) as nat)[3] == "9"@,
        wrapping_args(effective_timeout_ms(lim) as nat, effective_memory(lim) as nat)[4]
            == sec_digits(effective_timeout_ms(lim) as nat),
        wrapping_args(effective_timeout_ms(lim) as nat, effective_memory(lim) as nat)[10]
            == "--cpu="@ + dec_digits(cpu_secs(effective_timeout_ms(lim) as nat)),
{
}

} // verus!
