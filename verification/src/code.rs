//! Compile and run stage planning: from language metadata, the entry file
//! and a limit specification to the exact invocation each stage launches,
//! and the rule that decides whether a compile outcome blocks the run.

use vstd::prelude::*;
use crate::limits::{
    limit_process,
    limit_valid,
    effective_timeout_ms,
    effective_memory,
    wrapping_args,
    LimitError,
    ProcLimit,
    MAX_TIMEOUT_MS,
    MAX_MEMORY_LIMIT,
};
use crate::models::LanguageMetadata;
use crate::process::{ProcInput, ProcResult};
use crate::workspace::has_ext;
use vstd::string::{StrSliceExecFns, StringExecFns};

verus! {

/// Everything the compile stage needs to launch the compiler: the language's
/// compile script, the source file, and where the artifact goes.
pub struct CompilePlan {
    pub script: String,
    pub source: String,
    pub artifact: String,
}

/// Why no compile plan exists: the language needs no compilation (route to
/// the run stage instead), or the source file is missing.
#[derive(Debug)]
pub enum CompileError {
    NotCompiled,
    SourceMissing,
}

/// The compile script of a language, at its registry-defined place.
pub open spec fn compile_script_seq(lang_name: Seq<char>) -> Seq<char> {
    "./packages/"@ + lang_name + "/compile.sh"@
}

/// The artifact path for a source path carrying extension `ext`: the same
/// path with the extension replaced by `out`.
pub open spec fn artifact_seq(path: Seq<char>, ext: Seq<char>) -> Seq<char>
    recommends
        has_ext(path, ext),
{
    path.subrange(0, path.len() - ext.len()) + "out"@
}

/// Builds the compile script path for a language.
pub fn compile_script(lang: &LanguageMetadata) -> (r: String)
    ensures
        r@ == compile_script_seq(lang.language@),
{
    let r = String::from_str("./packages/").concat(lang.language.as_str()).concat("/compile.sh");
    proof {
        assert(r@ =~= compile_script_seq(lang.language@));
    }
    r
}

/// Replaces the entry file's extension with `out` to name the compiled
/// artifact.
pub fn artifact_path(filepath: &String, ext: &String) -> (r: String)
    requires
        has_ext(filepath@, ext@),
    ensures
        r@ == artifact_seq(filepath@, ext@),
{
    let nl = filepath.as_str().unicode_len();
    let el = ext.as_str().unicode_len();
    let stem = filepath.as_str().substring_char(0, nl - el);
    let r = String::from_str(stem).concat("out");
    proof {
        assert(r@ =~= artifact_seq(filepath@, ext@));
    }
    r
}

/// Plans the compile stage. For a language that needs no compilation this
/// fails fast; otherwise the source must already stand in the workspace
/// (`source_exists` is the caller's filesystem check). On success the plan
/// names the registry's compile script, the source, and the artifact path.
pub fn plan_compile(lang: &LanguageMetadata, filepath: &String, source_exists: bool) -> (r: Result<
    CompilePlan,
    CompileError,
>)
    requires
        has_ext(filepath@, lang.extension@),
    ensures
        r is Ok <==> (lang.is_compiled && source_exists),
        !lang.is_compiled ==> r == Err::<CompilePlan, CompileError>(CompileError::NotCompiled),
        lang.is_compiled && !source_exists ==> r == Err::<CompilePlan, CompileError>(
            CompileError::SourceMissing,
        ),
        r is Ok ==> r->Ok_0.script@ == compile_script_seq(lang.language@),
        r is Ok ==> r->Ok_0.source@ == filepath@,
        r is Ok ==> r->Ok_0.artifact@ == artifact_seq(filepath@, lang.extension@),
{
    if !lang.is_compiled {
        return Err(CompileError::NotCompiled);
    }
    if !source_exists {
        return Err(CompileError::SourceMissing);
    }
    let script = compile_script(lang);
    let artifact = artifact_path(filepath, &lang.extension);
    Ok(CompilePlan { script, source: filepath.clone(), artifact })
}

/// The full compiler invocation: the limiter's wrapping, then the shell, the
/// compile script, the source and the artifact path.
pub fn compile_invocation(plan: &CompilePlan, lim: ProcLimit) -> (r: Result<
    (String, Vec<String>),
    LimitError,
>)
    ensures
        r is Ok <==> limit_valid(lim),
        r is Ok ==> r->Ok_0.0@ == "sudo"@,
        r is Ok ==> r->Ok_0.1.deep_view() == wrapping_args(
            effective_timeout_ms(lim) as nat,
            effective_memory(lim) as nat,
        ) + seq!["sh"@, plan.script@, plan.source@, plan.artifact@],
        !(1 <= effective_timeout_ms(lim) <= MAX_TIMEOUT_MS) ==> r == Err::<
            (String, Vec<String>),
            LimitError,
        >(LimitError::InvalidTimeout),
        (1 <= effective_timeout_ms(lim) <= MAX_TIMEOUT_MS && !(1 <= effective_memory(lim)
            <= MAX_MEMORY_LIMIT)) ==> r == Err::<(String, Vec<String>), LimitError>(
            LimitError::InvalidMemory,
        ),
{
    let (cmd, mut args) = match limit_process(lim) {
        Ok(w) => w,
        Err(e) => {
            return Err(e);
        },
    };
    args.push(String::from_str("sh"));
    args.push(plan.script.clone());
    args.push(plan.source.clone());
    args.push(plan.artifact.clone());
    proof {
        assert(args.deep_view() =~~= wrapping_args(
            effective_timeout_ms(lim) as nat,
            effective_memory(lim) as nat,
        ) + seq!["sh"@, plan.script@, plan.source@, plan.artifact@]);
    }
    Ok((cmd, args))
}

/// The arguments the caller asked to hand the program, an empty list when
/// none were given.
pub open spec fn input_args_seq(input: ProcInput) -> Seq<Seq<char>> {
    match input.args {
        Some(a) => a.deep_view(),
        None => Seq::empty(),
    }
}

/// The full run-stage invocation: the limiter's wrapping, then the artifact
/// (or interpreter target) and the caller's arguments.
pub fn run_invocation(executable: &String, input: &ProcInput, lim: ProcLimit) -> (r: Result<
    (String, Vec<String>),
    LimitError,
>)
    ensures
        r is Ok <==> limit_valid(lim),
        r is Ok ==> r->Ok_0.0@ == "sudo"@,
        r is Ok ==> r->Ok_0.1.deep_view() == wrapping_args(
            effective_timeout_ms(lim) as nat,
            effective_memory(lim) as nat,
        ) + seq![executable@] + input_args_seq(*input),
        !(1 <= effective_timeout_ms(lim) <= MAX_TIMEOUT_MS) ==> r == Err::<
            (String, Vec<String>),
            LimitError,
        >(LimitError::InvalidTimeout),
        (1 <= effective_timeout_ms(lim) <= MAX_TIMEOUT_MS && !(1 <= effective_memory(lim)
            <= MAX_MEMORY_LIMIT)) ==> r == Err::<(String, Vec<String>), LimitError>(
            LimitError::InvalidMemory,
        ),
{
    let (cmd, mut args) = match limit_process(lim) {
        Ok(w) => w,
        Err(e) => {
            return Err(e);
        },
    };
    let ghost wrap_v = args@;
    let ghost wrap_d = args.deep_view();
    args.push(executable.clone());
    let ghost head_v = args@;
    match &input.args {
        Some(user_args) => {
            let mut k: usize = 0;
            while k < user_args.len()
                invariant
                    k <= user_args@.len(),
                    args@ == head_v + user_args@.take(k as int),
                decreases user_args@.len() - k,
            {
                args.push(user_args[k].clone());
                proof {
                    assert(args@ =~= head_v + user_args@.take(k as int + 1));
                }
                k = k + 1;
            }
            proof {
                assert(user_args@.take(user_args@.len() as int) =~= user_args@);
            }
        },
        None => {
            proof {
                assert(args@ =~= head_v + Seq::<String>::empty());
            }
        },
    }
    proof {
        let goal = wrapping_args(effective_timeout_ms(lim) as nat, effective_memory(lim) as nat)
            + seq![executable@] + input_args_seq(*input);
        assert(args@.len() == goal.len());
        assert forall|i: int| 0 <= i < args@.len() implies args.deep_view()[i] == goal[i] by {
            if i < wrap_v.len() {
                assert(args@[i] == wrap_v[i]);
                assert(args.deep_view()[i] == wrap_d[i]);
            } else if i == wrap_v.len() {
                assert(args@[i]@ == executable@);
            } else {
                let j = i - wrap_v.len() - 1;
                assert(args@[i] == input.args->0@[j]);
                assert(input_args_seq(*input)[j] == input.args->0@[j]@);
            }
        }
        assert(args.deep_view() =~= goal);
    }
    Ok((cmd, args))
}

/// A nonzero exit code or a terminating signal from the compiler means
/// compilation failed: the orchestrator must not proceed to the run stage,
/// and surfaces the captured diagnostics instead.
pub fn compile_blocks_run(compile: &ProcResult) -> (b: bool)
    ensures
        b == (compile.code != 0 || compile.signal != 0),
{
    compile.code != 0 || compile.signal != 0
}

} // verus!
