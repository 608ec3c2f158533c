use exec_pipeline::code::{compile_blocks_run, compile_invocation, plan_compile, run_invocation, CompileError};
use exec_pipeline::limits::ProcLimit;
use exec_pipeline::models::{CodeTest, LanguageMetadata};
use exec_pipeline::process::{ProcInput, ProcResult};
use exec_pipeline::testing::{judge_test, score_tests};

fn python_like() -> LanguageMetadata {
    LanguageMetadata {
        language: String::from("python"),
        speed_index: 100,
        is_compiled: false,
        extension: String::from("py"),
        aliases: vec![String::from("py"), String::from("python3")],
    }
}

fn compiled_lang() -> LanguageMetadata {
    LanguageMetadata {
        language: String::from("c"),
        speed_index: 500,
        is_compiled: true,
        extension: String::from("c"),
        aliases: vec![],
    }
}

fn capture(stdout: &str, stderr: &str, code: i32, signal: i32) -> ProcResult {
    ProcResult::from_capture(String::from(stdout), String::from(stderr), code, signal, 5)
}

#[test]
fn effective_output_is_stdout_when_stderr_empty() {
    let r = capture("hi", "", 0, 0);
    assert_eq!(r.output, "hi");
    assert_eq!(r.stdout, "hi");
    assert_eq!(r.code, 0);
}

#[test]
fn stderr_shadows_stdout_when_non_empty() {
    let r = capture("partial", "boom", 1, 0);
    assert_eq!(r.output, "boom");
    assert_eq!(r.stdout, "partial");
    assert_eq!(r.stderr, "boom");
}

#[test]
fn identical_captures_report_identically() {
    let a = capture("out", "", 0, 0);
    let b = ProcResult::from_capture(String::from("out"), String::from(""), 0, 0, 900);
    assert_eq!(a.output, b.output);
    assert_eq!(a.code, b.code);
}

#[test]
fn echo_program_scenario_reports_stdin_back() {
    // An interpreted language needs no compile stage...
    let meta = python_like();
    let plan = plan_compile(&meta, &String::from("task-1-0/main.py"), true);
    assert!(matches!(plan, Err(CompileError::NotCompiled)));
    // ...and the run invocation carries the interpreter target; the program
    // echoed its standard input, so the captured run reports it verbatim.
    let input = ProcInput { stdin: Some(String::from("hi")), args: None };
    let inv = run_invocation(&String::from("task-1-0/main.py"), &input, ProcLimit {
        timeout: None,
        memory_limit: None,
    })
    .expect("default limits are valid");
    assert_eq!(*inv.1.last().unwrap(), "task-1-0/main.py");
    let run = capture("hi", "", 0, 0);
    assert_eq!(run.stdout, "hi");
    assert_eq!(run.code, 0);
}

#[test]
fn compile_failure_surfaces_diagnostics_and_blocks_run() {
    let meta = compiled_lang();
    let plan = plan_compile(&meta, &String::from("task-9-1/main.c"), true).expect("plan exists");
    assert_eq!(plan.script, "./packages/c/compile.sh");
    assert_eq!(plan.source, "task-9-1/main.c");
    assert_eq!(plan.artifact, "task-9-1/main.out");
    let compile = capture("", "main.c:1: error: expected expression", 1, 0);
    assert!(compile.code != 0);
    assert!(!compile.output.is_empty());
    assert_eq!(compile.output, "main.c:1: error: expected expression");
    assert!(compile_blocks_run(&compile));
}

#[test]
fn missing_source_fails_before_any_spawn() {
    let meta = compiled_lang();
    let plan = plan_compile(&meta, &String::from("task-9-1/main.c"), false);
    assert!(matches!(plan, Err(CompileError::SourceMissing)));
}

#[test]
fn compile_invocation_appends_shell_script_source_artifact() {
    let meta = compiled_lang();
    let plan = plan_compile(&meta, &String::from("task-9-1/main.c"), true).unwrap();
    let (cmd, args) = compile_invocation(&plan, ProcLimit { timeout: Some(1000), memory_limit: None })
        .expect("valid limits");
    assert_eq!(cmd, "sudo");
    let n = args.len();
    assert_eq!(args[n - 4], "sh");
    assert_eq!(args[n - 3], "./packages/c/compile.sh");
    assert_eq!(args[n - 2], "task-9-1/main.c");
    assert_eq!(args[n - 1], "task-9-1/main.out");
}

#[test]
fn run_invocation_appends_caller_arguments() {
    let input = ProcInput {
        stdin: None,
        args: Some(vec![String::from("--flag"), String::from("7")]),
    };
    let (_, args) = run_invocation(&String::from("task-2-2/main.out"), &input, ProcLimit {
        timeout: None,
        memory_limit: None,
    })
    .expect("valid limits");
    let n = args.len();
    assert_eq!(args[n - 3], "task-2-2/main.out");
    assert_eq!(args[n - 2], "--flag");
    assert_eq!(args[n - 1], "7");
}

#[test]
fn memory_ceiling_kill_is_a_normal_outcome() {
    // A run terminated by the enforced ceiling comes back as data: a signal,
    // not a pipeline error, and a failed verdict for the test that ran it.
    let run = capture("", "", 0, 9);
    assert_eq!(run.signal, 9);
    let t = CodeTest {
        input: String::new(),
        output: String::from("42\n"),
        run_timeout: 1000,
        run_memory_limit: 1000,
        points: Some(10),
        passed: None,
    };
    let verdict = judge_test(&t, &run);
    assert_eq!(verdict.passed, Some(false));
    assert_eq!(verdict.points, Some(0));
}

#[test]
fn points_awarded_only_for_exact_output() {
    let t = CodeTest {
        input: String::from("2 3"),
        output: String::from("5\n"),
        run_timeout: 1000,
        run_memory_limit: 100000,
        points: Some(10),
        passed: None,
    };
    let pass = judge_test(&t, &capture("5\n", "", 0, 0));
    assert_eq!(pass.passed, Some(true));
    assert_eq!(pass.points, Some(10));
    // Even a trailing-whitespace difference is a fail: no normalization.
    let near = judge_test(&t, &capture("5", "", 0, 0));
    assert_eq!(near.passed, Some(false));
    assert_eq!(near.points, Some(0));
}

#[test]
fn undeclared_points_default_to_one_on_pass() {
    let t = CodeTest {
        input: String::new(),
        output: String::from("ok"),
        run_timeout: 500,
        run_memory_limit: 1000,
        points: None,
        passed: None,
    };
    let verdict = judge_test(&t, &capture("ok", "", 0, 0));
    assert_eq!(verdict.points, Some(1));
}

#[test]
fn stderr_noise_shadows_correct_stdout_in_comparison() {
    // The effective-output policy: any stderr text replaces stdout for the
    // comparison, so a correct answer beside a warning fails the test.
    let t = CodeTest {
        input: String::new(),
        output: String::from("5\n"),
        run_timeout: 1000,
        run_memory_limit: 1000,
        points: Some(3),
        passed: None,
    };
    let verdict = judge_test(&t, &capture("5\n", "warning: unused variable", 0, 0));
    assert_eq!(verdict.passed, Some(false));
    assert_eq!(verdict.points, Some(0));
}

#[test]
fn batch_of_three_correct_cases_scores_in_order() {
    let mk = |input: &str, expected: &str| CodeTest {
        input: String::from(input),
        output: String::from(expected),
        run_timeout: 1000,
        run_memory_limit: 100000,
        points: Some(10),
        passed: None,
    };
    let tests = vec![mk("1 1", "2\n"), mk("2 2", "4\n"), mk("3 3", "6\n")];
    let results = vec![
        capture("2\n", "", 0, 0),
        capture("4\n", "", 0, 0),
        capture("6\n", "", 0, 0),
    ];
    let verdicts = score_tests(&tests, &results);
    assert_eq!(verdicts.len(), 3);
    for (i, v) in verdicts.iter().enumerate() {
        assert_eq!(v.passed, Some(true));
        assert_eq!(v.points, Some(10));
        assert_eq!(v.input, tests[i].input);
        assert_eq!(v.output, tests[i].output);
    }
}

#[test]
fn one_failing_case_does_not_affect_siblings() {
    let mk = |expected: &str| CodeTest {
        input: String::new(),
        output: String::from(expected),
        run_timeout: 1000,
        run_memory_limit: 100000,
        points: Some(10),
        passed: None,
    };
    let tests = vec![mk("a"), mk("b"), mk("c")];
    let results = vec![capture("a", "", 0, 0), capture("x", "", 0, 0), capture("c", "", 0, 0)];
    let verdicts = score_tests(&tests, &results);
    assert_eq!(verdicts[0].points, Some(10));
    assert_eq!(verdicts[1].points, Some(0));
    assert_eq!(verdicts[2].points, Some(10));
}
