use exec_pipeline::models::{
    CodeTest, ExecuteRequest, ExecuteRequestFiles, ExecuteResponse, TestRequest,
};
use exec_pipeline::process::ProcResult;

fn sample_files() -> Vec<ExecuteRequestFiles> {
    vec![ExecuteRequestFiles {
        name: String::from("main.py"),
        content: String::from("print(input())"),
        encoding: None,
    }]
}

#[test]
fn execute_request_carries_its_stage_ceilings() {
    let req = ExecuteRequest {
        language: String::from("python"),
        files: sample_files(),
        stdin: Some(String::from("hi")),
        args: None,
        run_timeout: Some(1500),
        run_memory_limit: Some(200000),
        compile_timeout: Some(4000),
        compile_memory_limit: None,
    };
    let run = req.run_limit();
    assert_eq!(run.timeout, Some(1500));
    assert_eq!(run.memory_limit, Some(200000));
    let compile = req.compile_limit();
    assert_eq!(compile.timeout, Some(4000));
    assert_eq!(compile.memory_limit, None);
}

#[test]
fn test_request_carries_its_compile_ceilings() {
    let req = TestRequest {
        language: String::from("c"),
        files: sample_files(),
        tests: vec![],
        compile_timeout: None,
        compile_memory_limit: Some(50000),
    };
    let compile = req.compile_limit();
    assert_eq!(compile.timeout, None);
    assert_eq!(compile.memory_limit, Some(50000));
}

#[test]
fn each_test_case_brings_its_own_ceilings() {
    let t = CodeTest {
        input: String::new(),
        output: String::new(),
        run_timeout: 750,
        run_memory_limit: 4096,
        points: None,
        passed: None,
    };
    let lim = t.run_limit();
    assert_eq!(lim.timeout, Some(750));
    assert_eq!(lim.memory_limit, Some(4096));
}

#[test]
fn each_test_case_feeds_exactly_its_own_input() {
    let t = CodeTest {
        input: String::from("3 4\n"),
        output: String::from("7\n"),
        run_timeout: 750,
        run_memory_limit: 4096,
        points: Some(2),
        passed: None,
    };
    let input = t.run_input();
    assert_eq!(input.stdin, Some(String::from("3 4\n")));
    assert!(input.args.is_none());
}

#[test]
fn execute_response_carries_both_stage_results() {
    let compile = ProcResult::from_capture(String::new(), String::new(), 0, 0, 40);
    let run = ProcResult::from_capture(String::from("hi"), String::new(), 0, 0, 12);
    let resp = ExecuteResponse {
        language: String::from("python"),
        run: Some(run),
        compile: Some(compile),
    };
    assert_eq!(resp.language, "python");
    assert_eq!(resp.run.unwrap().output, "hi");
    assert!(resp.compile.is_some());
    assert_eq!(resp.compile.unwrap().code, 0);
}

#[test]
fn compile_failure_response_carries_no_run() {
    let compile = ProcResult::from_capture(
        String::new(),
        String::from("main.c:1: error: expected expression"),
        1,
        0,
        30,
    );
    let resp = ExecuteResponse {
        language: String::from("c"),
        run: None,
        compile: Some(compile),
    };
    assert!(resp.run.is_none());
    let diag = resp.compile.unwrap();
    assert_eq!(diag.code, 1);
    assert!(!diag.output.is_empty());
}
