use lol::args::Args;
use lol::compiler::{CompilationResult, CompilationStatus, Compiler, FileOutcome, exit_code};
use lol::config::Config;
use lol::language_support::Language;

fn plain_args() -> Args {
    Args {
        project_path: ".".to_string(),
        c: false,
        cpp: false,
        python: false,
        java: false,
        rust: false,
        go: false,
        js: false,
        ts: false,
        all: false,
        verbose: false,
        jobs: 1,
        cflags: None,
        cxxflags: None,
        name: None,
    }
}

#[test]
fn test_compiler_creation() {
    let config = Config::default();
    let compiler = Compiler::new(config, 4);

    assert_eq!(compiler.max_jobs, 4);
}

#[test]
fn test_custom_flags_selection() {
    let compiler = Compiler::new(Config::default(), 1);
    let mut args = plain_args();
    args.cflags = Some("-O2".to_string());
    args.cxxflags = Some("-O3".to_string());
    assert_eq!(compiler.get_custom_flags(&Language::C, &args), Some("-O2".to_string()));
    assert_eq!(compiler.get_custom_flags(&Language::Cpp, &args), Some("-O3".to_string()));
    assert_eq!(compiler.get_custom_flags(&Language::Rust, &args), None);
}

#[test]
fn test_format_output() {
    let compiler = Compiler::new(Config::default(), 1);
    assert_eq!(compiler.format_output("out", "warn"), "out\nwarn");
    assert_eq!(compiler.format_output("out", ""), "out");
    assert_eq!(compiler.format_output("", "warn"), "warn");
    assert_eq!(compiler.format_output("", ""), "");
}

#[test]
fn test_format_error() {
    let compiler = Compiler::new(Config::default(), 1);
    assert_eq!(compiler.format_error("out", "boom"), "boom");
    assert_eq!(compiler.format_error("out", ""), "out");
    assert_eq!(compiler.format_error("", ""), "Unknown compilation error");
}

#[test]
fn test_outcome_success_keeps_stderr_as_diagnostics() {
    let compiler = Compiler::new(Config::default(), 1);
    // exit code zero is success even when stderr is non-empty
    match compiler.file_outcome(true, "", "warning: unused") {
        FileOutcome::Succeeded { output } => assert_eq!(output, "warning: unused"),
        FileOutcome::Failed { .. } => panic!("exit code zero must be a success"),
    }
}

#[test]
fn test_failing_c_file_reports_captured_stderr() {
    let compiler = Compiler::new(Config::default(), 1);
    let stderr = "bad.c:1:1: error: expected identifier";
    let outcome = compiler.file_outcome(false, "", stderr);
    let result = compiler.group_result(
        Language::C,
        vec!["bad.c".to_string()],
        vec![outcome],
    );
    assert!(result.files.is_empty());
    match result.status {
        CompilationStatus::Failure { error } => assert_eq!(error, stderr),
        CompilationStatus::Success { .. } => panic!("a failed file must fail its group"),
    }
}

#[test]
fn test_group_status_is_all_or_nothing() {
    let compiler = Compiler::new(Config::default(), 1);
    let files = vec!["a.c".to_string(), "b.c".to_string(), "c.c".to_string()];
    let outcomes = vec![
        FileOutcome::Succeeded { output: "".to_string() },
        FileOutcome::Failed { error: "e1".to_string() },
        FileOutcome::Succeeded { output: "made c.o".to_string() },
    ];
    let result = compiler.group_result(Language::C, files, outcomes);
    // individually successful files stay recorded even though the group fails
    assert_eq!(result.files, vec!["a.c".to_string(), "c.c".to_string()]);
    match result.status {
        CompilationStatus::Failure { error } => assert_eq!(error, "e1"),
        CompilationStatus::Success { .. } => panic!("one failure must fail the group"),
    }
}

#[test]
fn test_group_success_joins_nonempty_outputs() {
    let compiler = Compiler::new(Config::default(), 1);
    let files = vec!["a.c".to_string(), "b.c".to_string(), "c.c".to_string()];
    let outcomes = vec![
        FileOutcome::Succeeded { output: "one".to_string() },
        FileOutcome::Succeeded { output: "".to_string() },
        FileOutcome::Succeeded { output: "two".to_string() },
    ];
    let result = compiler.group_result(Language::C, files.clone(), outcomes);
    assert_eq!(result.files, files);
    match result.status {
        CompilationStatus::Success { output } => assert_eq!(output, "one\ntwo"),
        CompilationStatus::Failure { .. } => panic!("no failure in this group"),
    }
}

#[test]
fn test_job_limiter_never_exceeds_bound() {
    let compiler = Compiler::new(Config::default(), 2);
    let mut gate = compiler.job_limiter();
    let jobs = 5;
    let mut started = 0;
    let mut finished = 0;
    let mut in_flight = 0;
    // run five no-op jobs through a gate of capacity two, finishing one
    // whenever admission is refused; the count never passes two
    while finished < jobs {
        if started < jobs && gate.try_acquire() {
            started += 1;
            in_flight += 1;
        } else {
            assert!(in_flight > 0);
            gate.release();
            in_flight -= 1;
            finished += 1;
        }
        assert!(gate.running <= 2);
        assert_eq!(gate.running, in_flight);
    }
    assert_eq!(started, jobs);
    assert_eq!(gate.running, 0);
}

#[test]
fn test_job_limiter_refuses_at_capacity() {
    let compiler = Compiler::new(Config::default(), 2);
    let mut gate = compiler.job_limiter();
    assert!(gate.try_acquire());
    assert!(gate.try_acquire());
    assert!(!gate.try_acquire());
    assert_eq!(gate.running, 2);
    gate.release();
    assert!(gate.try_acquire());
}

fn success_result(language: Language) -> CompilationResult {
    CompilationResult {
        language,
        files: vec!["x".to_string()],
        status: CompilationStatus::Success { output: "".to_string() },
    }
}

#[test]
fn test_exit_code() {
    let compiler = Compiler::new(Config::default(), 1);
    assert_eq!(exit_code(&Vec::new()), 0);
    let all_good = vec![success_result(Language::C), success_result(Language::Go)];
    assert_eq!(exit_code(&all_good), 0);
    let outcome = compiler.file_outcome(false, "", "nope");
    let failed = compiler.group_result(Language::C, vec!["bad.c".to_string()], vec![outcome]);
    let mixed = vec![success_result(Language::Go), failed];
    assert_eq!(exit_code(&mixed), 1);
}

#[test]
fn test_custom_c_flags_are_normalized() {
    let cmd = Language::C.get_compilation_command("main.c", Some("O2"));
    assert_eq!(cmd.program, "gcc");
    assert_eq!(cmd.args, vec!["-c", "-O2", "-o", "main.o", "main.c"]);
}

#[test]
fn test_custom_flags_mixed_tokens() {
    let cmd = Language::Cpp.get_compilation_command("src/app.cpp", Some("-Wall O3  fPIC"));
    assert_eq!(cmd.program, "g++");
    assert_eq!(
        cmd.args,
        vec!["-c", "-Wall", "-O3", "-fPIC", "-o", "src/app.o", "src/app.cpp"]
    );
}

#[test]
fn test_object_extension_replaces_existing_one() {
    let cmd = Language::C.get_compilation_command("dir.with.dots/main.foo.c", None);
    assert_eq!(cmd.args, vec!["-c", "-o", "dir.with.dots/main.foo.o", "dir.with.dots/main.foo.c"]);
    let cmd = Language::C.get_compilation_command("noext", None);
    assert_eq!(cmd.args, vec!["-c", "-o", "noext.o", "noext"]);
}

#[test]
fn test_compile_commands_per_language() {
    let cmd = Language::Python.get_compilation_command("script.py", None);
    assert_eq!(cmd.program, "python3");
    assert_eq!(cmd.args, vec!["-m", "py_compile", "script.py"]);
    let cmd = Language::TypeScript.get_compilation_command("app.ts", None);
    assert_eq!(cmd.program, "tsc");
    assert_eq!(cmd.args, vec!["--noEmit", "app.ts"]);
    let cmd = Language::JavaScript.get_compilation_command("app.js", None);
    assert_eq!(cmd.program, "node");
    assert_eq!(cmd.args, vec!["--check", "app.js"]);
    let cmd = Language::Nim.get_compilation_command("tool.nim", None);
    assert_eq!(cmd.program, "nim");
    assert_eq!(cmd.args, vec!["compile", "--run", "tool.nim"]);
    let cmd = Language::Go.get_compilation_command("main.go", None);
    assert_eq!(cmd.program, "go");
    assert_eq!(cmd.args, vec!["build", "main.go"]);
}
