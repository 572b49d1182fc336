use std::sync::Mutex;

use pwshfmt_rs::command::CommandOutput;
use pwshfmt_rs::config::Config;
use pwshfmt_rs::error::AppError;
use pwshfmt_rs::processor::{
    build_temp_path, file_report_line, finish_fallback, finish_write, opening_line, process_file,
    removal_warning, run_fallback_check, run_fallback_write, summary_line, FallbackRunner,
    FileStep, PwshFallbackRunner, PWSH_PROGRAM,
};
use pwshfmt_rs::summary::{FileReport, FileStatus, RunMode, Summary};

/// Files held in memory.
struct Disk {
    files: Mutex<Vec<(String, String)>>,
}

impl Disk {
    fn new() -> Disk {
        Disk { files: Mutex::new(Vec::new()) }
    }

    fn read(&self, path: &str) -> Result<String, String> {
        let files = self.files.lock().expect("disk");
        match files.iter().find(|(known, _)| known == path) {
            Some((_, content)) => Ok(content.clone()),
            None => Err("No such file or directory (os error 2)".to_string()),
        }
    }

    fn write(&self, path: &str, content: &str) -> Result<(), String> {
        let mut files = self.files.lock().expect("disk");
        files.retain(|(known, _)| known != path);
        files.push((path.to_string(), content.to_string()));
        Ok(())
    }

    fn remove(&self, path: &str) {
        self.files.lock().expect("disk").retain(|(known, _)| known != path);
    }

    fn len(&self) -> usize {
        self.files.lock().expect("disk").len()
    }
}

fn write_file(disk: &Disk, relative: &str, content: &str) -> String {
    let path = format!("/work/{relative}");
    disk.write(&path, content).expect("write file");
    path
}

struct NoopFallback;

impl FallbackRunner for NoopFallback {
    fn run_strict(&self, _path: &str) -> Result<(), AppError> {
        Ok(())
    }
}

struct RewriteFallback<'a> {
    disk: &'a Disk,
}

impl FallbackRunner for RewriteFallback<'_> {
    fn run_strict(&self, path: &str) -> Result<(), AppError> {
        let content = self.disk.read(path).expect("read fallback input");
        let replaced = content
            .replace("invoke-expression", "Invoke-Expression")
            .replace("invoke-expression", "Invoke-Expression");
        self.disk.write(path, &replaced).expect("write fallback output");
        Ok(())
    }
}

struct FailingFallback;

impl FallbackRunner for FailingFallback {
    fn run_strict(&self, path: &str) -> Result<(), AppError> {
        Err(AppError::FallbackFailed { path: path.to_string(), message: "exit 3".to_string() })
    }
}

fn config_with_path(path: &str) -> Config {
    Config {
        git_changed: false,
        paths: vec![path.to_string()],
        recurse: false,
        strict_fallback: false,
        fallback_script: "scripts/pwsh/devops/Format-PowerShellCode.ps1".to_string(),
    }
}

/// One file through the library's decisions, with the disk in memory.
fn process(path: &str, mode: RunMode, config: &Config, disk: &Disk, runner: &dyn FallbackRunner, counter: u64) -> FileReport {
    let read = disk.read(path);
    let original = read.clone().unwrap_or_default();
    match process_file(path, mode, config, read) {
        FileStep::Done(report) => report,
        FileStep::WriteBack { formatted, command_fixes, parameter_fixes } => {
            finish_write(path, disk.write(path, &formatted), command_fixes, parameter_fixes)
        }
        FileStep::Fallback => {
            let change = match mode {
                RunMode::Check => {
                    let temp_file = build_temp_path("/tmp", path, 1_700_000_000_000_000_000, counter);
                    let staged = disk.write(&temp_file, &original);
                    let run = runner.run_strict(&temp_file);
                    let reread = disk.read(&temp_file);
                    disk.remove(&temp_file);
                    run_fallback_check(&temp_file, &original, staged, run, reread)
                }
                RunMode::Write => {
                    let run = runner.run_strict(path);
                    let reread = if run.is_ok() { disk.read(path) } else { Err(String::new()) };
                    run_fallback_write(path, &original, run, reread)
                }
            };
            finish_fallback(path, mode, change)
        }
    }
}

fn run(mode: RunMode, config: &Config, disk: &Disk, runner: &dyn FallbackRunner) -> Result<Summary, AppError> {
    let mut summary = Summary::default();
    for (counter, relative) in config.paths.iter().enumerate() {
        let path = format!("/work/{relative}");
        let report = process(&path, mode, config, disk, runner, counter as u64);
        assert!(summary.has_room(&report));
        summary.track(&report);
    }
    Ok(summary)
}

#[test]
fn processor_supports_check_write_and_noop() {
    let disk = Disk::new();
    let file = write_file(&disk, "demo.ps1", "get-childitem -path .\n");

    let config = config_with_path("demo.ps1");

    let check_summary = run(RunMode::Check, &config, &disk, &NoopFallback).expect("check run");
    assert_eq!(check_summary.needs_fix, 1);
    assert_eq!(check_summary.exit_code(RunMode::Check), 2);
    assert_eq!(disk.read(&file).expect("read input"), "get-childitem -path .\n");

    let write_summary = run(RunMode::Write, &config, &disk, &NoopFallback).expect("write run");
    assert_eq!(write_summary.updated, 1);
    assert_eq!(disk.read(&file).expect("read output"), "Get-ChildItem -Path .\n");
    assert_eq!(write_summary.exit_code(RunMode::Write), 0);

    let noop_summary = run(RunMode::Write, &config, &disk, &NoopFallback).expect("noop run");
    assert_eq!(noop_summary.unchanged, 1);
    assert_eq!(disk.read(&file).expect("read output"), "Get-ChildItem -Path .\n");
}

#[test]
fn processor_uses_strict_fallback_on_unsafe_tokens() {
    let disk = Disk::new();
    let file = write_file(&disk, "unsafe.ps1", "invoke-expression \"Get-ChildItem\"\n");

    let mut config = config_with_path("unsafe.ps1");
    config.strict_fallback = true;

    let check_summary =
        run(RunMode::Check, &config, &disk, &RewriteFallback { disk: &disk }).expect("check run");
    assert_eq!(check_summary.needs_fix, 1);
    assert_eq!(check_summary.fallback_invoked, 1);
    assert_eq!(check_summary.fallback_changed, 1);
    assert_eq!(disk.read(&file).expect("read file"), "invoke-expression \"Get-ChildItem\"\n");
    assert_eq!(disk.len(), 1);

    let write_summary =
        run(RunMode::Write, &config, &disk, &RewriteFallback { disk: &disk }).expect("write run");
    assert_eq!(write_summary.updated, 1);
    assert_eq!(write_summary.fallback_invoked, 1);
    assert_eq!(write_summary.fallback_changed, 1);

    let content = disk.read(&file).expect("read file");
    assert!(content.contains("Invoke-Expression"));
}

#[test]
fn unsafe_syntax_without_fallback_fails_the_file() {
    let disk = Disk::new();
    let file = write_file(&disk, "unsafe.ps1", "invoke-expression \"...\"\n");
    let config = config_with_path("unsafe.ps1");

    for mode in [RunMode::Check, RunMode::Write] {
        let report = process(&file, mode, &config, &disk, &NoopFallback, 0);
        assert_eq!(report.status, FileStatus::Failed);
        assert_eq!(report.detail.as_deref(), Some("检测到不安全语法，且 strict_fallback=false"));
        assert_eq!((report.command_fixes, report.parameter_fixes), (0, 0));
        assert!(!report.fallback_invoked);
        assert_eq!(disk.read(&file).expect("read file"), "invoke-expression \"...\"\n");

        let summary = run(mode, &config, &disk, &NoopFallback).expect("run");
        assert_eq!(summary.failed, 1);
        assert_eq!(summary.exit_code(mode), 1);
    }
}

#[test]
fn unreadable_file_fails() {
    let disk = Disk::new();
    let config = config_with_path("absent.ps1");
    let report = process("/work/absent.ps1", RunMode::Check, &config, &disk, &NoopFallback, 0);
    assert_eq!(report.status, FileStatus::Failed);
    assert_eq!(report.path, "/work/absent.ps1");
    assert_eq!(report.detail.as_deref(), Some("读取文件失败: No such file or directory (os error 2)"));
}

#[test]
fn fallback_that_changes_nothing_leaves_the_file_unchanged() {
    let disk = Disk::new();
    let file = write_file(&disk, "dynamic.ps1", "& $block\nget-item\n");
    let mut config = config_with_path("dynamic.ps1");
    config.strict_fallback = true;

    for mode in [RunMode::Check, RunMode::Write] {
        let report = process(&file, mode, &config, &disk, &NoopFallback, 0);
        assert_eq!(report.status, FileStatus::Unchanged);
        assert!(report.fallback_invoked && !report.fallback_changed);
        assert_eq!((report.command_fixes, report.parameter_fixes), (0, 0));
        assert_eq!(report.detail, None);
    }
    assert_eq!(disk.read(&file).expect("read file"), "& $block\nget-item\n");
}

#[test]
fn failed_fallback_fails_the_file() {
    let disk = Disk::new();
    let file = write_file(&disk, "dynamic.ps1", "& $block\n");
    let mut config = config_with_path("dynamic.ps1");
    config.strict_fallback = true;

    let report = process(&file, RunMode::Write, &config, &disk, &FailingFallback, 0);
    assert_eq!(report.status, FileStatus::Failed);
    assert_eq!(report.detail.as_deref(), Some("严格回退失败: 严格回退失败: /work/dynamic.ps1 (exit 3)"));

    let report = process(&file, RunMode::Check, &config, &disk, &FailingFallback, 7);
    assert_eq!(
        report.detail.as_deref(),
        Some("严格回退失败: 严格回退失败: /tmp/pwshfmt-rs-1700000000000000000-7.ps1 (exit 3)")
    );
    assert_eq!(disk.len(), 1);
}

#[test]
fn first_step_after_reading() {
    let config = config_with_path("a.ps1");
    match process_file("a.ps1", RunMode::Write, &config, Ok("get-date -format o\n".to_string())) {
        FileStep::WriteBack { formatted, command_fixes, parameter_fixes } => {
            assert_eq!(formatted, "Get-Date -format o\n");
            assert_eq!((command_fixes, parameter_fixes), (1, 0));
        }
        other => panic!("unexpected step: {other:?}"),
    }
    match process_file("a.ps1", RunMode::Check, &config, Ok("get-date -force\n".to_string())) {
        FileStep::Done(report) => {
            assert_eq!(report.status, FileStatus::NeedsFix);
            assert_eq!((report.command_fixes, report.parameter_fixes), (1, 1));
            assert_eq!(report.path, "a.ps1");
        }
        other => panic!("unexpected step: {other:?}"),
    }
    let strict = Config { strict_fallback: true, ..config_with_path("a.ps1") };
    assert!(matches!(
        process_file("a.ps1", RunMode::Check, &strict, Ok("& $x".to_string())),
        FileStep::Fallback
    ));
    assert!(matches!(
        process_file("a.ps1", RunMode::Write, &strict, Ok("Get-Date".to_string())),
        FileStep::Done(FileReport { status: FileStatus::Unchanged, .. })
    ));
}

#[test]
fn failed_write_back_fails_the_file() {
    let report = finish_write("a.ps1", Err("Permission denied (os error 13)".to_string()), 2, 1);
    assert_eq!(report.status, FileStatus::Failed);
    assert_eq!(report.detail.as_deref(), Some("写回失败: Permission denied (os error 13)"));
    assert_eq!((report.command_fixes, report.parameter_fixes), (0, 0));

    let report = finish_write("a.ps1", Ok(()), 2, 1);
    assert_eq!(report.status, FileStatus::Updated);
    assert_eq!((report.command_fixes, report.parameter_fixes), (2, 1));
    assert_eq!(report.detail, None);
}

#[test]
fn fallback_on_a_copy_reports_the_first_thing_that_went_wrong() {
    let failed = || Err(AppError::FallbackFailed { path: "/tmp/t.ps1".to_string(), message: "boom".to_string() });
    match run_fallback_check("/tmp/t.ps1", "x", Err("disk full".to_string()), failed(), Err("gone".to_string())) {
        Err(AppError::Io { operation, path, source }) => {
            assert_eq!((operation, path.as_str(), source.as_str()), ("写入临时文件", "/tmp/t.ps1", "disk full"))
        }
        other => panic!("unexpected result: {other:?}"),
    }
    match run_fallback_check("/tmp/t.ps1", "x", Ok(()), failed(), Err("gone".to_string())) {
        Err(AppError::FallbackFailed { message, .. }) => assert_eq!(message, "boom"),
        other => panic!("unexpected result: {other:?}"),
    }
    match run_fallback_check("/tmp/t.ps1", "x", Ok(()), Ok(()), Err("gone".to_string())) {
        Err(AppError::Io { operation, path, source }) => {
            assert_eq!((operation, path.as_str(), source.as_str()), ("读取临时文件", "/tmp/t.ps1", "gone"))
        }
        other => panic!("unexpected result: {other:?}"),
    }
    assert!(run_fallback_check("/tmp/t.ps1", "x", Ok(()), Ok(()), Ok("y".to_string())).expect("changed"));
    assert!(!run_fallback_check("/tmp/t.ps1", "x", Ok(()), Ok(()), Ok("x".to_string())).expect("same"));
}

#[test]
fn fallback_on_the_file_reports_the_first_thing_that_went_wrong() {
    let failed = || Err(AppError::FallbackFailed { path: "a.ps1".to_string(), message: "boom".to_string() });
    match run_fallback_write("a.ps1", "x", failed(), Ok("y".to_string())) {
        Err(AppError::FallbackFailed { message, .. }) => assert_eq!(message, "boom"),
        other => panic!("unexpected result: {other:?}"),
    }
    match run_fallback_write("a.ps1", "x", Ok(()), Err("gone".to_string())) {
        Err(AppError::Io { operation, path, source }) => {
            assert_eq!((operation, path.as_str(), source.as_str()), ("读取回退结果", "a.ps1", "gone"))
        }
        other => panic!("unexpected result: {other:?}"),
    }
    assert!(run_fallback_write("a.ps1", "x", Ok(()), Ok("y".to_string())).expect("changed"));
    assert!(!run_fallback_write("a.ps1", "x", Ok(()), Ok("x".to_string())).expect("same"));
}

#[test]
fn reports_after_the_fallback() {
    let report = finish_fallback("a.ps1", RunMode::Check, Ok(true));
    assert_eq!(report.status, FileStatus::NeedsFix);
    assert!(report.fallback_invoked && report.fallback_changed);
    let report = finish_fallback("a.ps1", RunMode::Write, Ok(true));
    assert_eq!(report.status, FileStatus::Updated);
    assert!(report.fallback_invoked && report.fallback_changed);
    for mode in [RunMode::Check, RunMode::Write] {
        let report = finish_fallback("a.ps1", mode, Ok(false));
        assert_eq!(report.status, FileStatus::Unchanged);
        assert!(report.fallback_invoked && !report.fallback_changed);
    }
    let error = AppError::Io { operation: "读取回退结果", path: "a.ps1".to_string(), source: "gone".to_string() };
    let report = finish_fallback("a.ps1", RunMode::Write, Err(error));
    assert_eq!(report.status, FileStatus::Failed);
    assert_eq!(report.detail.as_deref(), Some("严格回退失败: I/O 操作失败: 读取回退结果: a.ps1"));
    assert!(!report.fallback_invoked);
}

#[test]
fn temporary_copy_keeps_the_extension() {
    assert_eq!(build_temp_path("/tmp", "/work/mod.psm1", 1234567890123456789, 0), "/tmp/pwshfmt-rs-1234567890123456789-0.psm1");
    assert_eq!(build_temp_path("/tmp", "/work/noext", 0, 42), "/tmp/pwshfmt-rs-0-42.ps1");
    assert_eq!(
        build_temp_path("/var/tmp", "a.PSD1", u128::MAX, u64::MAX),
        "/var/tmp/pwshfmt-rs-340282366920938463463374607431768211455-18446744073709551615.PSD1"
    );
}

#[test]
fn interpreter_arguments() {
    let runner = PwshFallbackRunner::new("/work/strict.ps1".to_string(), "/work".to_string());
    assert_eq!(runner.script_path(), "/work/strict.ps1");
    assert_eq!(runner.working_dir(), "/work");
    assert_eq!(
        runner.arguments("/tmp/copy.ps1"),
        vec!["-NoProfile", "-File", "/work/strict.ps1", "/tmp/copy.ps1", "-Strict"]
    );
}

#[test]
fn interpreter_outcome() {
    let output = |success: bool, code: Option<i32>, stdout: &str, stderr: &str| {
        Ok(CommandOutput { success, code, stdout: stdout.to_string(), stderr: stderr.to_string() })
    };
    let message = |outcome: Result<CommandOutput, String>| match PwshFallbackRunner::conclude("a.ps1", &outcome) {
        Err(AppError::FallbackFailed { path, message }) => {
            assert_eq!(path, "a.ps1");
            message
        }
        other => panic!("unexpected outcome: {other:?}"),
    };
    assert!(PwshFallbackRunner::conclude("a.ps1", &output(true, Some(0), "", "")).is_ok());
    assert!(PwshFallbackRunner::conclude("a.ps1", &output(true, Some(0), " \n", "\t\r\n")).is_ok());
    assert_eq!(message(output(true, Some(0), "noise", " warning \n")), "warning");
    assert_eq!(message(output(true, Some(0), " noise \n", "")), "noise");
    assert_eq!(message(output(false, Some(1), " out \n", " err \n")), "err");
    assert_eq!(message(output(false, Some(1), " out \n", " \n")), "out");
    assert_eq!(message(output(false, Some(3), "", "")), "退出码异常: Some(3)");
    assert_eq!(message(output(false, Some(-1), "", "")), "退出码异常: Some(-1)");
    assert_eq!(message(output(false, Some(i32::MIN), "", "")), "退出码异常: Some(-2147483648)");
    assert_eq!(message(output(false, None, "", "")), "退出码异常: None");
    assert_eq!(message(Err("program not found".to_string())), "调用 pwsh 失败: program not found");
}

#[test]
fn report_lines() {
    let line = file_report_line(&FileReport::needs_fix("/work/a.ps1".to_string(), 3, 12));
    assert_eq!(line.text, "NEEDS_FIX /work/a.ps1 (command_fixes=3, parameter_fixes=12, fallback=false)");
    assert!(!line.to_stderr);

    let line = file_report_line(&FileReport::updated("b.ps1".to_string(), 0, 0).with_fallback(true));
    assert_eq!(line.text, "UPDATED b.ps1 (command_fixes=0, parameter_fixes=0, fallback=true)");

    let line = file_report_line(&FileReport::unchanged("c.ps1".to_string(), 0, 0));
    assert_eq!(line.text, "UNCHANGED c.ps1 (command_fixes=0, parameter_fixes=0, fallback=false)");

    let line = file_report_line(&FileReport::failed("d.ps1".to_string(), "写回失败: denied".to_string()));
    assert_eq!(line.text, "FAILED d.ps1 (写回失败: denied)");
    assert!(line.to_stderr);
}

#[test]
fn summary_and_opening_lines() {
    let mut summary = Summary::default();
    assert_eq!(
        summary_line(&summary),
        "SUMMARY total=0 unchanged=0 needs_fix=0 updated=0 failed=0 fallback_invoked=0 fallback_changed=0 command_fixes=0 parameter_fixes=0"
    );
    summary.track(&FileReport::needs_fix("a".to_string(), 10, 205));
    summary.track(&FileReport::updated("b".to_string(), 1, 0).with_fallback(true));
    summary.track(&FileReport::failed("c".to_string(), "x".to_string()));
    assert_eq!(
        summary_line(&summary),
        "SUMMARY total=3 unchanged=0 needs_fix=1 updated=1 failed=1 fallback_invoked=1 fallback_changed=1 command_fixes=11 parameter_fixes=205"
    );
    assert_eq!(opening_line(RunMode::Check, 0, true), "INFO 未发现需要处理的 PowerShell 文件，快速退出");
    assert_eq!(
        removal_warning("/tmp/pwshfmt-rs-1-0.ps1", "denied"),
        "WARN 删除临时文件失败: /tmp/pwshfmt-rs-1-0.ps1: denied"
    );
    assert_eq!(PWSH_PROGRAM, "pwsh");
    assert_eq!(opening_line(RunMode::Check, 3, false), "INFO mode=Check, files=3, strict_fallback=false");
    assert_eq!(opening_line(RunMode::Write, 120, true), "INFO mode=Write, files=120, strict_fallback=true");
}
