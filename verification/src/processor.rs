//! What is decided about one file, between the reads and writes that the
//! caller performs, and how the results are worded.

use crate::command::{
    exit_code_text, outcome_view, push_exit_code, CommandOutput, CommandOutputView,
};
use crate::config::{fallback_script_path, Config};
use crate::error::{AppError, AppErrorView};
use crate::formatter::format_content;
use crate::formatter::model::scan;
use crate::paths::{extension, extension_of, join, joined_path, resolve_from_cwd};
use crate::summary::{
    failed_report, plain_report, FileReport, FileReportView, FileStatus, RunMode, Summary,
    SummaryView,
};
use crate::text::{decimal, decimal_string, same_text, trim, trimmed};
use vstd::prelude::*;
use vstd::string::StringExecFns;

verus! {

/// Runs the strict formatter on one file and says whether it succeeded. The
/// file may be rewritten on the way.
pub trait FallbackRunner: Send + Sync {
    fn run_strict(&self, path: &str) -> Result<(), AppError>;
}

/// The fallback that runs a script in the PowerShell interpreter.
#[derive(Debug, Clone)]
pub struct PwshFallbackRunner {
    script_path: String,
    working_dir: String,
}

/// What came of reading a text: the text, or the cause of the failure, as a
/// sequence of characters.
pub open spec fn text_result(read: Result<String, String>) -> Result<Seq<char>, Seq<char>> {
    match read {
        Ok(text) => Ok(text@),
        Err(cause) => Err(cause@),
    }
}

/// The message with which a strict run has failed; `None` where it has
/// succeeded. A run fails where the interpreter could not be started, where
/// it printed anything but white space, and where it did not report
/// success. Of what it printed, standard error goes before standard output,
/// and the exit code stands in where it printed nothing.
pub open spec fn strict_failure(outcome: Result<CommandOutputView, Seq<char>>) -> Option<
    Seq<char>,
> {
    match outcome {
        Err(cause) => Some("调用 pwsh 失败: "@ + cause),
        Ok(output) => if trimmed(output.stderr).len() > 0 {
            Some(trimmed(output.stderr))
        } else if trimmed(output.stdout).len() > 0 {
            Some(trimmed(output.stdout))
        } else if !output.success {
            Some("退出码异常: "@ + exit_code_text(output.code))
        } else {
            None
        },
    }
}

/// The interpreter that runs the fallback script.
pub const PWSH_PROGRAM: &'static str = "pwsh";

impl PwshFallbackRunner {
    /// The script that is run.
    pub closed spec fn script(&self) -> Seq<char> {
        self.script_path@
    }

    /// The directory that it is run in.
    pub closed spec fn directory(&self) -> Seq<char> {
        self.working_dir@
    }

    /// The fallback that runs `script_path` in the directory `working_dir`.
    pub fn new(script_path: String, working_dir: String) -> (runner: Self)
        ensures
            runner.script() == script_path@,
            runner.directory() == working_dir@,
    {
        Self { script_path, working_dir }
    }

    /// The script that is run.
    pub fn script_path(&self) -> (path: &str)
        ensures
            path@ == self.script(),
    {
        self.script_path.as_str()
    }

    /// The directory that it is run in.
    pub fn working_dir(&self) -> (path: &str)
        ensures
            path@ == self.directory(),
    {
        self.working_dir.as_str()
    }

    /// The arguments with which the interpreter is run on the file `path`.
    pub fn arguments(&self, path: &str) -> (arguments: Vec<String>)
        ensures
            arguments@.len() == 5,
            arguments@[0]@ == "-NoProfile"@,
            arguments@[1]@ == "-File"@,
            arguments@[2]@ == self.script(),
            arguments@[3]@ == path@,
            arguments@[4]@ == "-Strict"@,
    {
        let mut arguments: Vec<String> = Vec::new();
        arguments.push("-NoProfile".to_owned());
        arguments.push("-File".to_owned());
        arguments.push(self.script_path.clone());
        arguments.push(path.to_owned());
        arguments.push("-Strict".to_owned());
        arguments
    }

    /// What a strict run on `path` amounts to, given what the interpreter
    /// left behind, or why it could not be started.
    pub fn conclude(path: &str, outcome: &Result<CommandOutput, String>) -> (result: Result<
        (),
        AppError,
    >)
        ensures
            match result {
                Ok(()) => strict_failure(outcome_view(*outcome)) is None,
                Err(error) => strict_failure(outcome_view(*outcome)) matches Some(message)
                    && error@ == (AppErrorView::FallbackFailed { path: path@, message }),
            },
    {
        match outcome {
            Err(cause) => {
                let mut message = "调用 pwsh 失败: ".to_owned();
                message.append(cause.as_str());
                Err(AppError::FallbackFailed { path: path.to_owned(), message })
            },
            Ok(output) => {
                let stderr = trim(output.stderr.as_str());
                let stdout = trim(output.stdout.as_str());
                let message = if !stderr.as_str().is_empty() {
                    stderr
                } else if !stdout.as_str().is_empty() {
                    stdout
                } else if !output.success {
                    let mut message = "退出码异常: ".to_owned();
                    push_exit_code(&mut message, output.code);
                    message
                } else {
                    return Ok(());
                };
                Err(AppError::FallbackFailed { path: path.to_owned(), message })
            },
        }
    }
}

/// Where the fallback script of `config` is, seen from `cwd`.
pub fn resolve_fallback_script_path(cwd: &str, config: &Config) -> (path: String)
    ensures
        path@ == fallback_script_path(cwd@, config@),
{
    resolve_from_cwd(cwd, config.fallback_script.as_str())
}

/// What is to happen to a file once it has been read.
#[derive(Debug)]
pub enum FileStep {
    /// Nothing more: this is the report of the file.
    Done(FileReport),
    /// The strict fallback is to run: in a check on a copy of the file, in a
    /// write on the file itself.
    Fallback,
    /// The formatted text is to be written to the file.
    WriteBack { formatted: String, command_fixes: usize, parameter_fixes: usize },
}

/// A step with its texts as sequences of characters.
pub enum FileStepView {
    Done(FileReportView),
    Fallback,
    WriteBack { formatted: Seq<char>, command_fixes: nat, parameter_fixes: nat },
}

impl View for FileStep {
    type V = FileStepView;

    open spec fn view(&self) -> FileStepView {
        match self {
            FileStep::Done(report) => FileStepView::Done(report@),
            FileStep::Fallback => FileStepView::Fallback,
            FileStep::WriteBack { formatted, command_fixes, parameter_fixes } => {
                FileStepView::WriteBack {
                    formatted: formatted@,
                    command_fixes: *command_fixes as nat,
                    parameter_fixes: *parameter_fixes as nat,
                }
            },
        }
    }
}

/// The step that follows the reading of the file `path`. A file that could
/// not be read has failed. A file with unsafe syntax has failed unless the
/// strict fallback is on, which then runs. A file that formatting leaves as
/// it is, is unchanged. Any other file needs a fix in a check, and is
/// written in a write.
pub open spec fn step_after_read(
    path: Seq<char>,
    mode: RunMode,
    strict_fallback: bool,
    read: Result<Seq<char>, Seq<char>>,
) -> FileStepView {
    match read {
        Err(cause) => FileStepView::Done(failed_report(path, "读取文件失败: "@ + cause)),
        Ok(original) => {
            let found = scan(original);
            if found.unsafe_detected {
                if strict_fallback {
                    FileStepView::Fallback
                } else {
                    FileStepView::Done(
                        failed_report(path, "检测到不安全语法，且 strict_fallback=false"@),
                    )
                }
            } else if found.text == original {
                FileStepView::Done(
                    plain_report(
                        path,
                        FileStatus::Unchanged,
                        found.command_fixes,
                        found.parameter_fixes,
                    ),
                )
            } else {
                match mode {
                    RunMode::Check => FileStepView::Done(
                        plain_report(
                            path,
                            FileStatus::NeedsFix,
                            found.command_fixes,
                            found.parameter_fixes,
                        ),
                    ),
                    RunMode::Write => FileStepView::WriteBack {
                        formatted: found.text,
                        command_fixes: found.command_fixes,
                        parameter_fixes: found.parameter_fixes,
                    },
                }
            }
        },
    }
}

/// Decides what is to happen to the file `path`, of which `read` is the
/// content, or the reason why it could not be read.
pub fn process_file(path: &str, mode: RunMode, config: &Config, read: Result<String, String>) -> (step:
    FileStep)
    ensures
        step@ == step_after_read(path@, mode, config.strict_fallback, text_result(read)),
        step@ matches FileStepView::Done(report) ==> (report.status == FileStatus::Unchanged
            ==> report.command_fixes == 0 && report.parameter_fixes == 0),
{
    let original = match read {
        Ok(text) => text,
        Err(cause) => {
            let mut detail = "读取文件失败: ".to_owned();
            detail.append(cause.as_str());
            return FileStep::Done(FileReport::failed(path.to_owned(), detail));
        },
    };
    let correction = format_content(original.as_str());
    if correction.unsafe_detected {
        if !config.strict_fallback {
            return FileStep::Done(
                FileReport::failed(
                    path.to_owned(),
                    "检测到不安全语法，且 strict_fallback=false".to_owned(),
                ),
            );
        }
        return FileStep::Fallback;
    }
    if correction.formatted == original {
        return FileStep::Done(
            FileReport::unchanged(
                path.to_owned(),
                correction.command_fixes,
                correction.parameter_fixes,
            ),
        );
    }
    match mode {
        RunMode::Check => FileStep::Done(
            FileReport::needs_fix(
                path.to_owned(),
                correction.command_fixes,
                correction.parameter_fixes,
            ),
        ),
        RunMode::Write => FileStep::WriteBack {
            formatted: correction.formatted,
            command_fixes: correction.command_fixes,
            parameter_fixes: correction.parameter_fixes,
        },
    }
}

/// The result of an operation that yields nothing, with the cause of a
/// failure as a sequence of characters.
pub open spec fn done_result(done: Result<(), String>) -> Result<(), Seq<char>> {
    match done {
        Ok(()) => Ok(()),
        Err(cause) => Err(cause@),
    }
}

/// The result of a strict run, with the error by its view.
pub open spec fn run_result(run: Result<(), AppError>) -> Result<(), AppErrorView> {
    match run {
        Ok(()) => Ok(()),
        Err(error) => Err(error@),
    }
}

/// Whether the fallback changed the text, with the error by its view.
pub open spec fn change_view(change: Result<bool, AppError>) -> Result<bool, AppErrorView> {
    match change {
        Ok(changed) => Ok(changed),
        Err(error) => Err(error@),
    }
}

/// What a strict run on a copy amounts to. The copy `temp_file` was written
/// (`staged`), the fallback ran on it (`run`), and it was read again
/// (`reread`). A copy that could not be written ends the matter; after that
/// a failed run goes before a failed read.
pub open spec fn changed_on_copy(
    temp_file: Seq<char>,
    original: Seq<char>,
    staged: Result<(), Seq<char>>,
    run: Result<(), AppErrorView>,
    reread: Result<Seq<char>, Seq<char>>,
) -> Result<bool, AppErrorView> {
    match staged {
        Err(cause) => Err(
            AppErrorView::Io { operation: "写入临时文件"@, path: temp_file, source: cause },
        ),
        Ok(()) => match run {
            Err(error) => Err(error),
            Ok(()) => match reread {
                Err(cause) => Err(
                    AppErrorView::Io { operation: "读取临时文件"@, path: temp_file, source: cause },
                ),
                Ok(text) => Ok(text != original),
            },
        },
    }
}

/// What a strict run on the file itself amounts to: the fallback ran on
/// `path` (`run`), and where it succeeded the file was read again (`reread`).
pub open spec fn changed_in_place(
    path: Seq<char>,
    original: Seq<char>,
    run: Result<(), AppErrorView>,
    reread: Result<Seq<char>, Seq<char>>,
) -> Result<bool, AppErrorView> {
    match run {
        Err(error) => Err(error),
        Ok(()) => match reread {
            Err(cause) => Err(
                AppErrorView::Io { operation: "读取回退结果"@, path: path, source: cause },
            ),
            Ok(text) => Ok(text != original),
        },
    }
}

/// Whether the strict fallback, run on the copy `temp_file` of a file whose
/// text was `original`, changed the text. `reread` is read only where the
/// copy was written and the run succeeded.
pub fn run_fallback_check(
    temp_file: &str,
    original: &str,
    staged: Result<(), String>,
    run: Result<(), AppError>,
    reread: Result<String, String>,
) -> (change: Result<bool, AppError>)
    ensures
        change_view(change) == changed_on_copy(
            temp_file@,
            original@,
            done_result(staged),
            run_result(run),
            text_result(reread),
        ),
{
    if let Err(cause) = staged {
        return Err(AppError::io("写入临时文件", temp_file.to_owned(), cause));
    }
    if let Err(error) = run {
        return Err(error);
    }
    match reread {
        Err(cause) => Err(AppError::io("读取临时文件", temp_file.to_owned(), cause)),
        Ok(formatted) => Ok(!same_text(formatted.as_str(), original)),
    }
}

/// Whether the strict fallback, run on the file `path` whose text was
/// `original`, changed the text. `reread` is read only where the run
/// succeeded.
pub fn run_fallback_write(
    path: &str,
    original: &str,
    run: Result<(), AppError>,
    reread: Result<String, String>,
) -> (change: Result<bool, AppError>)
    ensures
        change_view(change) == changed_in_place(
            path@,
            original@,
            run_result(run),
            text_result(reread),
        ),
{
    if let Err(error) = run {
        return Err(error);
    }
    match reread {
        Err(cause) => Err(AppError::io("读取回退结果", path.to_owned(), cause)),
        Ok(formatted) => Ok(!same_text(formatted.as_str(), original)),
    }
}

/// The report of a file on which the strict fallback ran. The counts of the
/// formatter are not reported: the fallback answers for the whole file.
pub open spec fn fallback_report(
    path: Seq<char>,
    mode: RunMode,
    change: Result<bool, AppErrorView>,
) -> FileReportView {
    match change {
        Ok(true) => FileReportView {
            fallback_invoked: true,
            fallback_changed: true,
            ..plain_report(
                path,
                match mode {
                    RunMode::Check => FileStatus::NeedsFix,
                    RunMode::Write => FileStatus::Updated,
                },
                0,
                0,
            )
        },
        Ok(false) => FileReportView {
            fallback_invoked: true,
            fallback_changed: false,
            ..plain_report(path, FileStatus::Unchanged, 0, 0)
        },
        Err(error) => failed_report(path, "严格回退失败: "@ + error.message_text()),
    }
}

/// The report of the file `path` after the strict fallback.
pub fn finish_fallback(path: &str, mode: RunMode, change: Result<bool, AppError>) -> (report:
    FileReport)
    ensures
        report@ == fallback_report(path@, mode, change_view(change)),
{
    match change {
        Ok(changed) => {
            if changed {
                match mode {
                    RunMode::Check => FileReport::needs_fix(path.to_owned(), 0, 0).with_fallback(
                        true,
                    ),
                    RunMode::Write => FileReport::updated(path.to_owned(), 0, 0).with_fallback(
                        true,
                    ),
                }
            } else {
                FileReport::unchanged(path.to_owned(), 0, 0).with_fallback(false)
            }
        },
        Err(error) => {
            let mut detail = "严格回退失败: ".to_owned();
            detail.append(error.message().as_str());
            FileReport::failed(path.to_owned(), detail)
        },
    }
}

/// The report of a file whose formatted text was to be written.
pub open spec fn write_report(
    path: Seq<char>,
    written: Result<(), Seq<char>>,
    command_fixes: nat,
    parameter_fixes: nat,
) -> FileReportView {
    match written {
        Ok(()) => plain_report(path, FileStatus::Updated, command_fixes, parameter_fixes),
        Err(cause) => failed_report(path, "写回失败: "@ + cause),
    }
}

/// The report of the file `path` after its formatted text was written, or
/// could not be.
pub fn finish_write(
    path: &str,
    written: Result<(), String>,
    command_fixes: usize,
    parameter_fixes: usize,
) -> (report: FileReport)
    ensures
        report@ == write_report(
            path@,
            done_result(written),
            command_fixes as nat,
            parameter_fixes as nat,
        ),
{
    match written {
        Ok(()) => FileReport::updated(path.to_owned(), command_fixes, parameter_fixes),
        Err(cause) => {
            let mut detail = "写回失败: ".to_owned();
            detail.append(cause.as_str());
            FileReport::failed(path.to_owned(), detail)
        },
    }
}

/// The name of the copy on which a check runs the fallback: a fixed prefix,
/// the time stamp, the counter, and the extension of the source, `ps1` where
/// it has none.
pub open spec fn temp_file_name(source_path: Seq<char>, timestamp: nat, counter: nat) -> Seq<
    char,
> {
    "pwshfmt-rs-"@ + decimal(timestamp) + "-"@ + decimal(counter) + "."@ + (match extension_of(
        source_path,
    ) {
        Some(ext) => ext,
        None => "ps1"@,
    })
}

/// The path, under `temp_dir`, of the copy of `source_path` on which a check
/// runs the fallback. `timestamp` and `counter` keep the names apart.
pub fn build_temp_path(temp_dir: &str, source_path: &str, timestamp: u128, counter: u64) -> (path:
    String)
    ensures
        path@ == joined_path(
            temp_dir@,
            temp_file_name(source_path@, timestamp as nat, counter as nat),
        ),
{
    let mut name = "pwshfmt-rs-".to_owned();
    name.append(decimal_string(timestamp).as_str());
    name.append("-");
    name.append(decimal_string(counter as u128).as_str());
    name.append(".");
    match extension(source_path) {
        Some(ext) => name.append(ext.as_str()),
        None => name.append("ps1"),
    }
    join(temp_dir, name.as_str())
}

/// The warning for a copy that could not be removed.
pub open spec fn removal_warning_text(temp_file: Seq<char>, cause: Seq<char>) -> Seq<char> {
    "WARN 删除临时文件失败: "@ + temp_file + ": "@ + cause
}

/// The warning for the copy `temp_file` that could not be removed, for the
/// reason `cause`. It fails no file.
pub fn removal_warning(temp_file: &str, cause: &str) -> (line: String)
    ensures
        line@ == removal_warning_text(temp_file@, cause@),
{
    let mut line = "WARN 删除临时文件失败: ".to_owned();
    line.append(temp_file);
    line.append(": ");
    line.append(cause);
    line
}

/// The word that stands for a status in a report line.
pub open spec fn status_word(status: FileStatus) -> Seq<char> {
    match status {
        FileStatus::Unchanged => "UNCHANGED"@,
        FileStatus::NeedsFix => "NEEDS_FIX"@,
        FileStatus::Updated => "UPDATED"@,
        FileStatus::Failed => "FAILED"@,
    }
}

/// How a truth value is written.
pub open spec fn bool_word(flag: bool) -> Seq<char> {
    if flag {
        "true"@
    } else {
        "false"@
    }
}

/// How a mode is written.
pub open spec fn mode_word(mode: RunMode) -> Seq<char> {
    match mode {
        RunMode::Check => "Check"@,
        RunMode::Write => "Write"@,
    }
}

/// The line that reports one file: with the cause for a file that has one,
/// else with the counts.
pub open spec fn report_line_text(report: FileReportView) -> Seq<char> {
    match report.detail {
        Some(detail) => status_word(report.status) + " "@ + report.path + " ("@ + detail + ")"@,
        None => status_word(report.status) + " "@ + report.path + " (command_fixes="@ + decimal(
            report.command_fixes,
        ) + ", parameter_fixes="@ + decimal(report.parameter_fixes) + ", fallback="@ + bool_word(
            report.fallback_invoked,
        ) + ")"@,
    }
}

/// The line that reports a whole run.
pub open spec fn summary_line_text(summary: SummaryView) -> Seq<char> {
    "SUMMARY total="@ + decimal(summary.total) + " unchanged="@ + decimal(summary.unchanged)
        + " needs_fix="@ + decimal(summary.needs_fix) + " updated="@ + decimal(summary.updated)
        + " failed="@ + decimal(summary.failed) + " fallback_invoked="@ + decimal(
        summary.fallback_invoked,
    ) + " fallback_changed="@ + decimal(summary.fallback_changed) + " command_fixes="@ + decimal(
        summary.command_fixes,
    ) + " parameter_fixes="@ + decimal(summary.parameter_fixes)
}

/// The line that opens a run over `files` files: that there is nothing to
/// do, or the mode, the number of files and whether the strict fallback is
/// on.
pub open spec fn opening_line_text(mode: RunMode, files: nat, strict_fallback: bool) -> Seq<
    char,
> {
    if files == 0 {
        "INFO 未发现需要处理的 PowerShell 文件，快速退出"@
    } else {
        "INFO mode="@ + mode_word(mode) + ", files="@ + decimal(files) + ", strict_fallback="@
            + bool_word(strict_fallback)
    }
}

/// A line to print, and where: a report with a cause goes to standard error.
#[derive(Debug, Clone)]
pub struct ReportLine {
    pub text: String,
    pub to_stderr: bool,
}

fn status_name(status: FileStatus) -> (word: &'static str)
    ensures
        word@ == status_word(status),
{
    match status {
        FileStatus::Unchanged => "UNCHANGED",
        FileStatus::NeedsFix => "NEEDS_FIX",
        FileStatus::Updated => "UPDATED",
        FileStatus::Failed => "FAILED",
    }
}

fn bool_name(flag: bool) -> (word: &'static str)
    ensures
        word@ == bool_word(flag),
{
    if flag {
        "true"
    } else {
        "false"
    }
}

/// Appends the decimal numeral of `n` to `line`.
fn push_count(line: &mut String, n: usize)
    ensures
        final(line)@ == old(line)@ + decimal(n as nat),
{
    line.append(decimal_string(n as u128).as_str());
}

/// The line that reports one file.
pub fn file_report_line(report: &FileReport) -> (line: ReportLine)
    ensures
        line.text@ == report_line_text(report@),
        line.to_stderr == report.detail is Some,
{
    let mut text = status_name(report.status).to_owned();
    text.append(" ");
    text.append(report.path.as_str());
    match &report.detail {
        Some(detail) => {
            text.append(" (");
            text.append(detail.as_str());
            text.append(")");
            ReportLine { text, to_stderr: true }
        },
        None => {
            text.append(" (command_fixes=");
            push_count(&mut text, report.command_fixes);
            text.append(", parameter_fixes=");
            push_count(&mut text, report.parameter_fixes);
            text.append(", fallback=");
            text.append(bool_name(report.fallback_invoked));
            text.append(")");
            ReportLine { text, to_stderr: false }
        },
    }
}

/// The line that reports a whole run.
pub fn summary_line(summary: &Summary) -> (line: String)
    ensures
        line@ == summary_line_text(summary@),
{
    let mut line = "SUMMARY total=".to_owned();
    push_count(&mut line, summary.total);
    line.append(" unchanged=");
    push_count(&mut line, summary.unchanged);
    line.append(" needs_fix=");
    push_count(&mut line, summary.needs_fix);
    line.append(" updated=");
    push_count(&mut line, summary.updated);
    line.append(" failed=");
    push_count(&mut line, summary.failed);
    line.append(" fallback_invoked=");
    push_count(&mut line, summary.fallback_invoked);
    line.append(" fallback_changed=");
    push_count(&mut line, summary.fallback_changed);
    line.append(" command_fixes=");
    push_count(&mut line, summary.command_fixes);
    line.append(" parameter_fixes=");
    push_count(&mut line, summary.parameter_fixes);
    line
}

/// The line that opens a run over `files` files.
pub fn opening_line(mode: RunMode, files: usize, strict_fallback: bool) -> (line: String)
    ensures
        line@ == opening_line_text(mode, files as nat, strict_fallback),
{
    if files == 0 {
        return "INFO 未发现需要处理的 PowerShell 文件，快速退出".to_owned();
    }
    let mut line = "INFO mode=".to_owned();
    match mode {
        RunMode::Check => line.append("Check"),
        RunMode::Write => line.append("Write"),
    }
    line.append(", files=");
    push_count(&mut line, files);
    line.append(", strict_fallback=");
    line.append(bool_name(strict_fallback));
    line
}

} // verus!
