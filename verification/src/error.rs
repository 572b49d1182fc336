//! The failures that the library reports.

use vstd::prelude::*;
use vstd::string::StringExecFns;

verus! {

/// The error with which globset rejects a pattern.
#[verifier::external_type_specification]
#[verifier::external_body]
pub struct ExGlobError(globset::Error);

/// Every way in which an operation of the library can fail.
#[derive(Debug)]
pub enum AppError {
    /// What the user asked for makes no valid run.
    InvalidArguments { message: String },
    /// The configuration layers could not be merged or read; `source` is the
    /// cause as the merging layer words it.
    ConfigLoad { source: String },
    /// The configuration file that was named does not exist.
    ConfigFileMissing { path: String },
    /// A file system operation failed; `source` is the cause as the system
    /// words it.
    Io { operation: &'static str, path: String, source: String },
    /// A path entry is no valid glob pattern.
    InvalidGlob { pattern: String, source: globset::Error },
    /// Git could not be run, or did not answer.
    GitCommandFailed { message: String },
    /// The strict fallback failed on a file.
    FallbackFailed { path: String, message: String },
}

/// An error with its texts as sequences of characters.
pub enum AppErrorView {
    InvalidArguments { message: Seq<char> },
    ConfigLoad { source: Seq<char> },
    ConfigFileMissing { path: Seq<char> },
    Io { operation: Seq<char>, path: Seq<char>, source: Seq<char> },
    InvalidGlob { pattern: Seq<char>, source: globset::Error },
    GitCommandFailed { message: Seq<char> },
    FallbackFailed { path: Seq<char>, message: Seq<char> },
}

impl View for AppError {
    type V = AppErrorView;

    open spec fn view(&self) -> AppErrorView {
        match self {
            AppError::InvalidArguments { message } => AppErrorView::InvalidArguments {
                message: message@,
            },
            AppError::ConfigLoad { source } => AppErrorView::ConfigLoad { source: source@ },
            AppError::ConfigFileMissing { path } => AppErrorView::ConfigFileMissing { path: path@ },
            AppError::Io { operation, path, source } => AppErrorView::Io {
                operation: operation@,
                path: path@,
                source: source@,
            },
            AppError::InvalidGlob { pattern, source } => AppErrorView::InvalidGlob {
                pattern: pattern@,
                source: *source,
            },
            AppError::GitCommandFailed { message } => AppErrorView::GitCommandFailed {
                message: message@,
            },
            AppError::FallbackFailed { path, message } => AppErrorView::FallbackFailed {
                path: path@,
                message: message@,
            },
        }
    }
}

impl AppErrorView {
    /// The message of the error: what a user reads.
    pub open spec fn message_text(self) -> Seq<char> {
        match self {
            AppErrorView::InvalidArguments { message } => message,
            AppErrorView::ConfigLoad { .. } => "配置加载失败"@,
            AppErrorView::ConfigFileMissing { path } => "显式指定的配置文件不存在: "@ + path,
            AppErrorView::Io { operation, path, .. } => "I/O 操作失败: "@ + operation + ": "@
                + path,
            AppErrorView::InvalidGlob { pattern, .. } => "Glob 模式无效: "@ + pattern,
            AppErrorView::GitCommandFailed { message } => "Git 命令执行失败: "@ + message,
            AppErrorView::FallbackFailed { path, message } => "严格回退失败: "@ + path + " ("@
                + message + ")"@,
        }
    }
}

impl AppError {
    /// The error for a request that makes no valid run.
    pub fn invalid_arguments(message: String) -> (error: Self)
        ensures
            error@ == (AppErrorView::InvalidArguments { message: message@ }),
    {
        AppError::InvalidArguments { message }
    }

    /// The error for the file system operation `operation` that failed at
    /// `path`.
    pub fn io(operation: &'static str, path: String, source: String) -> (error: Self)
        ensures
            error@ == (AppErrorView::Io { operation: operation@, path: path@, source: source@ }),
    {
        AppError::Io { operation, path, source }
    }

    /// The message of the error: what a user reads.
    pub fn message(&self) -> (text: String)
        ensures
            text@ == self@.message_text(),
    {
        match self {
            AppError::InvalidArguments { message } => message.clone(),
            AppError::ConfigLoad { .. } => "配置加载失败".to_owned(),
            AppError::ConfigFileMissing { path } => {
                let mut text = "显式指定的配置文件不存在: ".to_owned();
                text.append(path.as_str());
                text
            },
            AppError::Io { operation, path, .. } => {
                let mut text = "I/O 操作失败: ".to_owned();
                text.append(operation);
                text.append(": ");
                text.append(path.as_str());
                text
            },
            AppError::InvalidGlob { pattern, .. } => {
                let mut text = "Glob 模式无效: ".to_owned();
                text.append(pattern.as_str());
                text
            },
            AppError::GitCommandFailed { message } => {
                let mut text = "Git 命令执行失败: ".to_owned();
                text.append(message.as_str());
                text
            },
            AppError::FallbackFailed { path, message } => {
                let mut text = "严格回退失败: ".to_owned();
                text.append(path.as_str());
                text.append(" (");
                text.append(message.as_str());
                text.append(")");
                text
            },
        }
    }
}

} // verus!
