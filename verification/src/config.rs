//! The settings of a run, and the rules that a loaded configuration must
//! meet before a run starts.

use crate::cli::Cli;
use crate::error::{AppError, AppErrorView};
use crate::paths::{resolve_from_cwd, resolved_path};
use crate::text::{keep_nonblank, nonblank, texts};
use vstd::prelude::*;
use vstd::string::StringExecFns;

verus! {

/// The configuration file that is read where none is named.
pub const DEFAULT_CONFIG_FILE: &'static str = "pwshfmt-rs.toml";

/// The prefix of the environment variables that set a field.
pub const ENV_PREFIX: &'static str = "PWSHFMT_RS_";

/// The fallback script that is used where none is set.
pub const DEFAULT_FALLBACK_SCRIPT: &'static str = "scripts/pwsh/devops/Format-PowerShellCode.ps1";

/// The settings of one run.
#[derive(Debug, Clone, PartialEq, Eq)]
pub struct Config {
    /// Take the files that Git reports as changed.
    pub git_changed: bool,
    /// The paths and glob patterns to scan.
    pub paths: Vec<String>,
    /// Walk directories to any depth.
    pub recurse: bool,
    /// Hand files with unsafe syntax to the fallback script.
    pub strict_fallback: bool,
    /// Where the fallback script is.
    pub fallback_script: String,
}

/// The settings of one run with their texts as sequences of characters.
pub struct ConfigView {
    pub git_changed: bool,
    pub paths: Seq<Seq<char>>,
    pub recurse: bool,
    pub strict_fallback: bool,
    pub fallback_script: Seq<char>,
}

impl View for Config {
    type V = ConfigView;

    open spec fn view(&self) -> ConfigView {
        ConfigView {
            git_changed: self.git_changed,
            paths: texts(self.paths@),
            recurse: self.recurse,
            strict_fallback: self.strict_fallback,
            fallback_script: self.fallback_script@,
        }
    }
}

impl Default for Config {
    fn default() -> (config: Self)
        ensures
            config@ == (ConfigView {
                git_changed: false,
                paths: Seq::empty(),
                recurse: false,
                strict_fallback: false,
                fallback_script: DEFAULT_FALLBACK_SCRIPT@,
            }),
    {
        let config = Config {
            git_changed: false,
            paths: Vec::new(),
            recurse: false,
            strict_fallback: false,
            fallback_script: DEFAULT_FALLBACK_SCRIPT.to_owned(),
        };
        assert(config@.paths =~= Seq::empty());
        config
    }
}

/// The message for a configuration that selects no file.
pub open spec fn no_target_message() -> Seq<char> {
    "必须至少启用一种目标选择方式：--git-changed 或 --path"@
}

/// The message for a fallback script that is not there.
pub open spec fn missing_script_message(script: Seq<char>) -> Seq<char> {
    "strict_fallback 已启用，但脚本不存在: "@ + script
}

/// Where the fallback script of `config` is, seen from `cwd`.
pub open spec fn fallback_script_path(cwd: Seq<char>, config: ConfigView) -> Seq<char> {
    resolved_path(cwd, config.fallback_script)
}

/// What validation answers: the message with which `config` is rejected, or
/// `None` where it is accepted. `script_is_file` says whether the fallback
/// script exists as a file.
pub open spec fn rejection(cwd: Seq<char>, config: ConfigView, script_is_file: bool) -> Option<
    Seq<char>,
> {
    if !config.git_changed && config.paths.len() == 0 {
        Some(no_target_message())
    } else if config.strict_fallback && !script_is_file {
        Some(missing_script_message(fallback_script_path(cwd, config)))
    } else {
        None
    }
}

/// The path of the configuration file: the one that the command line names,
/// else the default one, resolved against `cwd`.
pub open spec fn config_path(cli: Cli, cwd: Seq<char>) -> Seq<char> {
    match cli.config {
        Some(named) => resolved_path(cwd, named@),
        None => resolved_path(cwd, DEFAULT_CONFIG_FILE@),
    }
}

/// The path of the configuration file.
pub fn resolve_config_path(cli: &Cli, cwd: &str) -> (path: String)
    ensures
        path@ == config_path(*cli, cwd@),
{
    match &cli.config {
        Some(named) => resolve_from_cwd(cwd, named.as_str()),
        None => resolve_from_cwd(cwd, DEFAULT_CONFIG_FILE),
    }
}

/// Which configuration file is to be merged. A file that the command line
/// names must exist; the default file is merged where it exists. `is_file`
/// says whether there is a file at the path of the configuration file.
pub fn select_config_file(cli: &Cli, cwd: &str, is_file: bool) -> (selected: Result<
    Option<String>,
    AppError,
>)
    ensures
        match selected {
            Ok(Some(path)) => is_file && path@ == config_path(*cli, cwd@),
            Ok(None) => !is_file && cli.config is None,
            Err(error) => !is_file && cli.config is Some && error@
                == (AppErrorView::ConfigFileMissing { path: config_path(*cli, cwd@) }),
        },
{
    let path = resolve_config_path(cli, cwd);
    if is_file {
        Ok(Some(path))
    } else if cli.config.is_some() {
        Err(AppError::ConfigFileMissing { path })
    } else {
        Ok(None)
    }
}

/// Trims every path entry and drops those that are empty then.
pub fn normalize_config(config: &mut Config)
    ensures
        final(config)@ == (ConfigView { paths: nonblank(old(config)@.paths), ..old(config)@ }),
{
    config.paths = keep_nonblank(&config.paths);
}

/// Checks that the configuration selects files in at least one way and that
/// the fallback script is there where the strict fallback is on.
/// `script_is_file` says whether the fallback script, resolved against `cwd`,
/// exists as a file; it is read only where the strict fallback is on.
pub fn validate_config(config: &Config, cwd: &str, script_is_file: bool) -> (checked: Result<
    (),
    AppError,
>)
    ensures
        match checked {
            Ok(()) => rejection(cwd@, config@, script_is_file) is None,
            Err(error) => rejection(cwd@, config@, script_is_file) matches Some(message)
                && error@ == (AppErrorView::InvalidArguments { message }),
        },
{
    if !config.git_changed && config.paths.len() == 0 {
        return Err(
            AppError::invalid_arguments(
                "必须至少启用一种目标选择方式：--git-changed 或 --path".to_owned(),
            ),
        );
    }
    if config.strict_fallback {
        let script_path = resolve_from_cwd(cwd, config.fallback_script.as_str());
        if !script_is_file {
            let mut message = "strict_fallback 已启用，但脚本不存在: ".to_owned();
            message.append(script_path.as_str());
            return Err(AppError::invalid_arguments(message));
        }
    }
    Ok(())
}

} // verus!
