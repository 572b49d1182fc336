//! What Git is asked, and what its answers mean.

use crate::command::{
    exit_code_text, outcome_view, push_exit_code, CommandOutput, CommandOutputView,
};
use crate::error::{AppError, AppErrorView};
use crate::paths::{join, joined_path};
use crate::text::{
    keep_nonblank, lemma_texts_one_more, lines, lines_from, nonblank, texts, trim, trimmed,
};
use vstd::prelude::*;
use vstd::string::StringExecFns;

verus! {

/// What Git answered: to the question for the root of the repository, asked
/// in the working directory, and to the two questions for changed files,
/// asked in that root. An answer is the output of Git, or the reason why it
/// could not be started. The answers about changed files are read only
/// where the root is known, the second only where the first is good.
#[derive(Debug)]
pub struct GitFacts {
    pub root: Result<CommandOutput, String>,
    /// The files changed in the working tree.
    pub unstaged: Result<CommandOutput, String>,
    /// The files changed in the index.
    pub staged: Result<CommandOutput, String>,
}

/// The answers of Git with their texts as sequences of characters.
pub struct GitFactsView {
    pub root: Result<CommandOutputView, Seq<char>>,
    pub unstaged: Result<CommandOutputView, Seq<char>>,
    pub staged: Result<CommandOutputView, Seq<char>>,
}

impl View for GitFacts {
    type V = GitFactsView;

    open spec fn view(&self) -> GitFactsView {
        GitFactsView {
            root: outcome_view(self.root),
            unstaged: outcome_view(self.unstaged),
            staged: outcome_view(self.staged),
        }
    }
}

/// The program that answers the questions.
pub const GIT_PROGRAM: &'static str = "git";

/// The arguments that ask Git for the root of the repository.
pub open spec fn root_query() -> Seq<Seq<char>> {
    seq!["rev-parse"@, "--show-toplevel"@]
}

/// The arguments that ask Git for the changed files with a supported
/// extension: those of the index where `cached` holds, else those of the
/// working tree.
pub open spec fn diff_query(cached: bool) -> Seq<Seq<char>> {
    let head = seq!["diff"@, "--name-only"@, "--diff-filter=ACMRTUXB"@];
    let tail = seq!["--"@, "*.ps1"@, "*.psm1"@, "*.psd1"@];
    if cached {
        head + seq!["--cached"@] + tail
    } else {
        head + tail
    }
}

/// The root of the repository that Git reported, or why there is none.
pub open spec fn repo_root(outcome: Result<CommandOutputView, Seq<char>>) -> Result<
    Seq<char>,
    AppErrorView,
> {
    match outcome {
        Err(cause) => Err(
            AppErrorView::GitCommandFailed { message: "执行 git rev-parse 失败: "@ + cause },
        ),
        Ok(output) => if !output.success {
            Err(
                AppErrorView::GitCommandFailed {
                    message: if trimmed(output.stderr).len() == 0 {
                        "当前目录不在 Git 仓库内"@
                    } else {
                        "当前目录不在 Git 仓库内: "@ + trimmed(output.stderr)
                    },
                },
            )
        } else if trimmed(output.stdout).len() == 0 {
            Err(AppErrorView::GitCommandFailed { message: "Git 仓库根目录为空"@ })
        } else {
            Ok(trimmed(output.stdout))
        },
    }
}

/// Each of `names` adjoined to `root`.
pub open spec fn under_root(root: Seq<char>, names: Seq<Seq<char>>) -> Seq<Seq<char>> {
    Seq::new(names.len(), |i: int| joined_path(root, names[i]))
}

/// The paths that Git reported as changed: the lines of its output that are
/// not blank, trimmed and adjoined to `root`; or why there are none.
pub open spec fn changed_candidates(
    root: Seq<char>,
    outcome: Result<CommandOutputView, Seq<char>>,
) -> Result<Seq<Seq<char>>, AppErrorView> {
    match outcome {
        Err(cause) => Err(
            AppErrorView::GitCommandFailed { message: "执行 git diff 失败: "@ + cause },
        ),
        Ok(output) => if !output.success {
            Err(
                AppErrorView::GitCommandFailed {
                    message: if trimmed(output.stderr).len() == 0 {
                        "git diff 退出码异常: "@ + exit_code_text(output.code)
                    } else {
                        trimmed(output.stderr)
                    },
                },
            )
        } else {
            Ok(under_root(root, nonblank(lines_from(output.stdout, 0))))
        },
    }
}

/// The arguments that ask Git for the root of the repository.
pub fn git_root_arguments() -> (arguments: Vec<String>)
    ensures
        texts(arguments@) == root_query(),
{
    let mut arguments: Vec<String> = Vec::new();
    arguments.push("rev-parse".to_owned());
    arguments.push("--show-toplevel".to_owned());
    assert(texts(arguments@) =~= root_query());
    arguments
}

/// The arguments that ask Git for the changed files.
pub fn git_diff_arguments(cached: bool) -> (arguments: Vec<String>)
    ensures
        texts(arguments@) == diff_query(cached),
{
    let mut arguments: Vec<String> = Vec::new();
    arguments.push("diff".to_owned());
    arguments.push("--name-only".to_owned());
    arguments.push("--diff-filter=ACMRTUXB".to_owned());
    if cached {
        arguments.push("--cached".to_owned());
    }
    arguments.push("--".to_owned());
    arguments.push("*.ps1".to_owned());
    arguments.push("*.psm1".to_owned());
    arguments.push("*.psd1".to_owned());
    assert(texts(arguments@) =~= diff_query(cached));
    arguments
}

/// The root of the repository, from what Git answered.
pub fn git_repo_root(outcome: &Result<CommandOutput, String>) -> (root: Result<String, AppError>)
    ensures
        match root {
            Ok(path) => repo_root(outcome_view(*outcome)) == Ok::<Seq<char>, AppErrorView>(path@),
            Err(error) => repo_root(outcome_view(*outcome)) == Err::<Seq<char>, AppErrorView>(
                error@,
            ),
        },
{
    match outcome {
        Err(cause) => {
            let mut message = "执行 git rev-parse 失败: ".to_owned();
            message.append(cause.as_str());
            Err(AppError::GitCommandFailed { message })
        },
        Ok(output) => {
            if !output.success {
                let stderr = trim(output.stderr.as_str());
                let message = if stderr.as_str().is_empty() {
                    "当前目录不在 Git 仓库内".to_owned()
                } else {
                    let mut message = "当前目录不在 Git 仓库内: ".to_owned();
                    message.append(stderr.as_str());
                    message
                };
                return Err(AppError::GitCommandFailed { message });
            }
            let root = trim(output.stdout.as_str());
            if root.as_str().is_empty() {
                return Err(AppError::GitCommandFailed { message: "Git 仓库根目录为空".to_owned() });
            }
            Ok(root)
        },
    }
}

/// The paths that Git reported as changed, under the root `git_root`.
pub fn git_changed_candidates(git_root: &str, outcome: &Result<CommandOutput, String>) -> (found:
    Result<Vec<String>, AppError>)
    ensures
        match found {
            Ok(paths) => changed_candidates(git_root@, outcome_view(*outcome)) == Ok::<
                Seq<Seq<char>>,
                AppErrorView,
            >(texts(paths@)),
            Err(error) => changed_candidates(git_root@, outcome_view(*outcome)) == Err::<
                Seq<Seq<char>>,
                AppErrorView,
            >(error@),
        },
{
    match outcome {
        Err(cause) => {
            let mut message = "执行 git diff 失败: ".to_owned();
            message.append(cause.as_str());
            Err(AppError::GitCommandFailed { message })
        },
        Ok(output) => {
            if !output.success {
                let stderr = trim(output.stderr.as_str());
                let message = if stderr.as_str().is_empty() {
                    let mut message = "git diff 退出码异常: ".to_owned();
                    push_exit_code(&mut message, output.code);
                    message
                } else {
                    stderr
                };
                return Err(AppError::GitCommandFailed { message });
            }
            let names = keep_nonblank(&lines(output.stdout.as_str()));
            let mut paths: Vec<String> = Vec::new();
            let mut i: usize = 0;
            while i < names.len()
                invariant
                    i <= names.len(),
                    paths@.len() == i,
                    texts(paths@) == under_root(git_root@, texts(names@)).take(i as int),
                decreases names.len() - i,
            {
                let ghost before = paths@;
                let path = join(git_root, names[i].as_str());
                paths.push(path);
                proof {
                    lemma_texts_one_more(
                        before,
                        path,
                        under_root(git_root@, texts(names@)),
                        i as int,
                    );
                }
                i += 1;
            }
            assert(under_root(git_root@, texts(names@)).take(names.len() as int) =~= under_root(
                git_root@,
                texts(names@),
            ));
            Ok(paths)
        },
    }
}

} // verus!
