//! What the command line selects: the mode of the run and the settings that
//! were given explicitly.

use crate::summary::RunMode;
use crate::text::{clone_text, clone_texts, text_of, texts};
use vstd::prelude::*;

verus! {

/// The subcommands.
#[derive(Debug, Clone, Copy)]
pub enum Commands {
    Check,
    Write,
}

/// The parsed command line.
#[derive(Debug, Clone)]
pub struct Cli {
    pub command: Commands,
    /// The configuration file that was named.
    pub config: Option<String>,
    pub git_changed: Option<bool>,
    /// Every `--path` that was given, in order.
    pub paths: Vec<String>,
    pub recurse: Option<bool>,
    pub strict_fallback: Option<bool>,
    pub fallback_script: Option<String>,
}

/// The settings that the command line supplies; `None` where it is silent.
#[derive(Debug, Clone)]
pub struct CliOverrides {
    pub git_changed: Option<bool>,
    pub paths: Option<Vec<String>>,
    pub recurse: Option<bool>,
    pub strict_fallback: Option<bool>,
    pub fallback_script: Option<String>,
}

/// Command-line settings with their texts as sequences of characters.
pub struct CliOverridesView {
    pub git_changed: Option<bool>,
    pub paths: Option<Seq<Seq<char>>>,
    pub recurse: Option<bool>,
    pub strict_fallback: Option<bool>,
    pub fallback_script: Option<Seq<char>>,
}

impl View for CliOverrides {
    type V = CliOverridesView;

    open spec fn view(&self) -> CliOverridesView {
        CliOverridesView {
            git_changed: self.git_changed,
            paths: match self.paths {
                Some(paths) => Some(texts(paths@)),
                None => None,
            },
            recurse: self.recurse,
            strict_fallback: self.strict_fallback,
            fallback_script: text_of(self.fallback_script),
        }
    }
}

impl Default for CliOverrides {
    fn default() -> (overrides: Self)
        ensures
            overrides@ == (CliOverridesView {
                git_changed: None,
                paths: None,
                recurse: None,
                strict_fallback: None,
                fallback_script: None,
            }),
    {
        CliOverrides {
            git_changed: None,
            paths: None,
            recurse: None,
            strict_fallback: None,
            fallback_script: None,
        }
    }
}

impl Cli {
    /// The mode that the subcommand stands for.
    pub fn run_mode(&self) -> (mode: RunMode)
        ensures
            mode == (match self.command {
                Commands::Check => RunMode::Check,
                Commands::Write => RunMode::Write,
            }),
    {
        match self.command {
            Commands::Check => RunMode::Check,
            Commands::Write => RunMode::Write,
        }
    }

    /// The settings that were given on the command line. A path list without
    /// entries counts as not given.
    pub fn overrides(&self) -> (overrides: CliOverrides)
        ensures
            overrides@ == (CliOverridesView {
                git_changed: self.git_changed,
                paths: if self.paths@.len() == 0 {
                    None
                } else {
                    Some(texts(self.paths@))
                },
                recurse: self.recurse,
                strict_fallback: self.strict_fallback,
                fallback_script: text_of(self.fallback_script),
            }),
    {
        CliOverrides {
            git_changed: self.git_changed,
            paths: if self.paths.len() == 0 {
                None
            } else {
                Some(clone_texts(&self.paths))
            },
            recurse: self.recurse,
            strict_fallback: self.strict_fallback,
            fallback_script: clone_text(&self.fallback_script),
        }
    }
}

} // verus!
