//! What a run reports: the outcome of each file, the totals over all files,
//! and the exit code that follows from them.

use vstd::prelude::*;

verus! {

/// Whether a run only reports or also rewrites.
#[derive(Debug, Clone, Copy, PartialEq, Eq, Structural)]
pub enum RunMode {
    Check,
    Write,
}

/// The outcome class of one file in one run.
#[derive(Debug, Clone, Copy, PartialEq, Eq, Structural)]
pub enum FileStatus {
    Unchanged,
    NeedsFix,
    Updated,
    Failed,
}

/// The outcome of one file.
#[derive(Debug, Clone)]
pub struct FileReport {
    pub path: String,
    pub status: FileStatus,
    pub fallback_invoked: bool,
    pub fallback_changed: bool,
    pub command_fixes: usize,
    pub parameter_fixes: usize,
    /// The cause, for a file that failed.
    pub detail: Option<String>,
}

/// A file report with its texts as sequences of characters.
pub struct FileReportView {
    pub path: Seq<char>,
    pub status: FileStatus,
    pub fallback_invoked: bool,
    pub fallback_changed: bool,
    pub command_fixes: nat,
    pub parameter_fixes: nat,
    pub detail: Option<Seq<char>>,
}

impl View for FileReport {
    type V = FileReportView;

    open spec fn view(&self) -> FileReportView {
        FileReportView {
            path: self.path@,
            status: self.status,
            fallback_invoked: self.fallback_invoked,
            fallback_changed: self.fallback_changed,
            command_fixes: self.command_fixes as nat,
            parameter_fixes: self.parameter_fixes as nat,
            detail: match self.detail {
                Some(text) => Some(text@),
                None => None,
            },
        }
    }
}

/// The report of a file on which no fallback ran and nothing failed.
pub open spec fn plain_report(
    path: Seq<char>,
    status: FileStatus,
    command_fixes: nat,
    parameter_fixes: nat,
) -> FileReportView {
    FileReportView {
        path,
        status,
        fallback_invoked: false,
        fallback_changed: false,
        command_fixes,
        parameter_fixes,
        detail: None,
    }
}

/// The report of a file that failed for the reason `detail`.
pub open spec fn failed_report(path: Seq<char>, detail: Seq<char>) -> FileReportView {
    FileReportView {
        path,
        status: FileStatus::Failed,
        fallback_invoked: false,
        fallback_changed: false,
        command_fixes: 0,
        parameter_fixes: 0,
        detail: Some(detail),
    }
}

impl FileReport {
    /// The report of a file that is as it should be.
    pub fn unchanged(path: String, command_fixes: usize, parameter_fixes: usize) -> (report: Self)
        ensures
            report@ == plain_report(
                path@,
                FileStatus::Unchanged,
                command_fixes as nat,
                parameter_fixes as nat,
            ),
    {
        Self {
            path,
            status: FileStatus::Unchanged,
            fallback_invoked: false,
            fallback_changed: false,
            command_fixes,
            parameter_fixes,
            detail: None,
        }
    }

    /// The report of a file that a check found in need of a fix.
    pub fn needs_fix(path: String, command_fixes: usize, parameter_fixes: usize) -> (report: Self)
        ensures
            report@ == plain_report(
                path@,
                FileStatus::NeedsFix,
                command_fixes as nat,
                parameter_fixes as nat,
            ),
    {
        Self {
            path,
            status: FileStatus::NeedsFix,
            fallback_invoked: false,
            fallback_changed: false,
            command_fixes,
            parameter_fixes,
            detail: None,
        }
    }

    /// The report of a file that was rewritten.
    pub fn updated(path: String, command_fixes: usize, parameter_fixes: usize) -> (report: Self)
        ensures
            report@ == plain_report(
                path@,
                FileStatus::Updated,
                command_fixes as nat,
                parameter_fixes as nat,
            ),
    {
        Self {
            path,
            status: FileStatus::Updated,
            fallback_invoked: false,
            fallback_changed: false,
            command_fixes,
            parameter_fixes,
            detail: None,
        }
    }

    /// The report of a file that failed for the reason `detail`.
    pub fn failed(path: String, detail: String) -> (report: Self)
        ensures
            report@ == failed_report(path@, detail@),
    {
        Self {
            path,
            status: FileStatus::Failed,
            fallback_invoked: false,
            fallback_changed: false,
            command_fixes: 0,
            parameter_fixes: 0,
            detail: Some(detail),
        }
    }

    /// The same report, marked as one on which the strict fallback ran.
    pub fn with_fallback(self, changed: bool) -> (report: Self)
        ensures
            report@ == (FileReportView {
                fallback_invoked: true,
                fallback_changed: changed,
                ..self@
            }),
    {
        let mut report = self;
        report.fallback_invoked = true;
        report.fallback_changed = changed;
        report
    }
}

/// The totals of a run.
#[derive(Debug, Clone)]
pub struct Summary {
    pub total: usize,
    pub unchanged: usize,
    pub needs_fix: usize,
    pub updated: usize,
    pub failed: usize,
    pub fallback_invoked: usize,
    pub fallback_changed: usize,
    pub command_fixes: usize,
    pub parameter_fixes: usize,
}

/// The totals of a run as unbounded numbers.
pub struct SummaryView {
    pub total: nat,
    pub unchanged: nat,
    pub needs_fix: nat,
    pub updated: nat,
    pub failed: nat,
    pub fallback_invoked: nat,
    pub fallback_changed: nat,
    pub command_fixes: nat,
    pub parameter_fixes: nat,
}

impl View for Summary {
    type V = SummaryView;

    open spec fn view(&self) -> SummaryView {
        SummaryView {
            total: self.total as nat,
            unchanged: self.unchanged as nat,
            needs_fix: self.needs_fix as nat,
            updated: self.updated as nat,
            failed: self.failed as nat,
            fallback_invoked: self.fallback_invoked as nat,
            fallback_changed: self.fallback_changed as nat,
            command_fixes: self.command_fixes as nat,
            parameter_fixes: self.parameter_fixes as nat,
        }
    }
}

/// One if `flag` holds, else zero.
pub open spec fn count(flag: bool) -> nat {
    if flag {
        1
    } else {
        0
    }
}

impl SummaryView {
    /// The totals before any file.
    pub open spec fn zero() -> SummaryView {
        SummaryView {
            total: 0,
            unchanged: 0,
            needs_fix: 0,
            updated: 0,
            failed: 0,
            fallback_invoked: 0,
            fallback_changed: 0,
            command_fixes: 0,
            parameter_fixes: 0,
        }
    }

    /// The totals after one more file.
    pub open spec fn track(self, report: FileReportView) -> SummaryView {
        SummaryView {
            total: self.total + 1,
            unchanged: self.unchanged + count(report.status == FileStatus::Unchanged),
            needs_fix: self.needs_fix + count(report.status == FileStatus::NeedsFix),
            updated: self.updated + count(report.status == FileStatus::Updated),
            failed: self.failed + count(report.status == FileStatus::Failed),
            fallback_invoked: self.fallback_invoked + count(report.fallback_invoked),
            fallback_changed: self.fallback_changed + count(report.fallback_changed),
            command_fixes: self.command_fixes + report.command_fixes,
            parameter_fixes: self.parameter_fixes + report.parameter_fixes,
        }
    }

    /// No total is above `limit`.
    pub open spec fn within(self, limit: nat) -> bool {
        &&& self.total <= limit
        &&& self.unchanged <= limit
        &&& self.needs_fix <= limit
        &&& self.updated <= limit
        &&& self.failed <= limit
        &&& self.fallback_invoked <= limit
        &&& self.fallback_changed <= limit
        &&& self.command_fixes <= limit
        &&& self.parameter_fixes <= limit
    }

    /// The exit code of a run that ended with these totals.
    pub open spec fn exit_code(self, mode: RunMode) -> int {
        if self.failed > 0 {
            1
        } else if mode == RunMode::Check && self.needs_fix > 0 {
            2
        } else {
            0
        }
    }
}

impl Default for Summary {
    fn default() -> (summary: Self)
        ensures
            summary@ == SummaryView::zero(),
    {
        Summary {
            total: 0,
            unchanged: 0,
            needs_fix: 0,
            updated: 0,
            failed: 0,
            fallback_invoked: 0,
            fallback_changed: 0,
            command_fixes: 0,
            parameter_fixes: 0,
        }
    }
}

impl Summary {
    /// Whether one more report can be counted without leaving the range of
    /// the counters.
    pub fn has_room(&self, report: &FileReport) -> (b: bool)
        ensures
            b == self@.track(report@).within(usize::MAX as nat),
    {
        let status_fits = match report.status {
            FileStatus::Unchanged => self.unchanged < usize::MAX,
            FileStatus::NeedsFix => self.needs_fix < usize::MAX,
            FileStatus::Updated => self.updated < usize::MAX,
            FileStatus::Failed => self.failed < usize::MAX,
        };
        self.total < usize::MAX && status_fits && (!report.fallback_invoked
            || self.fallback_invoked < usize::MAX) && (!report.fallback_changed
            || self.fallback_changed < usize::MAX) && report.command_fixes <= usize::MAX
            - self.command_fixes && report.parameter_fixes <= usize::MAX - self.parameter_fixes
    }

    /// Counts one more file.
    pub fn track(&mut self, report: &FileReport)
        requires
            old(self)@.track(report@).within(usize::MAX as nat),
        ensures
            final(self)@ == old(self)@.track(report@),
    {
        self.total += 1;
        self.command_fixes += report.command_fixes;
        self.parameter_fixes += report.parameter_fixes;

        match report.status {
            FileStatus::Unchanged => self.unchanged += 1,
            FileStatus::NeedsFix => self.needs_fix += 1,
            FileStatus::Updated => self.updated += 1,
            FileStatus::Failed => self.failed += 1,
        }

        if report.fallback_invoked {
            self.fallback_invoked += 1;
        }
        if report.fallback_changed {
            self.fallback_changed += 1;
        }
    }

    /// The exit code of the run: 1 where a file failed, else 2 where a check
    /// found a file to fix, else 0.
    pub fn exit_code(&self, mode: RunMode) -> (code: i32)
        ensures
            code == self@.exit_code(mode),
    {
        if self.failed > 0 {
            return 1;
        }
        match mode {
            RunMode::Check => if self.needs_fix > 0 {
                2
            } else {
                0
            },
            RunMode::Write => 0,
        }
    }
}

} // verus!
