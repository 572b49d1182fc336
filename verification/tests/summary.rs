use pwshfmt_rs::summary::{FileReport, FileStatus, RunMode, Summary};

fn summary_of(reports: &[FileReport]) -> Summary {
    let mut summary = Summary::default();
    for report in reports {
        assert!(summary.has_room(report));
        summary.track(report);
    }
    summary
}

#[test]
fn a_new_summary_counts_nothing() {
    let summary = Summary::default();
    assert_eq!(
        (summary.total, summary.unchanged, summary.needs_fix, summary.updated, summary.failed),
        (0, 0, 0, 0, 0)
    );
    assert_eq!((summary.fallback_invoked, summary.fallback_changed), (0, 0));
    assert_eq!((summary.command_fixes, summary.parameter_fixes), (0, 0));
    assert_eq!(summary.exit_code(RunMode::Check), 0);
    assert_eq!(summary.exit_code(RunMode::Write), 0);
}

#[test]
fn report_constructors_fill_every_field() {
    let report = FileReport::unchanged("a.ps1".to_string(), 1, 2);
    assert_eq!(report.path, "a.ps1");
    assert_eq!(report.status, FileStatus::Unchanged);
    assert!(!report.fallback_invoked && !report.fallback_changed);
    assert_eq!((report.command_fixes, report.parameter_fixes), (1, 2));
    assert_eq!(report.detail, None);

    let report = FileReport::needs_fix("b.ps1".to_string(), 3, 4);
    assert_eq!(report.status, FileStatus::NeedsFix);
    assert_eq!((report.command_fixes, report.parameter_fixes), (3, 4));
    assert_eq!(report.detail, None);

    let report = FileReport::updated("c.ps1".to_string(), 5, 6);
    assert_eq!(report.status, FileStatus::Updated);
    assert_eq!((report.command_fixes, report.parameter_fixes), (5, 6));

    let report = FileReport::failed("d.ps1".to_string(), "broken".to_string());
    assert_eq!(report.path, "d.ps1");
    assert_eq!(report.status, FileStatus::Failed);
    assert_eq!((report.command_fixes, report.parameter_fixes), (0, 0));
    assert_eq!(report.detail.as_deref(), Some("broken"));
    assert!(!report.fallback_invoked && !report.fallback_changed);
}

#[test]
fn with_fallback_marks_the_report() {
    let report = FileReport::needs_fix("a.ps1".to_string(), 0, 0).with_fallback(true);
    assert_eq!(report.status, FileStatus::NeedsFix);
    assert!(report.fallback_invoked && report.fallback_changed);
    assert_eq!(report.path, "a.ps1");

    let report = FileReport::unchanged("a.ps1".to_string(), 7, 8).with_fallback(false);
    assert!(report.fallback_invoked && !report.fallback_changed);
    assert_eq!((report.command_fixes, report.parameter_fixes), (7, 8));
}

#[test]
fn track_counts_each_report_once() {
    let summary = summary_of(&[
        FileReport::unchanged("a".to_string(), 0, 0),
        FileReport::needs_fix("b".to_string(), 2, 3),
        FileReport::updated("c".to_string(), 1, 1).with_fallback(true),
        FileReport::failed("d".to_string(), "x".to_string()),
        FileReport::unchanged("e".to_string(), 0, 0).with_fallback(false),
        FileReport::needs_fix("f".to_string(), 4, 0),
    ]);
    assert_eq!(summary.total, 6);
    assert_eq!(summary.unchanged, 2);
    assert_eq!(summary.needs_fix, 2);
    assert_eq!(summary.updated, 1);
    assert_eq!(summary.failed, 1);
    assert_eq!(summary.fallback_invoked, 2);
    assert_eq!(summary.fallback_changed, 1);
    assert_eq!(summary.command_fixes, 7);
    assert_eq!(summary.parameter_fixes, 4);
}

#[test]
fn exit_code_ranks_failure_over_pending_fix() {
    let failed = FileReport::failed("a".to_string(), "x".to_string());
    let pending = FileReport::needs_fix("b".to_string(), 1, 0);
    let updated = FileReport::updated("c".to_string(), 1, 0);
    let unchanged = FileReport::unchanged("d".to_string(), 0, 0);

    let both = summary_of(&[pending.clone(), failed.clone()]);
    assert_eq!(both.exit_code(RunMode::Check), 1);
    assert_eq!(both.exit_code(RunMode::Write), 1);

    let only_pending = summary_of(&[pending, unchanged.clone()]);
    assert_eq!(only_pending.exit_code(RunMode::Check), 2);
    assert_eq!(only_pending.exit_code(RunMode::Write), 0);

    let rewritten = summary_of(&[updated, unchanged]);
    assert_eq!(rewritten.exit_code(RunMode::Check), 0);
    assert_eq!(rewritten.exit_code(RunMode::Write), 0);

    assert_eq!(summary_of(&[failed]).exit_code(RunMode::Write), 1);
}

#[test]
fn a_full_counter_has_no_room() {
    let mut summary = Summary::default();
    summary.command_fixes = usize::MAX - 1;
    assert!(summary.has_room(&FileReport::needs_fix("a".to_string(), 1, 0)));
    assert!(!summary.has_room(&FileReport::needs_fix("a".to_string(), 2, 0)));
    summary.command_fixes = 0;
    summary.failed = usize::MAX;
    assert!(summary.has_room(&FileReport::unchanged("a".to_string(), 0, 0)));
    assert!(!summary.has_room(&FileReport::failed("a".to_string(), "x".to_string())));
    summary.failed = 0;
    summary.total = usize::MAX;
    assert!(!summary.has_room(&FileReport::unchanged("a".to_string(), 0, 0)));
}
