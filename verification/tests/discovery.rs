use pwshfmt_rs::command::CommandOutput;
use pwshfmt_rs::config::Config;
use pwshfmt_rs::discovery::facts::{FsFacts, PathFact, PathKind, WalkEntry, WalkFact, WalkFailure};
use pwshfmt_rs::discovery::git::{
    git_changed_candidates, git_diff_arguments, git_repo_root, git_root_arguments, GitFacts,
};
use pwshfmt_rs::discovery::path_set::PathSet;
use pwshfmt_rs::discovery::{
    collect_files_from_pattern, collect_git_changed_files, discover_files, discover_files_with, is_supported_extension, is_supported_pwsh_file,
    normalize_existing_path, normalize_for_glob, pattern_base_dir, probes_for, walks_for,
};
use pwshfmt_rs::error::AppError;
use pwshfmt_rs::paths::{relative_to, resolve_from_cwd};

/// A workspace held in memory: the files written to it, and the files as
/// they were when they were last committed.
struct Workspace {
    root: String,
    files: Vec<(String, String)>,
    committed: Option<Vec<(String, String)>>,
}

fn create_workspace() -> Workspace {
    Workspace { root: "/work".to_string(), files: Vec::new(), committed: None }
}

fn write_file(workspace: &mut Workspace, relative: &str, content: &str) -> String {
    let path = format!("{}/{}", workspace.root, relative);
    workspace.files.retain(|(known, _)| known != &path);
    workspace.files.push((path.clone(), content.to_string()));
    path
}

fn init_git_repo(workspace: &mut Workspace) {
    workspace.committed = Some(Vec::new());
}

fn git_commit_all(workspace: &mut Workspace, _message: &str) {
    workspace.committed = Some(workspace.files.clone());
}

impl Workspace {
    fn kind(&self, path: &str) -> PathKind {
        if self.files.iter().any(|(known, _)| known == path) {
            PathKind::File
        } else if path == "/" || self.files.iter().any(|(known, _)| known.starts_with(&format!("{path}/"))) {
            PathKind::Directory
        } else {
            PathKind::Missing
        }
    }

    fn probe(&self, path: &str) -> PathFact {
        PathFact { path: path.to_string(), kind: self.kind(path), canonical: Some(path.to_string()) }
    }

    /// The root, then every directory and file below it that the depth
    /// admits, in the order of their paths.
    fn walk(&self, root: &str, recurse: bool) -> WalkFact {
        let mut met: Vec<(String, bool)> = vec![(root.to_string(), self.kind(root) == PathKind::File)];
        let prefix = if root == "/" { "/".to_string() } else { format!("{root}/") };
        for (path, _) in &self.files {
            let Some(rest) = path.strip_prefix(&prefix) else { continue };
            let parts: Vec<&str> = rest.split('/').collect();
            for depth in 1..=parts.len() {
                if !recurse && depth > 1 {
                    break;
                }
                let entry = format!("{prefix}{}", parts[..depth].join("/"));
                if !met.iter().any(|(known, _)| known == &entry) {
                    met.push((entry, depth == parts.len()));
                }
            }
        }
        met[1..].sort();
        let entries = met
            .into_iter()
            .map(|(path, is_file)| WalkEntry { canonical: Some(path.clone()), path, is_file })
            .collect();
        WalkFact { root: root.to_string(), recurse, outcome: Ok(entries) }
    }

    /// What a discovery with `config` gets to know of the workspace, and of
    /// the candidate paths `more` beside.
    fn facts(&self, config: &Config, more: &[String]) -> FsFacts {
        let mut paths: Vec<PathFact> =
            probes_for(config, &self.root, '/').iter().map(|path| self.probe(path)).collect();
        paths.extend(more.iter().map(|path| self.probe(path)));
        let known = FsFacts { paths, walks: Vec::new() };
        let walks = walks_for(config, &self.root, '/', &known)
            .iter()
            .map(|root| self.walk(root, config.recurse))
            .collect();
        FsFacts { paths: known.paths, walks }
    }

    /// What Git would answer: the root, and as changed in the working tree
    /// the files that differ from what was committed.
    fn git(&self) -> GitFacts {
        let Some(committed) = &self.committed else {
            let outside = CommandOutput {
                success: false,
                code: Some(128),
                stdout: String::new(),
                stderr: "fatal: not a git repository\n".to_string(),
            };
            return GitFacts { root: Ok(outside), unstaged: Err("not run".to_string()), staged: Err("not run".to_string()) };
        };
        let mut changed = String::new();
        for (path, content) in &self.files {
            if !committed.iter().any(|(known, was)| known == path && was == content) {
                changed.push_str(path.strip_prefix(&format!("{}/", self.root)).unwrap_or(path));
                changed.push('\n');
            }
        }
        GitFacts {
            root: Ok(ok_output(&format!("{}\n", self.root))),
            unstaged: Ok(ok_output(&changed)),
            staged: Ok(ok_output("")),
        }
    }
}

fn ok_output(stdout: &str) -> CommandOutput {
    CommandOutput { success: true, code: Some(0), stdout: stdout.to_string(), stderr: String::new() }
}

fn no_git() -> GitFacts {
    GitFacts {
        root: Err("not asked".to_string()),
        unstaged: Err("not asked".to_string()),
        staged: Err("not asked".to_string()),
    }
}

fn config_with_path(path: &str) -> Config {
    Config {
        git_changed: false,
        paths: vec![path.to_string()],
        recurse: false,
        strict_fallback: false,
        fallback_script: "scripts/pwsh/devops/Format-PowerShellCode.ps1".to_string(),
    }
}

#[test]
fn discovers_files_by_glob_pattern() {
    let mut workspace = create_workspace();
    write_file(&mut workspace, "scripts/a.ps1", "Get-ChildItem\n");
    write_file(&mut workspace, "scripts/nested/b.psm1", "Get-ChildItem\n");
    write_file(&mut workspace, "scripts/c.txt", "ignore\n");

    let mut config = config_with_path("scripts/**/*.ps*");
    config.recurse = true;

    let facts = workspace.facts(&config, &[]);
    let files = discover_files(&config, &workspace.root, &no_git(), &facts).expect("discover by glob");
    let files_as_string: Vec<String> = files
        .iter()
        .map(|path| relative_to(path, &workspace.root).replace('\\', "/"))
        .collect();

    assert_eq!(files.len(), 2);
    assert!(files_as_string.iter().any(|value| value.ends_with("scripts/a.ps1")));
    assert!(files_as_string.iter().any(|value| value.ends_with("scripts/nested/b.psm1")));
}

#[test]
fn discovers_git_changed_files() {
    let mut workspace = create_workspace();
    init_git_repo(&mut workspace);

    write_file(&mut workspace, "tracked.ps1", "Get-ChildItem\n");
    git_commit_all(&mut workspace, "init");

    let script = write_file(&mut workspace, "tracked.ps1", "get-childitem -path .\n");

    let config = Config {
        git_changed: true,
        paths: Vec::new(),
        recurse: false,
        strict_fallback: false,
        fallback_script: "scripts/pwsh/devops/Format-PowerShellCode.ps1".to_string(),
    };

    let facts = workspace.facts(&config, &[script]);
    let files = discover_files(&config, &workspace.root, &workspace.git(), &facts).expect("discover git changed");
    assert_eq!(files.len(), 1);
    assert!(files[0].replace('\\', "/").ends_with("tracked.ps1"));
}

#[test]
fn unchanged_committed_file_is_not_discovered() {
    let mut workspace = create_workspace();
    init_git_repo(&mut workspace);
    let script = write_file(&mut workspace, "tracked.ps1", "Get-ChildItem\n");
    git_commit_all(&mut workspace, "init");

    let mut config = config_with_path("unused");
    config.git_changed = true;
    config.paths.clear();

    let facts = workspace.facts(&config, &[script]);
    let files = discover_files(&config, &workspace.root, &workspace.git(), &facts).expect("discover");
    assert!(files.is_empty());
}

#[test]
fn overlapping_entries_list_a_file_once_and_in_order() {
    let mut workspace = create_workspace();
    write_file(&mut workspace, "scripts/b.ps1", "Get-ChildItem\n");
    write_file(&mut workspace, "scripts/a.psd1", "@{}\n");
    write_file(&mut workspace, "scripts/A.PS1", "Get-ChildItem\n");

    let config = Config {
        git_changed: false,
        paths: vec![
            "scripts/*.ps1".to_string(),
            "scripts/b.ps1".to_string(),
            "scripts".to_string(),
            "/work/scripts/b.ps1".to_string(),
        ],
        recurse: false,
        strict_fallback: false,
        fallback_script: "fallback.ps1".to_string(),
    };
    let facts = workspace.facts(&config, &[]);

    let first = discover_files(&config, &workspace.root, &no_git(), &facts).expect("first run");
    let second = discover_files(&config, &workspace.root, &no_git(), &facts).expect("second run");

    assert_eq!(
        first,
        vec![
            "/work/scripts/A.PS1".to_string(),
            "/work/scripts/a.psd1".to_string(),
            "/work/scripts/b.ps1".to_string(),
        ]
    );
    assert_eq!(first, second);
}

#[test]
fn git_and_paths_are_united_in_one_order() {
    let mut workspace = create_workspace();
    init_git_repo(&mut workspace);
    git_commit_all(&mut workspace, "init");
    let changed = write_file(&mut workspace, "z/changed.psm1", "x\n");
    write_file(&mut workspace, "a/listed.ps1", "y\n");

    let mut config = config_with_path("a");
    config.git_changed = true;
    let facts = workspace.facts(&config, &[changed]);
    let files = discover_files(&config, &workspace.root, &workspace.git(), &facts).expect("discover");
    assert_eq!(files, vec!["/work/a/listed.ps1".to_string(), "/work/z/changed.psm1".to_string()]);
}

#[test]
fn directory_is_walked_one_level_unless_recursive() {
    let mut workspace = create_workspace();
    write_file(&mut workspace, "scripts/a.ps1", "x\n");
    write_file(&mut workspace, "scripts/nested/b.psm1", "x\n");

    let mut config = config_with_path("scripts");
    let flat = discover_files(&config, &workspace.root, &no_git(), &workspace.facts(&config, &[]))
        .expect("flat walk");
    assert_eq!(flat, vec!["/work/scripts/a.ps1".to_string()]);

    config.recurse = true;
    let deep = discover_files(&config, &workspace.root, &no_git(), &workspace.facts(&config, &[]))
        .expect("deep walk");
    assert_eq!(deep, vec!["/work/scripts/a.ps1".to_string(), "/work/scripts/nested/b.psm1".to_string()]);
}

#[test]
fn single_file_is_taken_only_with_supported_extension() {
    let mut workspace = create_workspace();
    write_file(&mut workspace, "one.ps1", "x\n");
    write_file(&mut workspace, "two.txt", "x\n");

    let config = Config { paths: vec!["one.ps1".to_string(), "two.txt".to_string()], ..config_with_path("") };
    let files = discover_files(&config, &workspace.root, &no_git(), &workspace.facts(&config, &[]))
        .expect("discover");
    assert_eq!(files, vec!["/work/one.ps1".to_string()]);
}

#[test]
fn pattern_without_base_directory_finds_nothing() {
    let workspace = create_workspace();
    let config = config_with_path("missing/*.ps1");
    let files = discover_files(&config, &workspace.root, &no_git(), &workspace.facts(&config, &[]))
        .expect("discover");
    assert!(files.is_empty());
}

#[test]
fn canonical_form_is_listed_where_known() {
    let config = config_with_path("link.ps1");
    let facts = FsFacts {
        paths: vec![PathFact {
            path: "/work/link.ps1".to_string(),
            kind: PathKind::File,
            canonical: Some("/real/target.ps1".to_string()),
        }],
        walks: Vec::new(),
    };
    let files = discover_files(&config, "/work", &no_git(), &facts).expect("discover");
    assert_eq!(files, vec!["/real/target.ps1".to_string()]);
    assert_eq!(normalize_existing_path("/work/link.ps1", &None), "/work/link.ps1");
}

#[test]
fn invalid_glob_is_reported_with_its_pattern() {
    let workspace = create_workspace();
    let config = config_with_path("scripts/[.ps1");
    let error = discover_files(&config, &workspace.root, &no_git(), &workspace.facts(&config, &[]))
        .expect_err("invalid glob");
    match error {
        AppError::InvalidGlob { pattern, .. } => assert_eq!(pattern, "scripts/[.ps1"),
        other => panic!("unexpected error: {other:?}"),
    }
}

#[test]
fn walk_failure_is_an_io_error() {
    let config = config_with_path("scripts");
    let failing = |path: Option<String>| FsFacts {
        paths: vec![PathFact { path: "/work/scripts".to_string(), kind: PathKind::Directory, canonical: None }],
        walks: vec![WalkFact {
            root: "/work/scripts".to_string(),
            recurse: false,
            outcome: Err(WalkFailure { path, cause: "permission denied".to_string() }),
        }],
    };
    match discover_files(&config, "/work", &no_git(), &failing(Some("/work/scripts/locked".to_string()))) {
        Err(AppError::Io { operation, path, source }) => {
            assert_eq!(operation, "遍历目录");
            assert_eq!(path, "/work/scripts/locked");
            assert_eq!(source, "permission denied");
        }
        other => panic!("unexpected outcome: {other:?}"),
    }
    match discover_files(&config, "/work", &no_git(), &failing(None)) {
        Err(AppError::Io { path, .. }) => assert_eq!(path, "/work/scripts"),
        other => panic!("unexpected outcome: {other:?}"),
    }
}

#[test]
fn pattern_walk_failure_names_the_pattern_walk() {
    let config = config_with_path("scripts/*.ps1");
    let facts = FsFacts {
        paths: vec![PathFact { path: "/work/scripts".to_string(), kind: PathKind::Directory, canonical: None }],
        walks: vec![WalkFact {
            root: "/work/scripts".to_string(),
            recurse: false,
            outcome: Err(WalkFailure { path: None, cause: "gone".to_string() }),
        }],
    };
    match discover_files(&config, "/work", &no_git(), &facts) {
        Err(AppError::Io { operation, path, .. }) => {
            assert_eq!(operation, "遍历模式目录");
            assert_eq!(path, "/work/scripts");
        }
        other => panic!("unexpected outcome: {other:?}"),
    }
}

#[test]
fn git_outside_repository_fails() {
    let workspace = create_workspace();
    let mut config = config_with_path("unused");
    config.git_changed = true;
    let error = discover_files(&config, &workspace.root, &workspace.git(), &workspace.facts(&config, &[]))
        .expect_err("no repository");
    match error {
        AppError::GitCommandFailed { message } => {
            assert_eq!(message, "当前目录不在 Git 仓库内: fatal: not a git repository")
        }
        other => panic!("unexpected error: {other:?}"),
    }
}

#[test]
fn git_root_answers() {
    let started = |stdout: &str, stderr: &str, success: bool| {
        Ok(CommandOutput { success, code: Some(if success { 0 } else { 1 }), stdout: stdout.to_string(), stderr: stderr.to_string() })
    };
    assert_eq!(git_repo_root(&started("  /repo \n", "", true)).expect("root"), "/repo");
    match git_repo_root(&started("", "", true)) {
        Err(AppError::GitCommandFailed { message }) => assert_eq!(message, "Git 仓库根目录为空"),
        other => panic!("unexpected outcome: {other:?}"),
    }
    match git_repo_root(&started("", " \n", false)) {
        Err(AppError::GitCommandFailed { message }) => assert_eq!(message, "当前目录不在 Git 仓库内"),
        other => panic!("unexpected outcome: {other:?}"),
    }
    match git_repo_root(&Err("No such file or directory".to_string())) {
        Err(AppError::GitCommandFailed { message }) => {
            assert_eq!(message, "执行 git rev-parse 失败: No such file or directory")
        }
        other => panic!("unexpected outcome: {other:?}"),
    }
}

#[test]
fn git_diff_answers() {
    let output = ok_output("a.ps1\r\n\n  sub/b.psm1  \nc.psd1");
    assert_eq!(
        git_changed_candidates("/repo", &Ok(output)).expect("candidates"),
        vec!["/repo/a.ps1".to_string(), "/repo/sub/b.psm1".to_string(), "/repo/c.psd1".to_string()]
    );
    let failed = CommandOutput { success: false, code: Some(129), stdout: String::new(), stderr: String::new() };
    match git_changed_candidates("/repo", &Ok(failed)) {
        Err(AppError::GitCommandFailed { message }) => assert_eq!(message, "git diff 退出码异常: Some(129)"),
        other => panic!("unexpected outcome: {other:?}"),
    }
    let killed = CommandOutput { success: false, code: None, stdout: String::new(), stderr: String::new() };
    match git_changed_candidates("/repo", &Ok(killed)) {
        Err(AppError::GitCommandFailed { message }) => assert_eq!(message, "git diff 退出码异常: None"),
        other => panic!("unexpected outcome: {other:?}"),
    }
    let complained = CommandOutput { success: false, code: Some(1), stdout: String::new(), stderr: " bad revision \n".to_string() };
    match git_changed_candidates("/repo", &Ok(complained)) {
        Err(AppError::GitCommandFailed { message }) => assert_eq!(message, "bad revision"),
        other => panic!("unexpected outcome: {other:?}"),
    }
    match git_changed_candidates("/repo", &Err("denied".to_string())) {
        Err(AppError::GitCommandFailed { message }) => assert_eq!(message, "执行 git diff 失败: denied"),
        other => panic!("unexpected outcome: {other:?}"),
    }
}

#[test]
fn git_queries() {
    assert_eq!(git_root_arguments(), vec!["rev-parse", "--show-toplevel"]);
    assert_eq!(
        git_diff_arguments(false),
        vec!["diff", "--name-only", "--diff-filter=ACMRTUXB", "--", "*.ps1", "*.psm1", "*.psd1"]
    );
    assert_eq!(
        git_diff_arguments(true),
        vec!["diff", "--name-only", "--diff-filter=ACMRTUXB", "--cached", "--", "*.ps1", "*.psm1", "*.psd1"]
    );
}

#[test]
fn supported_extensions() {
    for ext in ["ps1", "psm1", "psd1", "PS1", "PsM1", "psD1"] {
        assert!(is_supported_extension(ext), "{ext}");
    }
    for ext in ["", "ps", "ps2", "ps11", "txt", "psm", "ｐs1"] {
        assert!(!is_supported_extension(ext), "{ext}");
    }
    assert!(is_supported_pwsh_file("/work/a.ps1"));
    assert!(is_supported_pwsh_file("module.PSM1"));
    assert!(!is_supported_pwsh_file("/work/.ps1"));
    assert!(!is_supported_pwsh_file("/work/ps1"));
    assert!(!is_supported_pwsh_file("/work/a.ps1.bak"));
}

#[test]
fn pattern_base_directories() {
    assert_eq!(pattern_base_dir("scripts/**/*.ps*", '/'), "scripts");
    assert_eq!(pattern_base_dir("a/b/c*.ps1", '/'), "a/b");
    assert_eq!(pattern_base_dir("a\\b\\*.ps1", '/'), "a\\b");
    assert_eq!(pattern_base_dir("*.ps1", '/'), ".");
    assert_eq!(pattern_base_dir("plain", '/'), ".");
    assert_eq!(pattern_base_dir("dir/plain.ps1", '/'), "dir");
    assert_eq!(pattern_base_dir("/*.ps1", '/'), "/");
    assert_eq!(pattern_base_dir("\\*.ps1", '\\'), "\\");
    assert_eq!(pattern_base_dir("/abs/x?.ps1", '/'), "/abs");
    assert_eq!(pattern_base_dir("a/[bc]/d/*.ps1", '/'), "a");
    assert_eq!(pattern_base_dir("", '/'), ".");
}

#[test]
fn paths_are_resolved_against_the_working_directory() {
    assert_eq!(resolve_from_cwd("/work", "scripts/a.ps1"), "/work/scripts/a.ps1");
    assert_eq!(resolve_from_cwd("/work", "/etc/a.ps1"), "/etc/a.ps1");
    assert_eq!(relative_to("/work/scripts/a.ps1", "/work"), "scripts/a.ps1");
    assert_eq!(relative_to("/other/a.ps1", "/work"), "/other/a.ps1");
    assert_eq!(normalize_for_glob("a\\b/c\\d.ps1"), "a/b/c/d.ps1");
}

#[test]
fn path_set_keeps_order_and_drops_repeats() {
    let mut set = PathSet::new();
    for path in ["/b", "/a/z", "/a", "/b", "/a-b", "/a/b", "/a", "/é", ""] {
        set.insert(path);
    }
    assert_eq!(set.len(), 7);
    assert_eq!(set.into_vec(), vec!["", "/a", "/a-b", "/a/b", "/a/z", "/b", "/é"]);
}

#[test]
fn discovery_with_a_given_separator() {
    let mut workspace = create_workspace();
    write_file(&mut workspace, "top.ps1", "x\n");
    let config = config_with_path("/work/*.ps1");
    let facts = workspace.facts(&config, &[]);
    let files = discover_files_with(&config, &workspace.root, &no_git(), &facts, '/').expect("discover");
    assert_eq!(files, vec!["/work/top.ps1".to_string()]);
}

#[test]
fn pattern_at_the_root_is_looked_for_in_the_root() {
    let root = std::path::MAIN_SEPARATOR.to_string();
    let script = format!("{root}top.ps1");
    let config = config_with_path("/*.ps1");
    let facts = FsFacts {
        paths: vec![PathFact { path: root.clone(), kind: PathKind::Directory, canonical: None }],
        walks: vec![WalkFact {
            root: root.clone(),
            recurse: false,
            outcome: Ok(vec![
                WalkEntry { path: root.clone(), is_file: false, canonical: None },
                WalkEntry { path: script.clone(), is_file: true, canonical: None },
                WalkEntry { path: format!("{root}top.txt"), is_file: true, canonical: None },
            ]),
        }],
    };
    assert_eq!(probes_for(&config, "/work", std::path::MAIN_SEPARATOR)[1], root);
    assert_eq!(walks_for(&config, "/work", std::path::MAIN_SEPARATOR, &facts), vec![root]);
    let files = discover_files(&config, "/work", &no_git(), &facts).expect("discover");
    assert_eq!(files, vec![normalize_for_glob(&script)]);
}

#[test]
fn pattern_beyond_the_size_limit_of_globset_is_rejected() {
    let pattern = format!("{}*", "?a".repeat(400_000));
    let config = config_with_path(&pattern);
    let facts = FsFacts { paths: Vec::new(), walks: Vec::new() };
    match discover_files(&config, "/work", &no_git(), &facts) {
        Err(AppError::InvalidGlob { pattern: rejected, .. }) => assert_eq!(rejected, pattern),
        other => panic!("unexpected outcome: {other:?}"),
    }
}

#[test]
fn failing_steps_leave_the_set_as_it_was() {
    let facts = FsFacts { paths: Vec::new(), walks: Vec::new() };
    let mut found = PathSet::new();
    found.insert("/work/kept.ps1");

    let outcome = collect_files_from_pattern("/work", "scripts/[a", false, '/', &facts, &mut found);
    assert!(matches!(outcome, Err(AppError::InvalidGlob { .. })));
    assert_eq!(found.len(), 1);

    let workspace = create_workspace();
    let outcome = collect_git_changed_files(&workspace.git(), &facts, &mut found);
    assert!(matches!(outcome, Err(AppError::GitCommandFailed { .. })));

    let outcome = collect_files_from_pattern("/work", "missing/*.ps1", false, '/', &facts, &mut found);
    assert!(outcome.is_ok());
    assert_eq!(found.into_vec(), vec!["/work/kept.ps1".to_string()]);
}
