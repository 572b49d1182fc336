//! File discovery: which files a run works on, decided from what the caller
//! found on disk and heard from Git.

pub mod facts;
pub mod git;
pub mod glob;
pub mod path_set;

use crate::chars::{fold, to_ascii_lowercase};
use crate::config::{Config, ConfigView};
use crate::discovery::facts::{
    FsFacts, FsFactsView, PathKind, WalkEntry, WalkEntryView, WalkFailure, WalkFailureView,
    entry_views,
};
use crate::discovery::git::{
    changed_candidates, git_changed_candidates, git_repo_root, repo_root, GitFacts, GitFactsView,
};
use crate::discovery::glob::{
    compile_glob, glob_accepts, glob_is_valid, glob_rejection, globs_of, sole_glob_matches,
};
use crate::discovery::path_set::{lemma_sorted_unique, strictly_sorted, PathSet};
use crate::error::{AppError, AppErrorView};
use crate::paths::{
    extension, extension_of, main_separator, relative_path, relative_to, resolve_from_cwd,
    resolved_path,
};
use crate::text::{
    chars_of, lemma_lex_irreflexive, lex_less, replace_char, replaced, same_chars, string_from,
    string_of, text_of, texts,
};
use globset::GlobSet;
use vstd::prelude::*;

verus! {

/// An extension of a PowerShell source: `ps1`, `psm1` or `psd1`, in any case.
pub open spec fn supported_extension(ext: Seq<char>) -> bool {
    fold(ext) == "ps1"@ || fold(ext) == "psm1"@ || fold(ext) == "psd1"@
}

/// A path whose file name has a supported extension.
pub open spec fn supported_file(path: Seq<char>) -> bool {
    match extension_of(path) {
        Some(ext) => supported_extension(ext),
        None => false,
    }
}

/// The path under which a file is listed: its canonical form where the
/// system gave one, else the path as it was found.
pub open spec fn listed_path(path: Seq<char>, canonical: Option<Seq<char>>) -> Seq<char> {
    match canonical {
        Some(form) => form,
        None => path,
    }
}

/// A character that opens a wildcard in a glob.
pub open spec fn is_wildcard(c: char) -> bool {
    c == '*' || c == '?' || c == '['
}

/// A slash or a backslash.
pub open spec fn is_separator(c: char) -> bool {
    c == '/' || c == '\\'
}

/// The position of the first wildcard at or after `from`; the length of `s`
/// where there is none.
pub open spec fn wildcard_position(s: Seq<char>, from: int) -> int
    decreases s.len() - from,
{
    if 0 <= from < s.len() && !is_wildcard(s[from]) {
        wildcard_position(s, from + 1)
    } else if from < s.len() {
        from
    } else {
        s.len() as int
    }
}

/// The position of the last separator before `end`; -1 where there is none.
pub open spec fn separator_before(s: Seq<char>, end: int) -> int
    decreases end,
{
    if 0 < end <= s.len() {
        if is_separator(s[end - 1]) {
            end - 1
        } else {
            separator_before(s, end - 1)
        }
    } else {
        -1
    }
}

/// The directory from which the files of a pattern are looked for: what
/// stands before the last separator that precedes the first wildcard. Where
/// that separator opens the pattern it is the root, written with the
/// separator of the platform; where there is none it is the current
/// directory.
pub open spec fn base_dir_of(pattern: Seq<char>, separator: char) -> Seq<char> {
    let at = separator_before(pattern, wildcard_position(pattern, 0));
    if at > 0 {
        pattern.take(at)
    } else if at == 0 {
        seq![separator]
    } else {
        seq!['.']
    }
}

/// Whether the glob `pattern` matches the file at `path` in one of its three
/// forms: as it is, seen from `cwd`, or seen from `base`; each with slashes
/// for backslashes.
pub open spec fn pattern_accepts(
    pattern: Seq<char>,
    cwd: Seq<char>,
    base: Seq<char>,
    path: Seq<char>,
) -> bool {
    ||| glob_accepts(pattern, replaced(path, '\\', '/'))
    ||| glob_accepts(pattern, replaced(relative_path(path, cwd), '\\', '/'))
    ||| glob_accepts(pattern, replaced(relative_path(path, base), '\\', '/'))
}

/// The files among `candidates` that exist and have a supported extension,
/// as they are listed.
pub open spec fn existing_files(fs: FsFactsView, candidates: Seq<Seq<char>>) -> Seq<Seq<char>>
    decreases candidates.len(),
{
    if candidates.len() == 0 {
        Seq::empty()
    } else {
        let before = existing_files(fs, candidates.drop_last());
        let path = candidates.last();
        if fs.kind_of(path) == PathKind::File && supported_file(path) {
            before.push(listed_path(path, fs.canonical_of(path)))
        } else {
            before
        }
    }
}

/// The files with a supported extension among the entries of a walk, as
/// they are listed.
pub open spec fn walked_files(entries: Seq<WalkEntryView>) -> Seq<Seq<char>>
    decreases entries.len(),
{
    if entries.len() == 0 {
        Seq::empty()
    } else {
        let before = walked_files(entries.drop_last());
        let entry = entries.last();
        if entry.is_file && supported_file(entry.path) {
            before.push(listed_path(entry.path, entry.canonical))
        } else {
            before
        }
    }
}

/// The files with a supported extension among the entries of a walk that
/// the glob `pattern` matches, as they are listed.
pub open spec fn matched_files(
    entries: Seq<WalkEntryView>,
    pattern: Seq<char>,
    cwd: Seq<char>,
    base: Seq<char>,
) -> Seq<Seq<char>>
    decreases entries.len(),
{
    if entries.len() == 0 {
        Seq::empty()
    } else {
        let before = matched_files(entries.drop_last(), pattern, cwd, base);
        let entry = entries.last();
        if entry.is_file && supported_file(entry.path) && pattern_accepts(
            pattern,
            cwd,
            base,
            entry.path,
        ) {
            before.push(listed_path(entry.path, entry.canonical))
        } else {
            before
        }
    }
}

/// The error for a walk that failed: at the path where it failed, or at the
/// root of the walk where that path is not known.
pub open spec fn walk_error(operation: Seq<char>, root: Seq<char>, failure: WalkFailureView) -> AppErrorView {
    AppErrorView::Io {
        operation,
        path: match failure.path {
            Some(path) => path,
            None => root,
        },
        source: failure.cause,
    }
}

/// What a path that exists contributes: itself where it is a file with a
/// supported extension, the files of its tree where it is a directory.
pub open spec fn from_real_path(fs: FsFactsView, path: Seq<char>, recurse: bool) -> Result<
    Seq<Seq<char>>,
    AppErrorView,
> {
    match fs.kind_of(path) {
        PathKind::File => Ok(
            if supported_file(path) {
                seq![listed_path(path, fs.canonical_of(path))]
            } else {
                Seq::empty()
            },
        ),
        PathKind::Directory => match fs.walk_of(path, recurse) {
            Ok(entries) => Ok(walked_files(entries)),
            Err(failure) => Err(walk_error("遍历目录"@, path, failure)),
        },
        _ => Ok(Seq::empty()),
    }
}

/// What a glob pattern contributes: the files under its base directory that
/// it matches; nothing where that directory does not exist.
pub open spec fn from_pattern(
    fs: FsFactsView,
    cwd: Seq<char>,
    pattern: Seq<char>,
    recurse: bool,
    separator: char,
) -> Result<Seq<Seq<char>>, AppErrorView> {
    let normalized = replaced(pattern, '\\', '/');
    let base = resolved_path(cwd, base_dir_of(pattern, separator));
    if !glob_is_valid(normalized) {
        Err(AppErrorView::InvalidGlob { pattern, source: glob_rejection(normalized) })
    } else if fs.kind_of(base) == PathKind::Missing {
        Ok(Seq::empty())
    } else {
        match fs.walk_of(base, recurse) {
            Ok(entries) => Ok(matched_files(entries, normalized, cwd, base)),
            Err(failure) => Err(walk_error("遍历模式目录"@, base, failure)),
        }
    }
}

/// What one path entry contributes: as a path where something lies at it,
/// else as a glob pattern.
pub open spec fn from_entry(
    fs: FsFactsView,
    cwd: Seq<char>,
    raw: Seq<char>,
    recurse: bool,
    separator: char,
) -> Result<Seq<Seq<char>>, AppErrorView> {
    let resolved = resolved_path(cwd, raw);
    if fs.kind_of(resolved) != PathKind::Missing {
        from_real_path(fs, resolved, recurse)
    } else {
        from_pattern(fs, cwd, raw, recurse, separator)
    }
}

/// What the path entries contribute, in their order; the first failure
/// where one fails.
pub open spec fn from_entries(
    fs: FsFactsView,
    cwd: Seq<char>,
    entries: Seq<Seq<char>>,
    recurse: bool,
    separator: char,
) -> Result<Seq<Seq<char>>, AppErrorView>
    decreases entries.len(),
{
    if entries.len() == 0 {
        Ok(Seq::empty())
    } else {
        match from_entries(fs, cwd, entries.drop_last(), recurse, separator) {
            Err(error) => Err(error),
            Ok(before) => match from_entry(fs, cwd, entries.last(), recurse, separator) {
                Err(error) => Err(error),
                Ok(more) => Ok(before + more),
            },
        }
    }
}

/// What Git contributes: the changed files of the working tree and of the
/// index that exist and have a supported extension.
pub open spec fn from_git(git: GitFactsView, fs: FsFactsView) -> Result<
    Seq<Seq<char>>,
    AppErrorView,
> {
    match repo_root(git.root) {
        Err(error) => Err(error),
        Ok(root) => match changed_candidates(root, git.unstaged) {
            Err(error) => Err(error),
            Ok(unstaged) => match changed_candidates(root, git.staged) {
                Err(error) => Err(error),
                Ok(staged) => Ok(existing_files(fs, unstaged) + existing_files(fs, staged)),
            },
        },
    }
}

/// Every file that a run selects, in the order in which it is met, a file
/// as often as it is met; or the first failure.
pub open spec fn selection(
    config: ConfigView,
    cwd: Seq<char>,
    git: GitFactsView,
    fs: FsFactsView,
    separator: char,
) -> Result<Seq<Seq<char>>, AppErrorView> {
    let changed = if config.git_changed {
        from_git(git, fs)
    } else {
        Ok(Seq::empty())
    };
    match changed {
        Err(error) => Err(error),
        Ok(first) => match from_entries(fs, cwd, config.paths, config.recurse, separator) {
            Err(error) => Err(error),
            Ok(more) => Ok(first + more),
        },
    }
}

/// The paths `after` are the paths `before` and the paths `added`.
pub open spec fn gathers(before: Seq<Seq<char>>, after: Seq<Seq<char>>, added: Seq<Seq<char>>) -> bool {
    after.to_set() == before.to_set().union(added.to_set())
}

/// Whether `ext` is an extension of a PowerShell source.
pub fn is_supported_extension(ext: &str) -> (supported: bool)
    ensures
        supported == supported_extension(ext@),
{
    let spelled = chars_of(ext);
    let mut lowered: Vec<char> = Vec::new();
    let mut i: usize = 0;
    while i < spelled.len()
        invariant
            i <= spelled.len(),
            lowered@ == fold(spelled@.take(i as int)),
        decreases spelled.len() - i,
    {
        lowered.push(to_ascii_lowercase(spelled[i]));
        i += 1;
        assert(lowered@ =~= fold(spelled@.take(i as int)));
    }
    assert(spelled@.take(spelled.len() as int) =~= spelled@);
    same_chars(&lowered, &chars_of("ps1")) || same_chars(&lowered, &chars_of("psm1"))
        || same_chars(&lowered, &chars_of("psd1"))
}

/// Whether the file name of `path` has a supported extension.
pub fn is_supported_pwsh_file(path: &str) -> (supported: bool)
    ensures
        supported == supported_file(path@),
{
    match extension(path) {
        Some(ext) => is_supported_extension(ext.as_str()),
        None => false,
    }
}

/// The directory from which the files of `pattern` are looked for.
/// `separator` is the separator of the platform.
pub fn pattern_base_dir(pattern: &str, separator: char) -> (base: String)
    ensures
        base@ == base_dir_of(pattern@, separator),
{
    let chars = chars_of(pattern);
    let mut wildcard: usize = 0;
    while wildcard < chars.len() && !(chars[wildcard] == '*' || chars[wildcard] == '?'
        || chars[wildcard] == '[')
        invariant
            wildcard <= chars.len(),
            wildcard_position(chars@, 0) == wildcard_position(chars@, wildcard as int),
        decreases chars.len() - wildcard,
    {
        wildcard += 1;
    }
    let mut end: usize = wildcard;
    while end > 0 && !(chars[end - 1] == '/' || chars[end - 1] == '\\')
        invariant
            end <= wildcard <= chars.len(),
            separator_before(chars@, wildcard as int) == separator_before(chars@, end as int),
        decreases end,
    {
        end -= 1;
    }
    if end > 1 {
        assert(chars@.subrange(0, end - 1) =~= chars@.take(end - 1));
        string_of(&chars, 0, end - 1)
    } else {
        let mut base: Vec<char> = Vec::new();
        if end == 1 {
            base.push(separator);
            assert(base@ =~= seq![separator]);
        } else {
            base.push('.');
            assert(base@ =~= seq!['.']);
        }
        string_from(&base)
    }
}

/// `path` with slashes for backslashes: the form in which a glob sees it.
pub fn normalize_for_glob(path: &str) -> (normal: String)
    ensures
        normal@ == replaced(path@, '\\', '/'),
{
    replace_char(path, '\\', '/')
}

/// The path under which a file is listed: the canonical form `canonical`
/// where the system gave one, else `path` itself.
pub fn normalize_existing_path(path: &str, canonical: &Option<String>) -> (listed: String)
    ensures
        listed@ == listed_path(path@, text_of(*canonical)),
{
    match canonical {
        Some(form) => form.clone(),
        None => path.to_owned(),
    }
}

/// What a collecting step has done is what was expected of it: it has
/// added the expected paths to the set, or failed with the expected error
/// and left the set as it was.
pub open spec fn collected(
    outcome: Result<(), AppError>,
    before: Seq<Seq<char>>,
    after: Seq<Seq<char>>,
    expected: Result<Seq<Seq<char>>, AppErrorView>,
) -> bool {
    match outcome {
        Ok(()) => expected matches Ok(added) && gathers(before, after, added),
        Err(error) => expected == Err::<Seq<Seq<char>>, AppErrorView>(error@) && after == before,
    }
}

/// Gathering nothing leaves the paths as they are.
proof fn lemma_gathers_nothing(before: Seq<Seq<char>>)
    ensures
        gathers(before, before, Seq::empty()),
{
    assert(before.to_set().union(Seq::<Seq<char>>::empty().to_set()) =~= before.to_set());
}

/// Gathering one more path after others gathers them all.
proof fn lemma_gathers_one_more(
    start: Seq<Seq<char>>,
    before: Seq<Seq<char>>,
    after: Seq<Seq<char>>,
    added: Seq<Seq<char>>,
    path: Seq<char>,
)
    requires
        gathers(start, before, added),
        after.to_set() == before.to_set().insert(path),
    ensures
        gathers(start, after, added.push(path)),
{
    added.lemma_push_to_set_commute(path);
    assert(after.to_set() =~= start.to_set().union(added.push(path).to_set()));
}

/// Gathering some paths after others gathers them all.
proof fn lemma_gathers_more(
    start: Seq<Seq<char>>,
    before: Seq<Seq<char>>,
    after: Seq<Seq<char>>,
    first: Seq<Seq<char>>,
    more: Seq<Seq<char>>,
)
    requires
        gathers(start, before, first),
        gathers(before, after, more),
    ensures
        gathers(start, after, first + more),
{
    vstd::seq_lib::seq_to_set_distributes_over_add(first, more);
    assert(after.to_set() =~= start.to_set().union((first + more).to_set()));
}

/// Adds the files among `candidates` that exist and have a supported
/// extension.
fn collect_existing(candidates: &Vec<String>, fs: &FsFacts, found: &mut PathSet)
    ensures
        gathers(old(found)@, final(found)@, existing_files(fs@, texts(candidates@))),
{
    let ghost start = found@;
    let ghost all = texts(candidates@);
    proof {
        lemma_gathers_nothing(start);
    }
    let mut i: usize = 0;
    while i < candidates.len()
        invariant
            i <= candidates.len(),
            all == texts(candidates@),
            gathers(start, found@, existing_files(fs@, all.take(i as int))),
        decreases candidates.len() - i,
    {
        let candidate = candidates[i].as_str();
        proof {
            assert(all.take(i + 1).drop_last() =~= all.take(i as int));
            assert(all.take(i + 1).last() == candidate@);
        }
        match fs.path_fact(candidate) {
            Some(fact) => {
                if fact.kind == PathKind::File && is_supported_pwsh_file(candidate) {
                    let listed = normalize_existing_path(candidate, &fact.canonical);
                    let ghost before = found@;
                    found.insert(listed.as_str());
                    proof {
                        lemma_gathers_one_more(
                            start,
                            before,
                            found@,
                            existing_files(fs@, all.take(i as int)),
                            listed@,
                        );
                    }
                }
            },
            None => {},
        }
        i += 1;
    }
    assert(all.take(candidates.len() as int) =~= all);
}

/// Whether `pattern`, the one glob of `set`, matches the file at `path` in one
/// of its three forms.
fn matches_entry(
    set: &GlobSet,
    cwd: &str,
    base: &str,
    path: &str,
    Ghost(pattern): Ghost<Seq<char>>,
) -> (matched: bool)
    requires
        globs_of(*set) == seq![pattern],
    ensures
        matched == pattern_accepts(pattern, cwd@, base@, path@),
{
    let candidate_norm = normalize_for_glob(path);
    let rel_cwd_norm = normalize_for_glob(relative_to(path, cwd).as_str());
    let rel_base_norm = normalize_for_glob(relative_to(path, base).as_str());
    sole_glob_matches(set, candidate_norm.as_str(), Ghost(pattern)) || sole_glob_matches(
        set,
        rel_cwd_norm.as_str(),
        Ghost(pattern),
    ) || sole_glob_matches(set, rel_base_norm.as_str(), Ghost(pattern))
}

/// The files that are to be taken from the entries of a walk: all with a
/// supported extension, or those among them that the glob `filter` matches.
pub open spec fn taken_files(
    entries: Seq<WalkEntryView>,
    filter: Option<Seq<char>>,
    cwd: Seq<char>,
    base: Seq<char>,
) -> Seq<Seq<char>> {
    match filter {
        Some(pattern) => matched_files(entries, pattern, cwd, base),
        None => walked_files(entries),
    }
}

/// Adds the files with a supported extension among the entries of a walk:
/// all of them, or those that the one glob of `filter` matches.
fn collect_entries(
    entries: &Vec<WalkEntry>,
    filter: Option<&GlobSet>,
    cwd: &str,
    base: &str,
    found: &mut PathSet,
    Ghost(pattern): Ghost<Option<Seq<char>>>,
)
    requires
        match filter {
            Some(set) => pattern matches Some(text) && globs_of(*set) == seq![text],
            None => pattern is None,
        },
    ensures
        gathers(
            old(found)@,
            final(found)@,
            taken_files(entry_views(entries@), pattern, cwd@, base@),
        ),
{
    let ghost start = found@;
    let ghost all = entry_views(entries@);
    proof {
        lemma_gathers_nothing(start);
    }
    let mut i: usize = 0;
    while i < entries.len()
        invariant
            i <= entries.len(),
            all == entry_views(entries@),
            match filter {
                Some(set) => pattern matches Some(text) && globs_of(*set) == seq![text],
                None => pattern is None,
            },
            gathers(start, found@, taken_files(all.take(i as int), pattern, cwd@, base@)),
        decreases entries.len() - i,
    {
        let entry = &entries[i];
        proof {
            assert(all.take(i + 1).drop_last() =~= all.take(i as int));
            assert(all.take(i + 1).last() == entry@);
        }
        if entry.is_file && is_supported_pwsh_file(entry.path.as_str()) {
            let wanted = match filter {
                Some(set) => matches_entry(
                    set,
                    cwd,
                    base,
                    entry.path.as_str(),
                    Ghost(pattern->Some_0),
                ),
                None => true,
            };
            if wanted {
                let listed = normalize_existing_path(entry.path.as_str(), &entry.canonical);
                let ghost before = found@;
                found.insert(listed.as_str());
                proof {
                    lemma_gathers_one_more(
                        start,
                        before,
                        found@,
                        taken_files(all.take(i as int), pattern, cwd@, base@),
                        listed@,
                    );
                }
            }
        }
        i += 1;
    }
    assert(all.take(entries.len() as int) =~= all);
}

/// The error for a walk of `root` that failed.
fn walk_failed(operation: &'static str, root: &str, failure: &WalkFailure) -> (error: AppError)
    ensures
        error@ == walk_error(operation@, root@, failure@),
{
    let path = match &failure.path {
        Some(path) => path.clone(),
        None => root.to_owned(),
    };
    AppError::io(operation, path, failure.cause.clone())
}

/// Adds what the path `path`, at which something lies, contributes.
pub fn collect_files_from_real_path(
    path: &str,
    recurse: bool,
    fs: &FsFacts,
    found: &mut PathSet,
) -> (outcome: Result<(), AppError>)
    ensures
        collected(outcome, old(found)@, final(found)@, from_real_path(fs@, path@, recurse)),
{
    proof {
        lemma_gathers_nothing(found@);
    }
    let fact = match fs.path_fact(path) {
        Some(fact) => fact,
        None => {
            return Ok(());
        },
    };
    match fact.kind {
        PathKind::File => {
            if is_supported_pwsh_file(path) {
                let listed = normalize_existing_path(path, &fact.canonical);
                let ghost before = found@;
                found.insert(listed.as_str());
                proof {
                    lemma_gathers_one_more(before, before, found@, Seq::empty(), listed@);
                    assert(Seq::<Seq<char>>::empty().push(listed@) =~= seq![listed@]);
                }
            }
            Ok(())
        },
        PathKind::Directory => {
            match fs.walk_fact(path, recurse) {
                None => Ok(()),
                Some(walk) => match &walk.outcome {
                    Ok(entries) => {
                        collect_entries(entries, None, path, path, found, Ghost(None));
                        Ok(())
                    },
                    Err(failure) => Err(walk_failed("遍历目录", path, failure)),
                },
            }
        },
        _ => Ok(()),
    }
}

/// Adds what the glob `pattern` contributes. `separator` is the separator
/// of the platform.
pub fn collect_files_from_pattern(
    cwd: &str,
    pattern: &str,
    recurse: bool,
    separator: char,
    fs: &FsFacts,
    found: &mut PathSet,
) -> (outcome: Result<(), AppError>)
    ensures
        collected(
            outcome,
            old(found)@,
            final(found)@,
            from_pattern(fs@, cwd@, pattern@, recurse, separator),
        ),
{
    proof {
        lemma_gathers_nothing(found@);
    }
    let normalized_pattern = normalize_for_glob(pattern);
    let matcher = match compile_glob(normalized_pattern.as_str()) {
        Ok(matcher) => matcher,
        Err(source) => {
            return Err(AppError::InvalidGlob { pattern: pattern.to_owned(), source });
        },
    };
    let base_dir = pattern_base_dir(pattern, separator);
    let base_abs = resolve_from_cwd(cwd, base_dir.as_str());
    match fs.kind(base_abs.as_str()) {
        PathKind::Missing => {
            return Ok(());
        },
        _ => {},
    }
    match fs.walk_fact(base_abs.as_str(), recurse) {
        None => Ok(()),
        Some(walk) => match &walk.outcome {
            Ok(entries) => {
                collect_entries(
                    entries,
                    Some(&matcher),
                    cwd,
                    base_abs.as_str(),
                    found,
                    Ghost(Some(normalized_pattern@)),
                );
                Ok(())
            },
            Err(failure) => Err(walk_failed("遍历模式目录", base_abs.as_str(), failure)),
        },
    }
}

/// Adds what the path entry `raw` contributes: as a path where something
/// lies at it, else as a glob pattern.
pub fn collect_files_from_path_or_pattern(
    cwd: &str,
    raw: &str,
    recurse: bool,
    separator: char,
    fs: &FsFacts,
    found: &mut PathSet,
) -> (outcome: Result<(), AppError>)
    ensures
        collected(
            outcome,
            old(found)@,
            final(found)@,
            from_entry(fs@, cwd@, raw@, recurse, separator),
        ),
{
    let resolved_path = resolve_from_cwd(cwd, raw);
    match fs.kind(resolved_path.as_str()) {
        PathKind::Missing => collect_files_from_pattern(cwd, raw, recurse, separator, fs, found),
        _ => collect_files_from_real_path(resolved_path.as_str(), recurse, fs, found),
    }
}

/// Adds the files that Git reports as changed, in the working tree and in
/// the index.
pub fn collect_git_changed_files(git: &GitFacts, fs: &FsFacts, found: &mut PathSet) -> (outcome:
    Result<(), AppError>)
    ensures
        collected(outcome, old(found)@, final(found)@, from_git(git@, fs@)),
{
    let ghost start = found@;
    let git_root = match git_repo_root(&git.root) {
        Ok(root) => root,
        Err(error) => {
            return Err(error);
        },
    };
    let unstaged = match git_changed_candidates(git_root.as_str(), &git.unstaged) {
        Ok(paths) => paths,
        Err(error) => {
            return Err(error);
        },
    };
    let staged = match git_changed_candidates(git_root.as_str(), &git.staged) {
        Ok(paths) => paths,
        Err(error) => {
            return Err(error);
        },
    };
    collect_existing(&unstaged, fs, found);
    let ghost middle = found@;
    collect_existing(&staged, fs, found);
    proof {
        lemma_gathers_more(
            start,
            middle,
            found@,
            existing_files(fs@, texts(unstaged@)),
            existing_files(fs@, texts(staged@)),
        );
    }
    Ok(())
}

/// The outcome of a discovery is the expected one: the files selected, each
/// once and in lexicographic order, or the expected error.
pub open spec fn discovered(
    outcome: Result<Vec<String>, AppError>,
    expected: Result<Seq<Seq<char>>, AppErrorView>,
) -> bool {
    match outcome {
        Ok(files) => expected matches Ok(selected) && strictly_sorted(texts(files@)) && texts(
            files@,
        ).to_set() == selected.to_set(),
        Err(error) => expected == Err::<Seq<Seq<char>>, AppErrorView>(error@),
    }
}

/// The files that a run works on: those that Git reports as changed, where
/// the configuration asks for them, and those that its path entries select;
/// each file once, in lexicographic order. `git` and `fs` hold what Git
/// answered and what was found on disk.
pub fn discover_files(config: &Config, cwd: &str, git: &GitFacts, fs: &FsFacts) -> (outcome:
    Result<Vec<String>, AppError>)
    ensures
        exists|separator: char|
            is_separator(separator) && discovered(
                outcome,
                #[trigger] selection(config@, cwd@, git@, fs@, separator),
            ),
{
    let separator = main_separator();
    let outcome = discover_files_with(config, cwd, git, fs, separator);
    assert(is_separator(separator) && discovered(
        outcome,
        selection(config@, cwd@, git@, fs@, separator),
    ));
    outcome
}

/// The files that a run works on, where `separator` is the separator of
/// the platform.
pub fn discover_files_with(
    config: &Config,
    cwd: &str,
    git: &GitFacts,
    fs: &FsFacts,
    separator: char,
) -> (outcome: Result<Vec<String>, AppError>)
    ensures
        discovered(outcome, selection(config@, cwd@, git@, fs@, separator)),
{
    let mut found = PathSet::new();
    proof {
        lemma_gathers_nothing(found@);
    }
    if config.git_changed {
        match collect_git_changed_files(git, fs, &mut found) {
            Ok(()) => {},
            Err(error) => {
                return Err(error);
            },
        }
    }
    let ghost first = found@;
    let ghost entries = texts(config.paths@);
    let ghost changed = if config.git_changed {
        from_git(git@, fs@)->Ok_0
    } else {
        Seq::empty()
    };
    proof {
        lemma_gathers_nothing(first);
        if !config.git_changed {
            lemma_gathers_nothing(Seq::<Seq<char>>::empty());
        }
    }
    let mut i: usize = 0;
    while i < config.paths.len()
        invariant
            i <= config.paths.len(),
            entries == texts(config.paths@),
            entries == config@.paths,
            gathers(Seq::<Seq<char>>::empty(), first, changed),
            config.git_changed ==> from_git(git@, fs@) == Ok::<Seq<Seq<char>>, AppErrorView>(
                changed,
            ),
            from_entries(fs@, cwd@, entries.take(i as int), config.recurse, separator) matches Ok(
                more,
            ) && gathers(first, found@, more),
        decreases config.paths.len() - i,
    {
        let ghost before = found@;
        let ghost so_far = from_entries(
            fs@,
            cwd@,
            entries.take(i as int),
            config.recurse,
            separator,
        )->Ok_0;
        proof {
            assert(entries.take(i + 1).drop_last() =~= entries.take(i as int));
            assert(entries.take(i + 1).last() == config.paths@[i as int]@);
        }
        match collect_files_from_path_or_pattern(
            cwd,
            config.paths[i].as_str(),
            config.recurse,
            separator,
            fs,
            &mut found,
        ) {
            Ok(()) => {
                proof {
                    let more = from_entry(
                        fs@,
                        cwd@,
                        config.paths@[i as int]@,
                        config.recurse,
                        separator,
                    )->Ok_0;
                    lemma_gathers_more(first, before, found@, so_far, more);
                }
            },
            Err(error) => {
                proof {
                    lemma_first_failure(
                        fs@,
                        cwd@,
                        entries,
                        config.recurse,
                        separator,
                        i as int,
                    );
                }
                return Err(error);
            },
        }
        i += 1;
    }
    proof {
        assert(entries.take(config.paths.len() as int) =~= entries);
        let more = from_entries(fs@, cwd@, entries, config.recurse, separator)->Ok_0;
        let empty = Seq::<Seq<char>>::empty();
        lemma_gathers_more(empty, first, found@, changed, more);
        assert(empty.to_set().union((changed + more).to_set()) =~= (changed + more).to_set());
    }
    Ok(found.into_vec())
}

/// A failure at one entry is the failure of every longer list of entries.
proof fn lemma_first_failure(
    fs: FsFactsView,
    cwd: Seq<char>,
    entries: Seq<Seq<char>>,
    recurse: bool,
    separator: char,
    at: int,
)
    requires
        0 <= at < entries.len(),
        from_entries(fs, cwd, entries.take(at + 1), recurse, separator) is Err,
    ensures
        from_entries(fs, cwd, entries, recurse, separator) == from_entries(
            fs,
            cwd,
            entries.take(at + 1),
            recurse,
            separator,
        ),
    decreases entries.len(),
{
    if at + 1 == entries.len() {
        assert(entries.take(at + 1) =~= entries);
    } else {
        assert(entries.drop_last().take(at + 1) =~= entries.take(at + 1));
        lemma_first_failure(fs, cwd, entries.drop_last(), recurse, separator, at);
    }
}

/// The paths at which a discovery asks what lies there: for each path
/// entry the entry itself, resolved, and the base directory that it has as
/// a pattern.
pub open spec fn probes(cwd: Seq<char>, entries: Seq<Seq<char>>, separator: char) -> Seq<
    Seq<char>,
>
    decreases entries.len(),
{
    if entries.len() == 0 {
        Seq::empty()
    } else {
        probes(cwd, entries.drop_last(), separator).push(
            resolved_path(cwd, entries.last()),
        ).push(resolved_path(cwd, base_dir_of(entries.last(), separator)))
    }
}

/// The directory whose walk the path entry `raw` reads, if it reads one: the
/// entry itself where it is a directory, its base directory where nothing
/// lies at the entry and the base directory exists.
pub open spec fn walk_root(fs: FsFactsView, cwd: Seq<char>, raw: Seq<char>, separator: char) -> Option<
    Seq<char>,
> {
    let resolved = resolved_path(cwd, raw);
    let base = resolved_path(cwd, base_dir_of(raw, separator));
    match fs.kind_of(resolved) {
        PathKind::Directory => Some(resolved),
        PathKind::Missing => if fs.kind_of(base) != PathKind::Missing {
            Some(base)
        } else {
            None
        },
        _ => None,
    }
}

/// The directories whose walks a discovery reads, in the order of the path
/// entries.
pub open spec fn walk_roots(
    fs: FsFactsView,
    cwd: Seq<char>,
    entries: Seq<Seq<char>>,
    separator: char,
) -> Seq<Seq<char>>
    decreases entries.len(),
{
    if entries.len() == 0 {
        Seq::empty()
    } else {
        let before = walk_roots(fs, cwd, entries.drop_last(), separator);
        match walk_root(fs, cwd, entries.last(), separator) {
            Some(root) => before.push(root),
            None => before,
        }
    }
}

/// The paths of which a discovery with this configuration needs to know
/// what lies there. `separator` is the separator of the platform.
pub fn probes_for(config: &Config, cwd: &str, separator: char) -> (paths: Vec<String>)
    ensures
        texts(paths@) == probes(cwd@, config@.paths, separator),
{
    let ghost entries = texts(config.paths@);
    let mut paths: Vec<String> = Vec::new();
    assert(texts(paths@) =~= Seq::<Seq<char>>::empty());
    let mut i: usize = 0;
    while i < config.paths.len()
        invariant
            i <= config.paths.len(),
            entries == texts(config.paths@),
            texts(paths@) == probes(cwd@, entries.take(i as int), separator),
        decreases config.paths.len() - i,
    {
        let raw = config.paths[i].as_str();
        proof {
            assert(entries.take(i + 1).drop_last() =~= entries.take(i as int));
            assert(entries.take(i + 1).last() == raw@);
        }
        let ghost before = paths@;
        let resolved = resolve_from_cwd(cwd, raw);
        let base = resolve_from_cwd(cwd, pattern_base_dir(raw, separator).as_str());
        paths.push(resolved);
        paths.push(base);
        assert(texts(paths@) =~= texts(before).push(resolved@).push(base@));
        i += 1;
    }
    assert(entries.take(config.paths.len() as int) =~= entries);
    paths
}

/// The directories of which a discovery with this configuration needs the
/// walk, given in `fs` what lies at the paths of `probes_for`.
pub fn walks_for(config: &Config, cwd: &str, separator: char, fs: &FsFacts) -> (roots: Vec<
    String,
>)
    ensures
        texts(roots@) == walk_roots(fs@, cwd@, config@.paths, separator),
{
    let ghost entries = texts(config.paths@);
    let mut roots: Vec<String> = Vec::new();
    assert(texts(roots@) =~= Seq::<Seq<char>>::empty());
    let mut i: usize = 0;
    while i < config.paths.len()
        invariant
            i <= config.paths.len(),
            entries == texts(config.paths@),
            texts(roots@) == walk_roots(fs@, cwd@, entries.take(i as int), separator),
        decreases config.paths.len() - i,
    {
        let raw = config.paths[i].as_str();
        proof {
            assert(entries.take(i + 1).drop_last() =~= entries.take(i as int));
            assert(entries.take(i + 1).last() == raw@);
        }
        let ghost before = roots@;
        let resolved = resolve_from_cwd(cwd, raw);
        match fs.kind(resolved.as_str()) {
            PathKind::Directory => {
                roots.push(resolved);
                assert(texts(roots@) =~= texts(before).push(resolved@));
            },
            PathKind::Missing => {
                let base = resolve_from_cwd(cwd, pattern_base_dir(raw, separator).as_str());
                match fs.kind(base.as_str()) {
                    PathKind::Missing => {},
                    _ => {
                        roots.push(base);
                        assert(texts(roots@) =~= texts(before).push(base@));
                    },
                }
            },
            _ => {},
        }
        i += 1;
    }
    assert(entries.take(config.paths.len() as int) =~= entries);
    roots
}

/// Texts in strict order hold no text twice.
pub proof fn lemma_sorted_no_duplicates(s: Seq<Seq<char>>)
    requires
        strictly_sorted(s),
    ensures
        s.no_duplicates(),
{
    assert forall|i: int, j: int| 0 <= i < s.len() && 0 <= j < s.len() && i != j implies s[i]
        != s[j] by {
        lemma_lex_irreflexive(s[i]);
        if i < j {
            assert(lex_less(s[i], s[j]));
        } else {
            assert(lex_less(s[j], s[i]));
        }
    }
}

/// Discovery is determined by what is selected: two outcomes that list the
/// same selection are the same list, and the list holds no file twice,
/// however often the file was selected.
pub proof fn lemma_discovery_determined(
    first: Vec<String>,
    second: Vec<String>,
    expected: Result<Seq<Seq<char>>, AppErrorView>,
)
    requires
        discovered(Ok(first), expected),
        discovered(Ok(second), expected),
    ensures
        texts(first@) == texts(second@),
        texts(first@).no_duplicates(),
{
    lemma_sorted_unique(texts(first@), texts(second@));
    lemma_sorted_no_duplicates(texts(first@));
}

} // verus!
