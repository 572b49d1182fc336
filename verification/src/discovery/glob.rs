//! Glob patterns: compiled and matched by globset, behind contracts that
//! name what it answers.

use globset::{GlobBuilder, GlobSet, GlobSetBuilder};
use vstd::prelude::*;

verus! {

/// A set of compiled glob patterns of globset.
#[verifier::external_type_specification]
#[verifier::external_body]
pub struct ExGlobSet(GlobSet);

/// Whether globset accepts `pattern` as a glob, with its separators not
/// taken literally, and can compile it.
pub uninterp spec fn glob_is_valid(pattern: Seq<char>) -> bool;

/// The error with which globset rejects `pattern`, where it rejects it.
pub uninterp spec fn glob_rejection(pattern: Seq<char>) -> globset::Error;

/// The patterns of the globs that `set` holds.
pub uninterp spec fn globs_of(set: GlobSet) -> Seq<Seq<char>>;

/// Whether the glob `pattern`, with its separators not taken literally,
/// matches the path `candidate`.
pub uninterp spec fn glob_accepts(pattern: Seq<char>, candidate: Seq<char>) -> bool;

/// `GlobBuilder::new(pattern).literal_separator(false).build()`, and
/// `GlobSetBuilder::build` on the set of that one glob. The pattern is
/// parsed, and rejected with an error where it is no valid glob; building
/// the set compiles it, and reports as an error a regular expression that
/// does not fit the size limit of globset. Which error comes depends on the
/// pattern alone. A set is built, and no single matcher, because
/// `Glob::compile_matcher` panics on that failure.
#[verifier::external_body]
pub(crate) fn compile_glob(pattern: &str) -> (compiled: Result<GlobSet, globset::Error>)
    ensures
        match compiled {
            Ok(set) => glob_is_valid(pattern@) && globs_of(set) == seq![pattern@],
            Err(error) => !glob_is_valid(pattern@) && error == glob_rejection(pattern@),
        },
{
    match GlobBuilder::new(pattern).literal_separator(false).build() {
        Ok(glob) => GlobSetBuilder::new().add(glob).build(),
        Err(error) => Err(error),
    }
}

/// `GlobSet::is_match` on the path that `candidate` spells: whether any glob
/// of the set matches it.
#[verifier::external_body]
pub(crate) fn glob_matches(set: &GlobSet, candidate: &str) -> (matched: bool)
    ensures
        matched == (exists|i: int|
            0 <= i < globs_of(*set).len() && glob_accepts(#[trigger] globs_of(*set)[i], candidate@)),
{
    set.is_match(candidate)
}

/// Whether the set of the one glob `pattern` matches the path `candidate`.
pub(crate) fn sole_glob_matches(set: &GlobSet, candidate: &str, Ghost(pattern): Ghost<Seq<char>>) -> (matched:
    bool)
    requires
        globs_of(*set) == seq![pattern],
    ensures
        matched == glob_accepts(pattern, candidate@),
{
    let matched = glob_matches(set, candidate);
    assert(globs_of(*set)[0] == pattern);
    matched
}

} // verus!
