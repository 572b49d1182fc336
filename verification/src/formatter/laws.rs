//! What holds of every scan: the output is the input up to the case of ASCII
//! letters, it differs from the input exactly where a fix was counted, and
//! scanning it again changes nothing.

use crate::chars::{
    fold, fold_char, is_letter, lemma_fold_char_keeps_class, same_ignoring_case,
};
use crate::formatter::model::{
    in_class, lemma_run_len_bounded, lemma_step_advances, parameter_step, run_len, scan,
    scan_from, step, CharClass, ScanState,
};
use crate::formatter::tables::{
    command_spelling, command_table, lemma_first_match_folds, parameter_spelling, parameter_table,
};
use vstd::prelude::*;

verus! {

/// Folding goes through concatenation.
proof fn lemma_fold_concat(a: Seq<char>, b: Seq<char>)
    ensures
        fold(a + b) == fold(a) + fold(b),
{
    assert(fold(a + b) =~= fold(a) + fold(b));
}

/// Texts that fold to the same text have the same length and, at each
/// position, characters that fold to the same character.
proof fn lemma_same_pointwise(x: Seq<char>, y: Seq<char>)
    requires
        same_ignoring_case(x, y),
    ensures
        x.len() == y.len(),
        forall|j: int| 0 <= j < x.len() ==> fold_char(#[trigger] x[j]) == fold_char(y[j]),
{
    assert(fold(x).len() == x.len());
    assert(fold(y).len() == y.len());
    assert forall|j: int| 0 <= j < x.len() implies fold_char(#[trigger] x[j]) == fold_char(
        y[j],
    ) by {
        assert(fold(x)[j] == fold_char(x[j]));
        assert(fold(y)[j] == fold_char(y[j]));
    }
}

/// Two characters that fold to the same character are in the same classes,
/// and are the same character unless they are letters.
proof fn lemma_same_char(a: char, b: char)
    requires
        fold_char(a) == fold_char(b),
    ensures
        is_letter(a) == is_letter(b),
        !is_letter(a) ==> a == b,
        forall|class: CharClass| in_class(class, a) == in_class(class, b),
{
    lemma_fold_char_keeps_class(a);
    lemma_fold_char_keeps_class(b);
}

/// Pieces cut at the same places out of texts that fold to the same text fold
/// to the same text.
proof fn lemma_same_subrange(x: Seq<char>, y: Seq<char>, from: int, to: int)
    requires
        same_ignoring_case(x, y),
        0 <= from <= to <= x.len(),
    ensures
        same_ignoring_case(x.subrange(from, to), y.subrange(from, to)),
{
    lemma_same_pointwise(x, y);
    assert(fold(x.subrange(from, to)) =~= fold(y.subrange(from, to)));
}

/// Runs are as long in one text as in another that folds to the same text.
proof fn lemma_same_run_len(x: Seq<char>, y: Seq<char>, from: int, class: CharClass)
    requires
        same_ignoring_case(x, y),
    ensures
        run_len(x, from, class) == run_len(y, from, class),
    decreases x.len() - from,
{
    lemma_same_pointwise(x, y);
    if 0 <= from < x.len() {
        lemma_same_char(x[from], y[from]);
        if in_class(class, x[from]) {
            lemma_same_run_len(x, y, from + 1, class);
        }
    }
}

/// The step at `i` rewrites a parameter name.
spec fn at_parameter(s: Seq<char>, i: int, state: ScanState) -> bool {
    state == ScanState::Code && s[i] == '-' && parameter_step(s, i) is Some
}

/// The step at `i` reads a command token.
spec fn at_command(s: Seq<char>, i: int, state: ScanState) -> bool {
    state == ScanState::Code && is_letter(s[i])
}

/// A step that is at neither a parameter nor a command copies what it reads.
proof fn lemma_step_copies(s: Seq<char>, i: int, state: ScanState)
    requires
        0 <= i < s.len(),
        !at_parameter(s, i, state),
        !at_command(s, i, state),
    ensures
        step(s, i, state).emit == s.subrange(i, step(s, i, state).next),
        !step(s, i, state).command_fix,
        !step(s, i, state).parameter_fix,
{
}

/// One step writes as many characters as it reads, the same ones up to case,
/// and counts a fix exactly when what it writes differs from what it read.
proof fn lemma_step_shape(s: Seq<char>, i: int, state: ScanState)
    requires
        0 <= i < s.len(),
    ensures
        ({
            let t = step(s, i, state);
            &&& i < t.next <= s.len()
            &&& t.emit.len() == t.next - i
            &&& same_ignoring_case(t.emit, s.subrange(i, t.next))
            &&& (t.command_fix || t.parameter_fix) <==> t.emit != s.subrange(i, t.next)
            &&& !(t.command_fix && t.parameter_fix)
        }),
{
    lemma_step_advances(s, i, state);
    let t = step(s, i, state);
    if at_parameter(s, i, state) {
        lemma_run_len_bounded(s, i + 1, CharClass::Word);
        let word = s.subrange(i + 1, t.next);
        let name = parameter_spelling(fold(word))->0;
        lemma_first_match_folds(parameter_table(), fold(word), 0);
        assert(fold(name).len() == name.len());
        assert(fold(word).len() == word.len());
        assert(s.subrange(i, t.next) =~= seq!['-'] + word);
        lemma_fold_concat(seq!['-'], name);
        lemma_fold_concat(seq!['-'], word);
        assert(t.emit == seq!['-'] + name);
        if t.emit == s.subrange(i, t.next) {
            assert(name =~= t.emit.subrange(1, t.emit.len() as int));
            assert(word =~= s.subrange(i, t.next).subrange(1, t.next - i));
        }
    } else if at_command(s, i, state) {
        lemma_run_len_bounded(s, i, CharClass::Token);
        let token = s.subrange(i, t.next);
        lemma_first_match_folds(command_table(), fold(token), 0);
        match command_spelling(fold(token)) {
            Some(name) => {
                assert(fold(name).len() == name.len());
                assert(fold(token).len() == token.len());
            },
            None => {},
        }
    } else {
        lemma_step_copies(s, i, state);
    }
}

/// The scan from `i` on writes as many characters as are left, the same ones
/// up to case, and counts no fix exactly when it writes what it read.
proof fn lemma_scan_from_shape(s: Seq<char>, i: int, state: ScanState)
    requires
        0 <= i <= s.len(),
    ensures
        ({
            let r = scan_from(s, i, state);
            &&& r.text.len() == s.len() - i
            &&& same_ignoring_case(r.text, s.subrange(i, s.len() as int))
            &&& (r.command_fixes == 0 && r.parameter_fixes == 0) <==> r.text == s.subrange(
                i,
                s.len() as int,
            )
        }),
    decreases s.len() - i,
{
    let r = scan_from(s, i, state);
    let len = s.len() as int;
    if i < s.len() {
        let t = step(s, i, state);
        lemma_step_shape(s, i, state);
        lemma_scan_from_shape(s, t.next, t.state);
        let rest = scan_from(s, t.next, t.state);
        assert(r.text == t.emit + rest.text);
        assert(s.subrange(i, len) =~= s.subrange(i, t.next) + s.subrange(t.next, len));
        lemma_fold_concat(t.emit, rest.text);
        lemma_fold_concat(s.subrange(i, t.next), s.subrange(t.next, len));
        if r.text == s.subrange(i, len) {
            assert(t.emit =~= r.text.subrange(0, t.next - i));
            assert(s.subrange(i, t.next) =~= s.subrange(i, len).subrange(0, t.next - i));
            assert(rest.text =~= r.text.subrange(t.next - i, len - i));
            assert(s.subrange(t.next, len) =~= s.subrange(i, len).subrange(t.next - i, len - i));
        }
    } else {
        assert(r.text =~= s.subrange(i, len));
    }
}

/// In texts that fold to the same text, the steps at one position read the
/// same characters, end in the same state and flag the same risk; and either
/// both copy, or both write the same canonical spelling.
proof fn lemma_step_same(x: Seq<char>, y: Seq<char>, i: int, state: ScanState)
    requires
        same_ignoring_case(x, y),
        0 <= i < x.len(),
    ensures
        ({
            let tx = step(x, i, state);
            let ty = step(y, i, state);
            &&& tx.next == ty.next
            &&& tx.state == ty.state
            &&& tx.risky == ty.risky
            &&& tx.emit == ty.emit || (tx.emit == x.subrange(i, tx.next) && ty.emit == y.subrange(
                i,
                ty.next,
            ))
        }),
{
    lemma_same_pointwise(x, y);
    let tx = step(x, i, state);
    let ty = step(y, i, state);
    lemma_same_char(x[i], y[i]);
    if i + 1 < x.len() {
        lemma_same_char(x[i + 1], y[i + 1]);
    }
    if i > 0 {
        lemma_same_char(x[i - 1], y[i - 1]);
    }
    lemma_same_run_len(x, y, i + 1, CharClass::Word);
    lemma_same_run_len(x, y, i + 1, CharClass::Space);
    lemma_same_run_len(x, y, i, CharClass::Token);
    lemma_run_len_bounded(x, i + 1, CharClass::Word);
    lemma_run_len_bounded(x, i + 1, CharClass::Space);
    lemma_run_len_bounded(x, i, CharClass::Token);
    let after_space = i + 1 + run_len(x, i + 1, CharClass::Space);
    if after_space < x.len() {
        lemma_same_char(x[after_space], y[after_space]);
    }
    lemma_same_subrange(x, y, i + 1, i + 1 + run_len(x, i + 1, CharClass::Word));
    lemma_same_subrange(x, y, i, i + run_len(x, i, CharClass::Token));
    if at_parameter(x, i, state) {
        assert(at_parameter(y, i, state));
    } else if at_command(x, i, state) {
        assert(at_command(y, i, state));
    } else {
        assert(!at_parameter(y, i, state));
        assert(!at_command(y, i, state));
        lemma_step_copies(x, i, state);
        lemma_step_copies(y, i, state);
    }
}

/// Where `y` is what the scan of `x` wrote, the scan of `y` writes `y` again
/// and counts no fix.
proof fn lemma_rescan(x: Seq<char>, y: Seq<char>, i: int, state: ScanState)
    requires
        same_ignoring_case(x, y),
        0 <= i <= x.len(),
        scan_from(x, i, state).text == y.subrange(i, y.len() as int),
    ensures
        scan_from(y, i, state).text == y.subrange(i, y.len() as int),
        scan_from(y, i, state).command_fixes == 0,
        scan_from(y, i, state).parameter_fixes == 0,
        scan_from(y, i, state).unsafe_detected == scan_from(x, i, state).unsafe_detected,
    decreases x.len() - i,
{
    lemma_same_pointwise(x, y);
    let len = y.len() as int;
    if i < x.len() {
        let tx = step(x, i, state);
        let ty = step(y, i, state);
        lemma_step_same(x, y, i, state);
        lemma_step_shape(x, i, state);
        lemma_step_shape(y, i, state);
        let rest = scan_from(x, tx.next, tx.state);
        lemma_scan_from_shape(x, tx.next, tx.state);
        assert(scan_from(x, i, state).text == tx.emit + rest.text);
        assert(tx.emit =~= y.subrange(i, len).subrange(0, tx.next - i));
        assert(y.subrange(i, tx.next) =~= y.subrange(i, len).subrange(0, tx.next - i));
        assert(rest.text =~= y.subrange(i, len).subrange(tx.next - i, len - i));
        assert(y.subrange(tx.next, len) =~= y.subrange(i, len).subrange(tx.next - i, len - i));
        assert(ty.emit == y.subrange(i, ty.next));
        lemma_rescan(x, y, tx.next, tx.state);
        assert(y.subrange(i, len) =~= y.subrange(i, ty.next) + y.subrange(ty.next, len));
    } else {
        assert(scan_from(y, i, state).text =~= y.subrange(i, len));
    }
}

/// Inside a string, a comment or a here-string nothing is rewritten: a step
/// there writes what it reads, counts no fix and meets no unsafe syntax.
pub proof fn lemma_literals_are_copied(s: Seq<char>, i: int, state: ScanState)
    requires
        0 <= i < s.len(),
        state != ScanState::Code,
    ensures
        step(s, i, state).emit == s.subrange(i, step(s, i, state).next),
        !step(s, i, state).command_fix,
        !step(s, i, state).parameter_fix,
        !step(s, i, state).risky,
{
}

/// The output has the length of the input and differs from it at most in the
/// case of ASCII letters.
pub proof fn lemma_scan_keeps_text(input: Seq<char>)
    ensures
        scan(input).text.len() == input.len(),
        same_ignoring_case(scan(input).text, input),
{
    lemma_scan_from_shape(input, 0, ScanState::Code);
    assert(input.subrange(0, input.len() as int) =~= input);
}

/// The output is the input itself exactly when no fix was counted.
pub proof fn lemma_scan_unchanged_iff_no_fixes(input: Seq<char>)
    ensures
        scan(input).text == input <==> (scan(input).command_fixes == 0 && scan(
            input,
        ).parameter_fixes == 0),
{
    lemma_scan_from_shape(input, 0, ScanState::Code);
    assert(input.subrange(0, input.len() as int) =~= input);
}

/// Formatting is idempotent: the scan of a formatted text writes that text
/// again, counts no fix, and detects unsafe syntax exactly where the first
/// scan did.
pub proof fn lemma_scan_idempotent(input: Seq<char>)
    ensures
        scan(scan(input).text).text == scan(input).text,
        scan(scan(input).text).command_fixes == 0,
        scan(scan(input).text).parameter_fixes == 0,
        scan(scan(input).text).unsafe_detected == scan(input).unsafe_detected,
{
    let output = scan(input).text;
    lemma_scan_keeps_text(input);
    assert(output.subrange(0, output.len() as int) =~= output);
    lemma_rescan(input, output, 0, ScanState::Code);
}

} // verus!
